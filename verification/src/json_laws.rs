//! What holds of JSON values.
use vstd::prelude::*;

use crate::json;
use crate::json::{Json, JsonView};

verus! {

/// An object has the members that it has, and no other value has any.
pub proof fn law_only_objects_have_members(
    members: Map<Seq<char>, JsonView>,
    name: Seq<char>,
    other: JsonView,
)
    ensures
        members.contains_key(name) ==> JsonView::Object(members).member(name) == Some(members[name])
            && JsonView::Object(members).member_or_null(name) == members[name],
        !members.contains_key(name) ==> JsonView::Object(members).member(name) is None
            && JsonView::Object(members).member_or_null(name) == JsonView::Null
            && JsonView::Object(members).member_text(name) is None,
        members.contains_key(name) ==> (members[name] matches JsonView::Text(s)
            ==> JsonView::Object(members).member_text(name) == Some(s)),
        members.contains_key(name) && !(members[name] is Text) ==> JsonView::Object(
            members,
        ).member_text(name) is None,
        !(other is Object) ==> other.member(name) is None && other.member_text(name) is None
            && other.member_or_null(name) == JsonView::Null,
{
}

/// A value is a text, an integer or a list exactly where it was written as one.
pub proof fn law_values_are_what_they_were_written_as(
    value: JsonView,
    s: Seq<char>,
    n: Option<i64>,
    items: Seq<JsonView>,
)
    ensures
        JsonView::Text(s).text() == Some(s),
        !(value is Text) ==> value.text() is None,
        (JsonView::Number { integer: n, text: s }).integer() == n,
        !(value is Number) ==> value.integer() is None,
        JsonView::Array(items).items() == Some(items),
        !(value is Array) ==> value.items() is None,
{
}

/// A value holds what its fields hold; of the members of an object the first one of a name counts.
pub proof fn law_values_hold_their_fields(value: Json, name: Seq<char>, i: int)
    ensures
        value is Null ==> value.view() == JsonView::Null,
        value matches Json::Bool(b) ==> value.view() == JsonView::Bool(b),
        value matches Json::Number(n) ==> value.view() == (JsonView::Number {
            integer: n.integer,
            text: n.text@,
        }),
        value matches Json::Text(s) ==> value.view() == JsonView::Text(s@),
        value matches Json::Array(items) ==> value.view() is Array && value.view()->Array_0.len()
            == items@.len() && (0 <= i < items@.len() ==> value.view()->Array_0[i]
            == items@[i].view()),
        value matches Json::Object(members) ==> {
            &&& value.view() is Object
            &&& 0 <= i < members@.len() && members@[i].0@ == name && (forall|j: int|
                0 <= j < i ==> (#[trigger] members@[j]).0@ != name)
                ==> value.view()->Object_0.contains_key(name) && value.view()->Object_0[name]
                == members@[i].1.view()
            &&& (forall|j: int| 0 <= j < members@.len() ==> (#[trigger] members@[j]).0@ != name)
                ==> !value.view()->Object_0.contains_key(name)
        },
{
    if let Json::Object(members) = value {
        if json::first_member(members@, name, i) {
            json::lemma_first_member(members@, name, i);
        }
        if forall|j: int| 0 <= j < members@.len() ==> (#[trigger] members@[j]).0@ != name {
            json::lemma_no_member(members@, name);
        }
    }
}

/// A value that may be missing is missing or what it is, and a list of values is shown value by
/// value.
pub proof fn law_optional_values_and_lists(value: Json, borrowed: &Json, items: Seq<Json>)
    ensures
        json::opt_json(Some(value)) == Some(value.view()),
        json::opt_json(None::<Json>) is None,
        json::opt_json_ref(Some(borrowed)) == Some(borrowed.view()),
        json::opt_json_ref(None::<&Json>) is None,
        json::items_view(items).len() == items.len(),
        forall|i: int|
            0 <= i < items.len() ==> #[trigger] json::items_view(items)[i] == items[i].view(),
{
}

} // verus!
