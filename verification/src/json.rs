//! JSON values as the event stream carries them.
//!
//! The text of a line is parsed by `serde_json`; its values are then held in [`Json`], whose
//! members the rest of the library reads.
use vstd::prelude::*;

use crate::text;

verus! {

/// A JSON number: how it is written, and its value where that is an integer of 64 signed bits.
pub struct JsonNumber {
    pub integer: Option<i64>,
    pub text: String,
}

/// A JSON value. An object is the list of its members; where a name occurs more than once, the
/// first member of that name counts.
pub enum Json {
    Null,
    Bool(bool),
    Number(JsonNumber),
    Text(String),
    Array(Vec<Json>),
    Object(Vec<(String, Json)>),
}

/// What a JSON value is: an object is a map from names to values.
#[verifier::ext_equal]
pub enum JsonView {
    Null,
    Bool(bool),
    Number { integer: Option<i64>, text: Seq<char> },
    Text(Seq<char>),
    Array(Seq<JsonView>),
    Object(Map<Seq<char>, JsonView>),
}

impl JsonView {
    /// The member of that name, where the value is an object that has one.
    pub open spec fn member(self, name: Seq<char>) -> Option<JsonView> {
        match self {
            JsonView::Object(members) => if members.contains_key(name) {
                Some(members[name])
            } else {
                None
            },
            _ => None,
        }
    }

    /// The text that the value is, where it is one.
    pub open spec fn text(self) -> Option<Seq<char>> {
        match self {
            JsonView::Text(s) => Some(s),
            _ => None,
        }
    }

    /// The integer that the value is, where it is one of 64 signed bits.
    pub open spec fn integer(self) -> Option<i64> {
        match self {
            JsonView::Number { integer, .. } => integer,
            _ => None,
        }
    }

    /// The items of the value, where it is an array.
    pub open spec fn items(self) -> Option<Seq<JsonView>> {
        match self {
            JsonView::Array(items) => Some(items),
            _ => None,
        }
    }

    /// The member of that name, or null where there is none.
    pub open spec fn member_or_null(self, name: Seq<char>) -> JsonView {
        match self.member(name) {
            Some(v) => v,
            None => JsonView::Null,
        }
    }

    /// The text that the member of that name is, where there is such a member and it is a text.
    pub open spec fn member_text(self, name: Seq<char>) -> Option<Seq<char>> {
        match self.member(name) {
            Some(v) => v.text(),
            None => None,
        }
    }
}

/// The map that a list of members stands for: the first member of a name counts.
pub open spec fn members_view(members: Seq<(String, Json)>) -> Map<Seq<char>, JsonView>
    decreases members,
{
    if members.len() == 0 {
        Map::empty()
    } else {
        members_view(members.drop_first()).insert(members[0].0@, members[0].1.view())
    }
}

/// The view of an optional value.
pub open spec fn opt_json(value: Option<Json>) -> Option<JsonView> {
    match value {
        Some(v) => Some(v.view()),
        None => None,
    }
}

/// The view of an optional borrowed value.
pub open spec fn opt_json_ref(value: Option<&Json>) -> Option<JsonView> {
    match value {
        Some(v) => Some(v.view()),
        None => None,
    }
}

/// The views of a list of values.
pub open spec fn items_view(items: Seq<Json>) -> Seq<JsonView> {
    Seq::new(items.len(), |i: int| items[i].view())
}

impl Json {
    /// What the value is.
    pub open spec fn view(&self) -> JsonView
        decreases self,
    {
        match *self {
            Json::Null => JsonView::Null,
            Json::Bool(b) => JsonView::Bool(b),
            Json::Number(n) => JsonView::Number { integer: n.integer, text: n.text@ },
            Json::Text(s) => JsonView::Text(s@),
            Json::Array(items) => JsonView::Array(
                Seq::new(
                    items@.len(),
                    |i: int| if 0 <= i < items@.len() { items@[i].view() } else { JsonView::Null },
                ),
            ),
            Json::Object(members) => JsonView::Object(members_view(members@)),
        }
    }
}

/// Position `i` holds the first member of that name.
pub open spec fn first_member(members: Seq<(String, Json)>, name: Seq<char>, i: int) -> bool {
    &&& 0 <= i < members.len()
    &&& members[i].0@ == name
    &&& forall|j: int| 0 <= j < i ==> (#[trigger] members[j]).0@ != name
}

/// The first member of a name gives the value of that name.
pub proof fn lemma_first_member(members: Seq<(String, Json)>, name: Seq<char>, i: int)
    requires
        first_member(members, name, i),
    ensures
        members_view(members).contains_key(name),
        members_view(members)[name] == members[i].1.view(),
    decreases members.len(),
{
    if i > 0 {
        let rest = members.drop_first();
        assert(members[0].0@ != name);
        assert forall|j: int| 0 <= j < i - 1 implies (#[trigger] rest[j]).0@ != name by {
            assert(rest[j] == members[j + 1]);
        }
        lemma_first_member(rest, name, i - 1);
    }
}

/// A name that no member has, has no value.
pub proof fn lemma_no_member(members: Seq<(String, Json)>, name: Seq<char>)
    requires
        forall|j: int| 0 <= j < members.len() ==> (#[trigger] members[j]).0@ != name,
    ensures
        !members_view(members).contains_key(name),
    decreases members.len(),
{
    if members.len() > 0 {
        let rest = members.drop_first();
        assert(members[0].0@ != name);
        assert forall|j: int| 0 <= j < rest.len() implies (#[trigger] rest[j]).0@ != name by {
            assert(rest[j] == members[j + 1]);
        }
        lemma_no_member(rest, name);
    }
}

proof fn lemma_replace_member(members: Seq<(String, Json)>, i: int, entry: (String, Json))
    requires
        first_member(members, entry.0@, i),
    ensures
        members_view(members.update(i, entry)) == members_view(members).insert(
            entry.0@,
            entry.1.view(),
        ),
    decreases members.len(),
{
    let updated = members.update(i, entry);
    if i == 0 {
        assert(updated.drop_first() == members.drop_first());
        assert(members_view(updated) =~= members_view(members).insert(entry.0@, entry.1.view()));
    } else {
        let rest = members.drop_first();
        assert(members[0].0@ != entry.0@);
        assert forall|j: int| 0 <= j < i - 1 implies (#[trigger] rest[j]).0@ != entry.0@ by {
            assert(rest[j] == members[j + 1]);
        }
        lemma_replace_member(rest, i - 1, entry);
        assert(updated.drop_first() == rest.update(i - 1, entry));
        assert(members_view(updated) =~= members_view(members).insert(entry.0@, entry.1.view()));
    }
}

proof fn lemma_append_member(members: Seq<(String, Json)>, entry: (String, Json))
    requires
        forall|j: int| 0 <= j < members.len() ==> (#[trigger] members[j]).0@ != entry.0@,
    ensures
        members_view(members.push(entry)) == members_view(members).insert(
            entry.0@,
            entry.1.view(),
        ),
    decreases members.len(),
{
    let grown = members.push(entry);
    if members.len() == 0 {
        assert(grown.drop_first() == members);
        assert(members_view(grown) =~= members_view(members).insert(entry.0@, entry.1.view()));
    } else {
        let rest = members.drop_first();
        assert(members[0].0@ != entry.0@);
        assert forall|j: int| 0 <= j < rest.len() implies (#[trigger] rest[j]).0@ != entry.0@ by {
            assert(rest[j] == members[j + 1]);
        }
        lemma_append_member(rest, entry);
        assert(grown.drop_first() == rest.push(entry));
        assert(members_view(grown) =~= members_view(members).insert(entry.0@, entry.1.view()));
    }
}

/// The value of the first member of that name.
pub fn find_member<'a>(members: &'a Vec<(String, Json)>, name: &str) -> (r: Option<&'a Json>)
    ensures
        opt_json_ref(r) == JsonView::Object(members_view(members@)).member(name@),
{
    let mut i: usize = 0;
    while i < members.len()
        invariant
            i <= members.len(),
            forall|j: int| 0 <= j < i ==> (#[trigger] members@[j]).0@ != name@,
        decreases members.len() - i,
    {
        if text::same_text(members[i].0.as_str(), name) {
            proof {
                lemma_first_member(members@, name@, i as int);
            }
            return Some(&members[i].1);
        }
        i += 1;
    }
    proof {
        lemma_no_member(members@, name@);
    }
    None
}

/// Gives a name its value in a list of members: the first member of that name is replaced, or a
/// new one is added.
pub fn insert_member(members: &mut Vec<(String, Json)>, name: &str, value: Json)
    ensures
        members_view(final(members)@) == members_view(old(members)@).insert(name@, value.view()),
{
    let mut i: usize = 0;
    while i < members.len()
        invariant
            i <= members.len(),
            members@ == old(members)@,
            forall|j: int| 0 <= j < i ==> (#[trigger] members@[j]).0@ != name@,
        decreases members.len() - i,
    {
        if text::same_text(members[i].0.as_str(), name) {
            let entry = (name.to_owned(), value);
            proof {
                lemma_replace_member(members@, i as int, entry);
            }
            members.set(i, entry);
            return ;
        }
        i += 1;
    }
    let entry = (name.to_owned(), value);
    proof {
        lemma_append_member(members@, entry);
    }
    members.push(entry);
}

impl Json {
    /// The member of that name, where the value is an object that has one.
    pub fn get(&self, name: &str) -> (r: Option<&Json>)
        ensures
            opt_json_ref(r) == self.view().member(name@),
    {
        match self {
            Json::Object(members) => find_member(members, name),
            _ => None,
        }
    }

    /// The text that the value is, where it is one.
    pub fn as_str(&self) -> (r: Option<&str>)
        ensures
            text::opt_str(r) == self.view().text(),
    {
        match self {
            Json::Text(s) => Some(s.as_str()),
            _ => None,
        }
    }

    /// The integer that the value is, where it is one of 64 signed bits.
    pub fn as_i64(&self) -> (r: Option<i64>)
        ensures
            r == self.view().integer(),
    {
        match self {
            Json::Number(n) => n.integer,
            _ => None,
        }
    }

    /// The items of the value, where it is an array.
    pub fn as_array(&self) -> (r: Option<&Vec<Json>>)
        ensures
            match r {
                Some(items) => self.view().items() == Some(items_view(items@)),
                None => self.view().items() is None,
            },
    {
        match self {
            Json::Array(items) => {
                assert(self.view()->Array_0 =~= items_view(items@));
                Some(items)
            },
            _ => None,
        }
    }

    /// The text that the member of that name is, where there is such a member and it is a text.
    pub fn get_str(&self, name: &str) -> (r: Option<&str>)
        ensures
            text::opt_str(r) == self.view().member_text(name@),
    {
        match self.get(name) {
            Some(v) => v.as_str(),
            None => None,
        }
    }
}

impl Clone for Json {
    /// A copy of the value.
    fn clone(&self) -> (r: Self)
        ensures
            r.view() == self.view(),
        decreases self,
    {
        match self {
            Json::Null => Json::Null,
            Json::Bool(b) => Json::Bool(*b),
            Json::Number(n) => Json::Number(
                JsonNumber { integer: n.integer, text: n.text.clone() },
            ),
            Json::Text(s) => Json::Text(s.clone()),
            Json::Array(items) => {
                let mut out: Vec<Json> = Vec::new();
                let mut i: usize = 0;
                while i < items.len()
                    invariant
                        i <= items.len(),
                        out.len() == i,
                        decreases_to!(self => items@),
                        forall|j: int| 0 <= j < i ==> (#[trigger] out@[j]).view() == items@[j].view(),
                    decreases items.len() - i,
                {
                    assert(decreases_to!(items@ => items@[i as int]));
                    let item = items[i].clone();
                    out.push(item);
                    i += 1;
                }
                let r = Json::Array(out);
                assert(r.view()->Array_0 =~= self.view()->Array_0);
                r
            },
            Json::Object(members) => {
                let mut out: Vec<(String, Json)> = Vec::new();
                let mut i: usize = 0;
                while i < members.len()
                    invariant
                        i <= members.len(),
                        out.len() == i,
                        decreases_to!(self => members@),
                        forall|j: int|
                            0 <= j < i ==> (#[trigger] out@[j]).0@ == members@[j].0@
                                && out@[j].1.view() == members@[j].1.view(),
                    decreases members.len() - i,
                {
                    assert(decreases_to!(members@ => members@[i as int]));
                    let value = members[i].1.clone();
                    out.push((members[i].0.clone(), value));
                    i += 1;
                }
                proof {
                    lemma_same_members(out@, members@);
                }
                Json::Object(out)
            },
        }
    }
}

proof fn lemma_same_members(a: Seq<(String, Json)>, b: Seq<(String, Json)>)
    requires
        a.len() == b.len(),
        forall|j: int|
            0 <= j < a.len() ==> (#[trigger] a[j]).0@ == b[j].0@ && a[j].1.view()
                == b[j].1.view(),
    ensures
        members_view(a) == members_view(b),
    decreases a.len(),
{
    if a.len() > 0 {
        let x = a.drop_first();
        let y = b.drop_first();
        assert forall|j: int| 0 <= j < x.len() implies (#[trigger] x[j]).0@ == y[j].0@
            && x[j].1.view() == y[j].1.view() by {
            assert(x[j] == a[j + 1] && y[j] == b[j + 1]);
        }
        lemma_same_members(x, y);
        assert(a[0].0@ == b[0].0@);
    }
}

/// Declares `serde_json::Value`; nothing is claimed of it.
#[verifier::external_type_specification]
#[verifier::external_body]
pub struct ExValue(serde_json::Value);

/// Declares `serde_json::Error`; nothing is claimed of it.
#[verifier::external_type_specification]
#[verifier::external_body]
pub struct ExError(serde_json::Error);

/// What a `serde_json::Value` holds.
pub uninterp spec fn value_view(value: serde_json::Value) -> JsonView;

/// What `serde_json::from_str::<serde_json::Value>` reads from a text: nothing where it gives an
/// error.
pub uninterp spec fn parsed(text: Seq<char>) -> Option<JsonView>;

/// Calls `serde_json::from_str` for a `serde_json::Value`. Claimed: whether it succeeds, and what
/// the value then holds, depends on the text alone; both are named by [`parsed`].
#[verifier::external_body]
fn parse_value(text: &str) -> (r: Result<serde_json::Value, serde_json::Error>)
    ensures
        match r {
            Ok(value) => parsed(text@) == Some(value_view(value)),
            Err(_) => parsed(text@) is None,
        },
{
    serde_json::from_str(text)
}

/// Moves what a `serde_json::Value` holds into a [`Json`], variant by variant; of a number it
/// takes `serde_json::Number::as_i64` and its `Display`. Claimed: the result holds what the value
/// holds, by the name [`value_view`]; an object gives one member for each of its names.
#[verifier::external_body]
fn json_of_value(value: serde_json::Value) -> (r: Json)
    ensures
        r.view() == value_view(value),
{
    match value {
        serde_json::Value::Null => Json::Null,
        serde_json::Value::Bool(b) => Json::Bool(b),
        serde_json::Value::Number(n) => Json::Number(
            JsonNumber { integer: n.as_i64(), text: n.to_string() },
        ),
        serde_json::Value::String(s) => Json::Text(s),
        serde_json::Value::Array(items) => Json::Array(
            items.into_iter().map(json_of_value).collect(),
        ),
        serde_json::Value::Object(members) => Json::Object(
            members.into_iter().map(|(name, v)| (name, json_of_value(v))).collect(),
        ),
    }
}

/// The JSON value that a text is, where it is one.
pub fn parse_json(text: &str) -> (r: Option<Json>)
    ensures
        opt_json(r) == parsed(text@),
{
    match parse_value(text) {
        Ok(value) => Some(json_of_value(value)),
        Err(_) => None,
    }
}

} // verus!
