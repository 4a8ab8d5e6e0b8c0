//! The agent's tools under the names and with the inputs that a transcript shows.
use vstd::prelude::*;

use crate::json::{Json, JsonView};
use crate::{json, text};

verus! {

/// The name under which a tool is shown, and which members of its input are shown under another
/// name: pairs of the agent's name and the shown one.
pub open spec fn tool_table(name: Seq<char>) -> (Seq<char>, Seq<(Seq<char>, Seq<char>)>) {
    if name == "run_command"@ {
        ("Bash"@, seq![("CommandLine"@, "command"@)])
    } else if name == "view_file"@ {
        ("Read"@, seq![("AbsolutePath"@, "file_path"@)])
    } else if name == "write_to_file"@ {
        ("Write"@, seq![("TargetFile"@, "file_path"@), ("CodeContent"@, "content"@)])
    } else if name == "replace_file_content"@ || name == "multi_replace_file_content"@ {
        ("Edit"@, seq![("TargetFile"@, "file_path"@)])
    } else if name == "list_dir"@ {
        ("Glob"@, seq![("DirectoryPath"@, "path"@)])
    } else if name == "grep_search"@ || name == "code_search"@ {
        ("Grep"@, seq![("Query"@, "pattern"@), ("SearchPath"@, "path"@)])
    } else if name == "find_by_name"@ {
        ("Glob"@, seq![("Pattern"@, "pattern"@), ("SearchDirectory"@, "path"@)])
    } else if name == "read_url_content"@ {
        ("WebFetch"@, seq![("Url"@, "url"@)])
    } else if name == "search_web"@ {
        ("WebSearch"@, seq![])
    } else {
        (name, seq![])
    }
}

/// The members with one more: what stands under the agent's name also stands under the shown one.
pub open spec fn with_alias(
    members: Map<Seq<char>, JsonView>,
    alias: (Seq<char>, Seq<char>),
) -> Map<Seq<char>, JsonView> {
    if members.contains_key(alias.0) {
        members.insert(alias.1, members[alias.0])
    } else {
        members
    }
}

/// The members after a list of aliases, taken in order.
pub open spec fn with_aliases(
    members: Map<Seq<char>, JsonView>,
    aliases: Seq<(Seq<char>, Seq<char>)>,
) -> Map<Seq<char>, JsonView>
    decreases aliases.len(),
{
    if aliases.len() == 0 {
        members
    } else {
        with_alias(with_aliases(members, aliases.drop_last()), aliases.last())
    }
}

/// The input that is shown: an object gets its aliases, any other value stays as it is.
pub open spec fn shown_input(
    params: Option<JsonView>,
    aliases: Seq<(Seq<char>, Seq<char>)>,
) -> Option<JsonView> {
    match params {
        Some(JsonView::Object(members)) => Some(JsonView::Object(with_aliases(members, aliases))),
        _ => params,
    }
}

/// The views of a list of aliases.
pub open spec fn aliases_view(aliases: Seq<(&str, &str)>) -> Seq<(Seq<char>, Seq<char>)> {
    aliases.map_values(|a: (&str, &str)| (a.0@, a.1@))
}

/// The name under which a tool is shown, and the aliases in its input.
fn shown_tool<'a>(name: &'a str) -> (r: (&'a str, Vec<(&'static str, &'static str)>))
    ensures
        r.0@ == tool_table(name@).0,
        aliases_view(r.1@) == tool_table(name@).1,
{
    let r: (&'a str, Vec<(&'static str, &'static str)>) = if text::same_text(name, "run_command") {
        ("Bash", vec![("CommandLine", "command")])
    } else if text::same_text(name, "view_file") {
        ("Read", vec![("AbsolutePath", "file_path")])
    } else if text::same_text(name, "write_to_file") {
        ("Write", vec![("TargetFile", "file_path"), ("CodeContent", "content")])
    } else if text::same_text(name, "replace_file_content") || text::same_text(
        name,
        "multi_replace_file_content",
    ) {
        ("Edit", vec![("TargetFile", "file_path")])
    } else if text::same_text(name, "list_dir") {
        ("Glob", vec![("DirectoryPath", "path")])
    } else if text::same_text(name, "grep_search") || text::same_text(name, "code_search") {
        ("Grep", vec![("Query", "pattern"), ("SearchPath", "path")])
    } else if text::same_text(name, "find_by_name") {
        ("Glob", vec![("Pattern", "pattern"), ("SearchDirectory", "path")])
    } else if text::same_text(name, "read_url_content") {
        ("WebFetch", vec![("Url", "url")])
    } else if text::same_text(name, "search_web") {
        ("WebSearch", vec![])
    } else {
        (name, vec![])
    };
    assert(aliases_view(r.1@) =~= tool_table(name@).1);
    r
}

/// The name and the input with which a tool call is shown.
pub fn normalize_tool<'a>(name: &'a str, params: Option<&Json>) -> (r: (&'a str, Option<Json>))
    ensures
        r.0@ == tool_table(name@).0,
        json::opt_json(r.1) == shown_input(json::opt_json_ref(params), tool_table(name@).1),
{
    let (tool, aliases) = shown_tool(name);
    let mut input: Option<Json> = match params {
        Some(p) => Some(p.clone()),
        None => None,
    };
    let ghost views = aliases_view(aliases@);
    if let Some(Json::Object(members)) = &mut input {
        let ghost before = json::members_view(members@);
        let mut i: usize = 0;
        while i < aliases.len()
            invariant
                i <= aliases.len(),
                views == aliases_view(aliases@),
                json::members_view(members@) == with_aliases(before, views.take(i as int)),
            decreases aliases.len() - i,
        {
            let (native, normalized) = aliases[i];
            proof {
                assert(views.take(i + 1).drop_last() == views.take(i as int));
                assert(views.take(i + 1).last() == (native@, normalized@));
            }
            let value: Option<Json> = match json::find_member(members, native) {
                Some(v) => Some(v.clone()),
                None => None,
            };
            if let Some(v) = value {
                json::insert_member(members, normalized, v);
            }
            i += 1;
        }
        assert(views.take(aliases.len() as int) == views);
    }
    (tool, input)
}

} // verus!
