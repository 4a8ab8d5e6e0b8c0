//! What holds of the names and inputs with which tool calls are shown.
use vstd::prelude::*;

use crate::json::JsonView;
use crate::tools;

verus! {

proof fn lemma_tool_names()
    ensures
        "run_command"@.len() == 11,
        "view_file"@.len() == 9,
        "write_to_file"@.len() == 13,
        "replace_file_content"@.len() == 20,
        "multi_replace_file_content"@.len() == 26,
        "list_dir"@.len() == 8,
        "grep_search"@.len() == 11,
        "code_search"@.len() == 11,
        "find_by_name"@.len() == 12,
        "read_url_content"@.len() == 16,
        "search_web"@.len() == 10,
        "run_command"@[0] == 'r',
        "grep_search"@[0] == 'g',
        "code_search"@[0] == 'c',
{
    reveal_strlit("run_command");
    reveal_strlit("view_file");
    reveal_strlit("write_to_file");
    reveal_strlit("replace_file_content");
    reveal_strlit("multi_replace_file_content");
    reveal_strlit("list_dir");
    reveal_strlit("grep_search");
    reveal_strlit("code_search");
    reveal_strlit("find_by_name");
    reveal_strlit("read_url_content");
    reveal_strlit("search_web");
}

/// The agent's own tools are shown under the names that transcripts use; any other tool keeps its
/// name.
pub proof fn law_tools_go_by_known_names(name: Seq<char>)
    ensures
        tools::tool_table("run_command"@).0 == "Bash"@,
        tools::tool_table("view_file"@).0 == "Read"@,
        tools::tool_table("write_to_file"@).0 == "Write"@,
        tools::tool_table("replace_file_content"@).0 == "Edit"@,
        tools::tool_table("multi_replace_file_content"@).0 == "Edit"@,
        tools::tool_table("list_dir"@).0 == "Glob"@,
        tools::tool_table("grep_search"@).0 == "Grep"@,
        tools::tool_table("code_search"@).0 == "Grep"@,
        tools::tool_table("find_by_name"@).0 == "Glob"@,
        tools::tool_table("read_url_content"@).0 == "WebFetch"@,
        tools::tool_table("search_web"@).0 == "WebSearch"@,
        own_tool(name) || tools::tool_table(name).0 == name,
{
    lemma_tool_names();
}

/// Whether a tool is one of the agent's own.
pub open spec fn own_tool(name: Seq<char>) -> bool {
    ||| name == "run_command"@
    ||| name == "view_file"@
    ||| name == "write_to_file"@
    ||| name == "replace_file_content"@
    ||| name == "multi_replace_file_content"@
    ||| name == "list_dir"@
    ||| name == "grep_search"@
    ||| name == "code_search"@
    ||| name == "find_by_name"@
    ||| name == "read_url_content"@
    ||| name == "search_web"@
}

/// The members with what stands under one name also under another.
pub open spec fn also_as(
    members: Map<Seq<char>, JsonView>,
    from: Seq<char>,
    to: Seq<char>,
) -> Map<Seq<char>, JsonView> {
    if members.contains_key(from) {
        members.insert(to, members[from])
    } else {
        members
    }
}

/// The input with which a call of that tool and those parameters is shown.
pub open spec fn shown(name: Seq<char>, params: Option<JsonView>) -> Option<JsonView> {
    tools::shown_input(params, tools::tool_table(name).1)
}

/// What the agent says under its own names is also shown under the names that transcripts use:
/// the command that is run, the file that is read or written and what is written, the directory,
/// the pattern that is looked for, the address that is fetched. Nothing is taken away.
pub proof fn law_inputs_go_by_known_names(m: Map<Seq<char>, JsonView>)
    ensures
        shown("run_command"@, Some(JsonView::Object(m))) == Some(
            JsonView::Object(also_as(m, "CommandLine"@, "command"@)),
        ),
        shown("view_file"@, Some(JsonView::Object(m))) == Some(
            JsonView::Object(also_as(m, "AbsolutePath"@, "file_path"@)),
        ),
        shown("write_to_file"@, Some(JsonView::Object(m))) == Some(
            JsonView::Object(
                also_as(
                    also_as(m, "TargetFile"@, "file_path"@),
                    "CodeContent"@,
                    "content"@,
                ),
            ),
        ),
        shown("replace_file_content"@, Some(JsonView::Object(m))) == Some(
            JsonView::Object(also_as(m, "TargetFile"@, "file_path"@)),
        ),
        shown("multi_replace_file_content"@, Some(JsonView::Object(m))) == Some(
            JsonView::Object(also_as(m, "TargetFile"@, "file_path"@)),
        ),
        shown("list_dir"@, Some(JsonView::Object(m))) == Some(
            JsonView::Object(also_as(m, "DirectoryPath"@, "path"@)),
        ),
        shown("grep_search"@, Some(JsonView::Object(m))) == Some(
            JsonView::Object(also_as(also_as(m, "Query"@, "pattern"@), "SearchPath"@, "path"@)),
        ),
        shown("code_search"@, Some(JsonView::Object(m))) == Some(
            JsonView::Object(also_as(also_as(m, "Query"@, "pattern"@), "SearchPath"@, "path"@)),
        ),
        shown("find_by_name"@, Some(JsonView::Object(m))) == Some(
            JsonView::Object(
                also_as(also_as(m, "Pattern"@, "pattern"@), "SearchDirectory"@, "path"@),
            ),
        ),
        shown("read_url_content"@, Some(JsonView::Object(m))) == Some(
            JsonView::Object(also_as(m, "Url"@, "url"@)),
        ),
        shown("search_web"@, Some(JsonView::Object(m))) == Some(JsonView::Object(m)),
{
    lemma_tool_names();
    lemma_one_alias(m, ("CommandLine"@, "command"@));
    lemma_one_alias(m, ("AbsolutePath"@, "file_path"@));
    lemma_one_alias(m, ("TargetFile"@, "file_path"@));
    lemma_one_alias(m, ("DirectoryPath"@, "path"@));
    lemma_one_alias(m, ("Url"@, "url"@));
    lemma_two_aliases(m, ("TargetFile"@, "file_path"@), ("CodeContent"@, "content"@));
    lemma_two_aliases(m, ("Query"@, "pattern"@), ("SearchPath"@, "path"@));
    lemma_two_aliases(m, ("Pattern"@, "pattern"@), ("SearchDirectory"@, "path"@));
}

proof fn lemma_one_alias(m: Map<Seq<char>, JsonView>, a: (Seq<char>, Seq<char>))
    ensures
        tools::with_aliases(m, seq![a]) == also_as(m, a.0, a.1),
{
    let list = seq![a];
    assert(list.last() == a);
    assert(list.drop_last() =~= Seq::empty());
    assert(tools::with_aliases(m, list.drop_last()) == m);
}

proof fn lemma_two_aliases(
    m: Map<Seq<char>, JsonView>,
    a: (Seq<char>, Seq<char>),
    b: (Seq<char>, Seq<char>),
)
    ensures
        tools::with_aliases(m, seq![a, b]) == also_as(also_as(m, a.0, a.1), b.0, b.1),
{
    let list = seq![a, b];
    assert(list.last() == b);
    assert(list.drop_last() =~= seq![a]);
    lemma_one_alias(m, a);
}

/// The input of a tool that is not the agent's own, and an input that is no object, are shown as
/// they were sent; where none was sent, none is shown.
pub proof fn law_other_inputs_are_shown_as_sent(name: Seq<char>, params: Option<JsonView>)
    ensures
        params is None ==> shown(name, params) is None,
        params is Some && !(params->0 is Object) ==> shown(name, params) == params,
        !own_tool(name) ==> shown(name, params) == params,
{
}

} // verus!
