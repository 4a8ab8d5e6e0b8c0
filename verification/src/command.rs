//! The command line of a turn.
use vstd::prelude::*;
use vstd::string::*;

use crate::chat::{CtxView, TurnCtx};
use crate::options::{resolve_reasoning, PermissionMode};
use crate::{options, text};

verus! {

/// Where the session playbook stands in a worktree.
pub const PLAYBOOK_REL: &'static str = ".openresearch/PLAYBOOK.md";

/// The message that a conversation begins with: it points the agent at the playbook.
pub open spec fn opening_prompt(message: Seq<char>) -> Seq<char> {
    "Read and follow `"@ + PLAYBOOK_REL@
        + "` before acting. It is the OpenResearch session playbook for this worktree.\n\n"@ + message
}

/// The flags that go with a permission mode: a turn that only plans takes no account of it.
pub open spec fn permission_flags(mode: Option<PermissionMode>, plan: bool) -> Seq<Seq<char>> {
    if plan {
        seq!["--mode=plan"@]
    } else {
        match mode {
            Some(PermissionMode::AcceptEdits) => seq!["--mode=accept-edits"@],
            Some(PermissionMode::Bypass) => seq![
                "--mode=accept-edits"@,
                "--dangerously-skip-permissions"@,
            ],
            _ => seq![],
        }
    }
}

/// A flag with its value, where there is one.
pub open spec fn optional_flag(flag: Seq<char>, value: Option<Seq<char>>) -> Seq<Seq<char>> {
    match value {
        Some(v) => seq![flag, v],
        None => seq![],
    }
}

/// The model that is asked for by name.
pub open spec fn named_model(model: Option<Seq<char>>) -> Option<Seq<char>> {
    match model {
        Some(m) => if m.len() > 0 {
            Some(m)
        } else {
            None
        },
        None => None,
    }
}

/// The message that goes to the agent: the first of a conversation points at the playbook.
pub open spec fn sent_message(ctx: CtxView) -> Seq<char> {
    if ctx.native_session_id is None {
        opening_prompt(ctx.text)
    } else {
        ctx.text
    }
}

/// The arguments with which the agent is started for a turn.
pub open spec fn turn_arguments(ctx: CtxView) -> Seq<Seq<char>> {
    seq!["--output-format"@, "stream-json"@] + optional_flag("--model"@, named_model(ctx.model))
        + optional_flag(
        "--effort"@,
        options::resolved_reasoning(ctx.reasoning_level, reasoning_levels()),
    ) + permission_flags(ctx.permission_mode, ctx.plan_mode) + seq!["--print-timeout"@, "30m"@]
        + optional_flag("--conversation"@, ctx.native_session_id) + seq![
        "--print="@ + sent_message(ctx),
    ]
}

/// The reasoning levels that the agent knows.
pub open spec fn reasoning_levels() -> Seq<Seq<char>> {
    seq!["low"@, "medium"@, "high"@]
}

/// The reasoning levels that the agent knows.
pub fn agy_reasoning_levels() -> (r: Vec<&'static str>)
    ensures
        text::str_views(r@) == reasoning_levels(),
{
    let r: Vec<&'static str> = vec!["low", "medium", "high"];
    assert(text::str_views(r@) =~= reasoning_levels());
    r
}

/// The message that a conversation begins with.
pub fn first_turn_prompt(text: &str) -> (r: String)
    ensures
        r@ == opening_prompt(text@),
{
    let mut prompt = "Read and follow `".to_owned();
    prompt.append(PLAYBOOK_REL);
    prompt.append(
        "` before acting. It is the OpenResearch session playbook for this worktree.\n\n",
    );
    prompt.append(text);
    prompt
}

/// The flags that go with a permission mode.
pub fn permission_args(mode: Option<PermissionMode>, plan: bool) -> (r: Vec<&'static str>)
    ensures
        text::str_views(r@) == permission_flags(mode, plan),
{
    let mut args: Vec<&'static str> = Vec::new();
    if plan {
        args.push("--mode=plan");
    } else {
        match mode {
            Some(PermissionMode::AcceptEdits) => {
                args.push("--mode=accept-edits");
            },
            Some(PermissionMode::Bypass) => {
                args.push("--mode=accept-edits");
                args.push("--dangerously-skip-permissions");
            },
            _ => {},
        }
    }
    assert(text::str_views(args@) =~= permission_flags(mode, plan));
    args
}

/// The views of a list of texts.
pub open spec fn strings_view(texts: Seq<String>) -> Seq<Seq<char>> {
    texts.map_values(|s: String| s@)
}

/// Adds an argument.
fn push_arg(args: &mut Vec<String>, arg: &str)
    ensures
        strings_view(final(args)@) == strings_view(old(args)@).push(arg@),
{
    args.push(arg.to_owned());
    assert(strings_view(args@) =~= strings_view(old(args)@).push(arg@));
}

/// Adds a flag with its value, where there is one.
fn push_flag(args: &mut Vec<String>, flag: &str, value: Option<&str>)
    ensures
        strings_view(final(args)@) == strings_view(old(args)@) + optional_flag(
            flag@,
            text::opt_str(value),
        ),
{
    let ghost before = strings_view(args@);
    if let Some(v) = value {
        push_arg(args, flag);
        push_arg(args, v);
    }
    assert(strings_view(args@) =~= before + optional_flag(flag@, text::opt_str(value)));
}

/// What an optional text holds.
fn borrowed(value: &Option<String>) -> (r: Option<&str>)
    ensures
        text::opt_str(r) == text::opt_text(*value),
{
    match value {
        Some(t) => Some(t.as_str()),
        None => None,
    }
}

/// The arguments with which the agent is started for a turn.
pub fn turn_args(ctx: &TurnCtx) -> (r: Vec<String>)
    ensures
        strings_view(r@) == turn_arguments(ctx.view()),
{
    let mut args: Vec<String> = Vec::new();
    push_arg(&mut args, "--output-format");
    push_arg(&mut args, "stream-json");
    assert(strings_view(args@) =~= seq!["--output-format"@, "stream-json"@]);
    let model: Option<&str> = match borrowed(&ctx.model) {
        Some(m) => if m.is_empty() {
            None
        } else {
            Some(m)
        },
        None => None,
    };
    push_flag(&mut args, "--model", model);
    let levels = agy_reasoning_levels();
    let effort = resolve_reasoning(borrowed(&ctx.reasoning_level), &levels);
    push_flag(&mut args, "--effort", effort);
    let flags = permission_args(ctx.permission_mode, ctx.plan_mode);
    let ghost before = strings_view(args@);
    let ghost flag_views = text::str_views(flags@);
    let mut i: usize = 0;
    while i < flags.len()
        invariant
            i <= flags.len(),
            flag_views == text::str_views(flags@),
            strings_view(args@) == before + flag_views.take(i as int),
        decreases flags.len() - i,
    {
        push_arg(&mut args, flags[i]);
        assert(before + flag_views.take(i + 1) =~= (before + flag_views.take(i as int)).push(
            flag_views[i as int],
        ));
        i += 1;
    }
    assert(flag_views.take(flags.len() as int) == flag_views);
    let ghost upto = strings_view(args@);
    push_arg(&mut args, "--print-timeout");
    push_arg(&mut args, "30m");
    assert(strings_view(args@) =~= upto + seq!["--print-timeout"@, "30m"@]);
    push_flag(&mut args, "--conversation", borrowed(&ctx.native_session_id));
    let mut print = "--print=".to_owned();
    if ctx.native_session_id.is_none() {
        print.append(first_turn_prompt(ctx.text.as_str()).as_str());
    } else {
        print.append(ctx.text.as_str());
    }
    let ghost most = strings_view(args@);
    push_arg(&mut args, print.as_str());
    assert(strings_view(args@) =~= most + seq![print@]);
    args
}

} // verus!
