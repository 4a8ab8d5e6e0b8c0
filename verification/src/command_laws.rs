//! What holds of the command line of a turn.
use vstd::prelude::*;

use crate::chat::CtxView;
use crate::options::PermissionMode;
use crate::{command, options};

verus! {

/// Whether the user chose a model by name.
pub open spec fn model_chosen(ctx: CtxView) -> bool {
    ctx.model is Some && ctx.model->0.len() > 0
}

/// Whether the user chose a reasoning level that the agent knows.
pub open spec fn effort_chosen(ctx: CtxView) -> bool {
    ctx.reasoning_level == Some("low"@) || ctx.reasoning_level == Some("medium"@)
        || ctx.reasoning_level == Some("high"@)
}

/// How many flags say what the agent may do.
pub open spec fn mode_flags(ctx: CtxView) -> int {
    if ctx.plan_mode {
        1
    } else if ctx.permission_mode == Some(PermissionMode::Bypass) {
        2
    } else if ctx.permission_mode == Some(PermissionMode::AcceptEdits) {
        1
    } else {
        0
    }
}

/// The whole command line, place by place: the output format, the model and the reasoning level
/// where the user chose them, what the agent may do, the time limit, the conversation where there
/// is one, and the message; and nothing else.
pub proof fn law_arguments_stand_in_their_places(ctx: CtxView)
    ensures
        ({
            let args = command::turn_arguments(ctx);
            let effort = 2 + if model_chosen(ctx) {
                2int
            } else {
                0
            };
            let mode = effort + if effort_chosen(ctx) {
                2int
            } else {
                0
            };
            let limit = mode + mode_flags(ctx);
            let message = limit + 2 + if ctx.native_session_id is Some {
                2int
            } else {
                0
            };
            &&& args.len() == message + 1
            &&& args[0] == "--output-format"@
            &&& args[1] == "stream-json"@
            &&& model_chosen(ctx) ==> args[2] == "--model"@ && args[3] == ctx.model->0
            &&& effort_chosen(ctx) ==> args[effort] == "--effort"@ && args[effort + 1]
                == ctx.reasoning_level->0
            &&& ctx.plan_mode ==> args[mode] == "--mode=plan"@
            &&& !ctx.plan_mode && mode_flags(ctx) > 0 ==> args[mode] == "--mode=accept-edits"@
            &&& mode_flags(ctx) > 1 ==> args[mode + 1] == "--dangerously-skip-permissions"@
            &&& args[limit] == "--print-timeout"@
            &&& args[limit + 1] == "30m"@
            &&& ctx.native_session_id matches Some(id) ==> args[limit + 2] == "--conversation"@
                && args[limit + 3] == id && args[message] == "--print="@ + ctx.text
            &&& ctx.native_session_id is None ==> args[message]
                == "--print=Read and follow `.openresearch/PLAYBOOK.md` before acting. It is the OpenResearch session playbook for this worktree.\n\n"@
                + ctx.text
        }),
{
    lemma_levels(ctx);
    law_the_opening_ends_with_the_message(ctx.text);
}

proof fn lemma_levels(ctx: CtxView)
    ensures
        effort_chosen(ctx) ==> options::resolved_reasoning(
            ctx.reasoning_level,
            command::reasoning_levels(),
        ) == ctx.reasoning_level,
        !effort_chosen(ctx) ==> options::resolved_reasoning(
            ctx.reasoning_level,
            command::reasoning_levels(),
        ) is None,
{
    let levels = command::reasoning_levels();
    assert(levels[0] == "low"@ && levels[1] == "medium"@ && levels[2] == "high"@);
}

/// The first message of a conversation points at the playbook and ends with what the user wrote.
pub proof fn law_the_opening_ends_with_the_message(message: Seq<char>)
    ensures
        "--print="@ + command::opening_prompt(message)
            == "--print=Read and follow `.openresearch/PLAYBOOK.md` before acting. It is the OpenResearch session playbook for this worktree.\n\n"@
            + message,
{
    reveal_strlit("--print=");
    reveal_strlit("Read and follow `");
    reveal_strlit(".openresearch/PLAYBOOK.md");
    reveal_strlit(
        "` before acting. It is the OpenResearch session playbook for this worktree.\n\n",
    );
    reveal_strlit(
        "--print=Read and follow `.openresearch/PLAYBOOK.md` before acting. It is the OpenResearch session playbook for this worktree.\n\n",
    );
    assert("--print="@ + ("Read and follow `"@ + command::PLAYBOOK_REL@
        + "` before acting. It is the OpenResearch session playbook for this worktree.\n\n"@)
        =~= "--print=Read and follow `.openresearch/PLAYBOOK.md` before acting. It is the OpenResearch session playbook for this worktree.\n\n"@);
    assert("--print="@ + command::opening_prompt(message) =~= "--print="@ + (
    "Read and follow `"@ + command::PLAYBOOK_REL@
        + "` before acting. It is the OpenResearch session playbook for this worktree.\n\n"@)
        + message);
}

/// Every turn, the first of a conversation or a later one, names the model that the user chose,
/// and names none where the user chose none. (The conversation has an id that the agent gave it;
/// only there could the name of the flag stand by chance.)
pub proof fn law_the_chosen_model_is_named(ctx: CtxView)
    ensures
        ctx.model is Some && ctx.model->0.len() > 0 ==> exists|k: int|
            0 <= k && k + 1 < command::turn_arguments(ctx).len() && #[trigger]
            command::turn_arguments(ctx)[k] == "--model"@ && command::turn_arguments(ctx)[k + 1]
                == ctx.model->0,
        ctx.model is None || ctx.model->0.len() == 0 ==> forall|k: int|
            0 <= k < command::turn_arguments(ctx).len() && #[trigger] command::turn_arguments(
                ctx,
            )[k] == "--model"@ ==> ctx.native_session_id == Some("--model"@) && k
                == command::turn_arguments(ctx).len() - 2,
{
    law_arguments_stand_in_their_places(ctx);
    let args = command::turn_arguments(ctx);
    if model_chosen(ctx) {
        assert(args[2] == "--model"@);
    } else {
        reveal_strlit("--model");
        reveal_strlit("--output-format");
        reveal_strlit("stream-json");
        reveal_strlit("--effort");
        reveal_strlit("low");
        reveal_strlit("medium");
        reveal_strlit("high");
        reveal_strlit("--mode=plan");
        reveal_strlit("--mode=accept-edits");
        reveal_strlit("--dangerously-skip-permissions");
        reveal_strlit("--print-timeout");
        reveal_strlit("30m");
        reveal_strlit("--conversation");
        reveal_strlit("--print=");
        assert("--model"@.len() == 7);
        assert("--output-format"@.len() == 15 && "stream-json"@.len() == 11 && "--effort"@.len()
            == 8);
        assert("low"@.len() == 3 && "medium"@.len() == 6 && "high"@.len() == 4);
        assert("--mode=plan"@.len() == 11 && "--mode=accept-edits"@.len() == 19);
        assert("--dangerously-skip-permissions"@.len() == 30 && "--print-timeout"@.len() == 15);
        assert("30m"@.len() == 3 && "--conversation"@.len() == 14 && "--print="@.len() == 8);
        assert(args.last() == "--print="@ + command::sent_message(ctx));
        assert(args.last().len() >= 8);
    }
}

/// What the agent may do is settled by the user's choice alone: edits are accepted in the modes
/// that say so, confirmations are skipped in one mode only, and a turn that only plans does
/// neither.
pub proof fn law_permissions_follow_the_choice(mode: Option<PermissionMode>)
    ensures
        command::permission_flags(mode, true) == seq!["--mode=plan"@],
        command::permission_flags(None, false).len() == 0,
        command::permission_flags(Some(PermissionMode::Ask), false).len() == 0,
        command::permission_flags(Some(PermissionMode::AcceptEdits), false) == seq![
            "--mode=accept-edits"@,
        ],
        command::permission_flags(Some(PermissionMode::Bypass), false) == seq![
            "--mode=accept-edits"@,
            "--dangerously-skip-permissions"@,
        ],
{
}

/// A level is asked for exactly where it is one of those that are known.
pub proof fn law_known_levels_are_asked_for(level: Seq<char>, known: Seq<Seq<char>>)
    ensures
        options::resolved_reasoning(None, known) is None,
        (exists|k: int| 0 <= k < known.len() && #[trigger] known[k] == level)
            ==> options::resolved_reasoning(Some(level), known) == Some(level),
        (forall|k: int| 0 <= k < known.len() ==> #[trigger] known[k] != level)
            ==> options::resolved_reasoning(Some(level), known) is None,
{
}

/// The arguments are shown text by text.
pub proof fn law_arguments_are_shown(texts: Seq<String>)
    ensures
        command::strings_view(texts).len() == texts.len(),
        forall|i: int|
            0 <= i < texts.len() ==> #[trigger] command::strings_view(texts)[i] == texts[i]@,
{
}

} // verus!
