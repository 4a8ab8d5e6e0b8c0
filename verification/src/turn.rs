//! A turn from the first line of the agent's output to its end.
use vstd::prelude::*;
use vstd::string::*;

use crate::chat::{CtxView, DeliveryState, PartView, PromptView, TurnCtx, WirePart, WirePrompt};
use crate::json::{parse_json, Json, JsonView};
use crate::stream::{apply_event, StateView, TurnState};
use crate::{chat, json, stream, text};

verus! {

/// What to tell the user where the agent is not installed.
pub const AGY_NOT_FOUND: &'static str =
    "agy not found on PATH \u{2014} install Antigravity CLI and sign in first";

/// What to tell the user where the agent answered but its process did not end.
pub const AGY_DID_NOT_EXIT: &'static str = "Antigravity did not exit after its response";

/// What the agent's output did: it gave a line, it ended, it could not be read, or it gave
/// nothing for too long.
pub enum Output {
    Line(String),
    Closed,
    Unreadable(String),
    Silent,
}

/// What comes next in a turn: the next line, with the message written out before it or not; the
/// end, likewise; or the end with an error.
pub enum Next {
    Read { flush: bool },
    Finish { flush: bool },
    Fail(String),
}

/// What an [`Output`] is.
pub enum OutputView {
    Line(Seq<char>),
    Closed,
    Unreadable(Seq<char>),
    Silent,
}

/// What a [`Next`] is.
pub enum NextView {
    Read { flush: bool },
    Finish { flush: bool },
    Fail(Seq<char>),
}

impl Output {
    /// What the output did.
    pub open spec fn view(&self) -> OutputView {
        match *self {
            Output::Line(line) => OutputView::Line(line@),
            Output::Closed => OutputView::Closed,
            Output::Unreadable(error) => OutputView::Unreadable(error@),
            Output::Silent => OutputView::Silent,
        }
    }
}

impl Next {
    /// What comes next.
    pub open spec fn view(&self) -> NextView {
        match *self {
            Next::Read { flush } => NextView::Read { flush },
            Next::Finish { flush } => NextView::Finish { flush },
            Next::Fail(message) => NextView::Fail(message@),
        }
    }
}

/// A turn after an event: a step shows that the message was taken, and the conversation goes on
/// under the id that is known by then.
pub open spec fn after_event(ctx: CtxView, state: StateView, event: JsonView) -> (
    CtxView,
    StateView,
) {
    let heard = if stream::event_type(event) == "step_update"@ {
        CtxView { delivery: DeliveryState::Accepted, ..ctx }
    } else {
        ctx
    };
    let (told, known) = stream::after_event(heard, state, event);
    (
        CtxView {
            native_session_id: match known.conversation_id {
                Some(id) => Some(id),
                None => told.native_session_id,
            },
            ..told
        },
        known,
    )
}

/// A turn after some output, given the JSON value that a line is.
pub open spec fn after_output(
    ctx: CtxView,
    state: StateView,
    output: OutputView,
    event: Option<JsonView>,
) -> (CtxView, StateView) {
    match (output, event) {
        (OutputView::Line(_), Some(e)) => after_event(ctx, state, e),
        _ => (ctx, state),
    }
}

/// What to tell the user where the agent gave nothing for that many seconds.
pub open spec fn silence_message(seconds: nat) -> Seq<char> {
    "Antigravity went silent for "@ + text::digits(seconds / 60)
        + " minutes and was interrupted."@
}

/// What comes next after some output, given the JSON value that a line is. A line that is no JSON
/// is passed over.
pub open spec fn next_after(
    output: OutputView,
    event: Option<JsonView>,
    watchdog_seconds: nat,
) -> NextView {
    match output {
        OutputView::Line(_) => match event {
            Some(e) => if stream::event_type(e) == "result"@ {
                NextView::Finish { flush: true }
            } else {
                NextView::Read { flush: true }
            },
            None => NextView::Read { flush: false },
        },
        OutputView::Closed => NextView::Finish { flush: false },
        OutputView::Unreadable(error) => NextView::Fail("antigravity stdout: "@ + error),
        OutputView::Silent => NextView::Fail(silence_message(watchdog_seconds)),
    }
}

/// The JSON value that the output brought.
pub open spec fn output_event(output: OutputView) -> Option<JsonView> {
    match output {
        OutputView::Line(line) => json::parsed(line),
        _ => None,
    }
}

/// Takes an event into a turn, and says whether it was the last one.
pub fn take_event(ctx: &mut TurnCtx, state: &mut TurnState, event: &Json) -> (r: bool)
    requires
        stream::event_opens_text(old(state).view(), event.view()) ==> old(state).text_seq
            < usize::MAX,
    ensures
        (final(ctx).view(), final(state).view()) == after_event(
            old(ctx).view(),
            old(state).view(),
            event.view(),
        ),
        r == (stream::event_type(event.view()) == "result"@),
{
    proof {
        reveal_strlit("");
        reveal_strlit("step_update");
        assert(""@ != "step_update"@) by {
            assert(""@.len() == 0 && "step_update"@.len() == 11);
        }
    }
    if let Some(kind) = event.get_str("event") {
        if text::same_text(kind, "step_update") {
            ctx.mark_delivery(DeliveryState::Accepted);
        }
    }
    let last = apply_event(ctx, state, event);
    if let Some(id) = &state.conversation_id {
        ctx.set_native_session_id(id.as_str());
    }
    last
}

/// Takes the agent's output into a turn, and says what comes next.
pub fn take_output(
    ctx: &mut TurnCtx,
    state: &mut TurnState,
    output: &Output,
    watchdog_seconds: u64,
) -> (r: Next)
    requires
        old(state).text_seq < usize::MAX,
    ensures
        (final(ctx).view(), final(state).view()) == after_output(
            old(ctx).view(),
            old(state).view(),
            output.view(),
            output_event(output.view()),
        ),
        r.view() == next_after(
            output.view(),
            output_event(output.view()),
            watchdog_seconds as nat,
        ),
{
    match output {
        Output::Line(line) => match parse_json(line.as_str()) {
            Some(event) => if take_event(ctx, state, &event) {
                Next::Finish { flush: true }
            } else {
                Next::Read { flush: true }
            },
            None => Next::Read { flush: false },
        },
        Output::Closed => Next::Finish { flush: false },
        Output::Unreadable(error) => {
            let mut message = "antigravity stdout: ".to_owned();
            message.append(error.as_str());
            Next::Fail(message)
        },
        Output::Silent => {
            let mut message = "Antigravity went silent for ".to_owned();
            message.append(text::write_natural(watchdog_seconds / 60).as_str());
            message.append(" minutes and was interrupted.");
            Next::Fail(message)
        },
    }
}

/// The last text of a message that is not blank.
pub open spec fn last_text(parts: Seq<PartView>) -> Option<Seq<char>>
    decreases parts.len(),
{
    if parts.len() == 0 {
        None
    } else if shows_text(parts.last()) {
        parts.last().text
    } else {
        last_text(parts.drop_last())
    }
}

/// Whether a part is a text that is not blank.
pub open spec fn shows_text(part: PartView) -> bool {
    &&& part.kind == "text"@
    &&& part.text matches Some(content)
    &&& !text::blank(content)
}

/// Whether a plan card is made of a text: a turn that only plans ended well and showed no card of
/// its own, and the text says something.
pub open spec fn plan_is_due(plan_mode: bool, shown: bool, errored: bool, content: Seq<char>) -> bool {
    plan_mode && !shown && !errored && !text::blank(content)
}

/// The card that puts the last text of a message to the user as a plan.
pub open spec fn plan_part(parts: Seq<PartView>, assistant_id: Seq<char>) -> Option<PartView> {
    match last_text(parts) {
        Some(content) => if plan_is_due(true, false, false, content) {
            Some(
                chat::prompt_part(
                    "plan-synth-"@ + assistant_id,
                    PromptView { kind: "plan"@, plan: Some(content), synthesized: true },
                ),
            )
        } else {
            None
        },
        None => None,
    }
}

/// The view of an optional part.
pub open spec fn opt_part(part: Option<WirePart>) -> Option<PartView> {
    match part {
        Some(p) => Some(p.view()),
        None => None,
    }
}

/// Whether a plan card is made of a text.
pub fn should_synthesize_plan(plan_mode: bool, shown: bool, errored: bool, content: &str) -> (r:
    bool)
    ensures
        r == plan_is_due(plan_mode, shown, errored, content@),
{
    plan_mode && !shown && !errored && !text::is_blank(content)
}

/// The card that puts the last text of a message to the user as a plan.
pub fn plan_card(parts: &[WirePart], assistant_id: &str) -> (r: Option<WirePart>)
    ensures
        opt_part(r) == plan_part(chat::parts_view(parts@), assistant_id@),
{
    let ghost views = chat::parts_view(parts@);
    let mut i: usize = parts.len();
    assert(views.take(i as int) == views);
    while i > 0
        invariant
            i <= parts@.len(),
            views == chat::parts_view(parts@),
            last_text(views) == last_text(views.take(i as int)),
        decreases i,
    {
        let part = &parts[i - 1];
        proof {
            assert(views.take(i as int).last() == part.view());
            assert(views.take(i as int).drop_last() == views.take(i - 1));
        }
        if let Some(content) = &part.text {
            if text::same_text(part.kind.as_str(), "text") && !text::is_blank(content.as_str()) {
                if !should_synthesize_plan(true, false, false, content.as_str()) {
                    return None;
                }
                let mut id = "plan-synth-".to_owned();
                id.append(assistant_id);
                let prompt = WirePrompt {
                    kind: "plan".to_owned(),
                    plan: Some(content.clone()),
                    synthesized: true,
                };
                return Some(WirePart::prompt(id, prompt));
            }
        }
        i -= 1;
    }
    None
}

/// How a turn ends, once the agent's process has: with an error to tell the user, or in order;
/// the agent's log is then kept exactly where the agent reported a failure.
pub open spec fn turn_ending(
    state: StateView,
    success: bool,
    status: Seq<char>,
    log_path: Seq<char>,
) -> Result<bool, Seq<char>> {
    if !state.saw_result {
        Err("Antigravity ended without a result ("@ + status + "); see "@ + log_path)
    } else if !success && !state.turn_errored {
        Err("Antigravity ended with error ("@ + status + ")"@)
    } else {
        Ok(!state.turn_errored)
    }
}

/// A turn after it ended: one that only plans and went well shows its plan.
pub open spec fn after_ending(ctx: CtxView, state: StateView, success: bool) -> CtxView {
    if state.saw_result && success && ctx.plan_mode && !state.turn_errored {
        match plan_part(ctx.parts, ctx.assistant_id) {
            Some(card) => CtxView { parts: chat::upsert(ctx.parts, card), ..ctx },
            None => ctx,
        }
    } else {
        ctx
    }
}

/// The view of an ending.
pub open spec fn ending_view(ending: Result<bool, String>) -> Result<bool, Seq<char>> {
    match ending {
        Ok(remove_log) => Ok(remove_log),
        Err(message) => Err(message@),
    }
}

/// Ends a turn, once the agent's process has ended. Gives whether the agent's log may go.
pub fn finish_turn(
    ctx: &mut TurnCtx,
    state: &TurnState,
    success: bool,
    status: &str,
    log_path: &str,
) -> (r: Result<bool, String>)
    ensures
        ending_view(r) == turn_ending(state.view(), success, status@, log_path@),
        final(ctx).view() == after_ending(old(ctx).view(), state.view(), success),
{
    if !state.saw_result {
        let mut message = "Antigravity ended without a result (".to_owned();
        message.append(status);
        message.append("); see ");
        message.append(log_path);
        return Err(message);
    }
    if !success && !state.turn_errored {
        let mut message = "Antigravity ended with error (".to_owned();
        message.append(status);
        message.append(")");
        return Err(message);
    }
    if ctx.plan_mode && !state.turn_errored {
        if let Some(card) = plan_card(
            ctx.assistant.parts.as_slice(),
            ctx.assistant.id.as_str(),
        ) {
            ctx.upsert_part(card);
        }
    }
    Ok(!state.turn_errored)
}

/// Notes that the agent could not be started, and gives what to tell the user.
pub fn spawn_failure(ctx: &mut TurnCtx, program: &str, error: &str) -> (r: String)
    ensures
        final(ctx).view() == (CtxView { delivery: DeliveryState::NotSent, ..old(ctx).view() }),
        r@ == "Could not spawn "@ + program@ + ": "@ + error@,
{
    ctx.mark_delivery(DeliveryState::NotSent);
    let mut message = "Could not spawn ".to_owned();
    message.append(program);
    message.append(": ");
    message.append(error);
    message
}

/// That a turn ran to its end.
#[derive(Clone, Copy, Debug, PartialEq, Eq, Structural)]
pub enum TurnOutcome {
    Completed,
}

/// That a turn broke off, and how far the user's message had got by then.
pub struct TurnFailure {
    pub error: String,
    pub delivery: DeliveryState,
}

} // verus!
