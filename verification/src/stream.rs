//! The agent's event stream, folded into the assistant message of a turn.
use vstd::prelude::*;
use vstd::string::*;

use crate::chat::{
    CtxView, DeliveryState, FailureView, PartView, ToolStateView, TurnCtx, WirePart, WireToolState,
};
use crate::json::{Json, JsonView};
use crate::tools::normalize_tool;
use crate::{chat, json, text, tools};

verus! {

/// What the events of a turn have shown so far.
pub struct TurnState {
    pub conversation_id: Option<String>,
    pub text_part_id: Option<String>,
    pub text_seq: usize,
    pub saw_result: bool,
    pub turn_errored: bool,
}

/// What a [`TurnState`] is.
pub struct StateView {
    pub conversation_id: Option<Seq<char>>,
    pub text_part_id: Option<Seq<char>>,
    pub text_seq: nat,
    pub saw_result: bool,
    pub turn_errored: bool,
}

impl TurnState {
    /// What the state is.
    pub open spec fn view(&self) -> StateView {
        StateView {
            conversation_id: text::opt_text(self.conversation_id),
            text_part_id: text::opt_text(self.text_part_id),
            text_seq: self.text_seq as nat,
            saw_result: self.saw_result,
            turn_errored: self.turn_errored,
        }
    }
}

/// The state before the first event.
pub open spec fn initial_state() -> StateView {
    StateView {
        conversation_id: None,
        text_part_id: None,
        text_seq: 0,
        saw_result: false,
        turn_errored: false,
    }
}

impl Default for TurnState {
    /// The state before the first event.
    fn default() -> (r: TurnState)
        ensures
            r.view() == initial_state(),
    {
        TurnState {
            conversation_id: None,
            text_part_id: None,
            text_seq: 0,
            saw_result: false,
            turn_errored: false,
        }
    }
}

/// Whether a step in that state will not change any more.
pub open spec fn terminal_step(state: Seq<char>) -> bool {
    state == "DONE"@ || failed_step(state)
}

/// Whether a step in that state did not succeed.
pub open spec fn failed_step(state: Seq<char>) -> bool {
    state == "ERROR"@ || state == "CANCELED"@
}

/// The text of an error: the value itself, or its message.
pub open spec fn error_message(value: JsonView) -> Option<Seq<char>> {
    match value.text() {
        Some(t) => Some(t),
        None => value.member_text("message"@),
    }
}

/// The error message in the member `error` of a value.
pub open spec fn member_error(value: JsonView) -> Option<Seq<char>> {
    match value.member("error"@) {
        Some(e) => error_message(e),
        None => None,
    }
}

/// What stands in an optional text, or another text where there is none.
pub open spec fn text_or(value: Option<Seq<char>>, other: Seq<char>) -> Seq<char> {
    match value {
        Some(t) => t,
        None => other,
    }
}

/// The name of an action that was denied.
pub open spec fn action_name(action: JsonView) -> Option<Seq<char>> {
    match action.member("display_name"@) {
        Some(name) => name.text(),
        None => action.member_text("action"@),
    }
}

/// The names of the denied actions that have one, in order.
pub open spec fn action_names(actions: Seq<JsonView>) -> Seq<Seq<char>>
    decreases actions.len(),
{
    if actions.len() == 0 {
        Seq::empty()
    } else {
        let before = action_names(actions.drop_last());
        match action_name(actions.last()) {
            Some(name) => before.push(name),
            None => before,
        }
    }
}

/// Whether a result has an answer in it.
pub open spec fn has_response(result: JsonView) -> bool {
    match result.member_text("response"@) {
        Some(response) => !text::blank(response),
        None => false,
    }
}

/// What is wrong with a result that has no answer because actions were denied.
pub open spec fn denial(result: JsonView) -> Option<Seq<char>> {
    if has_response(result) {
        None
    } else {
        match result.member_or_null("denied_actions"@).items() {
            Some(actions) => if actions.len() == 0 {
                None
            } else if action_names(actions).len() == 0 {
                Some("Antigravity denied one or more required actions"@)
            } else {
                Some(
                    "Antigravity denied required action(s): "@ + text::joined(
                        action_names(actions),
                        ", "@,
                    ),
                )
            },
            None => None,
        }
    }
}

/// The id of the text part of that number.
pub open spec fn text_id(seq: nat) -> Seq<char> {
    "text-"@ + text::digits(seq)
}

/// The id of the part that shows a step with that index and tool.
pub open spec fn tool_id(step_index: int, tool_name: Seq<char>) -> Seq<char> {
    "tool-"@ + text::decimal(step_index) + "-"@ + tool_name
}

/// What a tool step reports.
pub struct ToolStep {
    pub call_id: Seq<char>,
    pub tool: Seq<char>,
    pub input: Option<JsonView>,
    pub output: Option<Seq<char>>,
    pub error: Option<Seq<char>>,
    pub terminal: bool,
    pub failed: bool,
}

/// The state that a step is in.
pub open spec fn step_state(step: JsonView) -> Seq<char> {
    text_or(step.member_text("state"@), ""@)
}

/// The error that a tool step reports: the one that comes with it, or the one that its state
/// stands for.
pub open spec fn tool_error(step: JsonView) -> Option<Seq<char>> {
    match member_error(step.member_or_null("tool_info"@)) {
        Some(e) => Some(e),
        None => if step_state(step) == "ERROR"@ {
            Some("Antigravity tool failed"@)
        } else if step_state(step) == "CANCELED"@ {
            Some("Antigravity tool was canceled"@)
        } else {
            None
        },
    }
}

/// What a tool step reports.
pub open spec fn tool_step(step: JsonView) -> ToolStep {
    let name = text_or(step.member_text("tool_name"@), "tool"@);
    let info = step.member_or_null("tool_info"@);
    let index = match step.member_or_null("step_index"@).integer() {
        Some(i) => i as int,
        None => 0,
    };
    let table = tools::tool_table(name);
    ToolStep {
        call_id: tool_id(index, name),
        tool: table.0,
        input: tools::shown_input(info.member("parameters"@), table.1),
        output: info.member_text("output"@),
        error: tool_error(step),
        terminal: terminal_step(step_state(step)) || tool_error(step) is Some,
        failed: failed_step(step_state(step)) || tool_error(step) is Some,
    }
}

/// The status in which a step leaves a tool call that it ends.
pub open spec fn end_status(step: ToolStep) -> Seq<char> {
    if step.failed {
        "error"@
    } else {
        "completed"@
    }
}

/// A tool call after one more step: what the step does not report stays as it was.
pub open spec fn updated_tool(state: ToolStateView, step: ToolStep) -> ToolStateView {
    ToolStateView {
        status: if step.terminal {
            end_status(step)
        } else {
            state.status
        },
        input: if step.input is Some {
            step.input
        } else {
            state.input
        },
        output: if step.terminal && step.output is Some {
            step.output
        } else {
            state.output
        },
        error: if step.terminal && step.error is Some {
            step.error
        } else {
            state.error
        },
        title: state.title,
    }
}

/// The part that a tool call begins with.
pub open spec fn new_tool_part(step: ToolStep) -> PartView {
    PartView {
        id: step.call_id,
        kind: "tool"@,
        text: None,
        tool: Some(step.tool),
        state: Some(
            ToolStateView {
                status: if step.terminal {
                    end_status(step)
                } else {
                    "running"@
                },
                input: step.input,
                output: step.output,
                error: step.error,
                title: None,
            },
        ),
        prompt: None,
        phase: None,
        children: Seq::empty(),
    }
}

/// The parts of a message after a tool step.
pub open spec fn with_tool_step(parts: Seq<PartView>, step: ToolStep) -> Seq<PartView> {
    match chat::part_index(parts, step.call_id) {
        Some(i) => match parts[i].state {
            Some(state) => parts.update(
                i,
                PartView { state: Some(updated_tool(state, step)), ..parts[i] },
            ),
            None => parts,
        },
        None => parts.push(new_tool_part(step)),
    }
}

/// The conversation id that is known after a value that may bring one.
pub open spec fn noted_conversation(known: Option<Seq<char>>, value: JsonView) -> Option<
    Seq<char>,
> {
    match value.member_text("conversation_id"@) {
        Some(id) => if id.len() > 0 {
            Some(id)
        } else {
            known
        },
        None => known,
    }
}

/// The text that a step of the agent's response adds.
pub open spec fn step_delta(step: JsonView) -> Seq<char> {
    text_or(step.member_text("text_delta"@), ""@)
}

/// A turn after a step of the agent's response: its text goes to the end of the open text part,
/// or into a new one, which stays open until a step ends the response.
pub open spec fn after_response(ctx: CtxView, state: StateView, step: JsonView) -> (
    CtxView,
    StateView,
) {
    let delta = step_delta(step);
    let open_id = if delta.len() == 0 {
        state.text_part_id
    } else {
        Some(text_or(state.text_part_id, text_id(state.text_seq + 1)))
    };
    (
        CtxView {
            parts: if delta.len() == 0 {
                ctx.parts
            } else {
                match state.text_part_id {
                    Some(id) => chat::append_text(ctx.parts, id, delta),
                    None => chat::upsert(
                        ctx.parts,
                        chat::text_part(text_id(state.text_seq + 1), delta),
                    ),
                }
            },
            ..ctx
        },
        StateView {
            text_seq: if opens_text(state, step) {
                state.text_seq + 1
            } else {
                state.text_seq
            },
            text_part_id: if terminal_step(step_state(step)) {
                None
            } else {
                open_id
            },
            ..state
        },
    )
}

/// Whether a step of the agent's response begins a new text part.
pub open spec fn opens_text(state: StateView, step: JsonView) -> bool {
    step_delta(step).len() > 0 && state.text_part_id is None
}

/// A turn after a tool step: the open text part ends.
pub open spec fn after_tool(ctx: CtxView, state: StateView, step: JsonView) -> (
    CtxView,
    StateView,
) {
    (
        CtxView { parts: with_tool_step(ctx.parts, tool_step(step)), ..ctx },
        StateView { text_part_id: None, ..state },
    )
}

/// What kind of step a step is.
pub open spec fn step_type(step: JsonView) -> Seq<char> {
    text_or(step.member_text("step_type"@), ""@)
}

/// A turn after a step.
pub open spec fn after_step(ctx: CtxView, state: StateView, step: JsonView) -> (
    CtxView,
    StateView,
) {
    let known = StateView {
        conversation_id: noted_conversation(state.conversation_id, step),
        ..state
    };
    if step_type(step) == "agent_response"@ {
        after_response(ctx, known, step)
    } else if step_type(step) == "tool"@ {
        after_tool(ctx, known, step)
    } else {
        (ctx, known)
    }
}

/// How the agent says that a turn ended.
pub open spec fn result_status(result: JsonView) -> Seq<char> {
    text_or(result.member_text("status"@), "INVALID"@)
}

/// Why a turn with that result failed, where it did.
pub open spec fn result_failure(result: JsonView) -> Option<FailureView> {
    if result_status(result) != "SUCCESS"@ {
        Some(
            FailureView {
                code: "antigravity_terminal"@,
                message: "Antigravity: "@ + text_or(member_error(result), result_status(result)),
            },
        )
    } else {
        match denial(result) {
            Some(message) => Some(
                FailureView { code: "antigravity_permission_denied"@, message },
            ),
            None => None,
        }
    }
}

/// A turn after its result.
pub open spec fn after_result(ctx: CtxView, state: StateView, result: JsonView) -> (
    CtxView,
    StateView,
) {
    let failure = result_failure(result);
    (
        CtxView {
            delivery: if result_status(result) == "SUCCESS"@ {
                DeliveryState::Accepted
            } else {
                ctx.delivery
            },
            failure: if failure is Some {
                failure
            } else {
                ctx.failure
            },
            final_text_marked: ctx.final_text_marked || failure is None,
            ..ctx
        },
        StateView {
            conversation_id: noted_conversation(state.conversation_id, result),
            saw_result: true,
            turn_errored: state.turn_errored || failure is Some,
            ..state
        },
    )
}

/// What kind of event an event is.
pub open spec fn event_type(event: JsonView) -> Seq<char> {
    text_or(event.member_text("event"@), ""@)
}

/// A turn after an event.
pub open spec fn after_event(ctx: CtxView, state: StateView, event: JsonView) -> (
    CtxView,
    StateView,
) {
    if event_type(event) == "init"@ {
        (
            ctx,
            StateView {
                conversation_id: noted_conversation(state.conversation_id, event),
                ..state
            },
        )
    } else if event_type(event) == "step_update"@ {
        match event.member("step_update"@) {
            Some(step) => after_step(ctx, state, step),
            None => (ctx, state),
        }
    } else if event_type(event) == "result"@ {
        after_result(ctx, state, event.member_or_null("result"@))
    } else {
        (ctx, state)
    }
}

/// Whether an event begins a new text part.
pub open spec fn event_opens_text(state: StateView, event: JsonView) -> bool {
    &&& event_type(event) == "step_update"@
    &&& event.member("step_update"@) matches Some(step)
    &&& step_type(step) == "agent_response"@
    &&& opens_text(state, step)
}

/// The text of an error: the value itself, or its message.
pub fn error_text(value: &Json) -> (r: Option<&str>)
    ensures
        text::opt_str(r) == error_message(value.view()),
{
    match value.as_str() {
        Some(t) => Some(t),
        None => value.get_str("message"),
    }
}

/// Whether a step in that state will not change any more.
pub fn step_is_terminal(state: &str) -> (r: bool)
    ensures
        r == terminal_step(state@),
{
    text::same_text(state, "DONE") || step_is_failed(state)
}

/// Whether a step in that state did not succeed.
fn step_is_failed(state: &str) -> (r: bool)
    ensures
        r == failed_step(state@),
{
    text::same_text(state, "ERROR") || text::same_text(state, "CANCELED")
}

/// What is wrong with a result that has no answer because actions were denied.
pub fn denied_actions_error(result: &Json) -> (r: Option<String>)
    ensures
        text::opt_text(r) == denial(result.view()),
{
    if let Some(response) = result.get_str("response") {
        if !text::is_blank(response) {
            return None;
        }
    }
    let actions = match result.get("denied_actions") {
        Some(v) => match v.as_array() {
            Some(actions) => actions,
            None => {
                return None;
            },
        },
        None => {
            return None;
        },
    };
    if actions.len() == 0 {
        return None;
    }
    let ghost views = json::items_view(actions@);
    let mut names: Vec<&str> = Vec::new();
    let mut i: usize = 0;
    while i < actions.len()
        invariant
            i <= actions.len(),
            views == json::items_view(actions@),
            text::str_views(names@) == action_names(views.take(i as int)),
        decreases actions.len() - i,
    {
        let action = &actions[i];
        let name: Option<&str> = match action.get("display_name") {
            Some(v) => v.as_str(),
            None => action.get_str("action"),
        };
        proof {
            assert(views.take(i + 1).drop_last() == views.take(i as int));
            assert(views.take(i + 1).last() == action.view());
        }
        if let Some(n) = name {
            let ghost before = names@;
            names.push(n);
            assert(text::str_views(names@) =~= text::str_views(before).push(n@));
        }
        i += 1;
    }
    assert(views.take(actions.len() as int) == views);
    assert(names@.len() == text::str_views(names@).len());
    if names.len() == 0 {
        Some("Antigravity denied one or more required actions".to_owned())
    } else {
        let mut message = "Antigravity denied required action(s): ".to_owned();
        message.append(text::join_texts(&names, ", ").as_str());
        Some(message)
    }
}

/// The id of the text part of that number.
fn text_part_id(seq: usize) -> (r: String)
    ensures
        r@ == text_id(seq as nat),
{
    let mut id = "text-".to_owned();
    id.append(text::write_natural(seq as u64).as_str());
    id
}

/// The id of the part that shows a step with that index and tool.
fn tool_part_id(step_index: i64, tool_name: &str) -> (r: String)
    ensures
        r@ == tool_id(step_index as int, tool_name@),
{
    let mut id = "tool-".to_owned();
    id.append(text::write_integer(step_index).as_str());
    id.append("-");
    id.append(tool_name);
    id
}

/// Notes the conversation id that a value brings.
fn note_conversation(state: &mut TurnState, value: &Json)
    ensures
        final(state).view() == (StateView {
            conversation_id: noted_conversation(old(state).view().conversation_id, value.view()),
            ..old(state).view()
        }),
{
    if let Some(id) = value.get_str("conversation_id") {
        if !id.is_empty() {
            state.conversation_id = Some(id.to_owned());
        }
    }
}

/// What stands in an optional text, or another text where there is none.
fn str_or<'a>(value: Option<&'a str>, other: &'a str) -> (r: &'a str)
    ensures
        r@ == text_or(text::opt_str(value), other@),
{
    match value {
        Some(t) => t,
        None => other,
    }
}

/// Putting an empty text part and then adding a text to it puts a part with that text.
proof fn lemma_open_text(parts: Seq<PartView>, id: Seq<char>, delta: Seq<char>)
    ensures
        chat::append_text(chat::upsert(parts, chat::text_part(id, Seq::empty())), id, delta)
            == chat::upsert(parts, chat::text_part(id, delta)),
{
    let empty = chat::text_part(id, Seq::empty());
    let opened = chat::upsert(parts, empty);
    match chat::part_index(parts, id) {
        Some(i) => {
            assert(chat::first_part(parts, id, i));
            assert(chat::first_part(opened, id, i)) by {
                assert forall|j: int| 0 <= j < i implies (#[trigger] opened[j]).id != id by {
                    assert(parts[j].id != id);
                }
            }
            chat::lemma_first_part(opened, id, i);
        },
        None => {
            let i = parts.len() as int;
            assert(chat::first_part(opened, id, i)) by {
                assert forall|j: int| 0 <= j < i implies (#[trigger] opened[j]).id != id by {
                    chat::lemma_first_exists(parts, id, j);
                    assert(opened[j] == parts[j]);
                }
            }
            chat::lemma_first_part(opened, id, i);
        },
    }
    assert(Seq::<char>::empty() + delta == delta);
    assert(chat::extended(empty, delta) == chat::text_part(id, delta));
    assert(chat::append_text(opened, id, delta) =~= chat::upsert(
        parts,
        chat::text_part(id, delta),
    ));
}

/// Takes in a step of the agent's response.
fn apply_response(ctx: &mut TurnCtx, state: &mut TurnState, step: &Json)
    requires
        opens_text(old(state).view(), step.view()) ==> old(state).text_seq < usize::MAX,
    ensures
        (final(ctx).view(), final(state).view()) == after_response(
            old(ctx).view(),
            old(state).view(),
            step.view(),
        ),
{
    proof {
        reveal_strlit("");
    }
    if let Some(delta) = step.get_str("text_delta") {
        if !delta.is_empty() {
            match &state.text_part_id {
                Some(id) => {
                    ctx.append_part_text(id.as_str(), delta);
                },
                None => {
                    state.text_seq += 1;
                    let id = text_part_id(state.text_seq);
                    proof {
                        lemma_open_text(ctx.view().parts, id@, delta@);
                        assert(""@ =~= Seq::<char>::empty());
                    }
                    ctx.upsert_part(WirePart::text(id.clone(), ""));
                    ctx.append_part_text(id.as_str(), delta);
                    state.text_part_id = Some(id);
                },
            }
        }
    }
    if step_is_terminal(str_or(step.get_str("state"), "")) {
        state.text_part_id = None;
    }
}

/// Takes a step into the state of the tool call that it belongs to.
fn update_tool_state(
    state: &mut WireToolState,
    input: Option<Json>,
    output: Option<&str>,
    error: &Option<String>,
    terminal: bool,
    failed: bool,
    Ghost(step): Ghost<ToolStep>,
)
    requires
        json::opt_json(input) == step.input,
        text::opt_str(output) == step.output,
        text::opt_text(*error) == step.error,
        terminal == step.terminal,
        failed == step.failed,
    ensures
        final(state).view() == updated_tool(old(state).view(), step),
{
    if input.is_some() {
        state.input = input;
    }
    if terminal {
        state.status =
        if failed {
            "error".to_owned()
        } else {
            "completed".to_owned()
        };
        if let Some(out) = output {
            state.output = Some(out.to_owned());
        }
        if let Some(err) = error {
            state.error = Some(err.clone());
        }
    }
}

/// Takes in a tool step.
fn apply_tool(ctx: &mut TurnCtx, state: &mut TurnState, step: &Json)
    ensures
        (final(ctx).view(), final(state).view()) == after_tool(
            old(ctx).view(),
            old(state).view(),
            step.view(),
        ),
{
    state.text_part_id = None;
    let ghost report = tool_step(step.view());
    let null = Json::Null;
    let state_name = str_or(step.get_str("state"), "");
    let tool_name = str_or(step.get_str("tool_name"), "tool");
    let info: &Json = match step.get("tool_info") {
        Some(v) => v,
        None => &null,
    };
    let step_index: i64 = match step.get("step_index") {
        Some(v) => match v.as_i64() {
            Some(i) => i,
            None => 0,
        },
        None => 0,
    };
    let call_id = tool_part_id(step_index, tool_name);
    let (tool, input) = normalize_tool(tool_name, info.get("parameters"));
    let output = info.get_str("output");
    let reported: Option<&str> = match info.get("error") {
        Some(e) => error_text(e),
        None => None,
    };
    let error: Option<String> = match reported {
        Some(e) => Some(e.to_owned()),
        None => if text::same_text(state_name, "ERROR") {
            Some("Antigravity tool failed".to_owned())
        } else if text::same_text(state_name, "CANCELED") {
            Some("Antigravity tool was canceled".to_owned())
        } else {
            None
        },
    };
    let terminal = step_is_terminal(state_name) || error.is_some();
    let failed = step_is_failed(state_name) || error.is_some();
    let ghost before = ctx.assistant.parts@;
    match chat::find_part(&ctx.assistant.parts, call_id.as_str()) {
        Some(i) => {
            let part = &mut ctx.assistant.parts[i];
            if let Some(part_state) = &mut part.state {
                update_tool_state(
                    part_state,
                    input,
                    output,
                    &error,
                    terminal,
                    failed,
                    Ghost(report),
                );
            }
            assert(chat::parts_view(ctx.assistant.parts@) =~= with_tool_step(
                chat::parts_view(before),
                report,
            ));
        },
        None => {
            let status = if terminal {
                if failed {
                    "error"
                } else {
                    "completed"
                }
            } else {
                "running"
            };
            let part = WirePart {
                id: call_id,
                kind: "tool".to_owned(),
                text: None,
                tool: Some(tool.to_owned()),
                state: Some(
                    WireToolState {
                        status: status.to_owned(),
                        input,
                        output: match output {
                            Some(o) => Some(o.to_owned()),
                            None => None,
                        },
                        error,
                        title: None,
                    },
                ),
                prompt: None,
                phase: None,
                children: Vec::new(),
            };
            assert(part.view().children =~= Seq::empty());
            assert(part.view() == new_tool_part(report));
            ctx.upsert_part(part);
        },
    }
}

/// Takes in the result of a turn.
fn apply_result(ctx: &mut TurnCtx, state: &mut TurnState, result: &Json)
    ensures
        (final(ctx).view(), final(state).view()) == after_result(
            old(ctx).view(),
            old(state).view(),
            result.view(),
        ),
{
    state.saw_result = true;
    note_conversation(state, result);
    let status = str_or(result.get_str("status"), "INVALID");
    if !text::same_text(status, "SUCCESS") {
        state.turn_errored = true;
        let reported: Option<&str> = match result.get("error") {
            Some(e) => error_text(e),
            None => None,
        };
        let mut message = "Antigravity: ".to_owned();
        message.append(str_or(reported, status));
        ctx.mark_terminal_failure("antigravity_terminal", message);
    } else if let Some(error) = denied_actions_error(result) {
        ctx.mark_delivery(DeliveryState::Accepted);
        state.turn_errored = true;
        ctx.mark_terminal_failure("antigravity_permission_denied", error);
    } else {
        ctx.mark_delivery(DeliveryState::Accepted);
        ctx.mark_final_text_tail();
    }
}

/// The kinds of event have different names.
pub proof fn lemma_event_types()
    ensures
        "init"@ != "result"@,
        "step_update"@ != "result"@,
        "init"@ != "step_update"@,
{
    reveal_strlit("init");
    reveal_strlit("step_update");
    reveal_strlit("result");
    assert("init"@.len() == 4 && "step_update"@.len() == 11 && "result"@.len() == 6);
}

/// Takes an event into a turn, and says whether it was the last one.
pub fn apply_event(ctx: &mut TurnCtx, state: &mut TurnState, event: &Json) -> (r: bool)
    requires
        event_opens_text(old(state).view(), event.view()) ==> old(state).text_seq < usize::MAX,
    ensures
        (final(ctx).view(), final(state).view()) == after_event(
            old(ctx).view(),
            old(state).view(),
            event.view(),
        ),
        r == (event_type(event.view()) == "result"@),
{
    let kind = str_or(event.get_str("event"), "");
    proof {
        lemma_event_types();
    }
    if text::same_text(kind, "init") {
        note_conversation(state, event);
        false
    } else if text::same_text(kind, "step_update") {
        if let Some(step) = event.get("step_update") {
            note_conversation(state, step);
            let step_kind = str_or(step.get_str("step_type"), "");
            if text::same_text(step_kind, "agent_response") {
                apply_response(ctx, state, step);
            } else if text::same_text(step_kind, "tool") {
                apply_tool(ctx, state, step);
            }
        }
        false
    } else if text::same_text(kind, "result") {
        let null = Json::Null;
        let result: &Json = match event.get("result") {
            Some(v) => v,
            None => &null,
        };
        apply_result(ctx, state, result);
        true
    } else {
        false
    }
}

} // verus!
