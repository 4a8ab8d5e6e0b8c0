//! What holds of the assistant message and of the events that build it up.
use vstd::prelude::*;

use crate::chat::{
    CtxView, DeliveryState, FailureView, PartView, PromptView, ToolStateView, TurnCtx, WirePart,
    WirePrompt, WireToolState,
};
use crate::json::JsonView;
use crate::stream::{StateView, TurnState};
use crate::{chat, json, stream, text, text_laws, tools};

verus! {

/// Position `i` holds the first part of that id.
pub open spec fn first_at(parts: Seq<PartView>, id: Seq<char>, i: int) -> bool {
    &&& 0 <= i < parts.len()
    &&& parts[i].id == id
    &&& forall|j: int| 0 <= j < i ==> (#[trigger] parts[j]).id != id
}

/// No part has that id.
pub open spec fn absent(parts: Seq<PartView>, id: Seq<char>) -> bool {
    forall|j: int| 0 <= j < parts.len() ==> (#[trigger] parts[j]).id != id
}

/// A part is found by its id: the first one that has it, where there is one.
pub proof fn law_parts_are_found_by_id(parts: Seq<PartView>, id: Seq<char>, i: int)
    ensures
        first_at(parts, id, i) ==> chat::part_index(parts, id) == Some(i),
        absent(parts, id) ==> chat::part_index(parts, id) is None,
{
    if first_at(parts, id, i) {
        assert(chat::first_part(parts, id, i));
        chat::lemma_first_part(parts, id, i);
    }
    if absent(parts, id) {
        chat::lemma_no_part(parts, id);
    }
}

/// A part takes the place of the first part of its id, and comes last where there is none; every
/// other part stays.
pub proof fn law_parts_take_their_place(parts: Seq<PartView>, part: PartView, i: int)
    ensures
        first_at(parts, part.id, i) ==> chat::upsert(parts, part) == parts.update(i, part),
        absent(parts, part.id) ==> chat::upsert(parts, part) == parts.push(part),
{
    law_parts_are_found_by_id(parts, part.id, i);
}

/// Added text goes to the end of the text of the first part of that id, letter by letter, and
/// changes nothing else; where there is no such part, nothing changes.
pub proof fn law_added_text_comes_last(
    parts: Seq<PartView>,
    id: Seq<char>,
    delta: Seq<char>,
    i: int,
)
    ensures
        first_at(parts, id, i) && parts[i].text is Some ==> chat::append_text(parts, id, delta)
            == parts.update(i, PartView { text: Some(parts[i].text->0 + delta), ..parts[i] }),
        first_at(parts, id, i) && parts[i].text is None ==> chat::append_text(parts, id, delta)
            == parts.update(i, PartView { text: Some(delta), ..parts[i] }),
        absent(parts, id) ==> chat::append_text(parts, id, delta) == parts,
{
    law_parts_are_found_by_id(parts, id, i);
}

/// A text part has its id, its kind and its text, and a prompt its id, its kind and its question;
/// neither has anything else.
pub proof fn law_new_parts_hold_one_thing(id: Seq<char>, content: Seq<char>, prompt: PromptView)
    ensures
        chat::text_part(id, content) == (PartView {
            id,
            kind: "text"@,
            text: Some(content),
            tool: None,
            state: None,
            prompt: None,
            phase: None,
            children: Seq::empty(),
        }),
        chat::prompt_part(id, prompt) == (PartView {
            id,
            kind: "prompt"@,
            text: None,
            tool: None,
            state: None,
            prompt: Some(prompt),
            phase: None,
            children: Seq::empty(),
        }),
{
}

/// A part is shown with everything that it holds.
pub proof fn law_parts_are_shown(
    part: WirePart,
    parts: Seq<WirePart>,
    tool: WireToolState,
    prompt: WirePrompt,
)
    ensures
        part.view().id == part.id@,
        part.view().kind == part.kind@,
        part.view().text == text::opt_text(part.text),
        part.view().tool == text::opt_text(part.tool),
        part.view().phase == text::opt_text(part.phase),
        part.view().state is Some <==> part.state is Some,
        part.state is Some ==> part.view().state == Some(part.state->0.view()),
        part.view().prompt is Some <==> part.prompt is Some,
        part.prompt is Some ==> part.view().prompt == Some(part.prompt->0.view()),
        part.view().children.len() == part.children@.len(),
        forall|i: int|
            0 <= i < part.children@.len() ==> #[trigger] part.view().children[i]
                == part.children@[i].view(),
        chat::parts_view(parts).len() == parts.len(),
        forall|i: int|
            0 <= i < parts.len() ==> #[trigger] chat::parts_view(parts)[i] == parts[i].view(),
        tool.view().status == tool.status@,
        tool.view().input == json::opt_json(tool.input),
        tool.view().output == text::opt_text(tool.output),
        tool.view().error == text::opt_text(tool.error),
        tool.view().title == text::opt_text(tool.title),
        prompt.view().kind == prompt.kind@,
        prompt.view().plan == text::opt_text(prompt.plan),
        prompt.view().synthesized == prompt.synthesized,
{
}

/// A turn, and what its events have shown, are shown with everything that they hold.
pub proof fn law_turns_are_shown(ctx: TurnCtx, state: TurnState)
    ensures
        ctx.view().session_id == ctx.session_id@,
        ctx.view().native_session_id == text::opt_text(ctx.native_session_id),
        ctx.view().text == ctx.text@,
        ctx.view().model == text::opt_text(ctx.model),
        ctx.view().reasoning_level == text::opt_text(ctx.reasoning_level),
        ctx.view().permission_mode == ctx.permission_mode,
        ctx.view().plan_mode == ctx.plan_mode,
        ctx.view().assistant_id == ctx.assistant.id@,
        ctx.view().parts == chat::parts_view(ctx.assistant.parts@),
        ctx.view().delivery == ctx.delivery,
        ctx.view().failure is Some <==> ctx.failure is Some,
        ctx.failure matches Some(f) ==> ctx.view().failure == Some(
            FailureView { code: f.code@, message: f.message@ },
        ),
        ctx.view().final_text_marked == ctx.final_text_marked,
        state.view().conversation_id == text::opt_text(state.conversation_id),
        state.view().text_part_id == text::opt_text(state.text_part_id),
        state.view().text_seq == state.text_seq,
        state.view().saw_result == state.saw_result,
        state.view().turn_errored == state.turn_errored,
{
}

/// Before the first event nothing is known, nothing is open and nothing is counted.
pub proof fn law_streams_begin_with_nothing()
    ensures
        stream::initial_state().conversation_id is None,
        stream::initial_state().text_part_id is None,
        stream::initial_state().text_seq == 0,
        !stream::initial_state().saw_result,
        !stream::initial_state().turn_errored,
{
}

/// An event is a step of that kind, and this is what it says.
pub open spec fn step_of(event: JsonView, kind: Seq<char>, step: JsonView) -> bool {
    &&& event.member_text("event"@) == Some("step_update"@)
    &&& event.member("step_update"@) == Some(step)
    &&& step.member_text("step_type"@) == Some(kind)
}

/// The agent says that a step did not succeed.
pub open spec fn broke_off(step: JsonView) -> bool {
    step.member_text("state"@) == Some("ERROR"@) || step.member_text("state"@) == Some("CANCELED"@)
}

/// The agent says that a step is over.
pub open spec fn over(step: JsonView) -> bool {
    step.member_text("state"@) == Some("DONE"@) || broke_off(step)
}

/// The error that comes with a value: a text, or an object with a text for its message.
pub open spec fn payload(value: JsonView) -> Option<Seq<char>> {
    match value.member("error"@) {
        Some(JsonView::Text(t)) => Some(t),
        Some(JsonView::Object(members)) => if members.contains_key("message"@)
            && members["message"@] is Text {
            Some(members["message"@]->Text_0)
        } else {
            None
        },
        _ => None,
    }
}

/// The conversation id that is known after a value.
pub open spec fn known_after(known: Option<Seq<char>>, value: JsonView) -> Option<Seq<char>> {
    match value.member("conversation_id"@) {
        Some(JsonView::Text(id)) => if id == Seq::<char>::empty() {
            known
        } else {
            Some(id)
        },
        _ => known,
    }
}

/// The names that events, steps and states go by are different from each other.
pub proof fn lemma_names()
    ensures
        ""@.len() == 0,
        "init"@.len() == 4,
        "step_update"@.len() == 11,
        "result"@.len() == 6,
        "agent_response"@.len() == 14,
        "tool"@.len() == 4,
        "DONE"@.len() == 4,
        "ERROR"@.len() == 5,
        "CANCELED"@.len() == 8,
        "SUCCESS"@.len() == 7,
        "INVALID"@.len() == 7,
        "SUCCESS"@ != "INVALID"@,
{
    reveal_strlit("");
    reveal_strlit("init");
    reveal_strlit("step_update");
    reveal_strlit("result");
    reveal_strlit("agent_response");
    reveal_strlit("tool");
    reveal_strlit("DONE");
    reveal_strlit("ERROR");
    reveal_strlit("CANCELED");
    reveal_strlit("SUCCESS");
    reveal_strlit("INVALID");
    assert("SUCCESS"@[0] == 'S' && "INVALID"@[0] == 'I');
}

proof fn lemma_conversation(known: Option<Seq<char>>, value: JsonView)
    ensures
        stream::noted_conversation(known, value) == known_after(known, value),
{
    if let Some(JsonView::Text(id)) = value.member("conversation_id"@) {
        assert(id.len() == 0 <==> id =~= Seq::<char>::empty());
    }
}

/// A step in one of three states is over, and in two of them it did not succeed.
pub proof fn law_steps_end_in_three_ways(state: Seq<char>)
    ensures
        stream::terminal_step(state) <==> state == "DONE"@ || state == "ERROR"@ || state
            == "CANCELED"@,
        stream::failed_step(state) <==> state == "ERROR"@ || state == "CANCELED"@,
{
}

/// What the agent says is shown as it was sent: a step of its response adds its text, exactly, to
/// the end of the text part that is open, or begins the text part of the next number with it. A
/// step without text adds nothing. The part stays open until a step says that it is over. Nothing
/// else of the turn changes.
pub proof fn law_responses_are_shown_as_sent(
    ctx: CtxView,
    state: StateView,
    event: JsonView,
    step: JsonView,
    i: int,
)
    requires
        step_of(event, "agent_response"@, step),
    ensures
        ({
            let (after, next) = stream::after_event(ctx, state, event);
            let sent = step.member_text("text_delta"@);
            let new_id = "text-"@ + text::digits(state.text_seq + 1);
            &&& sent is None || sent->0.len() == 0 ==> {
                &&& after == ctx
                &&& next.text_seq == state.text_seq
                &&& !over(step) ==> next.text_part_id == state.text_part_id
            }
            &&& sent is Some && sent->0.len() > 0 && state.text_part_id is Some ==> {
                let id = state.text_part_id->0;
                &&& first_at(ctx.parts, id, i) && ctx.parts[i].text is Some ==> after.parts
                    == ctx.parts.update(
                    i,
                    PartView { text: Some(ctx.parts[i].text->0 + sent->0), ..ctx.parts[i] },
                )
                &&& first_at(ctx.parts, id, i) && ctx.parts[i].text is None ==> after.parts
                    == ctx.parts.update(i, PartView { text: sent, ..ctx.parts[i] })
                &&& absent(ctx.parts, id) ==> after.parts == ctx.parts
                &&& next.text_seq == state.text_seq
                &&& !over(step) ==> next.text_part_id == Some(id)
            }
            &&& sent is Some && sent->0.len() > 0 && state.text_part_id is None ==> {
                let part = PartView {
                    id: new_id,
                    kind: "text"@,
                    text: sent,
                    tool: None,
                    state: None,
                    prompt: None,
                    phase: None,
                    children: Seq::empty(),
                };
                &&& absent(ctx.parts, new_id) ==> after.parts == ctx.parts.push(part)
                &&& first_at(ctx.parts, new_id, i) ==> after.parts == ctx.parts.update(i, part)
                &&& next.text_seq == state.text_seq + 1
                &&& !over(step) ==> next.text_part_id == Some(new_id)
            }
            &&& over(step) ==> next.text_part_id is None
            &&& after == (CtxView { parts: after.parts, ..ctx })
            &&& next == (StateView {
                conversation_id: known_after(state.conversation_id, step),
                text_part_id: next.text_part_id,
                text_seq: next.text_seq,
                ..state
            })
        }),
{
    lemma_names();
    lemma_conversation(state.conversation_id, step);
    law_parts_are_found_by_id(ctx.parts, "text-"@ + text::digits(state.text_seq + 1), i);
    if state.text_part_id is Some {
        law_parts_are_found_by_id(ctx.parts, state.text_part_id->0, i);
    }
}

/// A tool step is about that call of that tool: the index and the name that it gives, or zero and
/// `tool` where it gives none.
pub open spec fn about(step: JsonView, index: int, tool_name: Seq<char>) -> bool {
    &&& match step.member("step_index"@) {
        Some(JsonView::Number { integer: Some(n), .. }) => index == n,
        _ => index == 0,
    }
    &&& match step.member("tool_name"@) {
        Some(JsonView::Text(t)) => tool_name == t,
        _ => tool_name == "tool"@,
    }
}

/// What comes with a tool step: null where nothing does.
pub open spec fn info_of(step: JsonView) -> JsonView {
    match step.member("tool_info"@) {
        Some(info) => info,
        None => JsonView::Null,
    }
}

/// The error that a tool step shows: the one that comes with it, or what its state says.
pub open spec fn shown_error(step: JsonView) -> Option<Seq<char>> {
    if payload(info_of(step)) is Some {
        payload(info_of(step))
    } else if step.member_text("state"@) == Some("ERROR"@) {
        Some("Antigravity tool failed"@)
    } else if step.member_text("state"@) == Some("CANCELED"@) {
        Some("Antigravity tool was canceled"@)
    } else {
        None
    }
}

/// A tool step ends its call: it is over, or an error comes with it.
pub open spec fn ends_call(step: JsonView) -> bool {
    over(step) || payload(info_of(step)) is Some
}

/// A tool step makes its call a failed one.
pub open spec fn fails_call(step: JsonView) -> bool {
    broke_off(step) || payload(info_of(step)) is Some
}

/// What a tool step says of a call that is shown already goes into its part. A step that ends the
/// call gives it its status, and its output and its error where there are any, whether it failed
/// or not; a step that does not end it leaves these alone. An input is replaced only by another
/// one. Every other part stays, and the open text part is closed.
pub proof fn law_tool_steps_report_to_their_call(
    ctx: CtxView,
    state: StateView,
    event: JsonView,
    step: JsonView,
    index: int,
    tool_name: Seq<char>,
    i: int,
)
    requires
        step_of(event, "tool"@, step),
        about(step, index, tool_name),
        first_at(ctx.parts, "tool-"@ + text::decimal(index) + "-"@ + tool_name, i),
    ensures
        ({
            let (after, next) = stream::after_event(ctx, state, event);
            let told = after.parts[i].state;
            &&& after == (CtxView { parts: after.parts, ..ctx })
            &&& after.parts == ctx.parts.update(i, PartView { state: told, ..ctx.parts[i] })
            &&& ctx.parts[i].state is None ==> told is None
            &&& ctx.parts[i].state matches Some(was) ==> {
                &&& told is Some
                &&& told->0.title == was.title
                &&& info_of(step).member("parameters"@) is None ==> told->0.input == was.input
                &&& info_of(step).member("parameters"@) is Some ==> told->0.input is Some
                    && told->0.input == tools::shown_input(
                    info_of(step).member("parameters"@),
                    tools::tool_table(tool_name).1,
                )
                &&& !ends_call(step) ==> told->0.status == was.status && told->0.output
                    == was.output && told->0.error == was.error
                &&& ends_call(step) && fails_call(step) ==> told->0.status == "error"@
                &&& ends_call(step) && !fails_call(step) ==> told->0.status == "completed"@
                &&& ends_call(step) && info_of(step).member_text("output"@) is Some
                    ==> told->0.output == info_of(step).member_text("output"@)
                &&& ends_call(step) && info_of(step).member_text("output"@) is None
                    ==> told->0.output == was.output
                &&& ends_call(step) && shown_error(step) is Some ==> told->0.error
                    == shown_error(step)
                &&& ends_call(step) && shown_error(step) is None ==> told->0.error == was.error
            }
            &&& next == (StateView {
                conversation_id: known_after(state.conversation_id, step),
                text_part_id: None,
                ..state
            })
        }),
{
    lemma_names();
    lemma_conversation(state.conversation_id, step);
    let id = "tool-"@ + text::decimal(index) + "-"@ + tool_name;
    law_parts_are_found_by_id(ctx.parts, id, i);
    let (after, _) = stream::after_event(ctx, state, event);
    assert(stream::tool_step(step).call_id == id);
    assert(after.parts =~= ctx.parts.update(
        i,
        PartView { state: after.parts[i].state, ..ctx.parts[i] },
    ));
}

/// A tool step of a call that is not shown yet adds a part for it after all others, with what the
/// step says: the call runs until a step ends it.
pub proof fn law_new_tool_calls_come_last(
    ctx: CtxView,
    state: StateView,
    event: JsonView,
    step: JsonView,
    index: int,
    tool_name: Seq<char>,
)
    requires
        step_of(event, "tool"@, step),
        about(step, index, tool_name),
        absent(ctx.parts, "tool-"@ + text::decimal(index) + "-"@ + tool_name),
    ensures
        ({
            let (after, next) = stream::after_event(ctx, state, event);
            let added = after.parts.last();
            &&& after == (CtxView { parts: ctx.parts.push(added), ..ctx })
            &&& added.id == "tool-"@ + text::decimal(index) + "-"@ + tool_name
            &&& added.kind == "tool"@
            &&& added.text is None
            &&& added.tool == Some(tools::tool_table(tool_name).0)
            &&& added.prompt is None
            &&& added.phase is None
            &&& added.children.len() == 0
            &&& added.state is Some
            &&& !ends_call(step) ==> added.state->0.status == "running"@
            &&& ends_call(step) && fails_call(step) ==> added.state->0.status == "error"@
            &&& ends_call(step) && !fails_call(step) ==> added.state->0.status == "completed"@
            &&& info_of(step).member("parameters"@) is None <==> added.state->0.input is None
            &&& added.state->0.input == tools::shown_input(
                info_of(step).member("parameters"@),
                tools::tool_table(tool_name).1,
            )
            &&& added.state->0.output == info_of(step).member_text("output"@)
            &&& added.state->0.error == shown_error(step)
            &&& added.state->0.title is None
            &&& next == (StateView {
                conversation_id: known_after(state.conversation_id, step),
                text_part_id: None,
                ..state
            })
        }),
{
    lemma_names();
    lemma_conversation(state.conversation_id, step);
    let id = "tool-"@ + text::decimal(index) + "-"@ + tool_name;
    law_parts_are_found_by_id(ctx.parts, id, 0);
    let (after, _) = stream::after_event(ctx, state, event);
    assert(stream::tool_step(step).call_id == id);
    assert(after.parts == ctx.parts.push(after.parts.last()));
}

/// Steps of any other kind, and steps without a kind, change nothing but the conversation id; a
/// step that says nothing changes nothing at all.
pub proof fn law_other_steps_leave_the_message(ctx: CtxView, state: StateView, event: JsonView)
    requires
        event.member_text("event"@) == Some("step_update"@),
    ensures
        event.member("step_update"@) is None ==> stream::after_event(ctx, state, event) == (
            ctx,
            state,
        ),
        event.member("step_update"@) matches Some(step) ==> (step.member_text("step_type"@)
            != Some("agent_response"@) && step.member_text("step_type"@) != Some("tool"@)
            ==> stream::after_event(ctx, state, event) == (
            ctx,
            StateView { conversation_id: known_after(state.conversation_id, step), ..state },
        )),
{
    lemma_names();
    if let Some(step) = event.member("step_update"@) {
        lemma_conversation(state.conversation_id, step);
    }
}

/// The first event of a stream changes nothing but the conversation id, and events of an unknown
/// kind, or of none, change nothing at all.
pub proof fn law_other_events_leave_the_turn(ctx: CtxView, state: StateView, event: JsonView)
    ensures
        event.member_text("event"@) == Some("init"@) ==> stream::after_event(ctx, state, event) == (
            ctx,
            StateView { conversation_id: known_after(state.conversation_id, event), ..state },
        ),
        event.member_text("event"@) != Some("init"@) && event.member_text("event"@) != Some(
            "step_update"@,
        ) && event.member_text("event"@) != Some("result"@) ==> stream::after_event(
            ctx,
            state,
            event,
        ) == (ctx, state),
        stream::event_type(event) == "result"@ <==> event.member_text("event"@) == Some("result"@),
        stream::event_type(event) == "step_update"@ <==> event.member_text("event"@) == Some(
            "step_update"@,
        ),
{
    lemma_names();
    lemma_conversation(state.conversation_id, event);
}

/// What a result event says: null where it says nothing.
pub open spec fn result_of(event: JsonView) -> JsonView {
    match event.member("result"@) {
        Some(result) => result,
        None => JsonView::Null,
    }
}

/// A result has an answer: a text with something in it besides white space.
pub open spec fn answers(result: JsonView) -> bool {
    match result.member("response"@) {
        Some(JsonView::Text(t)) => exists|i: int|
            0 <= i < t.len() && !text_laws::space_code(#[trigger] t[i] as int),
        _ => false,
    }
}

/// A result names actions that were denied.
pub open spec fn denies(result: JsonView) -> bool {
    match result.member("denied_actions"@) {
        Some(JsonView::Array(actions)) => actions.len() > 0,
        _ => false,
    }
}

proof fn lemma_answers(result: JsonView)
    ensures
        answers(result) <==> stream::has_response(result),
{
    if let Some(JsonView::Text(t)) = result.member("response"@) {
        text_laws::law_blank_texts_say_nothing(t);
    }
}

/// Every result leaves the message as it is, is noted, and may bring the conversation id. A result
/// other than success fails the turn, with the error that comes with it, or else with its status,
/// and confirms nothing.
pub proof fn law_failed_results_say_why(
    ctx: CtxView,
    state: StateView,
    event: JsonView,
)
    requires
        event.member_text("event"@) == Some("result"@),
        result_of(event).member_text("status"@) != Some("SUCCESS"@),
    ensures
        ({
            let result = result_of(event);
            let (after, next) = stream::after_event(ctx, state, event);
            let reason = if payload(result) is Some {
                payload(result)->0
            } else if result.member_text("status"@) is Some {
                result.member_text("status"@)->0
            } else {
                "INVALID"@
            };
            &&& after == (CtxView {
                failure: Some(
                    FailureView {
                        code: "antigravity_terminal"@,
                        message: "Antigravity: "@ + reason,
                    },
                ),
                ..ctx
            })
            &&& next == (StateView {
                conversation_id: known_after(state.conversation_id, result),
                saw_result: true,
                turn_errored: true,
                ..state
            })
        }),
{
    lemma_names();
    lemma_conversation(state.conversation_id, result_of(event));
}

/// A success with an answer, or for which nothing was denied, finishes the answer; the message was
/// taken.
pub proof fn law_successes_finish_the_answer(ctx: CtxView, state: StateView, event: JsonView)
    requires
        event.member_text("event"@) == Some("result"@),
        result_of(event).member_text("status"@) == Some("SUCCESS"@),
        answers(result_of(event)) || !denies(result_of(event)),
    ensures
        stream::after_event(ctx, state, event) == (
            CtxView { delivery: DeliveryState::Accepted, final_text_marked: true, ..ctx },
            StateView {
                conversation_id: known_after(state.conversation_id, result_of(event)),
                saw_result: true,
                ..state
            },
        ),
{
    lemma_names();
    lemma_conversation(state.conversation_id, result_of(event));
    lemma_answers(result_of(event));
}

/// A success without an answer, for which actions were denied, fails the turn although the message
/// was taken; the reason names the actions, as far as they have names, with commas between them.
pub proof fn law_denials_fail_the_turn(
    ctx: CtxView,
    state: StateView,
    event: JsonView,
    actions: Seq<JsonView>,
)
    requires
        event.member_text("event"@) == Some("result"@),
        result_of(event).member_text("status"@) == Some("SUCCESS"@),
        !answers(result_of(event)),
        result_of(event).member("denied_actions"@) == Some(JsonView::Array(actions)),
        actions.len() > 0,
    ensures
        ({
            let names = stream::action_names(actions);
            stream::after_event(ctx, state, event) == (
                CtxView {
                    delivery: DeliveryState::Accepted,
                    failure: Some(
                        FailureView {
                            code: "antigravity_permission_denied"@,
                            message: if names.len() == 0 {
                                "Antigravity denied one or more required actions"@
                            } else {
                                "Antigravity denied required action(s): "@ + text::joined(
                                    names,
                                    ", "@,
                                )
                            },
                        },
                    ),
                    ..ctx
                },
                StateView {
                    conversation_id: known_after(state.conversation_id, result_of(event)),
                    saw_result: true,
                    turn_errored: true,
                    ..state
                },
            )
        }),
{
    lemma_names();
    lemma_conversation(state.conversation_id, result_of(event));
    lemma_answers(result_of(event));
}

/// Denied actions count against a result exactly where it names some and has no answer; the reason
/// then names them, as far as they have names.
pub proof fn law_answers_excuse_denials(result: JsonView)
    ensures
        stream::denial(result) is Some <==> !answers(result) && denies(result),
        result.member("denied_actions"@) matches Some(JsonView::Array(actions)) ==> (!answers(
            result,
        ) && actions.len() > 0 ==> stream::denial(result) == Some(
            if stream::action_names(actions).len() == 0 {
                "Antigravity denied one or more required actions"@
            } else {
                "Antigravity denied required action(s): "@ + text::joined(
                    stream::action_names(actions),
                    ", "@,
                )
            },
        )),
{
    lemma_answers(result);
}

/// The names of denied actions stand in the order of the actions: an action is named as it is
/// displayed, or, where nothing is said of that, as the action that it is; one without such a
/// name is left out.
pub proof fn law_denied_actions_are_named(
    action: JsonView,
    above: Seq<JsonView>,
    below: Seq<JsonView>,
)
    ensures
        stream::action_names(Seq::empty()).len() == 0,
        stream::action_names(seq![action]) == match action.member("display_name"@) {
            Some(JsonView::Text(shown)) => seq![shown],
            Some(_) => seq![],
            None => match action.member("action"@) {
                Some(JsonView::Text(plain)) => seq![plain],
                _ => seq![],
            },
        },
        stream::action_names(above + below) == stream::action_names(above) + stream::action_names(
            below,
        ),
    decreases below.len(),
{
    let one = seq![action];
    assert(one.drop_last() =~= Seq::empty());
    assert(one.last() == action);
    assert(stream::action_names(one.drop_last()) =~= Seq::empty());
    assert(stream::action_names(one) =~= match stream::action_name(action) {
        Some(n) => seq![n],
        None => seq![],
    });
    if below.len() == 0 {
        assert(above + below =~= above);
        assert(stream::action_names(above) + stream::action_names(below) =~= stream::action_names(
            above,
        ));
    } else {
        law_denied_actions_are_named(action, above, below.drop_last());
        assert((above + below).drop_last() =~= above + below.drop_last());
        assert((above + below).last() == below.last());
        assert(stream::action_names(above + below) =~= stream::action_names(above)
            + stream::action_names(below));
    }
}

/// An error is the text that it is, or the text of its message.
pub proof fn law_errors_are_texts_or_have_one(value: JsonView)
    ensures
        value matches JsonView::Text(t) ==> stream::error_message(value) == Some(t),
        !(value is Text) ==> stream::error_message(value) == value.member_text("message"@),
{
}

} // verus!
