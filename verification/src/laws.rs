//! What holds of the harness as a whole: of every event, of every sequence of events and of every
//! turn.
use vstd::prelude::*;

use crate::chat::{CtxView, DeliveryState, PartView};
use crate::json::JsonView;
use crate::options::PermissionMode;
use crate::stream::{StateView, ToolStep};
use crate::{chat, command, harness, message_laws, models, stream, text, tools, turn};

verus! {

/// Two text parts have the same id only where they have the same number.
pub proof fn law_text_ids_differ(m: nat, n: nat)
    requires
        stream::text_id(m) == stream::text_id(n),
    ensures
        m == n,
{
    let p = "text-"@;
    assert(text::digits(m) =~= stream::text_id(m).skip(p.len() as int));
    assert(text::digits(n) =~= stream::text_id(n).skip(p.len() as int));
    text::lemma_digits_differ(m, n);
}

/// Two tool steps belong to the same part only where they agree in their index and their tool.
pub proof fn law_tool_ids_differ(i: int, a: Seq<char>, j: int, b: Seq<char>)
    requires
        stream::tool_id(i, a) == stream::tool_id(j, b),
    ensures
        i == j,
        a == b,
{
    reveal_strlit("-");
    let p = "tool-"@;
    let d = text::decimal(i);
    let e = text::decimal(j);
    let s = stream::tool_id(i, a);
    let n = p.len() as int;
    text::lemma_decimal(i);
    text::lemma_decimal(j);
    assert("-"@[0] == '-');
    assert("-"@.len() == 1);
    assert(s[n + d.len()] == '-');
    assert(s[n + e.len()] == '-');
    if d.len() < e.len() {
        assert(s[n + d.len()] == e[d.len() as int]);
    }
    if e.len() < d.len() {
        assert(s[n + e.len()] == d[e.len() as int]);
    }
    assert(d =~= s.subrange(n, n + d.len()));
    assert(e =~= s.subrange(n, n + e.len()));
    text::lemma_decimals_differ(i, j);
    assert(a =~= s.skip(n + d.len() + 1));
    assert(b =~= s.skip(n + e.len() + 1));
}

/// No text part has the id of a tool part.
pub proof fn law_text_and_tool_ids_differ(n: nat, i: int, tool: Seq<char>)
    ensures
        stream::text_id(n) != stream::tool_id(i, tool),
{
    reveal_strlit("text-");
    reveal_strlit("tool-");
    assert("text-"@[1] == 'e' && "tool-"@[1] == 'o');
    assert("text-"@.len() == 5 && "tool-"@.len() == 5);
    assert(stream::text_id(n)[1] == 'e');
    assert(stream::tool_id(i, tool)[1] == 'o');
}

/// A turn after a sequence of events.
pub open spec fn after_events(ctx: CtxView, state: StateView, events: Seq<JsonView>) -> (
    CtxView,
    StateView,
)
    decreases events.len(),
{
    if events.len() == 0 {
        (ctx, state)
    } else {
        let (c, s) = after_events(ctx, state, events.drop_last());
        stream::after_event(c, s, events.last())
    }
}

/// A part is the text part of that number.
pub open spec fn text_entry(part: PartView, n: nat) -> bool {
    &&& part.id == stream::text_id(n)
    &&& part.kind == "text"@
    &&& part.text is Some
    &&& part.tool is None
    &&& part.state is None
    &&& part.prompt is None
    &&& part.children.len() == 0
}

/// A part shows a tool call of that index and tool.
pub open spec fn tool_entry(part: PartView, index: int, name: Seq<char>) -> bool {
    &&& part.id == stream::tool_id(index, name)
    &&& part.kind == "tool"@
    &&& part.text is None
    &&& part.tool is Some
    &&& part.state is Some
    &&& part.prompt is None
    &&& part.children.len() == 0
}

/// A part is one of the first `count` text parts, or shows a tool call.
pub open spec fn streamed_part(part: PartView, count: nat) -> bool {
    ||| exists|n: nat| 1 <= n <= count && #[trigger] text_entry(part, n)
    ||| exists|index: int, name: Seq<char>| #[trigger] tool_entry(part, index, name)
}

/// A message and the state of its stream fit together: every part is a numbered text or a tool
/// call, no two parts have the same id, and the open text part is the one with the last number.
pub open spec fn orderly(parts: Seq<PartView>, state: StateView) -> bool {
    &&& forall|k: int| 0 <= k < parts.len() ==> streamed_part(#[trigger] parts[k], state.text_seq)
    &&& forall|j: int, k: int|
        0 <= j < k < parts.len() ==> (#[trigger] parts[j]).id != (#[trigger] parts[k]).id
    &&& state.text_part_id matches Some(id) ==> id == stream::text_id(state.text_seq)
        && chat::part_index(parts, id) is Some
}

/// A turn begins in order.
pub proof fn law_turns_begin_orderly()
    ensures
        orderly(Seq::empty(), stream::initial_state()),
{
}

/// In an orderly message the id of the next text part is new.
proof fn lemma_next_text_is_new(parts: Seq<PartView>, state: StateView)
    requires
        orderly(parts, state),
    ensures
        forall|k: int|
            0 <= k < parts.len() ==> (#[trigger] parts[k]).id != stream::text_id(
                state.text_seq + 1,
            ),
        chat::part_index(parts, stream::text_id(state.text_seq + 1)) is None,
{
    let id = stream::text_id(state.text_seq + 1);
    assert forall|k: int| 0 <= k < parts.len() implies (#[trigger] parts[k]).id != id by {
        assert(streamed_part(parts[k], state.text_seq));
        if exists|n: nat| 1 <= n <= state.text_seq && #[trigger] text_entry(parts[k], n) {
            let n = choose|n: nat| 1 <= n <= state.text_seq && #[trigger] text_entry(parts[k], n);
            if stream::text_id(n) == id {
                law_text_ids_differ(n, state.text_seq + 1);
            }
        } else {
            let (i, name) = choose|i: int, name: Seq<char>| #[trigger]
                tool_entry(parts[k], i, name);
            law_text_and_tool_ids_differ(state.text_seq + 1, i, name);
        }
    }
    chat::lemma_no_part(parts, id);
}

/// In an orderly message the part that is open for text is the text part of the last number.
proof fn lemma_open_part_is_text(parts: Seq<PartView>, state: StateView)
    requires
        orderly(parts, state),
        state.text_part_id is Some,
    ensures
        chat::part_index(parts, state.text_part_id->0) matches Some(i) && 0 <= i < parts.len()
            && text_entry(parts[i], state.text_seq) && state.text_seq >= 1,
{
    let id = state.text_part_id->0;
    let i = chat::part_index(parts, id)->0;
    assert(chat::first_part(parts, id, i));
    assert(streamed_part(parts[i], state.text_seq));
    if exists|n: nat| 1 <= n <= state.text_seq && #[trigger] text_entry(parts[i], n) {
        let n = choose|n: nat| 1 <= n <= state.text_seq && #[trigger] text_entry(parts[i], n);
        law_text_ids_differ(n, state.text_seq);
    } else {
        let (j, name) = choose|j: int, name: Seq<char>| #[trigger] tool_entry(parts[i], j, name);
        law_text_and_tool_ids_differ(state.text_seq, j, name);
    }
}

/// In an orderly message a part with the id of a tool call shows that call.
proof fn lemma_tool_part_is_tool(
    parts: Seq<PartView>,
    state: StateView,
    index: int,
    name: Seq<char>,
    k: int,
)
    requires
        orderly(parts, state),
        0 <= k < parts.len(),
        parts[k].id == stream::tool_id(index, name),
    ensures
        tool_entry(parts[k], index, name),
{
    assert(streamed_part(parts[k], state.text_seq));
    if exists|n: nat| 1 <= n <= state.text_seq && #[trigger] text_entry(parts[k], n) {
        let n = choose|n: nat| 1 <= n <= state.text_seq && #[trigger] text_entry(parts[k], n);
        law_text_and_tool_ids_differ(n, index, name);
    } else {
        let (j, other) = choose|j: int, other: Seq<char>| #[trigger]
            tool_entry(parts[k], j, other);
        law_tool_ids_differ(j, other, index, name);
    }
}

/// The parts of one message are those of another, with some of them changed otherwise than in
/// their id, kind and tool, and with new ones after them.
pub open spec fn extends(before: Seq<PartView>, after: Seq<PartView>) -> bool {
    &&& before.len() <= after.len()
    &&& forall|k: int|
        0 <= k < before.len() ==> {
            &&& (#[trigger] after[k]).id == before[k].id
            &&& after[k].kind == before[k].kind
            &&& after[k].tool == before[k].tool
        }
}

/// An event leaves an orderly message orderly, and every part in its place.
pub proof fn law_events_keep_order(ctx: CtxView, state: StateView, event: JsonView)
    requires
        orderly(ctx.parts, state),
    ensures
        orderly(
            stream::after_event(ctx, state, event).0.parts,
            stream::after_event(ctx, state, event).1,
        ),
        extends(ctx.parts, stream::after_event(ctx, state, event).0.parts),
{
    let (after, next) = stream::after_event(ctx, state, event);
    let parts = ctx.parts;
    stream::lemma_event_types();
    if stream::event_type(event) == "step_update"@ && event.member("step_update"@) is Some {
        let step = event.member("step_update"@)->0;
        let known = StateView {
            conversation_id: stream::noted_conversation(state.conversation_id, step),
            ..state
        };
        if stream::step_type(step) == "agent_response"@ {
            let delta = stream::step_delta(step);
            if delta.len() > 0 {
                match state.text_part_id {
                    Some(id) => {
                        lemma_open_part_is_text(parts, state);
                        let i = chat::part_index(parts, id)->0;
                        let changed = chat::extended(parts[i], delta);
                        assert(after.parts == parts.update(i, changed));
                        assert(text_entry(changed, state.text_seq));
                        lemma_changed_part(parts, state, next, i, changed);
                    },
                    None => {
                        lemma_next_text_is_new(parts, state);
                        let added = chat::text_part(stream::text_id(state.text_seq + 1), delta);
                        assert(after.parts == parts.push(added));
                        assert(text_entry(added, (state.text_seq + 1) as nat));
                        lemma_added_part(parts, state, next, added);
                    },
                }
            }
        } else if stream::step_type(step) == "tool"@ {
            let report = stream::tool_step(step);
            let name = stream::text_or(step.member_text("tool_name"@), "tool"@);
            let index = match step.member_or_null("step_index"@).integer() {
                Some(i) => i as int,
                None => 0,
            };
            match chat::part_index(parts, report.call_id) {
                Some(i) => {
                    assert(chat::first_part(parts, report.call_id, i));
                    lemma_tool_part_is_tool(parts, state, index, name, i);
                    let changed = PartView {
                        state: Some(stream::updated_tool(parts[i].state->0, report)),
                        ..parts[i]
                    };
                    assert(after.parts == parts.update(i, changed));
                    assert(tool_entry(changed, index, name));
                    lemma_changed_part(parts, state, next, i, changed);
                },
                None => {
                    let added = stream::new_tool_part(report);
                    assert(after.parts == parts.push(added));
                    assert(tool_entry(added, index, name));
                    assert forall|k: int| 0 <= k < parts.len() implies (#[trigger] parts[k]).id
                        != added.id by {
                        chat::lemma_first_exists(parts, added.id, k);
                    }
                    lemma_added_part(parts, state, next, added);
                },
            }
        }
    }
}

/// Changing a part otherwise than in its id keeps a message orderly.
proof fn lemma_changed_part(
    parts: Seq<PartView>,
    state: StateView,
    next: StateView,
    i: int,
    changed: PartView,
)
    requires
        orderly(parts, state),
        0 <= i < parts.len(),
        changed.id == parts[i].id,
        streamed_part(changed, state.text_seq),
        next.text_seq == state.text_seq,
        next.text_part_id is None || next.text_part_id == state.text_part_id,
    ensures
        orderly(parts.update(i, changed), next),
{
    let after = parts.update(i, changed);
    assert forall|k: int| 0 <= k < after.len() implies streamed_part(
        #[trigger] after[k],
        next.text_seq,
    ) by {
        if k != i {
            assert(after[k] == parts[k]);
        }
    }
    assert forall|j: int, k: int| 0 <= j < k < after.len() implies (#[trigger] after[j]).id != (
    #[trigger] after[k]).id by {
        assert(after[j].id == parts[j].id && after[k].id == parts[k].id);
    }
    if next.text_part_id is Some {
        let id = next.text_part_id->0;
        let p = chat::part_index(parts, id)->0;
        assert(chat::first_part(parts, id, p));
        assert(after[p].id == id);
        chat::lemma_first_exists(after, id, p);
    }
}

/// Adding a part under a new id keeps a message orderly.
proof fn lemma_added_part(
    parts: Seq<PartView>,
    state: StateView,
    next: StateView,
    added: PartView,
)
    requires
        orderly(parts, state),
        streamed_part(added, next.text_seq),
        forall|k: int| 0 <= k < parts.len() ==> (#[trigger] parts[k]).id != added.id,
        next.text_seq >= state.text_seq,
        next.text_part_id is None || (next.text_part_id == Some(added.id) && added.id
            == stream::text_id(next.text_seq)),
    ensures
        orderly(parts.push(added), next),
{
    let after = parts.push(added);
    assert forall|k: int| 0 <= k < after.len() implies streamed_part(
        #[trigger] after[k],
        next.text_seq,
    ) by {
        if k < parts.len() {
            assert(after[k] == parts[k]);
            assert(streamed_part(parts[k], state.text_seq));
        }
    }
    assert forall|j: int, k: int| 0 <= j < k < after.len() implies (#[trigger] after[j]).id != (
    #[trigger] after[k]).id by {
        assert(after[j] == parts[j]);
    }
    if next.text_part_id is Some {
        chat::lemma_first_exists(after, added.id, parts.len() as int);
    }
}

/// Events leave an orderly message orderly, however many they are; so the messages that they build
/// up from nothing are.
pub proof fn law_streamed_messages_are_orderly(
    ctx: CtxView,
    state: StateView,
    events: Seq<JsonView>,
)
    requires
        orderly(ctx.parts, state),
    ensures
        orderly(
            after_events(ctx, state, events).0.parts,
            after_events(ctx, state, events).1,
        ),
        extends(ctx.parts, after_events(ctx, state, events).0.parts),
    decreases events.len(),
{
    if events.len() > 0 {
        law_streamed_messages_are_orderly(ctx, state, events.drop_last());
        let (c, s) = after_events(ctx, state, events.drop_last());
        law_events_keep_order(c, s, events.last());
    }
}

/// An event is a step of the agent's response that does not end it.
pub open spec fn response_goes_on(event: JsonView) -> bool {
    &&& event.member("step_update"@) matches Some(step)
    &&& message_laws::step_of(event, "agent_response"@, step)
    &&& !message_laws::over(step)
}

/// The texts that some events bring, as they were sent, one after the other.
pub open spec fn added_text(events: Seq<JsonView>) -> Seq<char>
    decreases events.len(),
{
    if events.len() == 0 {
        Seq::empty()
    } else {
        added_text(events.drop_last()) + match events.last().member_or_null(
            "step_update"@,
        ).member("text_delta"@) {
            Some(JsonView::Text(t)) => t,
            _ => Seq::empty(),
        }
    }
}

/// What the agent says in a row stands in one text part after the parts that were there: its text
/// is what the steps added, one after the other.
pub proof fn law_streamed_text_is_joined(
    ctx: CtxView,
    state: StateView,
    events: Seq<JsonView>,
)
    requires
        orderly(ctx.parts, state),
        state.text_part_id is None,
        forall|k: int| 0 <= k < events.len() ==> response_goes_on(#[trigger] events[k]),
    ensures
        added_text(events).len() == 0 ==> after_events(ctx, state, events).0.parts == ctx.parts
            && after_events(ctx, state, events).1.text_part_id is None && after_events(
            ctx,
            state,
            events,
        ).1.text_seq == state.text_seq,
        added_text(events).len() > 0 ==> after_events(ctx, state, events).0.parts
            == ctx.parts.push(
            chat::text_part(stream::text_id(state.text_seq + 1), added_text(events)),
        ) && after_events(ctx, state, events).1.text_part_id == Some(
            stream::text_id(state.text_seq + 1),
        ) && after_events(ctx, state, events).1.text_seq == state.text_seq + 1,
    decreases events.len(),
{
    if events.len() > 0 {
        let before = events.drop_last();
        assert forall|k: int| 0 <= k < before.len() implies response_goes_on(
            #[trigger] before[k],
        ) by {
            assert(before[k] == events[k]);
        }
        law_streamed_text_is_joined(ctx, state, before);
        let event = events.last();
        assert(response_goes_on(events[events.len() - 1]));
        let step = event.member("step_update"@)->0;
        let delta = stream::step_delta(step);
        let (c, s) = after_events(ctx, state, before);
        message_laws::lemma_names();
        assert(""@ =~= Seq::<char>::empty());
        let id = stream::text_id(state.text_seq + 1);
        lemma_next_text_is_new(ctx.parts, state);
        assert(added_text(events) == added_text(before) + delta);
        if added_text(before).len() == 0 {
            assert(added_text(before) + delta =~= delta);
        } else if delta.len() == 0 {
            assert(added_text(before) + delta =~= added_text(before));
        } else {
            let part = chat::text_part(id, added_text(before));
            let place = ctx.parts.len() as int;
            assert(c.parts == ctx.parts.push(part));
            assert(chat::first_part(c.parts, id, place)) by {
                assert forall|j: int| 0 <= j < place implies (#[trigger] c.parts[j]).id != id by {
                    assert(c.parts[j] == ctx.parts[j]);
                }
            }
            chat::lemma_first_part(c.parts, id, place);
            assert(c.parts.update(place, chat::extended(part, delta)) =~= ctx.parts.push(
                chat::text_part(id, added_text(events)),
            ));
        }
    }
}

/// A step that ends the agent's response, and every tool step, closes the open text part: what
/// the agent says next stands in a part of its own.
pub proof fn law_text_parts_close(ctx: CtxView, state: StateView, event: JsonView)
    requires
        stream::event_type(event) == "step_update"@,
        event.member("step_update"@) matches Some(step) && (stream::step_type(step) == "tool"@ || (
        stream::step_type(step) == "agent_response"@ && stream::terminal_step(
            stream::step_state(step),
        ))),
    ensures
        stream::after_event(ctx, state, event).1.text_part_id is None,
{
    stream::lemma_event_types();
    reveal_strlit("tool");
    reveal_strlit("agent_response");
    assert("tool"@.len() == 4 && "agent_response"@.len() == 14);
}

/// A tool call keeps what a step does not report: its input where the step brings none, and its
/// status, output and error where the step does not end it.
pub proof fn law_tool_steps_keep_the_rest(state: chat::ToolStateView, step: ToolStep)
    ensures
        step.input is None ==> stream::updated_tool(state, step).input == state.input,
        !step.terminal ==> stream::updated_tool(state, step) == (chat::ToolStateView {
            input: stream::updated_tool(state, step).input,
            ..state
        }),
        step.output is None ==> stream::updated_tool(state, step).output == state.output,
        stream::updated_tool(state, step).title == state.title,
{
}

/// A tool step that brings no parameters brings no input.
pub proof fn law_no_parameters_no_input(step: JsonView)
    requires
        step.member_or_null("tool_info"@).member("parameters"@) is None,
    ensures
        stream::tool_step(step).input is None,
{
}

/// A tool call that fails or is canceled ends, with an error to show, even where the agent sends
/// none; and one for which the agent sends an error ends with it, whatever state it is in.
pub proof fn law_failed_tools_end(step: JsonView)
    ensures
        stream::failed_step(stream::step_state(step)) ==> stream::tool_step(step).terminal
            && stream::tool_step(step).failed && stream::tool_step(step).error is Some,
        stream::member_error(step.member_or_null("tool_info"@)) is Some ==> stream::tool_step(
            step,
        ).terminal && stream::tool_step(step).failed && stream::tool_step(step).error
            == stream::member_error(step.member_or_null("tool_info"@)),
        stream::tool_step(step).failed <==> stream::tool_step(step).error is Some,
{
}

/// After a tool step the message has a part for the call, and every part of another id is as it
/// was. Where the call has ended, its part says so.
pub proof fn law_tool_steps_touch_one_part(parts: Seq<PartView>, step: ToolStep)
    ensures
        chat::part_index(stream::with_tool_step(parts, step), step.call_id) matches Some(i) && 0
            <= i < stream::with_tool_step(parts, step).len() && ((step.terminal && (
        chat::part_index(parts, step.call_id) matches Some(j) ==> parts[j].state is Some))
            ==> (stream::with_tool_step(parts, step)[i].state matches Some(s) && s.status
            == stream::end_status(step))),
        stream::with_tool_step(parts, step).len() >= parts.len(),
        forall|k: int|
            0 <= k < parts.len() && (#[trigger] parts[k]).id != step.call_id
                ==> stream::with_tool_step(parts, step)[k] == parts[k],
{
    let after = stream::with_tool_step(parts, step);
    let id = step.call_id;
    match chat::part_index(parts, id) {
        Some(i) => {
            assert(chat::first_part(parts, id, i));
            assert(chat::first_part(after, id, i)) by {
                assert forall|j: int| 0 <= j < i implies (#[trigger] after[j]).id != id by {
                    assert(parts[j].id != id);
                }
            }
            chat::lemma_first_part(after, id, i);
        },
        None => {
            let i = parts.len() as int;
            assert(chat::first_part(after, id, i)) by {
                assert forall|j: int| 0 <= j < i implies (#[trigger] after[j]).id != id by {
                    chat::lemma_first_exists(parts, id, j);
                    assert(after[j] == parts[j]);
                }
            }
            chat::lemma_first_part(after, id, i);
        },
    }
}

/// A result other than success never finishes the answer: the turn counts as failed, the failure
/// is on record, and the message and its delivery stay as they were.
pub proof fn law_only_success_finishes(ctx: CtxView, state: StateView, result: JsonView)
    requires
        stream::result_status(result) != "SUCCESS"@,
    ensures
        stream::after_result(ctx, state, result).0 == (CtxView {
            failure: stream::result_failure(result),
            ..ctx
        }),
        stream::after_result(ctx, state, result).0.failure is Some,
        stream::after_result(ctx, state, result).1.turn_errored,
        stream::after_result(ctx, state, result).1.saw_result,
{
}

/// Denied actions do not discard an answer: a successful result that has one finishes it.
pub proof fn law_denials_keep_an_answer(ctx: CtxView, state: StateView, result: JsonView)
    requires
        stream::result_status(result) == "SUCCESS"@,
        stream::has_response(result),
    ensures
        stream::denial(result) is None,
        stream::after_result(ctx, state, result).0.final_text_marked,
        stream::after_result(ctx, state, result).1.turn_errored == state.turn_errored,
{
}

/// A success without an answer, for which actions were denied, is a failed turn whose message was
/// taken.
pub proof fn law_denials_without_an_answer_fail(
    ctx: CtxView,
    state: StateView,
    result: JsonView,
)
    requires
        stream::result_status(result) == "SUCCESS"@,
        !stream::has_response(result),
        result.member_or_null("denied_actions"@).items() matches Some(actions) && actions.len()
            > 0,
    ensures
        stream::denial(result) is Some,
        stream::after_result(ctx, state, result).0.final_text_marked == ctx.final_text_marked,
        stream::after_result(ctx, state, result).0.failure is Some,
        stream::after_result(ctx, state, result).0.delivery == DeliveryState::Accepted,
        stream::after_result(ctx, state, result).1.turn_errored,
{
}

/// A turn and the state of its stream agree on how it went: a result was seen exactly where the
/// answer was finished or the turn failed, and it failed exactly where a failure is on record.
pub open spec fn judged(ctx: CtxView, state: StateView) -> bool {
    &&& state.saw_result <==> ctx.final_text_marked || state.turn_errored
    &&& state.turn_errored <==> ctx.failure is Some
}

/// Events keep a turn and the state of its stream in agreement on how it went.
pub proof fn law_verdicts_agree(ctx: CtxView, state: StateView, events: Seq<JsonView>)
    requires
        judged(ctx, state),
    ensures
        judged(after_events(ctx, state, events).0, after_events(ctx, state, events).1),
    decreases events.len(),
{
    if events.len() > 0 {
        law_verdicts_agree(ctx, state, events.drop_last());
        let (c, s) = after_events(ctx, state, events.drop_last());
        lemma_verdict(c, s, events.last());
    }
}

proof fn lemma_verdict(ctx: CtxView, state: StateView, event: JsonView)
    requires
        judged(ctx, state),
    ensures
        judged(
            stream::after_event(ctx, state, event).0,
            stream::after_event(ctx, state, event).1,
        ),
{
}

/// What an event can change of a turn: the message, its delivery, and how it went. What the user
/// asked for stays as it was, and so does what was once found out: the conversation id stays
/// known, a delivery stays confirmed, and a result or a failure stays seen.
pub proof fn law_events_take_nothing_back(ctx: CtxView, state: StateView, event: JsonView)
    ensures
        stream::after_event(ctx, state, event).0 == (CtxView {
            parts: stream::after_event(ctx, state, event).0.parts,
            delivery: stream::after_event(ctx, state, event).0.delivery,
            failure: stream::after_event(ctx, state, event).0.failure,
            final_text_marked: stream::after_event(ctx, state, event).0.final_text_marked,
            ..ctx
        }),
        state.conversation_id is Some ==> stream::after_event(
            ctx,
            state,
            event,
        ).1.conversation_id is Some,
        ctx.delivery == DeliveryState::Accepted ==> stream::after_event(ctx, state, event).0.delivery
            == DeliveryState::Accepted,
        state.saw_result ==> stream::after_event(ctx, state, event).1.saw_result,
        state.turn_errored ==> stream::after_event(ctx, state, event).1.turn_errored,
        state.text_seq <= stream::after_event(ctx, state, event).1.text_seq <= state.text_seq + 1,
        ctx.final_text_marked ==> stream::after_event(ctx, state, event).0.final_text_marked,
        ctx.failure is Some ==> stream::after_event(ctx, state, event).0.failure is Some,
{
}

/// A conversation id is never empty.
pub proof fn law_conversation_ids_are_not_empty(
    ctx: CtxView,
    state: StateView,
    events: Seq<JsonView>,
)
    requires
        state.conversation_id matches Some(id) ==> id.len() > 0,
    ensures
        after_events(ctx, state, events).1.conversation_id matches Some(id) ==> id.len() > 0,
    decreases events.len(),
{
    if events.len() > 0 {
        law_conversation_ids_are_not_empty(ctx, state, events.drop_last());
    }
}

/// Events of an unknown kind, steps without content and steps of an unknown kind leave the
/// message as it was; the first two change nothing at all.
pub proof fn law_unknown_events_are_passed_over(ctx: CtxView, state: StateView, event: JsonView)
    ensures
        stream::event_type(event) != "init"@ && stream::event_type(event) != "step_update"@
            && stream::event_type(event) != "result"@ ==> stream::after_event(ctx, state, event)
            == (ctx, state),
        stream::event_type(event) == "step_update"@ && event.member("step_update"@) is None
            ==> stream::after_event(ctx, state, event) == (ctx, state),
        stream::event_type(event) == "step_update"@ && (event.member("step_update"@) matches Some(
            step,
        ) && stream::step_type(step) != "agent_response"@ && stream::step_type(step) != "tool"@)
            ==> stream::after_event(ctx, state, event).0 == ctx,
{
    stream::lemma_event_types();
}

/// Only the result changes how a turn went, and it leaves the message as it was.
pub proof fn law_only_the_result_judges(ctx: CtxView, state: StateView, event: JsonView)
    ensures
        stream::event_type(event) != "result"@ ==> stream::after_event(ctx, state, event).0
            == (CtxView { parts: stream::after_event(ctx, state, event).0.parts, ..ctx })
            && stream::after_event(ctx, state, event).1.saw_result == state.saw_result
            && stream::after_event(ctx, state, event).1.turn_errored == state.turn_errored,
        stream::event_type(event) == "result"@ ==> stream::after_event(ctx, state, event).0.parts
            == ctx.parts && stream::after_event(ctx, state, event).1.saw_result,
{
    stream::lemma_event_types();
}

/// What a turn makes of an event is what the stream makes of it, but for the delivery that a step
/// confirms and the conversation id that the next turn will name.
pub proof fn law_turns_follow_the_stream(ctx: CtxView, state: StateView, event: JsonView)
    ensures
        turn::after_event(ctx, state, event).1 == stream::after_event(ctx, state, event).1,
        turn::after_event(ctx, state, event).0 == (CtxView {
            delivery: turn::after_event(ctx, state, event).0.delivery,
            native_session_id: turn::after_event(ctx, state, event).0.native_session_id,
            ..stream::after_event(ctx, state, event).0
        }),
{
    stream::lemma_event_types();
}

/// A line that is no JSON changes nothing, and the turn goes on.
pub proof fn law_noise_is_passed_over(ctx: CtxView, state: StateView, line: Seq<char>, wait: nat)
    ensures
        turn::after_output(ctx, state, turn::OutputView::Line(line), None) == (ctx, state),
        turn::next_after(turn::OutputView::Line(line), None, wait) == (turn::NextView::Read {
            flush: false,
        }),
{
}

/// Whether the agent's output is read no further after this.
pub open spec fn stops(output: turn::OutputView) -> bool {
    !(turn::next_after(output, turn::output_event(output), 0) is Read)
}

/// Whether an output is a line that is no JSON.
pub open spec fn noise(output: turn::OutputView) -> bool {
    output is Line && turn::output_event(output) is None
}

/// A turn after the agent's output, which is read until its result, its end or a failure.
pub open spec fn after_outputs(
    ctx: CtxView,
    state: StateView,
    outputs: Seq<turn::OutputView>,
) -> (CtxView, StateView)
    decreases outputs.len(),
{
    if outputs.len() == 0 {
        (ctx, state)
    } else {
        let (c, s) = turn::after_output(
            ctx,
            state,
            outputs[0],
            turn::output_event(outputs[0]),
        );
        if stops(outputs[0]) {
            (c, s)
        } else {
            after_outputs(c, s, outputs.drop_first())
        }
    }
}

/// What counts of the agent's output: no line that is no JSON, and nothing after its result, its
/// end or a failure.
pub open spec fn what_counts(outputs: Seq<turn::OutputView>) -> Seq<turn::OutputView>
    decreases outputs.len(),
{
    if outputs.len() == 0 {
        Seq::empty()
    } else if stops(outputs[0]) {
        seq![outputs[0]]
    } else if noise(outputs[0]) {
        what_counts(outputs.drop_first())
    } else {
        seq![outputs[0]] + what_counts(outputs.drop_first())
    }
}

/// The events that the agent's output brings, up to its result, its end or a failure.
pub open spec fn events_of(outputs: Seq<turn::OutputView>) -> Seq<JsonView>
    decreases outputs.len(),
{
    if outputs.len() == 0 {
        Seq::empty()
    } else {
        let first = match turn::output_event(outputs[0]) {
            Some(event) => seq![event],
            None => seq![],
        };
        if stops(outputs[0]) {
            first
        } else {
            first + events_of(outputs.drop_first())
        }
    }
}

/// What to tell the user where the agent's output could not be read to its end.
pub open spec fn read_failure(outputs: Seq<turn::OutputView>, wait: nat) -> Option<Seq<char>>
    decreases outputs.len(),
{
    if outputs.len() == 0 {
        None
    } else if stops(outputs[0]) {
        match turn::next_after(outputs[0], turn::output_event(outputs[0]), wait) {
            turn::NextView::Fail(message) => Some(message),
            _ => None,
        }
    } else {
        read_failure(outputs.drop_first(), wait)
    }
}

/// A turn from the first output of the agent to the end of its process: what becomes of it, and
/// how it ends.
pub open spec fn whole_turn(
    ctx: CtxView,
    outputs: Seq<turn::OutputView>,
    wait: nat,
    success: bool,
    status: Seq<char>,
    log_path: Seq<char>,
) -> (CtxView, Result<bool, Seq<char>>) {
    let (told, state) = after_outputs(ctx, stream::initial_state(), outputs);
    match read_failure(outputs, wait) {
        Some(message) => (told, Err(message)),
        None => (
            turn::after_ending(told, state, success),
            turn::turn_ending(state, success, status, log_path),
        ),
    }
}

/// A turn after a sequence of events, with what they show of its delivery and its conversation.
pub open spec fn after_turn_events(
    ctx: CtxView,
    state: StateView,
    events: Seq<JsonView>,
) -> (CtxView, StateView)
    decreases events.len(),
{
    if events.len() == 0 {
        (ctx, state)
    } else {
        let (c, s) = turn::after_event(ctx, state, events[0]);
        after_turn_events(c, s, events.drop_first())
    }
}

/// The agent's output makes of a turn what its events make of it, one after the other.
pub proof fn law_outputs_are_their_events(
    ctx: CtxView,
    state: StateView,
    outputs: Seq<turn::OutputView>,
)
    ensures
        after_outputs(ctx, state, outputs) == after_turn_events(ctx, state, events_of(outputs)),
    decreases outputs.len(),
{
    if outputs.len() > 0 {
        let rest = outputs.drop_first();
        let (c, s) = turn::after_output(
            ctx,
            state,
            outputs[0],
            turn::output_event(outputs[0]),
        );
        match turn::output_event(outputs[0]) {
            Some(event) => {
                let tail = if stops(outputs[0]) {
                    Seq::empty()
                } else {
                    events_of(rest)
                };
                assert(events_of(outputs) =~= seq![event] + tail);
                assert(events_of(outputs).drop_first() =~= tail);
                if stops(outputs[0]) {
                    assert(after_turn_events(c, s, tail) == (c, s));
                } else {
                    law_outputs_are_their_events(c, s, rest);
                }
            },
            None => {
                if !stops(outputs[0]) {
                    assert(events_of(outputs) =~= events_of(rest));
                    law_outputs_are_their_events(ctx, state, rest);
                }
            },
        }
    }
}

/// Dropping what does not count changes neither the events of the agent's output nor how reading
/// it fails.
proof fn lemma_what_counts(outputs: Seq<turn::OutputView>, wait: nat)
    ensures
        events_of(what_counts(outputs)) == events_of(outputs),
        read_failure(what_counts(outputs), wait) == read_failure(outputs, wait),
    decreases outputs.len(),
{
    if outputs.len() > 0 {
        let kept = what_counts(outputs);
        let rest = outputs.drop_first();
        if stops(outputs[0]) {
            assert(kept[0] == outputs[0]);
        } else {
            lemma_what_counts(rest, wait);
            if noise(outputs[0]) {
                assert(events_of(outputs) =~= events_of(rest));
            } else {
                assert(kept[0] == outputs[0]);
                assert(kept.drop_first() =~= what_counts(rest));
            }
        }
    }
}

/// Lines that are no JSON, and whatever follows the result, do not count: two outputs that agree
/// without them bring the same events in the same order, and leave a turn and its stream in the
/// same state.
pub proof fn law_only_events_up_to_the_result_count(
    ctx: CtxView,
    state: StateView,
    a: Seq<turn::OutputView>,
    b: Seq<turn::OutputView>,
)
    requires
        what_counts(a) == what_counts(b),
    ensures
        events_of(a) == events_of(b),
        after_outputs(ctx, state, a) == after_outputs(ctx, state, b),
{
    lemma_what_counts(a, 0);
    lemma_what_counts(b, 0);
    law_outputs_are_their_events(ctx, state, a);
    law_outputs_are_their_events(ctx, state, b);
}

/// Two runs of a turn whose outputs agree but for lines that are no JSON and whatever follows the
/// result, and whose processes end alike, make the same of the turn and agree on whether it went
/// well, wherever their logs stand. Where the logs stand in the same place, they end the same way.
pub proof fn law_runs_that_say_the_same_end_alike(
    ctx: CtxView,
    a: Seq<turn::OutputView>,
    b: Seq<turn::OutputView>,
    wait: nat,
    success: bool,
    status: Seq<char>,
    log_a: Seq<char>,
    log_b: Seq<char>,
)
    requires
        what_counts(a) == what_counts(b),
    ensures
        whole_turn(ctx, a, wait, success, status, log_a).0 == whole_turn(
            ctx,
            b,
            wait,
            success,
            status,
            log_b,
        ).0,
        whole_turn(ctx, a, wait, success, status, log_a).1 is Ok <==> whole_turn(
            ctx,
            b,
            wait,
            success,
            status,
            log_b,
        ).1 is Ok,
        log_a == log_b ==> whole_turn(ctx, a, wait, success, status, log_a) == whole_turn(
            ctx,
            b,
            wait,
            success,
            status,
            log_b,
        ),
{
    lemma_what_counts(a, wait);
    lemma_what_counts(b, wait);
    law_only_events_up_to_the_result_count(ctx, stream::initial_state(), a, b);
}

/// A turn whose output has a step in it ends with its message confirmed as taken.
pub proof fn law_an_output_with_a_step_confirms_delivery(
    ctx: CtxView,
    state: StateView,
    outputs: Seq<turn::OutputView>,
)
    requires
        ctx.delivery == DeliveryState::Accepted || exists|k: int|
            0 <= k < events_of(outputs).len() && stream::event_type(
                #[trigger] events_of(outputs)[k],
            ) == "step_update"@,
    ensures
        after_outputs(ctx, state, outputs).0.delivery == DeliveryState::Accepted,
{
    law_outputs_are_their_events(ctx, state, outputs);
    lemma_steps_confirm_delivery(ctx, state, events_of(outputs));
}

proof fn lemma_steps_confirm_delivery(ctx: CtxView, state: StateView, events: Seq<JsonView>)
    requires
        ctx.delivery == DeliveryState::Accepted || exists|k: int|
            0 <= k < events.len() && stream::event_type(#[trigger] events[k])
                == "step_update"@,
    ensures
        after_turn_events(ctx, state, events).0.delivery == DeliveryState::Accepted,
    decreases events.len(),
{
    if events.len() > 0 {
        let (c, s) = turn::after_event(ctx, state, events[0]);
        let rest = events.drop_first();
        law_steps_confirm_delivery(ctx, state, events[0]);
        if c.delivery != DeliveryState::Accepted {
            let k = choose|k: int|
                0 <= k < events.len() && stream::event_type(#[trigger] events[k])
                    == "step_update"@;
            assert(k > 0);
            assert(rest[k - 1] == events[k]);
        }
        lemma_steps_confirm_delivery(c, s, rest);
    }
}

/// The agent's output leaves an orderly message orderly, and every part in its place.
pub proof fn law_outputs_keep_order(
    ctx: CtxView,
    state: StateView,
    outputs: Seq<turn::OutputView>,
)
    requires
        orderly(ctx.parts, state),
    ensures
        orderly(
            after_outputs(ctx, state, outputs).0.parts,
            after_outputs(ctx, state, outputs).1,
        ),
        extends(ctx.parts, after_outputs(ctx, state, outputs).0.parts),
    decreases outputs.len(),
{
    if outputs.len() > 0 {
        let (c, s) = turn::after_output(
            ctx,
            state,
            outputs[0],
            turn::output_event(outputs[0]),
        );
        if let Some(event) = turn::output_event(outputs[0]) {
            law_turns_follow_the_stream(ctx, state, event);
            law_events_keep_order(ctx, state, event);
        }
        if !stops(outputs[0]) {
            law_outputs_keep_order(c, s, outputs.drop_first());
        }
    }
}

/// Every step shows that the user's message was taken, and no event takes that back.
pub proof fn law_steps_confirm_delivery(ctx: CtxView, state: StateView, event: JsonView)
    ensures
        stream::event_type(event) == "step_update"@ || ctx.delivery == DeliveryState::Accepted
            ==> turn::after_event(ctx, state, event).0.delivery == DeliveryState::Accepted,
{
    stream::lemma_event_types();
}

/// The conversation goes on: once the events have brought its id, the next turn names it to the
/// agent and sends the user's message as it is.
pub proof fn law_the_next_turn_resumes(
    ctx: CtxView,
    state: StateView,
    event: JsonView,
    next: CtxView,
)
    requires
        turn::after_event(ctx, state, event).1.conversation_id is Some,
        next.native_session_id == turn::after_event(ctx, state, event).0.native_session_id,
    ensures
        next.native_session_id == turn::after_event(ctx, state, event).1.conversation_id,
        command::sent_message(next) == next.text,
        exists|k: int|
            0 <= k && k + 1 < command::turn_arguments(next).len() && #[trigger]
            command::turn_arguments(next)[k] == "--conversation"@ && command::turn_arguments(
                next,
            )[k + 1] == next.native_session_id->0,
{
    let args = command::turn_arguments(next);
    let k = args.len() - 3;
    assert(args[k] == "--conversation"@);
    assert(args[k + 1] == next.native_session_id->0);
}

/// The message comes last on the command line, and the first one of a conversation begins by
/// pointing at the playbook.
pub proof fn law_the_message_comes_last(ctx: CtxView)
    ensures
        command::turn_arguments(ctx).len() > 0,
        command::turn_arguments(ctx).last() == "--print="@ + command::sent_message(ctx),
        ctx.native_session_id is None ==> command::sent_message(ctx) == command::opening_prompt(
            ctx.text,
        ),
        ctx.native_session_id is Some ==> command::sent_message(ctx) == ctx.text,
{
}

/// Confirmation prompts are skipped only in the mode that says so, and never by a turn that only
/// plans; a turn that only plans runs in plan mode, whatever it may do.
pub proof fn law_bypass_is_explicit(mode: Option<PermissionMode>, plan: bool)
    ensures
        command::permission_flags(mode, plan).contains("--dangerously-skip-permissions"@) <==> mode
            == Some(PermissionMode::Bypass) && !plan,
        command::permission_flags(mode, true) == seq!["--mode=plan"@],
        command::permission_flags(mode, plan).len() == 0 <==> !plan && mode != Some(
            PermissionMode::AcceptEdits,
        ) && mode != Some(PermissionMode::Bypass),
{
    reveal_strlit("--dangerously-skip-permissions");
    reveal_strlit("--mode=plan");
    reveal_strlit("--mode=accept-edits");
    let skip = "--dangerously-skip-permissions"@;
    assert(skip.len() == 30 && "--mode=plan"@.len() == 11 && "--mode=accept-edits"@.len() == 19);
    let flags = command::permission_flags(mode, plan);
    if mode == Some(PermissionMode::Bypass) && !plan {
        assert(flags[1] == skip);
    }
}

/// A model of the catalog has an id that can be named on a command line, which is not the one that
/// stands for no choice; a name to show is not empty.
pub proof fn law_catalog_models_are_usable(lines: Seq<Seq<char>>)
    ensures
        forall|k: int|
            0 <= k < models::line_models(lines).len() ==> models::model_id(
                (#[trigger] models::line_models(lines)[k]).id,
            ) && (models::line_models(lines)[k].display_name matches Some(name) ==> name.len() > 0),
    decreases lines.len(),
{
    if lines.len() > 0 {
        let rest = models::line_models(lines.drop_first());
        law_catalog_models_are_usable(lines.drop_first());
        let all = models::line_models(lines);
        assert forall|k: int| 0 <= k < all.len() implies models::model_id((#[trigger] all[k]).id)
            && (all[k].display_name matches Some(name) ==> name.len() > 0) by {
            if models::line_model(lines[0]) is Some {
                if k > 0 {
                    assert(all[k] == rest[k - 1]);
                }
            } else {
                assert(all[k] == rest[k]);
            }
        }
    }
}

/// Announcements and blank lines list no model.
pub proof fn law_banners_list_nothing(line: Seq<char>)
    requires
        models::banner(text::trim(line)) || text::blank(line),
    ensures
        models::line_model(line) is None,
{
    if text::blank(line) {
        text::lemma_blank_is_trimmed_empty(line);
    }
}

/// The catalog of two texts, one below the other, is the one catalog after the other.
pub proof fn law_catalogs_add_up(above: Seq<char>, below: Seq<char>)
    ensures
        models::catalog(above + seq!['\n'] + below) == models::catalog(above) + models::catalog(
            below,
        ),
{
    lemma_lines_add_up(above, below);
    lemma_line_models_add_up(models::lines(above), models::lines(below));
}

proof fn lemma_line_end_bounds(s: Seq<char>)
    ensures
        models::line_end(s) <= s.len(),
        forall|i: int| 0 <= i < models::line_end(s) ==> #[trigger] s[i] != '\n',
        models::line_end(s) < s.len() ==> s[models::line_end(s) as int] == '\n',
    decreases s.len(),
{
    if s.len() > 0 && s[0] != '\n' {
        let rest = s.drop_first();
        lemma_line_end_bounds(rest);
        assert forall|i: int| 0 <= i < models::line_end(s) implies #[trigger] s[i] != '\n' by {
            if i > 0 {
                assert(rest[i - 1] == s[i]);
            }
        }
    }
}

proof fn lemma_lines_add_up(above: Seq<char>, below: Seq<char>)
    ensures
        models::lines(above + seq!['\n'] + below) == models::lines(above) + models::lines(below),
    decreases above.len(),
{
    let s = above + seq!['\n'] + below;
    let end = models::line_end(above) as int;
    lemma_line_end_bounds(above);
    assert forall|i: int| 0 <= i < end implies #[trigger] s[i] != '\n' by {
        assert(s[i] == above[i]);
    }
    assert(s[end] == '\n');
    models::lemma_line_end(s, end);
    assert(s.take(end) =~= above.take(end));
    if end == above.len() {
        assert(s.skip(end + 1) =~= below);
        assert(above.take(end) =~= above);
    } else {
        let rest = above.skip(end + 1);
        assert(s.skip(end + 1) =~= rest + seq!['\n'] + below);
        lemma_lines_add_up(rest, below);
        assert(models::lines(s) =~= models::lines(above) + models::lines(below));
    }
}

proof fn lemma_line_models_add_up(a: Seq<Seq<char>>, b: Seq<Seq<char>>)
    ensures
        models::line_models(a + b) == models::line_models(a) + models::line_models(b),
    decreases a.len(),
{
    if a.len() == 0 {
        assert(a + b =~= b);
        assert(models::line_models(a) + models::line_models(b) =~= models::line_models(b));
    } else {
        lemma_line_models_add_up(a.drop_first(), b);
        assert((a + b).drop_first() =~= a.drop_first() + b);
        assert(models::line_models(a + b) =~= models::line_models(a) + models::line_models(b));
    }
}

/// The input that is shown has everything that the agent sent under its own name, and what was
/// sent under a name with an alias also under the alias; nothing else is added or changed.
pub proof fn law_shown_input_adds_aliases(
    name: Seq<char>,
    members: Map<Seq<char>, JsonView>,
    key: Seq<char>,
)
    ensures
        ({
            let aliases = tools::tool_table(name).1;
            let shown = tools::with_aliases(members, aliases);
            &&& forall|k: int|
                0 <= k < aliases.len() && members.contains_key((#[trigger] aliases[k]).0)
                    ==> shown.contains_key(aliases[k].1) && shown[aliases[k].1]
                    == members[aliases[k].0]
            &&& (forall|k: int| 0 <= k < aliases.len() ==> (#[trigger] aliases[k]).1 != key)
                ==> shown.contains_key(key) == members.contains_key(key) && shown[key]
                == members[key]
        }),
{
    let aliases = tools::tool_table(name).1;
    lemma_alias_names();
    reveal_with_fuel(tools::with_aliases, 3);
    assert(aliases.len() <= 2);
    if aliases.len() == 1 {
        assert(aliases.last() == aliases[0]);
        assert(aliases.drop_last().len() == 0);
    } else if aliases.len() == 2 {
        assert(aliases.last() == aliases[1]);
        assert(aliases.drop_last().last() == aliases[0]);
        assert(aliases.drop_last().drop_last().len() == 0);
    }
}

proof fn lemma_alias_names()
    ensures
        "file_path"@ != "content"@,
        "file_path"@ != "CodeContent"@,
        "pattern"@ != "path"@,
        "pattern"@ != "SearchPath"@,
        "pattern"@ != "SearchDirectory"@,
{
    reveal_strlit("file_path");
    reveal_strlit("content");
    reveal_strlit("CodeContent");
    reveal_strlit("pattern");
    reveal_strlit("path");
    reveal_strlit("SearchPath");
    reveal_strlit("SearchDirectory");
    assert("file_path"@.len() == 9 && "content"@.len() == 7 && "CodeContent"@.len() == 11);
    assert("pattern"@.len() == 7 && "path"@.len() == 4 && "SearchPath"@.len() == 10
        && "SearchDirectory"@.len() == 15);
}

/// An agent that is not ready has a note that says why; one that is ready is installed, runs and
/// knows its user.
pub proof fn law_an_agent_that_is_not_ready_says_why(
    info: harness::InfoView,
    catalog: Option<Result<Seq<models::ModelView>, Seq<char>>>,
    broken_note: Seq<char>,
)
    ensures
        !harness::detected(info, catalog, broken_note).agent_ready ==> harness::detected(
            info,
            catalog,
            broken_note,
        ).agent_note is Some,
        harness::detected(info, catalog, broken_note).agent_ready ==> harness::detected(
            info,
            catalog,
            broken_note,
        ).installed && !harness::detected(info, catalog, broken_note).install_broken
            && harness::detected(info, catalog, broken_note).authenticated,
{
}

/// An agent whose program was looked for is ready exactly where the program was found, runs and
/// listed its models; it then offers those.
pub proof fn law_ready_agents_list_their_models(
    bin: Option<Seq<char>>,
    runs: bool,
    catalog: Result<Seq<models::ModelView>, Seq<char>>,
    broken_note: Seq<char>,
)
    ensures
        ({
            let start = harness::unknown_info("antigravity"@, "Google Antigravity"@);
            let info = match bin {
                Some(b) => harness::recorded(start, b, runs),
                None => start,
            };
            let found = harness::detected(info, Some(catalog), broken_note);
            &&& found.agent_ready <==> bin is Some && runs && catalog is Ok
            &&& found.agent_ready ==> found.models == catalog->Ok_0 && found.auth_state
                == harness::HarnessAuthState::Ready && found.agent_note is None
            &&& found.installed == bin is Some
        }),
{
}

/// A plan card has an id that no streamed part has.
proof fn lemma_card_id_is_new(parts: Seq<PartView>, state: StateView, assistant_id: Seq<char>)
    requires
        orderly(parts, state),
    ensures
        chat::part_index(parts, "plan-synth-"@ + assistant_id) is None,
{
    let id = "plan-synth-"@ + assistant_id;
    reveal_strlit("plan-synth-");
    reveal_strlit("text-");
    reveal_strlit("tool-");
    assert("plan-synth-"@[0] == 'p' && "text-"@[0] == 't' && "tool-"@[0] == 't');
    assert("plan-synth-"@.len() == 11 && "text-"@.len() == 5 && "tool-"@.len() == 5);
    assert(id[0] == 'p');
    assert forall|k: int| 0 <= k < parts.len() implies (#[trigger] parts[k]).id != id by {
        assert(streamed_part(parts[k], state.text_seq));
        if exists|n: nat| 1 <= n <= state.text_seq && #[trigger] text_entry(parts[k], n) {
            let n = choose|n: nat| 1 <= n <= state.text_seq && #[trigger] text_entry(parts[k], n);
            assert(stream::text_id(n)[0] == 't');
        } else {
            let (i, name) = choose|i: int, name: Seq<char>| #[trigger]
                tool_entry(parts[k], i, name);
            assert(stream::tool_id(i, name)[0] == 't');
        }
    }
    chat::lemma_no_part(parts, id);
}

/// A turn that only plans and went well ends with one card, after everything else, that puts the
/// last thing said to the user; ending it again changes nothing.
pub proof fn law_plans_end_with_one_card(ctx: CtxView, state: StateView)
    requires
        orderly(ctx.parts, state),
        ctx.plan_mode,
        state.saw_result,
        !state.turn_errored,
    ensures
        turn::last_text(ctx.parts) matches Some(content) ==> turn::after_ending(
            ctx,
            state,
            true,
        ).parts == ctx.parts.push(
            chat::prompt_part(
                "plan-synth-"@ + ctx.assistant_id,
                chat::PromptView { kind: "plan"@, plan: Some(content), synthesized: true },
            ),
        ),
        turn::last_text(ctx.parts) is None ==> turn::after_ending(ctx, state, true) == ctx,
        turn::after_ending(turn::after_ending(ctx, state, true), state, true)
            == turn::after_ending(ctx, state, true),
{
    lemma_last_text_is_not_blank(ctx.parts);
    lemma_card_id_is_new(ctx.parts, state, ctx.assistant_id);
    if turn::last_text(ctx.parts) is Some {
        let card = turn::plan_part(ctx.parts, ctx.assistant_id)->0;
        let once = turn::after_ending(ctx, state, true);
        let place = ctx.parts.len() as int;
        assert(once.parts == ctx.parts.push(card));
        assert(once.parts.drop_last() =~= ctx.parts);
        reveal_strlit("prompt");
        reveal_strlit("text");
        assert("prompt"@.len() == 6 && "text"@.len() == 4);
        assert(turn::last_text(once.parts) == turn::last_text(ctx.parts));
        assert(chat::first_part(once.parts, card.id, place)) by {
            assert forall|j: int| 0 <= j < place implies (#[trigger] once.parts[j]).id
                != card.id by {
                chat::lemma_first_exists(ctx.parts, card.id, j);
                assert(once.parts[j] == ctx.parts[j]);
            }
        }
        chat::lemma_first_part(once.parts, card.id, place);
        assert(once.parts.update(place, card) =~= once.parts);
    }
}

proof fn lemma_last_text_is_not_blank(parts: Seq<PartView>)
    ensures
        turn::last_text(parts) matches Some(content) ==> !text::blank(content),
    decreases parts.len(),
{
    if parts.len() > 0 && !turn::shows_text(parts.last()) {
        lemma_last_text_is_not_blank(parts.drop_last());
    }
}

/// A turn whose result was seen never ends for want of one; where the agent reported a failure,
/// its log stays and no card is added, whatever its process returned.
pub proof fn law_reported_failures_end_in_order(
    ctx: CtxView,
    state: StateView,
    success: bool,
    status: Seq<char>,
    log_path: Seq<char>,
)
    requires
        state.saw_result,
        state.turn_errored,
    ensures
        turn::turn_ending(state, success, status, log_path) == Ok::<bool, Seq<char>>(false),
        turn::after_ending(ctx, state, success) == ctx,
{
}

} // verus!
