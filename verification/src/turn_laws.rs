//! What holds of a turn from the first line of the agent's output to its end.
use vstd::prelude::*;

use crate::chat::{CtxView, DeliveryState, PartView};
use crate::json::JsonView;
use crate::stream::StateView;
use crate::turn::{Next, NextView, Output, OutputView};
use crate::{chat, json, log, message_laws, stream, text, text_laws, turn};

verus! {

/// A part says something: it is a text with something in it besides white space.
pub open spec fn says_something(part: PartView) -> bool {
    &&& part.kind == "text"@
    &&& part.text matches Some(content)
    &&& exists|i: int| 0 <= i < content.len() && !text_laws::space_code(#[trigger] content[i] as int)
}

/// Position `k` holds the last part that says something.
pub open spec fn last_said(parts: Seq<PartView>, k: int) -> bool {
    &&& 0 <= k < parts.len()
    &&& says_something(parts[k])
    &&& forall|j: int| k < j < parts.len() ==> !says_something(#[trigger] parts[j])
}

proof fn lemma_says_something(part: PartView)
    ensures
        says_something(part) <==> turn::shows_text(part),
{
    if part.text is Some {
        text_laws::law_blank_texts_say_nothing(part.text->0);
    }
}

proof fn lemma_last_text(parts: Seq<PartView>, k: int)
    ensures
        last_said(parts, k) ==> turn::last_text(parts) == parts[k].text,
        (forall|j: int| 0 <= j < parts.len() ==> !says_something(#[trigger] parts[j]))
            ==> turn::last_text(parts) is None,
    decreases parts.len(),
{
    if parts.len() > 0 {
        let before = parts.drop_last();
        lemma_says_something(parts.last());
        lemma_last_text(before, k);
        if last_said(parts, k) && k < parts.len() - 1 {
            assert(!says_something(parts[parts.len() - 1]));
            assert(before[k] == parts[k]);
            assert forall|j: int| k < j < before.len() implies !says_something(
                #[trigger] before[j],
            ) by {
                assert(before[j] == parts[j]);
            }
        }
        if forall|j: int| 0 <= j < parts.len() ==> !says_something(#[trigger] parts[j]) {
            assert(!says_something(parts[parts.len() - 1]));
            assert forall|j: int| 0 <= j < before.len() implies !says_something(
                #[trigger] before[j],
            ) by {
                assert(before[j] == parts[j]);
            }
        }
    }
}

/// Where some part says something, one of them is the last.
proof fn lemma_some_part_is_last(parts: Seq<PartView>, k: int) -> (last: int)
    requires
        0 <= k < parts.len(),
        says_something(parts[k]),
    ensures
        last_said(parts, last),
    decreases parts.len() - k,
{
    if forall|j: int| k < j < parts.len() ==> !says_something(#[trigger] parts[j]) {
        k
    } else {
        let j = choose|j: int| k < j < parts.len() && says_something(#[trigger] parts[j]);
        lemma_some_part_is_last(parts, j)
    }
}

/// The plan that is put to the user is the last thing said: the text of the part that says
/// something and after which no part does. There is no card exactly where no part says anything.
pub proof fn law_the_plan_is_the_last_thing_said(
    parts: Seq<PartView>,
    assistant_id: Seq<char>,
    k: int,
)
    ensures
        last_said(parts, k) ==> turn::plan_part(parts, assistant_id) == Some(
            PartView {
                id: "plan-synth-"@ + assistant_id,
                kind: "prompt"@,
                text: None,
                tool: None,
                state: None,
                prompt: Some(
                    chat::PromptView { kind: "plan"@, plan: parts[k].text, synthesized: true },
                ),
                phase: None,
                children: Seq::empty(),
            },
        ),
        turn::plan_part(parts, assistant_id) is None <==> forall|j: int|
            0 <= j < parts.len() ==> !says_something(#[trigger] parts[j]),
        turn::plan_part(parts, assistant_id) is Some ==> exists|j: int| #[trigger]
            last_said(parts, j) && turn::plan_part(parts, assistant_id)->0.prompt->0.plan
                == parts[j].text,
{
    lemma_last_text(parts, k);
    if last_said(parts, k) {
        lemma_says_something(parts[k]);
    }
    if exists|j: int| 0 <= j < parts.len() && says_something(#[trigger] parts[j]) {
        let j = choose|j: int| 0 <= j < parts.len() && says_something(#[trigger] parts[j]);
        let last = lemma_some_part_is_last(parts, j);
        lemma_last_text(parts, last);
        lemma_says_something(parts[last]);
    }
}

/// A turn that only plans, whose result was a success and whose process ended well, ends with a
/// card that puts the last thing said to the user as a plan: after everything else, or in the
/// place of such a card. Every other turn, and one in which nothing was said, ends as it is.
pub proof fn law_plans_are_put_to_the_user(
    ctx: CtxView,
    state: StateView,
    success: bool,
    k: int,
    i: int,
)
    ensures
        ({
            let ended = turn::after_ending(ctx, state, success);
            let card = PartView {
                id: "plan-synth-"@ + ctx.assistant_id,
                kind: "prompt"@,
                text: None,
                tool: None,
                state: None,
                prompt: Some(
                    chat::PromptView { kind: "plan"@, plan: ctx.parts[k].text, synthesized: true },
                ),
                phase: None,
                children: Seq::empty(),
            };
            let due = ctx.plan_mode && state.saw_result && success && !state.turn_errored;
            &&& due && last_said(ctx.parts, k) && message_laws::absent(ctx.parts, card.id) ==> ended == (CtxView {
                parts: ctx.parts.push(card),
                ..ctx
            })
            &&& due && last_said(ctx.parts, k) && message_laws::first_at(ctx.parts, card.id, i) ==> ended == (
            CtxView { parts: ctx.parts.update(i, card), ..ctx })
            &&& !due ==> ended == ctx
            &&& (forall|j: int| 0 <= j < ctx.parts.len() ==> !says_something(#[trigger] ctx.parts[j]))
                ==> ended == ctx
        }),
{
    law_the_plan_is_the_last_thing_said(ctx.parts, ctx.assistant_id, k);
    if last_said(ctx.parts, k) {
        message_laws::law_parts_take_their_place(
            ctx.parts,
            turn::plan_part(ctx.parts, ctx.assistant_id)->0,
            i,
        );
    }
}

/// A card is made of a text exactly where a turn that only plans ended well, showed none of its
/// own, and the text says something.
pub proof fn law_cards_need_a_plan(shown: bool, errored: bool, content: Seq<char>)
    ensures
        !turn::plan_is_due(false, shown, errored, content),
        !turn::plan_is_due(true, true, errored, content),
        !turn::plan_is_due(true, shown, true, content),
        turn::plan_is_due(true, false, false, content) <==> exists|i: int|
            0 <= i < content.len() && !text_laws::space_code(#[trigger] content[i] as int),
{
    text_laws::law_blank_texts_say_nothing(content);
}

/// How a turn ends: in order where its result was seen and its process ended well, and also where
/// its result was a failure; the log may go only in the first case. In all others it ends with an
/// error that gives the status, and the log where no result was seen.
pub proof fn law_turns_end_in_four_ways(
    state: StateView,
    success: bool,
    status: Seq<char>,
    log_path: Seq<char>,
)
    ensures
        state.saw_result && state.turn_errored ==> turn::turn_ending(
            state,
            success,
            status,
            log_path,
        ) == Ok::<bool, Seq<char>>(false),
        state.saw_result && !state.turn_errored && success ==> turn::turn_ending(
            state,
            success,
            status,
            log_path,
        ) == Ok::<bool, Seq<char>>(true),
        state.saw_result && !state.turn_errored && !success ==> turn::turn_ending(
            state,
            success,
            status,
            log_path,
        ) == Err::<bool, Seq<char>>("Antigravity ended with error ("@ + status + ")"@),
        !state.saw_result ==> turn::turn_ending(state, success, status, log_path) == Err::<
            bool,
            Seq<char>,
        >("Antigravity ended without a result ("@ + status + "); see "@ + log_path),
{
}

/// What a turn makes of an event: a step shows that the message was taken, the conversation goes
/// on under the id that is known, and everything else is as the stream has it.
pub proof fn law_turns_note_delivery_and_conversation(
    ctx: CtxView,
    state: StateView,
    event: JsonView,
)
    ensures
        ({
            let (told, known) = stream::after_event(ctx, state, event);
            let (after, next) = turn::after_event(ctx, state, event);
            &&& next == known
            &&& after == (CtxView {
                delivery: if event.member_text("event"@) == Some("step_update"@) {
                    DeliveryState::Accepted
                } else {
                    told.delivery
                },
                native_session_id: if known.conversation_id is Some {
                    known.conversation_id
                } else {
                    ctx.native_session_id
                },
                ..told
            })
        }),
{
    message_laws::lemma_names();
}

/// What comes after some output: a line that is an event goes into the turn, which is written out;
/// the result is the last one. A line that is no JSON is passed over. The end of the output ends
/// the turn, and an output that cannot be read, or that says nothing for so many whole minutes,
/// breaks it off.
pub proof fn law_outputs_are_taken_in_turn(
    ctx: CtxView,
    state: StateView,
    line: Seq<char>,
    error: Seq<char>,
    minutes: nat,
    seconds: nat,
)
    requires
        seconds < 60,
    ensures
        ({
            let output = OutputView::Line(line);
            let event = turn::output_event(output);
            let next = turn::next_after(output, event, 60 * minutes + seconds);
            &&& json::parsed(line) matches Some(e) ==> {
                &&& event == Some(e)
                &&& turn::after_output(ctx, state, output, event) == turn::after_event(
                    ctx,
                    state,
                    e,
                )
                &&& e.member_text("event"@) == Some("result"@) ==> next == (NextView::Finish {
                    flush: true,
                })
                &&& e.member_text("event"@) != Some("result"@) ==> next == (NextView::Read {
                    flush: true,
                })
            }
            &&& json::parsed(line) is None ==> event is None && turn::after_output(
                ctx,
                state,
                output,
                event,
            ) == (ctx, state) && next == (NextView::Read { flush: false })
        }),
        forall|output: OutputView|
            !(output is Line) ==> #[trigger] turn::output_event(output) is None
                && turn::after_output(ctx, state, output, turn::output_event(output)) == (
                ctx,
                state,
            ),
        turn::next_after(OutputView::Closed, None, 60 * minutes + seconds) == (NextView::Finish {
            flush: false,
        }),
        turn::next_after(OutputView::Unreadable(error), None, 60 * minutes + seconds)
            == NextView::Fail("antigravity stdout: "@ + error),
        turn::next_after(OutputView::Silent, None, 60 * minutes + seconds) == NextView::Fail(
            "Antigravity went silent for "@ + text::digits(minutes)
                + " minutes and was interrupted."@,
        ),
{
    message_laws::lemma_names();
    assert((60 * minutes + seconds) / 60 == minutes);
}

/// The id of a log is a random UUID: hexadecimal digits in five groups with hyphens between them,
/// the version four, and one of the four variants that go with it.
pub proof fn law_log_ids_are_random_uuids(id: Seq<char>, i: int)
    requires
        log::random_uuid(id),
    ensures
        id.len() == 36,
        i == 8 || i == 13 || i == 18 || i == 23 ==> id[i] as int == 45,
        0 <= i < 36 && i != 8 && i != 13 && i != 18 && i != 23 ==> 48 <= id[i] as int <= 57 || 97
            <= id[i] as int <= 102,
        id[14] as int == 52,
        id[19] as int == 56 || id[19] as int == 57 || id[19] as int == 97 || id[19] as int == 98,
{
}

/// What came of the output, what comes next, a card and an ending are shown as they are.
pub proof fn law_outputs_are_shown(
    output: Output,
    next: Next,
    card: Option<chat::WirePart>,
    ending: Result<bool, String>,
)
    ensures
        output matches Output::Line(line) ==> output.view() == OutputView::Line(line@),
        output is Closed ==> output.view() == OutputView::Closed,
        output matches Output::Unreadable(error) ==> output.view() == OutputView::Unreadable(
            error@,
        ),
        output is Silent ==> output.view() == OutputView::Silent,
        next matches Next::Read { flush } ==> next.view() == (NextView::Read { flush }),
        next matches Next::Finish { flush } ==> next.view() == (NextView::Finish { flush }),
        next matches Next::Fail(message) ==> next.view() == NextView::Fail(message@),
        card matches Some(part) ==> turn::opt_part(card) == Some(part.view()),
        card is None ==> turn::opt_part(card) is None,
        ending matches Ok(remove) ==> turn::ending_view(ending) == Ok::<bool, Seq<char>>(remove),
        ending matches Err(message) ==> turn::ending_view(ending) == Err::<bool, Seq<char>>(
            message@,
        ),
{
}

} // verus!
