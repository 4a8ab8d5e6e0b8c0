//! The assistant message that a turn builds up, and the turn that it belongs to.
use vstd::prelude::*;
use vstd::string::*;

use crate::json::{Json, JsonView};
use crate::options::PermissionMode;
use crate::{json, text};

verus! {

/// How far the user's message got: nothing is known of it, it was not sent, or the agent has
/// taken it.
#[derive(Clone, Copy, Debug, PartialEq, Eq, Structural)]
pub enum DeliveryState {
    Unknown,
    NotSent,
    Accepted,
}

/// The progress of one tool call.
pub struct WireToolState {
    pub status: String,
    pub input: Option<Json>,
    pub output: Option<String>,
    pub error: Option<String>,
    pub title: Option<String>,
}

/// What a [`WireToolState`] is.
pub struct ToolStateView {
    pub status: Seq<char>,
    pub input: Option<JsonView>,
    pub output: Option<Seq<char>>,
    pub error: Option<Seq<char>>,
    pub title: Option<Seq<char>>,
}

/// A question that is put to the user.
pub struct WirePrompt {
    pub kind: String,
    pub plan: Option<String>,
    pub synthesized: bool,
}

/// What a [`WirePrompt`] is.
pub struct PromptView {
    pub kind: Seq<char>,
    pub plan: Option<Seq<char>>,
    pub synthesized: bool,
}

/// One part of an assistant message: a stretch of text, a tool call or a prompt.
pub struct WirePart {
    pub id: String,
    pub kind: String,
    pub text: Option<String>,
    pub tool: Option<String>,
    pub state: Option<WireToolState>,
    pub prompt: Option<WirePrompt>,
    pub phase: Option<String>,
    pub children: Vec<WirePart>,
}

/// What a [`WirePart`] is.
pub struct PartView {
    pub id: Seq<char>,
    pub kind: Seq<char>,
    pub text: Option<Seq<char>>,
    pub tool: Option<Seq<char>>,
    pub state: Option<ToolStateView>,
    pub prompt: Option<PromptView>,
    pub phase: Option<Seq<char>>,
    pub children: Seq<PartView>,
}

impl WireToolState {
    /// What the state is.
    pub open spec fn view(&self) -> ToolStateView {
        ToolStateView {
            status: self.status@,
            input: json::opt_json(self.input),
            output: text::opt_text(self.output),
            error: text::opt_text(self.error),
            title: text::opt_text(self.title),
        }
    }
}

impl WirePrompt {
    /// What the prompt is.
    pub open spec fn view(&self) -> PromptView {
        PromptView {
            kind: self.kind@,
            plan: text::opt_text(self.plan),
            synthesized: self.synthesized,
        }
    }
}

/// The view of an optional tool state.
pub open spec fn opt_tool_state(state: Option<WireToolState>) -> Option<ToolStateView> {
    match state {
        Some(s) => Some(s.view()),
        None => None,
    }
}

/// The view of an optional prompt.
pub open spec fn opt_prompt(prompt: Option<WirePrompt>) -> Option<PromptView> {
    match prompt {
        Some(p) => Some(p.view()),
        None => None,
    }
}

impl WirePart {
    /// What the part is.
    pub open spec fn view(&self) -> PartView
        decreases self,
    {
        PartView {
            id: self.id@,
            kind: self.kind@,
            text: text::opt_text(self.text),
            tool: text::opt_text(self.tool),
            state: opt_tool_state(self.state),
            prompt: opt_prompt(self.prompt),
            phase: text::opt_text(self.phase),
            children: Seq::new(
                self.children@.len(),
                |i: int|
                    if 0 <= i < self.children@.len() {
                        self.children@[i].view()
                    } else {
                        arbitrary()
                    },
            ),
        }
    }

    /// A text part.
    pub fn text(id: String, content: &str) -> (r: WirePart)
        ensures
            r.view() == text_part(id@, content@),
    {
        let r = WirePart {
            id,
            kind: "text".to_owned(),
            text: Some(content.to_owned()),
            tool: None,
            state: None,
            prompt: None,
            phase: None,
            children: Vec::new(),
        };
        assert(r.view().children =~= Seq::empty());
        r
    }

    /// A part that puts a prompt to the user.
    pub fn prompt(id: String, prompt: WirePrompt) -> (r: WirePart)
        ensures
            r.view() == prompt_part(id@, prompt.view()),
    {
        let r = WirePart {
            id,
            kind: "prompt".to_owned(),
            text: None,
            tool: None,
            state: None,
            prompt: Some(prompt),
            phase: None,
            children: Vec::new(),
        };
        assert(r.view().children =~= Seq::empty());
        r
    }
}

/// The text part of that id and content.
pub open spec fn text_part(id: Seq<char>, content: Seq<char>) -> PartView {
    PartView {
        id,
        kind: "text"@,
        text: Some(content),
        tool: None,
        state: None,
        prompt: None,
        phase: None,
        children: Seq::empty(),
    }
}

/// The part of that id that puts a prompt to the user.
pub open spec fn prompt_part(id: Seq<char>, prompt: PromptView) -> PartView {
    PartView {
        id,
        kind: "prompt"@,
        text: None,
        tool: None,
        state: None,
        prompt: Some(prompt),
        phase: None,
        children: Seq::empty(),
    }
}

/// The views of a list of parts.
pub open spec fn parts_view(parts: Seq<WirePart>) -> Seq<PartView> {
    Seq::new(parts.len(), |i: int| parts[i].view())
}

/// Position `i` holds the first part of that id.
pub open spec fn first_part(parts: Seq<PartView>, id: Seq<char>, i: int) -> bool {
    &&& 0 <= i < parts.len()
    &&& parts[i].id == id
    &&& forall|j: int| 0 <= j < i ==> (#[trigger] parts[j]).id != id
}

/// Where the first part of that id stands, if there is one.
pub open spec fn part_index(parts: Seq<PartView>, id: Seq<char>) -> Option<int> {
    if exists|i: int| first_part(parts, id, i) {
        Some(choose|i: int| first_part(parts, id, i))
    } else {
        None
    }
}

/// The parts with one more: it takes the place of the first part of its id, or comes last.
pub open spec fn upsert(parts: Seq<PartView>, part: PartView) -> Seq<PartView> {
    match part_index(parts, part.id) {
        Some(i) => parts.update(i, part),
        None => parts.push(part),
    }
}

/// A part with some text added to its end.
pub open spec fn extended(part: PartView, delta: Seq<char>) -> PartView {
    PartView {
        text: Some(
            match part.text {
                Some(t) => t + delta,
                None => delta,
            },
        ),
        ..part
    }
}

/// The parts with some text added to the end of the first part of that id.
pub open spec fn append_text(parts: Seq<PartView>, id: Seq<char>, delta: Seq<char>) -> Seq<
    PartView,
> {
    match part_index(parts, id) {
        Some(i) => parts.update(i, extended(parts[i], delta)),
        None => parts,
    }
}

/// There is one first part of an id at most.
pub proof fn lemma_first_part(parts: Seq<PartView>, id: Seq<char>, i: int)
    requires
        first_part(parts, id, i),
    ensures
        part_index(parts, id) == Some(i),
{
    let k = choose|k: int| first_part(parts, id, k);
    assert(first_part(parts, id, k));
    if k < i {
        assert(parts[k].id != id);
    }
    if i < k {
        assert(parts[i].id != id);
    }
}

/// Where some part has an id, that id has a place, and no later one.
pub proof fn lemma_first_exists(parts: Seq<PartView>, id: Seq<char>, j: int)
    requires
        0 <= j < parts.len(),
    ensures
        parts[j].id == id ==> part_index(parts, id) is Some && part_index(parts, id)->0 <= j,
    decreases j,
{
    if parts[j].id == id {
        if forall|k: int| 0 <= k < j ==> (#[trigger] parts[k]).id != id {
            assert(first_part(parts, id, j));
            lemma_first_part(parts, id, j);
        } else {
            let k = choose|k: int| 0 <= k < j && (#[trigger] parts[k]).id == id;
            lemma_first_exists(parts, id, k);
        }
    }
}

/// Where no part has an id, that id has no place.
pub proof fn lemma_no_part(parts: Seq<PartView>, id: Seq<char>)
    requires
        forall|j: int| 0 <= j < parts.len() ==> (#[trigger] parts[j]).id != id,
    ensures
        part_index(parts, id) is None,
{
}

/// Where the first part of that id stands, if there is one.
pub fn find_part(parts: &Vec<WirePart>, id: &str) -> (r: Option<usize>)
    ensures
        match r {
            Some(i) => part_index(parts_view(parts@), id@) == Some(i as int) && i < parts@.len(),
            None => part_index(parts_view(parts@), id@) is None,
        },
{
    let ghost views = parts_view(parts@);
    let mut i: usize = 0;
    while i < parts.len()
        invariant
            i <= parts.len(),
            views == parts_view(parts@),
            forall|j: int| 0 <= j < i ==> (#[trigger] views[j]).id != id@,
        decreases parts.len() - i,
    {
        assert(views[i as int] == parts@[i as int].view());
        if text::same_text(parts[i].id.as_str(), id) {
            proof {
                lemma_first_part(views, id@, i as int);
            }
            return Some(i);
        }
        i += 1;
    }
    proof {
        lemma_no_part(views, id@);
    }
    None
}

/// Why a turn failed, as the agent itself reported it.
pub struct TerminalFailure {
    pub code: String,
    pub message: String,
}

/// What a [`TerminalFailure`] is.
pub struct FailureView {
    pub code: Seq<char>,
    pub message: Seq<char>,
}

/// The assistant message of a turn.
pub struct AssistantMessage {
    pub id: String,
    pub parts: Vec<WirePart>,
}

/// A turn: what the user asked for, and what has become of it.
pub struct TurnCtx {
    pub session_id: String,
    pub native_session_id: Option<String>,
    pub text: String,
    pub model: Option<String>,
    pub reasoning_level: Option<String>,
    pub permission_mode: Option<PermissionMode>,
    pub plan_mode: bool,
    pub assistant: AssistantMessage,
    pub delivery: DeliveryState,
    pub failure: Option<TerminalFailure>,
    pub final_text_marked: bool,
}

/// What a [`TurnCtx`] is.
pub struct CtxView {
    pub session_id: Seq<char>,
    pub native_session_id: Option<Seq<char>>,
    pub text: Seq<char>,
    pub model: Option<Seq<char>>,
    pub reasoning_level: Option<Seq<char>>,
    pub permission_mode: Option<PermissionMode>,
    pub plan_mode: bool,
    pub assistant_id: Seq<char>,
    pub parts: Seq<PartView>,
    pub delivery: DeliveryState,
    pub failure: Option<FailureView>,
    pub final_text_marked: bool,
}

/// The view of an optional failure.
pub open spec fn opt_failure(failure: Option<TerminalFailure>) -> Option<FailureView> {
    match failure {
        Some(f) => Some(FailureView { code: f.code@, message: f.message@ }),
        None => None,
    }
}

impl TurnCtx {
    /// What the turn is.
    pub open spec fn view(&self) -> CtxView {
        CtxView {
            session_id: self.session_id@,
            native_session_id: text::opt_text(self.native_session_id),
            text: self.text@,
            model: text::opt_text(self.model),
            reasoning_level: text::opt_text(self.reasoning_level),
            permission_mode: self.permission_mode,
            plan_mode: self.plan_mode,
            assistant_id: self.assistant.id@,
            parts: parts_view(self.assistant.parts@),
            delivery: self.delivery,
            failure: opt_failure(self.failure),
            final_text_marked: self.final_text_marked,
        }
    }

    /// A turn at its beginning: the first of its conversation, with no choice made and an empty
    /// answer.
    pub fn new(session_id: String, assistant_id: String, text: String) -> (r: TurnCtx)
        ensures
            r.view() == (CtxView {
                session_id: session_id@,
                native_session_id: None,
                text: text@,
                model: None,
                reasoning_level: None,
                permission_mode: None,
                plan_mode: false,
                assistant_id: assistant_id@,
                parts: Seq::empty(),
                delivery: DeliveryState::NotSent,
                failure: None,
                final_text_marked: false,
            }),
    {
        let r = TurnCtx {
            session_id,
            native_session_id: None,
            text,
            model: None,
            reasoning_level: None,
            permission_mode: None,
            plan_mode: false,
            assistant: AssistantMessage { id: assistant_id, parts: Vec::new() },
            delivery: DeliveryState::NotSent,
            failure: None,
            final_text_marked: false,
        };
        assert(r.view().parts =~= Seq::empty());
        r
    }

    /// How far the user's message got.
    pub fn delivery_state(&self) -> (r: DeliveryState)
        ensures
            r == self.view().delivery,
    {
        self.delivery
    }

    /// Notes how far the user's message got.
    pub fn mark_delivery(&mut self, delivery: DeliveryState)
        ensures
            final(self).view() == (CtxView { delivery, ..old(self).view() }),
    {
        self.delivery = delivery;
    }

    /// Notes that the agent reported the turn as failed.
    pub fn mark_terminal_failure(&mut self, code: &str, message: String)
        ensures
            final(self).view() == (CtxView {
                failure: Some(FailureView { code: code@, message: message@ }),
                ..old(self).view()
            }),
    {
        self.failure = Some(TerminalFailure { code: code.to_owned(), message });
    }

    /// Notes that the text at the end of the message is the final answer.
    pub fn mark_final_text_tail(&mut self)
        ensures
            final(self).view() == (CtxView { final_text_marked: true, ..old(self).view() }),
    {
        self.final_text_marked = true;
    }

    /// Notes by which id the agent knows the conversation.
    pub fn set_native_session_id(&mut self, id: &str)
        ensures
            final(self).view() == (CtxView { native_session_id: Some(id@), ..old(self).view() }),
    {
        self.native_session_id = Some(id.to_owned());
    }

    /// Adds a part to the message, in the place of the first part of its id where there is one.
    pub fn upsert_part(&mut self, part: WirePart)
        ensures
            final(self).view() == (CtxView {
                parts: upsert(old(self).view().parts, part.view()),
                ..old(self).view()
            }),
    {
        let ghost before = self.assistant.parts@;
        match find_part(&self.assistant.parts, part.id.as_str()) {
            Some(i) => {
                self.assistant.parts.set(i, part);
                assert(parts_view(self.assistant.parts@) =~= parts_view(before).update(
                    i as int,
                    part.view(),
                ));
            },
            None => {
                self.assistant.parts.push(part);
                assert(parts_view(self.assistant.parts@) =~= parts_view(before).push(part.view()));
            },
        }
    }

    /// Adds some text to the end of the first part of that id.
    pub fn append_part_text(&mut self, id: &str, delta: &str)
        ensures
            final(self).view() == (CtxView {
                parts: append_text(old(self).view().parts, id@, delta@),
                ..old(self).view()
            }),
    {
        let ghost before = self.assistant.parts@;
        if let Some(i) = find_part(&self.assistant.parts, id) {
            let part = &mut self.assistant.parts[i];
            match &mut part.text {
                Some(t) => {
                    t.append(delta);
                },
                None => {
                    part.text = Some(delta.to_owned());
                },
            }
            assert(parts_view(self.assistant.parts@) =~= parts_view(before).update(
                i as int,
                extended(before[i as int].view(), delta@),
            ));
        }
    }
}

} // verus!
