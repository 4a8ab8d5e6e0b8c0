//! The harness for Google Antigravity: what it offers, where it is installed, whether it is ready,
//! and how it takes a turn up again.
use vstd::prelude::*;
use vstd::string::*;

use crate::chat::{DeliveryState, WirePrompt};
use crate::command::agy_reasoning_levels;
use crate::models::{ModelInfo, ModelView};
use crate::options::{
    ChoiceView, HarnessOptions, OptionChoice, OptionsView, PermissionMode, PlanActivation,
};
use crate::places::{DataLocalDir, HomeDir, PathBelow, Place, PlaceView};
use crate::turn::{TurnFailure, TurnOutcome};
use crate::{command, models, options, places, text};

verus! {

/// How to mend an installation that does not run.
pub const AGY_REINSTALL: &'static str =
    "Reinstall Antigravity CLI via curl -fsSL https://antigravity.google/cli/install.sh | bash";

/// What to tell the user where asking for the models took too long.
pub const MODELS_TIMED_OUT: &'static str =
    "Antigravity model discovery timed out. Re-check when connected.";

/// How long asking for the models may take, in seconds.
pub const MODELS_TIMEOUT_SECONDS: u64 = 15;

/// Whether the user is signed in to an agent.
#[derive(Clone, Copy, Debug, PartialEq, Eq, Structural)]
pub enum HarnessAuthState {
    Ready,
    NeedsLogin,
    Unknown,
}

/// What is known of an agent's installation.
pub struct HarnessInfo {
    pub id: &'static str,
    pub name: &'static str,
    pub installed: bool,
    pub install_broken: bool,
    pub bin_path: Option<String>,
    pub authenticated: bool,
    pub auth_state: HarnessAuthState,
    pub auth_method: Option<&'static str>,
    pub models: Vec<ModelInfo>,
    pub agent_ready: bool,
    pub agent_note: Option<String>,
}

/// What a [`HarnessInfo`] is.
pub struct InfoView {
    pub id: Seq<char>,
    pub name: Seq<char>,
    pub installed: bool,
    pub install_broken: bool,
    pub bin_path: Option<Seq<char>>,
    pub authenticated: bool,
    pub auth_state: HarnessAuthState,
    pub auth_method: Option<Seq<char>>,
    pub models: Seq<ModelView>,
    pub agent_ready: bool,
    pub agent_note: Option<Seq<char>>,
}

impl HarnessInfo {
    /// What is known.
    pub open spec fn view(&self) -> InfoView {
        InfoView {
            id: self.id@,
            name: self.name@,
            installed: self.installed,
            install_broken: self.install_broken,
            bin_path: text::opt_text(self.bin_path),
            authenticated: self.authenticated,
            auth_state: self.auth_state,
            auth_method: text::opt_str(self.auth_method),
            models: models::models_view(self.models@),
            agent_ready: self.agent_ready,
            agent_note: text::opt_text(self.agent_note),
        }
    }

    /// What is known of an agent before anything was looked up.
    pub fn new(id: &'static str, name: &'static str) -> (r: HarnessInfo)
        ensures
            r.view() == unknown_info(id@, name@),
    {
        let r = HarnessInfo {
            id,
            name,
            installed: false,
            install_broken: false,
            bin_path: None,
            authenticated: false,
            auth_state: HarnessAuthState::Unknown,
            auth_method: None,
            models: Vec::new(),
            agent_ready: false,
            agent_note: None,
        };
        assert(r.view().models =~= Seq::empty());
        r
    }

    /// Notes where the agent's program stands, and whether it runs.
    pub fn record_bin(&mut self, bin: &str, runs: bool)
        ensures
            final(self).view() == recorded(old(self).view(), bin@, runs),
    {
        self.installed = true;
        self.install_broken = !runs;
        self.bin_path = Some(bin.to_owned());
    }

    /// Whether the agent can be used.
    pub fn ready(&self) -> (r: bool)
        ensures
            r == is_ready(self.view()),
    {
        self.installed && !self.install_broken && self.authenticated
    }
}

/// What is known of an agent before anything was looked up.
pub open spec fn unknown_info(id: Seq<char>, name: Seq<char>) -> InfoView {
    InfoView {
        id,
        name,
        installed: false,
        install_broken: false,
        bin_path: None,
        authenticated: false,
        auth_state: HarnessAuthState::Unknown,
        auth_method: None,
        models: Seq::empty(),
        agent_ready: false,
        agent_note: None,
    }
}

/// What is known once the agent's program was found.
pub open spec fn recorded(info: InfoView, bin: Seq<char>, runs: bool) -> InfoView {
    InfoView { installed: true, install_broken: !runs, bin_path: Some(bin), ..info }
}

/// Whether the agent can be used.
pub open spec fn is_ready(info: InfoView) -> bool {
    info.installed && !info.install_broken && info.authenticated
}

/// The program that is to be asked for its models, where there is one that runs.
pub open spec fn program_to_ask(info: InfoView) -> Option<Seq<char>> {
    if info.installed && !info.install_broken {
        info.bin_path
    } else {
        None
    }
}

/// Whether the user is signed in, by an error message in lower case.
pub open spec fn auth_after_error(lowered: Seq<char>) -> HarnessAuthState {
    if text::holds_text(lowered, "sign in"@) {
        HarnessAuthState::NeedsLogin
    } else {
        HarnessAuthState::Unknown
    }
}

/// What is known once the program was asked for its models.
pub open spec fn after_catalog(
    info: InfoView,
    catalog: Result<Seq<ModelView>, Seq<char>>,
) -> InfoView {
    match catalog {
        Ok(models) => InfoView {
            authenticated: true,
            auth_state: HarnessAuthState::Ready,
            auth_method: Some("cli"@),
            models,
            ..info
        },
        Err(message) => InfoView {
            auth_state: auth_after_error(text::lowercase(message)),
            agent_note: Some(message),
            ..info
        },
    }
}

/// What to tell the user of an agent: nothing new of one that is ready; else how it is mended,
/// signed in to or installed, unless there is a note already.
pub open spec fn note_for(info: InfoView, broken_note: Seq<char>) -> Option<Seq<char>> {
    if is_ready(info) {
        info.agent_note
    } else if info.install_broken {
        Some(broken_note)
    } else if !info.installed {
        Some(
            "Install Antigravity CLI with `curl -fsSL https://antigravity.google/cli/install.sh | bash`, then sign in with `agy`."@,
        )
    } else if info.agent_note is None {
        Some("Sign in by running `agy` in your terminal, then re-check this harness."@)
    } else {
        info.agent_note
    }
}

/// What is known of an agent in the end.
pub open spec fn settled(info: InfoView, broken_note: Seq<char>) -> InfoView {
    InfoView {
        agent_ready: is_ready(info),
        agent_note: note_for(info, broken_note),
        ..info
    }
}

/// What looking for the agent came to. The catalog counts only where there was a program to ask.
pub open spec fn detected(
    info: InfoView,
    catalog: Option<Result<Seq<ModelView>, Seq<char>>>,
    broken_note: Seq<char>,
) -> InfoView {
    let asked = match (program_to_ask(info), catalog) {
        (Some(_), Some(outcome)) => after_catalog(info, outcome),
        _ => info,
    };
    settled(asked, broken_note)
}

/// The view of an optional catalog.
pub open spec fn opt_outcome(catalog: Option<Result<Vec<ModelInfo>, String>>) -> Option<
    Result<Seq<ModelView>, Seq<char>>,
> {
    match catalog {
        Some(outcome) => Some(models::outcome_view(outcome)),
        None => None,
    }
}

/// Whether the user is signed in, by an error message in lower case.
pub fn auth_state_after_error(lowered: &str) -> (r: HarnessAuthState)
    ensures
        r == auth_after_error(lowered@),
{
    if text::contains_text(lowered, "sign in") {
        HarnessAuthState::NeedsLogin
    } else {
        HarnessAuthState::Unknown
    }
}

/// An answer of the user to a prompt.
pub struct PromptAnswer {
    pub approve: bool,
    pub note: Option<String>,
}

/// How a turn goes on after an answer.
pub enum ResumeAction {
    Nothing,
    SendMessage { text: String, mode: Option<PermissionMode>, plan_mode: Option<bool> },
}

/// What a [`ResumeAction`] is.
pub enum ResumeView {
    Nothing,
    SendMessage { text: Seq<char>, mode: Option<PermissionMode>, plan_mode: Option<bool> },
}

impl ResumeAction {
    /// What the action is.
    pub open spec fn view(&self) -> ResumeView {
        match *self {
            ResumeAction::Nothing => ResumeView::Nothing,
            ResumeAction::SendMessage { text, mode, plan_mode } => ResumeView::SendMessage {
                text: text@,
                mode,
                plan_mode,
            },
        }
    }
}

/// Whether an answer says nothing: it approves of nothing and has nothing to add.
pub open spec fn says_nothing(approve: bool, note: Option<Seq<char>>) -> bool {
    !approve && match note {
        Some(n) => text::blank(n),
        None => true,
    }
}

/// How a turn goes on after an answer, for which that message was made up: only an answer to a
/// plan counts, and one that does not approve of it keeps planning.
pub open spec fn resumption(
    kind: Seq<char>,
    approve: bool,
    note: Option<Seq<char>>,
    message: Seq<char>,
) -> ResumeView {
    if kind != "plan"@ || says_nothing(approve, note) {
        ResumeView::Nothing
    } else {
        ResumeView::SendMessage { text: message, mode: None, plan_mode: Some(!approve) }
    }
}

/// The choices that the agent offers.
pub open spec fn agy_options() -> OptionsView {
    OptionsView {
        permission_choices: seq![
            ChoiceView {
                id: "default"@,
                label: "Default"@,
                description: "Use Antigravity permission rules; actions needing approval are denied"@,
            },
            ChoiceView {
                id: "accept-edits"@,
                label: "Accept edits"@,
                description: "Allow file edits; commands still follow Antigravity permission rules"@,
            },
            ChoiceView {
                id: "bypass"@,
                label: "Bypass"@,
                description: "Allow commands and skip tool confirmation prompts"@,
            },
        ],
        default_permission: Some("default"@),
        plan_activation: Some(PlanActivation::Command),
        reasoning_levels: command::reasoning_levels(),
    }
}

/// Google Antigravity.
pub struct Antigravity;

impl Antigravity {
    /// The id of the harness.
    pub fn id(&self) -> (r: &'static str)
        ensures
            r@ == "antigravity"@,
    {
        "antigravity"
    }

    /// The name of the harness.
    pub fn name(&self) -> (r: &'static str)
        ensures
            r@ == "Google Antigravity"@,
    {
        "Google Antigravity"
    }

    /// Whether the agent can be chatted with.
    pub fn supports_chat(&self) -> (r: bool)
        ensures
            r,
    {
        true
    }

    /// What is known of the agent once its program was looked for: where it was found, and
    /// whether it runs.
    pub fn found(&self, bin: Option<&str>, runs: bool) -> (r: HarnessInfo)
        ensures
            r.view() == match bin {
                Some(b) => recorded(
                    unknown_info("antigravity"@, "Google Antigravity"@),
                    b@,
                    runs,
                ),
                None => unknown_info("antigravity"@, "Google Antigravity"@),
            },
    {
        let mut info = HarnessInfo::new(self.id(), self.name());
        if let Some(b) = bin {
            info.record_bin(b, runs);
        }
        info
    }

    /// The program that is to be asked for its models, where there is one that runs.
    pub fn program<'a>(&self, info: &'a HarnessInfo) -> (r: Option<&'a str>)
        ensures
            text::opt_str(r) == program_to_ask(info.view()),
    {
        if info.installed && !info.install_broken {
            match &info.bin_path {
                Some(bin) => Some(bin.as_str()),
                None => None,
            }
        } else {
            None
        }
    }

    /// What looking for the agent came to, from what was found, what the program said when it was
    /// asked for its models, and what to tell the user of an installation that does not run.
    pub fn detect(
        &self,
        info: HarnessInfo,
        catalog: Option<Result<Vec<ModelInfo>, String>>,
        broken_note: String,
    ) -> (r: HarnessInfo)
        ensures
            r.view() == detected(info.view(), opt_outcome(catalog), broken_note@),
    {
        let mut info = info;
        if self.program(&info).is_some() {
            match catalog {
                Some(Ok(models)) => {
                    info.authenticated = true;
                    info.auth_state = HarnessAuthState::Ready;
                    info.auth_method = Some("cli");
                    info.models = models;
                },
                Some(Err(message)) => {
                    let lowered = text::to_lowercase(message.as_str());
                    info.auth_state = auth_state_after_error(lowered.as_str());
                    info.agent_note = Some(message);
                },
                None => {},
            }
        }
        info.agent_ready = info.ready();
        if !info.agent_ready {
            if info.install_broken {
                info.agent_note = Some(broken_note);
            } else if info.installed && info.agent_note.is_none() {
                info.agent_note = Some(
                    "Sign in by running `agy` in your terminal, then re-check this harness.".to_owned(),
                );
            } else if !info.installed {
                info.agent_note = Some(
                    "Install Antigravity CLI with `curl -fsSL https://antigravity.google/cli/install.sh | bash`, then sign in with `agy`.".to_owned(),
                );
            }
        }
        info
    }

    /// The result of a turn, from how it went and how far the user's message got.
    pub fn run_turn(&self, outcome: Result<(), String>, delivery: DeliveryState) -> (r: Result<
        TurnOutcome,
        TurnFailure,
    >)
        ensures
            match (outcome, r) {
                (Ok(_), Ok(done)) => done == TurnOutcome::Completed,
                (Err(error), Err(failure)) => failure.error@ == error@ && failure.delivery
                    == delivery,
                _ => false,
            },
    {
        match outcome {
            Ok(_) => Ok(TurnOutcome::Completed),
            Err(error) => Err(TurnFailure { error, delivery }),
        }
    }

    /// The choices that the agent offers.
    pub fn options(&self) -> (r: HarnessOptions)
        ensures
            r.view() == agy_options(),
    {
        let choices: Vec<OptionChoice> = vec![
            OptionChoice::described(
                "default",
                "Default",
                "Use Antigravity permission rules; actions needing approval are denied",
            ),
            OptionChoice::described(
                "accept-edits",
                "Accept edits",
                "Allow file edits; commands still follow Antigravity permission rules",
            ),
            OptionChoice::described(
                "bypass",
                "Bypass",
                "Allow commands and skip tool confirmation prompts",
            ),
        ];
        assert(options::choices_view(choices@) =~= agy_options().permission_choices);
        HarnessOptions::none().with_permission_choices(
            choices,
            "default",
            PlanActivation::Command,
        ).with_reasoning_levels(agy_reasoning_levels())
    }

    /// How a turn goes on after the user's answer to a prompt, for which `message` was made up.
    pub fn resume_from_prompt(
        &self,
        prompt: &WirePrompt,
        answer: &PromptAnswer,
        message: String,
    ) -> (r: ResumeAction)
        ensures
            r.view() == resumption(
                prompt.kind@,
                answer.approve,
                text::opt_text(answer.note),
                message@,
            ),
    {
        if !text::same_text(prompt.kind.as_str(), "plan") {
            return ResumeAction::Nothing;
        }
        if !answer.approve {
            let silent = match &answer.note {
                Some(note) => text::is_blank(note.as_str()),
                None => true,
            };
            if silent {
                return ResumeAction::Nothing;
            }
        }
        ResumeAction::SendMessage { text: message, mode: None, plan_mode: Some(!answer.approve) }
    }

    /// Where the agent's configuration is.
    pub fn config_home(&self) -> (r: Option<PathBelow<HomeDir>>)
        ensures
            r matches Some(path) ==> path.view().names == places::config_names(),
    {
        places::config_below(places::home_dir())
    }

    /// Where the skill that the agent reads is.
    pub fn skill_target(&self) -> (r: Option<PathBelow<HomeDir>>)
        ensures
            r matches Some(path) ==> path.view().names == places::skill_names(),
    {
        places::skill_below(places::home_dir())
    }

    /// The text of the skill that the agent reads: the one that is shared with other agents.
    pub fn skill_shim(&self, shared: &'static str) -> (r: Option<&'static str>)
        ensures
            r == Some(shared),
    {
        Some(shared)
    }

    /// Where the skills of a session stand in its worktree.
    pub fn session_skills_dir(&self) -> (r: Option<&'static str>)
        ensures
            text::opt_str(r) == Some(".agents/skills"@),
    {
        Some(".agents/skills")
    }
}

/// A search for the agent's program: the directories of the user below which it may be installed,
/// and how many places have been tried.
pub struct AgySearch {
    pub home: Option<HomeDir>,
    pub data_local: Option<DataLocalDir>,
    pub tried: usize,
}

impl AgySearch {
    /// The places that the search goes through, in order.
    pub open spec fn places(&self) -> Seq<PlaceView<&HomeDir, &DataLocalDir>> {
        places::agy_places(
            match self.home {
                Some(h) => Some(&h),
                None => None,
            },
            match self.data_local {
                Some(d) => Some(&d),
                None => None,
            },
        )
    }

    /// A search that has tried nothing yet, below the directories of the user who runs it.
    pub fn new() -> (r: AgySearch)
        ensures
            r.tried == 0,
    {
        AgySearch { home: places::home_dir(), data_local: places::data_local_dir(), tried: 0 }
    }

    /// The place to look for the program now; there is none where all have been tried.
    pub fn place(&self) -> (r: Option<Place<&HomeDir, &DataLocalDir>>)
        ensures
            match r {
                Some(place) => self.tried < self.places().len() && place.view()
                    == self.places()[self.tried as int],
                None => self.tried >= self.places().len(),
            },
    {
        places::agy_place(self.home.as_ref(), self.data_local.as_ref(), self.tried)
    }

    /// Goes on to the next place, after the present one did not have the program.
    pub fn pass_over(&mut self)
        ensures
            final(self).places() == old(self).places(),
            final(self).tried == if old(self).tried < old(self).places().len() {
                old(self).tried + 1
            } else {
                old(self).tried as int
            },
    {
        if self.place().is_some() {
            self.tried += 1;
        }
    }
}

} // verus!
