//! What holds of the harness: what it finds out about the agent, what it offers, and how it goes
//! on after an answer.
use vstd::prelude::*;

use crate::harness::{
    AgySearch, HarnessAuthState, HarnessInfo, InfoView, ResumeAction, ResumeView,
};
use crate::models::{ModelInfo, ModelView};
use crate::options::{ChoiceView, HarnessOptions, OptionChoice, PlanActivation};
use crate::places::{DataLocalDir, HomeDir, PathBelow, PathView, Place, PlaceView};
use crate::{command, harness, models, options, places, text, text_laws, turn};

verus! {

/// Before anything was looked up nothing is known, and finding a program says where it is and
/// whether it runs, and nothing else.
pub proof fn law_finding_a_program_says_where_it_is(
    id: Seq<char>,
    name: Seq<char>,
    info: InfoView,
    bin: Seq<char>,
    runs: bool,
)
    ensures
        harness::unknown_info(id, name) == (InfoView {
            id,
            name,
            installed: false,
            install_broken: false,
            bin_path: None,
            authenticated: false,
            auth_state: HarnessAuthState::Unknown,
            auth_method: None,
            models: Seq::empty(),
            agent_ready: false,
            agent_note: None,
        }),
        harness::recorded(info, bin, runs) == (InfoView {
            installed: true,
            install_broken: !runs,
            bin_path: Some(bin),
            ..info
        }),
{
}

/// A program is asked for its models exactly where one was found that runs.
pub proof fn law_programs_that_run_are_asked(info: InfoView)
    ensures
        info.installed && !info.install_broken ==> harness::program_to_ask(info) == info.bin_path,
        !info.installed || info.install_broken ==> harness::program_to_ask(info) is None,
        harness::is_ready(info) <==> info.installed && !info.install_broken && info.authenticated,
{
}

/// An error message asks for a login exactly where it speaks of signing in.
pub proof fn law_sign_in_means_login(lowered: Seq<char>, before: Seq<char>, after: Seq<char>)
    ensures
        harness::auth_after_error(before + "sign in"@ + after) == HarnessAuthState::NeedsLogin,
        (forall|a: Seq<char>, b: Seq<char>| lowered != #[trigger] (a + "sign in"@ + b))
            ==> harness::auth_after_error(lowered) == HarnessAuthState::Unknown,
{
    text_laws::law_held_texts_stand_somewhere(lowered, before, "sign in"@, after);
}

/// What looking for the agent comes to. An agent that listed its models is ready, and offers
/// them; one that could not list them says why. Of one that is not ready the user learns what to
/// do: mend it, install it or sign in. What was found before stays.
pub proof fn law_detection_says_what_to_do(
    info: InfoView,
    catalog: Option<Result<Seq<ModelView>, Seq<char>>>,
    broken_note: Seq<char>,
)
    ensures
        ({
            let found = harness::detected(info, catalog, broken_note);
            let asked = info.installed && !info.install_broken && info.bin_path is Some && catalog
                is Some;
            let listed = asked && catalog->0 is Ok;
            let missed = asked && catalog->0 is Err;
            let ready = info.installed && !info.install_broken && (listed || info.authenticated);
            &&& found.id == info.id
            &&& found.name == info.name
            &&& found.installed == info.installed
            &&& found.install_broken == info.install_broken
            &&& found.bin_path == info.bin_path
            &&& found.agent_ready == ready
            &&& found.authenticated == (listed || info.authenticated)
            &&& listed ==> found.models == catalog->0->Ok_0 && found.auth_state
                == HarnessAuthState::Ready && found.auth_method == Some("cli"@) && found.agent_note
                == info.agent_note
            &&& !listed ==> found.models == info.models && found.auth_method == info.auth_method
            &&& missed ==> found.auth_state == harness::auth_after_error(
                text::lowercase(catalog->0->Err_0),
            ) && found.agent_note == Some(catalog->0->Err_0)
            &&& !asked ==> found.auth_state == info.auth_state
            &&& !ready && info.install_broken ==> found.agent_note == Some(broken_note)
            &&& !info.installed && !info.install_broken ==> found.agent_note == Some(
                "Install Antigravity CLI with `curl -fsSL https://antigravity.google/cli/install.sh | bash`, then sign in with `agy`."@,
            )
            &&& info.installed && !info.install_broken && !ready && !asked ==> found.agent_note
                == Some(
                if info.agent_note is Some {
                    info.agent_note->0
                } else {
                    "Sign in by running `agy` in your terminal, then re-check this harness."@
                },
            )
            &&& ready && !asked ==> found.agent_note == info.agent_note
        }),
{
}

/// What is told of an agent that cannot be used, and how long it is waited for.
pub proof fn law_fixed_words_and_limits()
    ensures
        harness::AGY_REINSTALL@
            == "Reinstall Antigravity CLI via curl -fsSL https://antigravity.google/cli/install.sh | bash"@,
        harness::MODELS_TIMED_OUT@
            == "Antigravity model discovery timed out. Re-check when connected."@,
        harness::MODELS_TIMEOUT_SECONDS == 15,
        turn::AGY_NOT_FOUND@
            == "agy not found on PATH \u{2014} install Antigravity CLI and sign in first"@,
        turn::AGY_DID_NOT_EXIT@ == "Antigravity did not exit after its response"@,
{
}

/// An answer to a plan sends a message on, and plans again exactly where it does not approve; an
/// answer that does not approve and says nothing, and an answer to anything else, sends none.
pub proof fn law_answers_to_plans_go_on(
    kind: Seq<char>,
    approve: bool,
    note: Option<Seq<char>>,
    message: Seq<char>,
)
    ensures
        ({
            let says = note matches Some(n) && exists|i: int|
                0 <= i < n.len() && !text_laws::space_code(#[trigger] n[i] as int);
            let next = harness::resumption(kind, approve, note, message);
            &&& kind == "plan"@ && (approve || says) ==> next == (ResumeView::SendMessage {
                text: message,
                mode: None,
                plan_mode: Some(!approve),
            })
            &&& kind != "plan"@ || (!approve && !says) ==> next == ResumeView::Nothing
        }),
{
    if note is Some {
        text_laws::law_blank_texts_say_nothing(note->0);
    }
}

/// The user can choose between three permission modes, of which the careful one is the default,
/// and between three reasoning levels.
pub proof fn law_choices_are_offered()
    ensures
        harness::agy_options().permission_choices.len() == 3,
        harness::agy_options().permission_choices[0] == (ChoiceView {
            id: "default"@,
            label: "Default"@,
            description: "Use Antigravity permission rules; actions needing approval are denied"@,
        }),
        harness::agy_options().permission_choices[1] == (ChoiceView {
            id: "accept-edits"@,
            label: "Accept edits"@,
            description: "Allow file edits; commands still follow Antigravity permission rules"@,
        }),
        harness::agy_options().permission_choices[2] == (ChoiceView {
            id: "bypass"@,
            label: "Bypass"@,
            description: "Allow commands and skip tool confirmation prompts"@,
        }),
        harness::agy_options().default_permission == Some("default"@),
        harness::agy_options().plan_activation == Some(PlanActivation::Command),
        harness::agy_options().reasoning_levels.len() == 3,
        harness::agy_options().reasoning_levels[0] == "low"@,
        harness::agy_options().reasoning_levels[1] == "medium"@,
        harness::agy_options().reasoning_levels[2] == "high"@,
{
}

/// Every reasoning level that is offered is one that the agent is asked for.
pub proof fn law_offered_levels_are_asked_for(k: int)
    requires
        0 <= k < harness::agy_options().reasoning_levels.len(),
    ensures
        options::resolved_reasoning(
            Some(harness::agy_options().reasoning_levels[k]),
            command::reasoning_levels(),
        ) == Some(harness::agy_options().reasoning_levels[k]),
{
}

/// The agent is looked for on the search path first, then in three directories below the user's
/// home where that is known, and last below the user's local data where that is known.
pub proof fn law_the_agent_is_looked_for_in_order<H, D>(home: H, data_local: D)
    ensures
        ({
            let local = PlaceView::InHome(
                PathView { base: home, names: seq![".local"@, "bin"@] },
            );
            let gemini = PlaceView::InHome(
                PathView { base: home, names: seq![".gemini"@, "bin"@] },
            );
            let cli = PlaceView::InHome(
                PathView { base: home, names: seq![".gemini"@, "antigravity-cli"@, "bin"@] },
            );
            let data = PlaceView::InDataLocal(
                PathView { base: data_local, names: seq!["agy"@, "bin"@] },
            );
            &&& places::agy_places(Some(home), Some(data_local)) == seq![
                PlaceView::OnPath,
                local,
                gemini,
                cli,
                data,
            ]
            &&& places::agy_places(Some(home), None::<D>) == seq![
                PlaceView::OnPath,
                local,
                gemini,
                cli,
            ]
            &&& places::agy_places(None::<H>, Some(data_local)) == seq![PlaceView::OnPath, data]
            &&& places::agy_places(None::<H>, None::<D>) == seq![PlaceView::<H, D>::OnPath]
        }),
{
}

/// The agent's configuration stands below the user's home, and the skill that it reads stands in
/// it.
pub proof fn law_the_skill_stands_in_the_configuration<B>(base: B, names: Seq<Seq<char>>)
    ensures
        places::config_names() == seq![".gemini"@, "antigravity-cli"@],
        places::skill_names() == seq![
            ".gemini"@,
            "antigravity-cli"@,
            "skills"@,
            "orx"@,
            "SKILL.md"@,
        ],
        places::path_below(Some(base), names) == Some(PathView { base, names }),
        places::path_below(None::<B>, names) is None,
{
}

/// What is known of an agent is shown with everything that it holds.
pub proof fn law_findings_are_shown(
    info: HarnessInfo,
    catalog: Option<Result<Vec<ModelInfo>, String>>,
    action: ResumeAction,
)
    ensures
        info.view().id == info.id@,
        info.view().name == info.name@,
        info.view().installed == info.installed,
        info.view().install_broken == info.install_broken,
        info.view().bin_path == text::opt_text(info.bin_path),
        info.view().authenticated == info.authenticated,
        info.view().auth_state == info.auth_state,
        info.view().auth_method == text::opt_str(info.auth_method),
        info.view().models == models::models_view(info.models@),
        info.view().agent_ready == info.agent_ready,
        info.view().agent_note == text::opt_text(info.agent_note),
        catalog is None ==> harness::opt_outcome(catalog) is None,
        catalog matches Some(outcome) ==> harness::opt_outcome(catalog) == Some(
            models::outcome_view(outcome),
        ),
        action is Nothing ==> action.view() == ResumeView::Nothing,
        action matches ResumeAction::SendMessage { text, mode, plan_mode } ==> action.view() == (
        ResumeView::SendMessage { text: text@, mode, plan_mode }),
{
}

/// Choices are shown with everything that they hold.
pub proof fn law_choices_are_shown(
    choice: OptionChoice,
    choices: Seq<OptionChoice>,
    offered: HarnessOptions,
)
    ensures
        choice.view().id == choice.id@,
        choice.view().label == choice.label@,
        choice.view().description == choice.description@,
        options::choices_view(choices).len() == choices.len(),
        forall|i: int|
            0 <= i < choices.len() ==> #[trigger] options::choices_view(choices)[i]
                == choices[i].view(),
        offered.view().permission_choices == options::choices_view(offered.permission_choices@),
        offered.view().default_permission == text::opt_str(offered.default_permission),
        offered.view().plan_activation == offered.plan_activation,
        offered.view().reasoning_levels == text::str_views(offered.reasoning_levels@),
{
}

/// Paths and places are shown with everything that they hold, and a search goes through the places
/// of the directories that it knows.
pub proof fn law_places_are_shown<H, D>(
    path: PathBelow<H>,
    place: Place<H, D>,
    search: AgySearch,
)
    ensures
        path.view().base == path.base,
        path.view().names == text::str_views(path.names@),
        places::opt_path(Some(path)) == Some(path.view()),
        places::opt_path(None::<PathBelow<H>>) is None,
        place is OnPath ==> place.view() == PlaceView::<H, D>::OnPath,
        place matches Place::InHome(p) ==> place.view() == PlaceView::<H, D>::InHome(p.view()),
        place matches Place::InDataLocal(p) ==> place.view() == PlaceView::<H, D>::InDataLocal(
            p.view(),
        ),
        search.home matches Some(h) ==> (search.data_local matches Some(d) ==> search.places()
            == places::agy_places(Some(&h), Some(&d))),
        search.home is None ==> (search.data_local matches Some(d) ==> search.places()
            == places::agy_places(None::<&HomeDir>, Some(&d))),
        search.data_local is None ==> (search.home matches Some(h) ==> search.places()
            == places::agy_places(Some(&h), None::<&DataLocalDir>)),
        search.home is None && search.data_local is None ==> search.places()
            == places::agy_places(None::<&HomeDir>, None::<&DataLocalDir>),
{
}

} // verus!
