use antigravity::chat::{DeliveryState, WirePrompt};
use antigravity::harness::{
    AgySearch, Antigravity, HarnessAuthState, PromptAnswer, ResumeAction,
};
use antigravity::models::{agy_model_list, agy_models_outcome, parse_agy_model_list, ModelInfo};
use antigravity::options::{resolve_reasoning, PlanActivation};
use antigravity::places::{agy_place, config_below, skill_below, Place};
use antigravity::turn::TurnOutcome;

#[test]
fn parses_agy_model_list_output() {
    let sample = "Fetching available models...\n\
                  gemini-3.8-flash-high\tGemini 3.8 Flash (High)\n\
                  gemini-3.1-pro-high    Gemini 3.1 Pro (High)\n\
                  sonnet-4-6\tSonnet 4.6 (Thinking)\n";
    let models = parse_agy_model_list(sample);
    assert_eq!(models.len(), 3);
    assert_eq!(models[0].id, "gemini-3.8-flash-high");
    assert_eq!(
        models[0].display_name.as_deref(),
        Some("Gemini 3.8 Flash (High)")
    );
    assert_eq!(models[1].id, "gemini-3.1-pro-high");
    assert_eq!(models[2].id, "sonnet-4-6");
}

fn listed(text: &str) -> Vec<(String, Option<String>)> {
    parse_agy_model_list(text).into_iter().map(|m| (m.id, m.display_name)).collect()
}

#[test]
fn lines_that_list_no_model_are_passed_over() {
    assert!(listed("").is_empty());
    assert!(listed("\n \n\t\n").is_empty());
    assert!(listed("Available models:\nListing\n  Fetching x\n").is_empty());
    assert!(listed("default\tThe default\nno/slash Name\nna\u{ef}ve\n").is_empty());
    assert_eq!(
        listed("  a_b.[1]=2,  \r\nB\u{2003} Two  words \r\nc"),
        [
            ("a_b.[1]=2,".to_string(), None),
            ("B".to_string(), Some("Two  words".to_string())),
            ("c".to_string(), None),
        ]
    );
}

#[test]
fn catalogs_one_below_the_other_add_up() {
    let above = "x X\nFetching";
    let below = "\ny";
    let mut both = listed(above);
    both.extend(listed(below));
    assert_eq!(listed(&format!("{above}\n{below}")), both);
    assert_eq!(both.len(), 2);
}

#[test]
fn asking_for_models_comes_to_models_or_a_message() {
    assert_eq!(agy_models_outcome(true, "m", "ignored").ok().unwrap()[0].id, "m");
    assert_eq!(
        agy_models_outcome(false, "m", "  please sign in\n").err().unwrap(),
        "Antigravity model discovery failed: please sign in"
    );
    assert_eq!(
        agy_models_outcome(true, "Fetching...\n", "").err().unwrap(),
        "Antigravity returned no available models. Re-check your account."
    );
    let models = agy_model_list(true, b"m\tA \xff B\n", b"").ok().unwrap();
    assert_eq!(models[0].display_name.as_deref(), Some("A \u{fffd} B"));
    assert_eq!(
        agy_model_list(false, b"", b"\xffoops ").err().unwrap(),
        "Antigravity model discovery failed: \u{fffd}oops"
    );
}

fn model(id: &str) -> ModelInfo {
    ModelInfo { id: id.to_string(), display_name: None }
}

#[test]
fn an_agent_that_lists_models_is_ready() {
    let harness = Antigravity;
    let info = harness.found(Some("/bin/agy"), true);
    assert_eq!(harness.program(&info), Some("/bin/agy"));
    let info = harness.detect(info, Some(Ok(vec![model("m")])), "broken".to_string());
    assert!(info.agent_ready && info.authenticated && info.installed);
    assert_eq!(info.auth_state, HarnessAuthState::Ready);
    assert_eq!(info.auth_method, Some("cli"));
    assert_eq!(info.models.len(), 1);
    assert_eq!(info.agent_note, None);
    assert_eq!((info.id, info.name), ("antigravity", "Google Antigravity"));
}

#[test]
fn an_agent_that_is_not_ready_says_why() {
    let harness = Antigravity;
    let failed = |message: &str| {
        let info = harness.found(Some("agy"), true);
        harness.detect(info, Some(Err(message.to_string())), "broken".to_string())
    };
    let info = failed("Please SIGN IN first");
    assert_eq!(info.auth_state, HarnessAuthState::NeedsLogin);
    assert_eq!(info.agent_note.as_deref(), Some("Please SIGN IN first"));
    assert!(!info.agent_ready);
    let info = failed("sign-in needed");
    assert_eq!(info.auth_state, HarnessAuthState::Unknown);
    assert_eq!(info.agent_note.as_deref(), Some("sign-in needed"));

    let info = harness.detect(harness.found(Some("agy"), true), None, "broken".to_string());
    assert_eq!(
        info.agent_note.as_deref(),
        Some("Sign in by running `agy` in your terminal, then re-check this harness.")
    );
    let info = harness.found(Some("agy"), false);
    assert_eq!(harness.program(&info), None);
    let info = harness.detect(info, Some(Ok(vec![model("m")])), "broken".to_string());
    assert!(info.install_broken && !info.authenticated);
    assert_eq!(info.agent_note.as_deref(), Some("broken"));
    let info = harness.detect(harness.found(None, true), None, "broken".to_string());
    assert!(!info.installed);
    assert_eq!(
        info.agent_note.as_deref(),
        Some("Install Antigravity CLI with `curl -fsSL https://antigravity.google/cli/install.sh | bash`, then sign in with `agy`.")
    );
}

#[test]
fn the_harness_describes_itself() {
    let harness = Antigravity;
    assert_eq!(harness.id(), "antigravity");
    assert_eq!(harness.name(), "Google Antigravity");
    assert!(harness.supports_chat());
    assert_eq!(harness.session_skills_dir(), Some(".agents/skills"));
    assert_eq!(harness.skill_shim("shared"), Some("shared"));
    let options = harness.options();
    let ids: Vec<&str> = options.permission_choices.iter().map(|c| c.id).collect();
    assert_eq!(ids, ["default", "accept-edits", "bypass"]);
    assert_eq!(options.permission_choices[1].label, "Accept edits");
    assert_eq!(
        options.permission_choices[2].description,
        "Allow commands and skip tool confirmation prompts"
    );
    assert_eq!(options.default_permission, Some("default"));
    assert_eq!(options.plan_activation, Some(PlanActivation::Command));
    assert_eq!(options.reasoning_levels, ["low", "medium", "high"]);
    assert_eq!(resolve_reasoning(Some("low"), &options.reasoning_levels), Some("low"));
    assert_eq!(resolve_reasoning(Some("max"), &options.reasoning_levels), None);
    assert_eq!(resolve_reasoning(None, &options.reasoning_levels), None);
}

#[test]
fn turns_end_completed_or_with_their_delivery() {
    let harness = Antigravity;
    assert_eq!(
        harness.run_turn(Ok(()), DeliveryState::Accepted).ok(),
        Some(TurnOutcome::Completed)
    );
    let failure = harness.run_turn(Err("gone".to_string()), DeliveryState::NotSent).err().unwrap();
    assert_eq!(failure.error, "gone");
    assert_eq!(failure.delivery, DeliveryState::NotSent);
}

fn resumed(kind: &str, approve: bool, note: Option<&str>) -> Option<(String, Option<bool>)> {
    let prompt = WirePrompt { kind: kind.to_string(), plan: None, synthesized: true };
    let answer = PromptAnswer { approve, note: note.map(str::to_string) };
    match Antigravity.resume_from_prompt(&prompt, &answer, "go on".to_string()) {
        ResumeAction::Nothing => None,
        ResumeAction::SendMessage { text, mode, plan_mode } => {
            assert!(mode.is_none());
            Some((text, plan_mode))
        }
    }
}

#[test]
fn answers_to_a_plan_take_the_turn_up_again() {
    assert_eq!(resumed("plan", true, None), Some(("go on".to_string(), Some(false))));
    assert_eq!(resumed("plan", false, Some("more")), Some(("go on".to_string(), Some(true))));
    assert_eq!(resumed("plan", false, None), None);
    assert_eq!(resumed("plan", false, Some(" \n")), None);
    assert_eq!(resumed("question", true, Some("yes")), None);
}

#[test]
fn the_agent_is_looked_for_in_order() {
    let places = |home: Option<&'static str>, data: Option<&'static str>| {
        let mut found = Vec::new();
        while let Some(place) = agy_place(home, data, found.len()) {
            found.push(match place {
                Place::OnPath => "PATH".to_string(),
                Place::InHome(path) => format!("{}/{}", path.base, path.names.join("/")),
                Place::InDataLocal(path) => format!("{}/{}", path.base, path.names.join("/")),
            });
        }
        found
    };
    assert_eq!(
        places(Some("~"), Some("data")),
        [
            "PATH",
            "~/.local/bin",
            "~/.gemini/bin",
            "~/.gemini/antigravity-cli/bin",
            "data/agy/bin"
        ]
    );
    assert_eq!(places(None, Some("data")), ["PATH", "data/agy/bin"]);
    assert_eq!(places(None, None), ["PATH"]);
}

#[test]
fn the_users_directories_are_the_bases() {
    let mut search = AgySearch::new();
    assert!(matches!(search.place(), Some(Place::OnPath)));
    assert_eq!(search.home.as_ref().map(|d| d.path().clone()), dirs::home_dir());
    assert_eq!(search.data_local.as_ref().map(|d| d.path().clone()), dirs::data_local_dir());
    if let Some(home) = dirs::home_dir() {
        search.pass_over();
        match search.place() {
            Some(Place::InHome(path)) => assert_eq!(path.base.path(), &home),
            _ => panic!("no place below the home directory"),
        }
        for _ in 0..9 {
            search.pass_over();
        }
        assert!(search.place().is_none());
        assert!(search.tried <= 5);
        let config = Antigravity.config_home().unwrap();
        assert_eq!(config.base.path(), &home);
        assert_eq!(config.names, [".gemini", "antigravity-cli"]);
        let skill = Antigravity.skill_target().unwrap();
        assert_eq!(skill.base.path(), &home);
        assert_eq!(skill.names, [".gemini", "antigravity-cli", "skills", "orx", "SKILL.md"]);
    }
    assert!(config_below(None::<u8>).is_none());
    assert!(skill_below(None::<u8>).is_none());
}
