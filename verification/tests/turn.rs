use antigravity::chat::{DeliveryState, TurnCtx, WirePart, WirePrompt};
use antigravity::command::{first_turn_prompt, permission_args, turn_args, PLAYBOOK_REL};
use antigravity::log::{log_file_name, log_name, new_log_name};
use antigravity::options::PermissionMode;
use antigravity::stream::TurnState;
use antigravity::turn::{
    finish_turn, plan_card, should_synthesize_plan, spawn_failure, take_output, Next, Output,
};

fn blank_turn() -> TurnCtx {
    TurnCtx::new("session".to_string(), "assistant".to_string(), "hello".to_string())
}

fn line(text: &str) -> Output {
    Output::Line(text.to_string())
}

#[test]
fn permissions_match_advertised_native_modes() {
    assert!(permission_args(None, false).is_empty());
    assert!(permission_args(Some(PermissionMode::Ask), false).is_empty());
    assert_eq!(
        permission_args(Some(PermissionMode::AcceptEdits), false),
        ["--mode=accept-edits"]
    );
    assert_eq!(
        permission_args(Some(PermissionMode::Bypass), false),
        ["--mode=accept-edits", "--dangerously-skip-permissions"]
    );
    assert_eq!(permission_args(Some(PermissionMode::Bypass), true), ["--mode=plan"]);
}

#[test]
fn the_first_turn_points_at_the_playbook() {
    assert_eq!(
        first_turn_prompt("do it"),
        format!(
            "Read and follow `{PLAYBOOK_REL}` before acting. It is the OpenResearch session playbook for this worktree.\n\ndo it"
        )
    );
    let ctx = blank_turn();
    assert_eq!(
        turn_args(&ctx),
        [
            "--output-format".to_string(),
            "stream-json".to_string(),
            "--print-timeout".to_string(),
            "30m".to_string(),
            format!("--print={}", first_turn_prompt("hello")),
        ]
    );
}

#[test]
fn a_later_turn_names_its_conversation() {
    let mut ctx = blank_turn();
    ctx.native_session_id = Some("conv".to_string());
    ctx.model = Some("gemini".to_string());
    ctx.reasoning_level = Some("high".to_string());
    ctx.permission_mode = Some(PermissionMode::Bypass);
    assert_eq!(
        turn_args(&ctx),
        [
            "--output-format",
            "stream-json",
            "--model",
            "gemini",
            "--effort",
            "high",
            "--mode=accept-edits",
            "--dangerously-skip-permissions",
            "--print-timeout",
            "30m",
            "--conversation",
            "conv",
            "--print=hello",
        ]
    );
    ctx.model = Some(String::new());
    ctx.reasoning_level = Some("default".to_string());
    ctx.plan_mode = true;
    assert_eq!(
        turn_args(&ctx),
        [
            "--output-format",
            "stream-json",
            "--mode=plan",
            "--print-timeout",
            "30m",
            "--conversation",
            "conv",
            "--print=hello",
        ]
    );
}

#[test]
fn output_drives_a_turn_to_its_end() {
    let mut ctx = blank_turn();
    let mut state = TurnState::default();
    assert!(matches!(
        take_output(&mut ctx, &mut state, &line("not json"), 600),
        Next::Read { flush: false }
    ));
    assert!(matches!(
        take_output(
            &mut ctx,
            &mut state,
            &line("{\"event\":\"init\",\"conversation_id\":\"c1\"}"),
            600
        ),
        Next::Read { flush: true }
    ));
    assert_eq!(ctx.native_session_id.as_deref(), Some("c1"));
    assert_eq!(ctx.delivery_state(), DeliveryState::NotSent);
    assert!(matches!(
        take_output(&mut ctx, &mut state, &line("{\"event\":\"step_update\"}"), 600),
        Next::Read { flush: true }
    ));
    assert_eq!(ctx.delivery_state(), DeliveryState::Accepted);
    assert!(matches!(
        take_output(
            &mut ctx,
            &mut state,
            &line("{\"event\":\"result\",\"result\":{\"status\":\"SUCCESS\"}}"),
            600
        ),
        Next::Finish { flush: true }
    ));
    assert!(turn_args(&ctx).contains(&"--conversation".to_string()));
    assert_eq!(turn_args(&ctx).last().unwrap(), "--print=hello");
}

#[test]
fn output_that_stops_ends_a_turn() {
    let mut ctx = blank_turn();
    let mut state = TurnState::default();
    assert!(matches!(
        take_output(&mut ctx, &mut state, &Output::Closed, 600),
        Next::Finish { flush: false }
    ));
    match take_output(&mut ctx, &mut state, &Output::Unreadable("torn".to_string()), 600) {
        Next::Fail(message) => assert_eq!(message, "antigravity stdout: torn"),
        _ => panic!("the turn goes on"),
    }
    match take_output(&mut ctx, &mut state, &Output::Silent, 659) {
        Next::Fail(message) => {
            assert_eq!(message, "Antigravity went silent for 10 minutes and was interrupted.")
        }
        _ => panic!("the turn goes on"),
    }
}

#[test]
fn a_turn_without_a_result_fails() {
    let mut ctx = blank_turn();
    let state = TurnState::default();
    assert_eq!(
        finish_turn(&mut ctx, &state, true, "exit status: 0", "/tmp/a.log"),
        Err("Antigravity ended without a result (exit status: 0); see /tmp/a.log".to_string())
    );
}

#[test]
fn a_failing_process_fails_a_turn_that_reported_none() {
    let mut ctx = blank_turn();
    let mut state = TurnState::default();
    state.saw_result = true;
    assert_eq!(
        finish_turn(&mut ctx, &state, false, "exit status: 2", "l"),
        Err("Antigravity ended with error (exit status: 2)".to_string())
    );
    assert_eq!(finish_turn(&mut ctx, &state, true, "", "l"), Ok(true));
    state.turn_errored = true;
    assert_eq!(finish_turn(&mut ctx, &state, false, "exit status: 2", "l"), Ok(false));
}

#[test]
fn a_plan_is_put_to_the_user_once() {
    let mut ctx = blank_turn();
    let mut state = TurnState::default();
    state.saw_result = true;
    ctx.plan_mode = true;
    ctx.upsert_part(WirePart::text("text-1".to_string(), "first the tests"));
    ctx.upsert_part(WirePart::text("text-2".to_string(), "  \n"));
    assert_eq!(finish_turn(&mut ctx, &state, true, "", "l"), Ok(true));
    assert_eq!(finish_turn(&mut ctx, &state, true, "", "l"), Ok(true));
    assert_eq!(ctx.assistant.parts.len(), 3);
    let card = &ctx.assistant.parts[2];
    assert_eq!(card.id, "plan-synth-assistant");
    let prompt = card.prompt.as_ref().unwrap();
    assert_eq!(prompt.kind, "plan");
    assert_eq!(prompt.plan.as_deref(), Some("first the tests"));
    assert!(prompt.synthesized);
    state.turn_errored = true;
    ctx.assistant.parts.clear();
    assert_eq!(finish_turn(&mut ctx, &state, true, "", "l"), Ok(false));
    assert!(ctx.assistant.parts.is_empty());
}

#[test]
fn only_texts_become_plans() {
    assert!(plan_card(&[], "a").is_none());
    let prompt = WirePrompt { kind: "plan".to_string(), plan: None, synthesized: false };
    let mut part = WirePart::prompt("p".to_string(), prompt);
    part.text = Some("not this".to_string());
    assert!(plan_card(&[part], "a").is_none());
    let part = WirePart::text("t".to_string(), "\u{a0}");
    assert!(plan_card(&[part], "a").is_none());
    assert!(should_synthesize_plan(true, false, false, "x"));
    assert!(!should_synthesize_plan(false, false, false, "x"));
    assert!(!should_synthesize_plan(true, true, false, "x"));
    assert!(!should_synthesize_plan(true, false, true, "x"));
    assert!(!should_synthesize_plan(true, false, false, " "));
}

#[test]
fn an_agent_that_does_not_start_was_sent_nothing() {
    let mut ctx = blank_turn();
    ctx.mark_delivery(DeliveryState::Unknown);
    assert_eq!(
        spawn_failure(&mut ctx, "/bin/agy", "No such file"),
        "Could not spawn /bin/agy: No such file"
    );
    assert_eq!(ctx.delivery_state(), DeliveryState::NotSent);
}

#[test]
fn logs_are_named_after_a_random_id() {
    assert_eq!(log_name("1-2"), "antigravity-1-2");
    assert_eq!(log_file_name("antigravity-1"), "agent-antigravity-1.log");
    let name = new_log_name();
    assert_ne!(name, new_log_name());
    let id = uuid::Uuid::parse_str(name.strip_prefix("antigravity-").unwrap()).unwrap();
    assert_eq!(id.get_version_num(), 4);
    assert_eq!(name, format!("antigravity-{}", id.hyphenated()));
}

#[test]
fn parts_are_replaced_by_id_and_extended_in_place() {
    let mut ctx = blank_turn();
    ctx.upsert_part(WirePart::text("a".to_string(), "1"));
    ctx.upsert_part(WirePart::text("b".to_string(), "2"));
    ctx.upsert_part(WirePart::text("a".to_string(), "3"));
    ctx.append_part_text("a", "4");
    ctx.append_part_text("missing", "5");
    ctx.assistant.parts[1].text = None;
    ctx.append_part_text("b", "6");
    let texts: Vec<Option<&str>> =
        ctx.assistant.parts.iter().map(|p| p.text.as_deref()).collect();
    assert_eq!(texts, [Some("34"), Some("6")]);
}

fn run(lines: &[&str]) -> (TurnCtx, bool) {
    let mut ctx = blank_turn();
    let mut state = TurnState::default();
    for text in lines {
        if let Next::Finish { .. } = take_output(&mut ctx, &mut state, &line(text), 600) {
            break;
        }
    }
    let ended = finish_turn(&mut ctx, &state, true, "exit status: 0", "l");
    (ctx, ended.is_ok())
}

#[test]
fn noise_and_lines_after_the_result_do_not_count() {
    let step = "{\"event\":\"step_update\",\"step_update\":{\"step_type\":\"agent_response\",\"text_delta\":\"hi\"}}";
    let success = "{\"event\":\"result\",\"result\":{\"status\":\"SUCCESS\",\"conversation_id\":\"c\"}}";
    let failure = "{\"event\":\"result\",\"result\":{\"status\":\"ERROR\"}}";
    for lines in [
        vec![step, success],
        vec!["starting", step, "{", success],
        vec![step, "", success, step, failure, "bye"],
    ] {
        let (ctx, ended) = run(&lines);
        assert!(ended);
        assert_eq!(ctx.assistant.parts.len(), 1);
        assert_eq!(ctx.assistant.parts[0].text.as_deref(), Some("hi"));
        assert!(ctx.final_text_marked && ctx.failure.is_none());
        assert_eq!(ctx.native_session_id.as_deref(), Some("c"));
        assert_eq!(ctx.delivery_state(), DeliveryState::Accepted);
    }
    assert!(!run(&[step, "noise"]).1);
}
