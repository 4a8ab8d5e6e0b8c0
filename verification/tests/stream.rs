use antigravity::chat::{DeliveryState, TurnCtx, WirePart};
use antigravity::json::{parse_json, Json};
use antigravity::stream::{
    apply_event, denied_actions_error, error_text, step_is_terminal, TurnState,
};
use antigravity::tools::normalize_tool;

fn json(text: &str) -> Json {
    parse_json(text).expect(text)
}

fn blank_turn() -> TurnCtx {
    TurnCtx::new("session".to_string(), "assistant".to_string(), "hello".to_string())
}

fn fold(events: &[String]) -> (TurnCtx, TurnState) {
    let mut ctx = blank_turn();
    let mut state = TurnState::default();
    for event in events {
        apply_event(&mut ctx, &mut state, &json(event));
    }
    (ctx, state)
}

fn step(body: &str) -> String {
    format!("{{\"event\":\"step_update\",\"step_update\":{body}}}")
}

fn result(body: &str) -> String {
    format!("{{\"event\":\"result\",\"result\":{body}}}")
}

fn input_text<'a>(part: &'a WirePart, name: &str) -> Option<&'a str> {
    part.state.as_ref().unwrap().input.as_ref().unwrap().get_str(name)
}

#[test]
fn stream_folds_init_text_tools_and_result() {
    let (mut ctx, mut state) = fold(&[
        r#"{"event": "init", "conversation_id": "test-conv-123",
            "init": {"tools": ["run_command", "view_file"]}}"#
            .to_string(),
        step(r#"{"step_index": 0, "state": "DONE", "step_type": "user_input"}"#),
        step(
            r#"{"step_index": 1, "state": "ACTIVE", "step_type": "agent_response",
                "text_delta": "Checking directory "}"#,
        ),
        step(
            r#"{"step_index": 1, "state": "DONE", "step_type": "agent_response",
                "text_delta": "contents..."}"#,
        ),
        step(
            r#"{"step_index": 2, "state": "ACTIVE", "step_type": "tool",
                "tool_name": "run_command",
                "tool_info": {"name": "run_command", "parameters": {"CommandLine": "ls -la"}}}"#,
        ),
        step(
            r#"{"step_index": 2, "state": "DONE", "step_type": "tool",
                "tool_name": "run_command",
                "tool_info": {"name": "run_command", "parameters": {"CommandLine": "ls -la"},
                    "output": "file.txt\n"}}"#,
        ),
        step(
            r#"{"step_index": 3, "state": "ACTIVE", "step_type": "agent_response",
                "text_delta": "Found file.txt"}"#,
        ),
        step(
            r#"{"step_index": 3, "state": "DONE", "step_type": "agent_response",
                "text_delta": "."}"#,
        ),
    ]);

    assert_eq!(state.conversation_id.as_deref(), Some("test-conv-123"));
    assert_eq!(ctx.assistant.parts.len(), 3);
    assert_eq!(ctx.assistant.parts[0].kind, "text");
    assert_eq!(
        ctx.assistant.parts[0].text.as_deref(),
        Some("Checking directory contents...")
    );

    assert_eq!(ctx.assistant.parts[1].kind, "tool");
    let tool_state = ctx.assistant.parts[1].state.as_ref().unwrap();
    assert_eq!(tool_state.status, "completed");
    assert_eq!(ctx.assistant.parts[1].tool.as_deref(), Some("Bash"));
    assert_eq!(input_text(&ctx.assistant.parts[1], "command"), Some("ls -la"));
    assert_eq!(tool_state.output.as_deref(), Some("file.txt\n"));

    assert_eq!(ctx.assistant.parts[2].kind, "text");
    assert_eq!(ctx.assistant.parts[2].text.as_deref(), Some("Found file.txt."));

    let done = apply_event(
        &mut ctx,
        &mut state,
        &json(&result(
            r#"{"conversation_id": "test-conv-123", "status": "SUCCESS", "response": "Done"}"#,
        )),
    );
    assert!(done);
    assert!(state.saw_result);
    assert!(!state.turn_errored);
}

#[test]
fn non_success_results_never_finish_the_answer() {
    for status in ["ERROR", "CANCELED", "INTERRUPTED", "INVALID", "WAITING", "RUNNING"] {
        let (ctx, state) = fold(&[result(&format!(
            "{{\"conversation_id\": \"\", \"status\": \"{status}\", \"error\": \"Quota limit exceeded\"}}"
        ))]);
        assert!(state.saw_result);
        assert!(state.turn_errored, "{status}");
        assert!(state.conversation_id.is_none());
        assert!(ctx.assistant.parts.is_empty());
        assert!(!ctx.final_text_marked);
        let failure = ctx.failure.as_ref().unwrap();
        assert_eq!(failure.code, "antigravity_terminal");
        assert_eq!(failure.message, "Antigravity: Quota limit exceeded");
    }
}

#[test]
fn tool_updates_preserve_inputs_and_surface_object_errors() {
    let (ctx, _) = fold(&[
        step(
            r#"{"step_index":1,"state":"ACTIVE","step_type":"tool","tool_name":"view_file",
                "tool_info":{"parameters":{"AbsolutePath":"/repo/file.rs"}}}"#,
        ),
        step(
            r#"{"step_index":1,"state":"DONE","step_type":"tool","tool_name":"view_file",
                "tool_info":{"error":{"type":"permission","message":"Denied"}}}"#,
        ),
    ]);
    let part = &ctx.assistant.parts[0];
    assert_eq!(part.tool.as_deref(), Some("Read"));
    let state = part.state.as_ref().unwrap();
    assert_eq!(state.status, "error");
    assert_eq!(state.error.as_deref(), Some("Denied"));
    assert_eq!(input_text(part, "file_path"), Some("/repo/file.rs"));
    for name in ["write_to_file", "replace_file_content", "multi_replace_file_content"] {
        let (_, input) = normalize_tool(name, Some(&json(r#"{"TargetFile":"/repo/file.rs"}"#)));
        assert_eq!(input.unwrap().get_str("file_path"), Some("/repo/file.rs"));
    }
}

#[test]
fn failed_tool_states_are_terminal_even_without_error_payloads() {
    for (step_state, expected_error) in [
        ("ERROR", "Antigravity tool failed"),
        ("CANCELED", "Antigravity tool was canceled"),
    ] {
        let (ctx, _) = fold(&[step(&format!(
            "{{\"step_index\": 1, \"state\": \"{step_state}\", \"step_type\": \"tool\", \
             \"tool_name\": \"run_command\", \
             \"tool_info\": {{\"parameters\": {{\"CommandLine\": \"false\"}}}}}}"
        ))]);
        let tool = ctx.assistant.parts[0].state.as_ref().unwrap();
        assert_eq!(tool.status, "error", "{step_state}");
        assert_eq!(tool.error.as_deref(), Some(expected_error), "{step_state}");
    }
}

#[test]
fn an_error_payload_terminates_an_active_tool() {
    let (ctx, _) = fold(&[step(
        r#"{"step_index": 1, "state": "ACTIVE", "step_type": "tool", "tool_name": "view_file",
            "tool_info": {"error": {"message": "Denied"}}}"#,
    )]);
    let tool = ctx.assistant.parts[0].state.as_ref().unwrap();
    assert_eq!(tool.status, "error");
    assert_eq!(tool.error.as_deref(), Some("Denied"));
}

#[test]
fn terminal_agent_response_clears_the_streamed_text_part() {
    for step_state in ["ERROR", "CANCELED"] {
        let (_, state) = fold(&[
            step(
                r#"{"step_index":1,"state":"ACTIVE","step_type":"agent_response",
                    "text_delta":"partial"}"#,
            ),
            step(&format!(
                "{{\"step_index\":1,\"state\":\"{step_state}\",\"step_type\":\"agent_response\"}}"
            )),
        ]);
        assert!(state.text_part_id.is_none(), "{step_state}");
    }
}

#[test]
fn empty_success_with_denied_actions_is_a_failed_turn() {
    let (ctx, state) = fold(&[result(
        r#"{"status": "SUCCESS", "response": "",
            "denied_actions": [{"action": "command", "display_name": "RunCommand"}]}"#,
    )]);
    assert!(state.saw_result);
    assert!(state.turn_errored);
    assert_eq!(ctx.delivery_state(), DeliveryState::Accepted);
    assert_eq!(
        denied_actions_error(&json(
            r#"{"response": "", "denied_actions": [{"display_name": "RunCommand"}]}"#
        ))
        .as_deref(),
        Some("Antigravity denied required action(s): RunCommand")
    );
    let failure = ctx.failure.as_ref().unwrap();
    assert_eq!(failure.code, "antigravity_permission_denied");
    assert_eq!(failure.message, "Antigravity denied required action(s): RunCommand");
    assert!(!ctx.final_text_marked);
}

#[test]
fn denied_actions_do_not_discard_a_nonempty_response() {
    assert!(denied_actions_error(&json(
        r#"{"response": "I could not run it, but here is an explanation.",
            "denied_actions": [{"display_name": "RunCommand"}]}"#
    ))
    .is_none());
}

#[test]
fn denied_actions_are_named_in_order() {
    let message = |text: &str| denied_actions_error(&json(text));
    assert_eq!(
        message(
            r#"{"denied_actions": [{"action": "command"}, {"display_name": 7, "action": "x"},
                {"display_name": "Edit"}, 3]}"#
        )
        .as_deref(),
        Some("Antigravity denied required action(s): command, Edit")
    );
    assert_eq!(
        message(r#"{"response": "  \n", "denied_actions": [{}]}"#).as_deref(),
        Some("Antigravity denied one or more required actions")
    );
    assert!(message(r#"{"denied_actions": []}"#).is_none());
    assert!(message(r#"{"denied_actions": "all"}"#).is_none());
    assert!(message("{}").is_none());
    assert!(message("null").is_none());
}

#[test]
fn a_success_finishes_the_answer() {
    let (ctx, state) = fold(&[result(r#"{"conversation_id": "c", "status": "SUCCESS"}"#)]);
    assert!(ctx.final_text_marked);
    assert!(ctx.failure.is_none());
    assert_eq!(ctx.delivery_state(), DeliveryState::Accepted);
    assert!(!state.turn_errored);
    assert_eq!(state.conversation_id.as_deref(), Some("c"));
}

#[test]
fn a_result_without_status_or_error_is_invalid() {
    let (ctx, state) = fold(&[r#"{"event": "result"}"#.to_string()]);
    assert!(state.turn_errored);
    assert_eq!(ctx.failure.as_ref().unwrap().message, "Antigravity: INVALID");
    assert_eq!(ctx.delivery_state(), DeliveryState::NotSent);
    let (ctx, _) = fold(&[result(r#"{"status": "ERROR", "error": {"message": "gone"}}"#)]);
    assert_eq!(ctx.failure.as_ref().unwrap().message, "Antigravity: gone");
    let (ctx, _) = fold(&[result(r#"{"status": "ERROR", "error": {"code": 5}}"#)]);
    assert_eq!(ctx.failure.as_ref().unwrap().message, "Antigravity: ERROR");
}

#[test]
fn parts_are_numbered_and_named_by_their_steps() {
    let (ctx, state) = fold(&[
        step(r#"{"step_type": "agent_response", "text_delta": "a", "state": "DONE"}"#),
        step(r#"{"step_type": "agent_response", "text_delta": ""}"#),
        step(r#"{"step_type": "agent_response", "text_delta": "b"}"#),
        step(r#"{"step_type": "tool", "step_index": -12, "tool_name": "list_dir"}"#),
        step(r#"{"step_type": "tool", "step_index": 2.5}"#),
        step(r#"{"step_type": "tool", "step_index": -9223372036854775808, "tool_name": "x-y"}"#),
        step(r#"{"step_type": "tool", "step_index": 18446744073709551615, "tool_name": "x"}"#),
        step(r#"{"step_type": "agent_response", "text_delta": "c"}"#),
    ]);
    let ids: Vec<&str> = ctx.assistant.parts.iter().map(|p| p.id.as_str()).collect();
    assert_eq!(
        ids,
        [
            "text-1",
            "text-2",
            "tool--12-list_dir",
            "tool-0-tool",
            "tool--9223372036854775808-x-y",
            "tool-0-x",
            "text-3"
        ]
    );
    assert_eq!(state.text_seq, 3);
    assert_eq!(state.text_part_id.as_deref(), Some("text-3"));
    assert_eq!(ctx.assistant.parts[2].tool.as_deref(), Some("Glob"));
    assert_eq!(ctx.assistant.parts[2].state.as_ref().unwrap().status, "running");
    assert!(ctx.assistant.parts[2].state.as_ref().unwrap().input.is_none());
    assert!(ctx.assistant.parts.iter().all(|p| p.children.is_empty()));
}

#[test]
fn a_running_tool_keeps_what_a_step_does_not_report() {
    let (ctx, _) = fold(&[
        step(
            r#"{"step_type": "tool", "tool_name": "t", "state": "DONE",
                "tool_info": {"output": "first", "parameters": [1]}}"#,
        ),
        step(
            r#"{"step_type": "tool", "tool_name": "t", "state": "ACTIVE",
                "tool_info": {"output": "second"}}"#,
        ),
    ]);
    assert_eq!(ctx.assistant.parts.len(), 1);
    let tool = ctx.assistant.parts[0].state.as_ref().unwrap();
    assert_eq!(tool.status, "completed");
    assert_eq!(tool.output.as_deref(), Some("first"));
    assert_eq!(tool.input.as_ref().unwrap().as_array().unwrap()[0].as_i64(), Some(1));
    assert_eq!(ctx.assistant.parts[0].tool.as_deref(), Some("t"));
}

#[test]
fn unknown_events_change_nothing() {
    let (ctx, state) = fold(&[
        r#"{"event": "ping", "conversation_id": "x"}"#.to_string(),
        r#"{"event": 3}"#.to_string(),
        "[]".to_string(),
        r#"{"event": "step_update"}"#.to_string(),
        step(r#"{"step_type": "thought", "text_delta": "hm"}"#),
        r#"{"event": "init", "conversation_id": ""}"#.to_string(),
    ]);
    assert!(ctx.assistant.parts.is_empty());
    assert!(state.conversation_id.is_none());
    assert!(!state.saw_result && !state.turn_errored);
    assert_eq!(state.text_seq, 0);
}

#[test]
fn a_known_conversation_is_not_forgotten() {
    let (_, state) = fold(&[
        r#"{"event": "init", "conversation_id": "one"}"#.to_string(),
        step(r#"{"conversation_id": "two", "step_type": "user_input"}"#),
        step(r#"{"conversation_id": "", "step_type": "user_input"}"#),
        result(r#"{"status": "SUCCESS"}"#),
    ]);
    assert_eq!(state.conversation_id.as_deref(), Some("two"));
}

#[test]
fn only_ended_steps_are_terminal() {
    for state in ["DONE", "ERROR", "CANCELED"] {
        assert!(step_is_terminal(state));
    }
    for state in ["", "done", "ACTIVE", "DONE "] {
        assert!(!step_is_terminal(state));
    }
}

#[test]
fn errors_are_texts_or_have_a_message() {
    assert_eq!(error_text(&json("\"plain\"")), Some("plain"));
    assert_eq!(error_text(&json(r#"{"message": "inner"}"#)), Some("inner"));
    assert_eq!(error_text(&json(r#"{"message": 1}"#)), None);
    assert_eq!(error_text(&json("null")), None);
}

#[test]
fn every_tool_is_shown_under_its_name_with_its_aliases() {
    for (native, shown, key, alias) in [
        ("run_command", "Bash", "CommandLine", "command"),
        ("view_file", "Read", "AbsolutePath", "file_path"),
        ("write_to_file", "Write", "CodeContent", "content"),
        ("replace_file_content", "Edit", "TargetFile", "file_path"),
        ("multi_replace_file_content", "Edit", "TargetFile", "file_path"),
        ("list_dir", "Glob", "DirectoryPath", "path"),
        ("grep_search", "Grep", "Query", "pattern"),
        ("code_search", "Grep", "SearchPath", "path"),
        ("find_by_name", "Glob", "Pattern", "pattern"),
        ("find_by_name", "Glob", "SearchDirectory", "path"),
        ("read_url_content", "WebFetch", "Url", "url"),
    ] {
        let params = json(&format!("{{\"{key}\": \"v\", \"{alias}\": \"old\", \"other\": \"o\"}}"));
        let (tool, input) = normalize_tool(native, Some(&params));
        let input = input.unwrap();
        assert_eq!(tool, shown);
        assert_eq!(input.get_str(alias), Some("v"));
        assert_eq!(input.get_str(key), Some("v"));
        assert_eq!(input.get_str("other"), Some("o"));
    }
    assert_eq!(normalize_tool("search_web", None).0, "WebSearch");
    assert_eq!(normalize_tool("my_tool", None).0, "my_tool");
    assert!(normalize_tool("run_command", None).1.is_none());
    let (_, text) = normalize_tool("run_command", Some(&json("\"CommandLine\"")));
    assert_eq!(text.unwrap().as_str(), Some("CommandLine"));
}
