use arawn_engine::compactor::Compactor;
use arawn_engine::context::{validate_resolved, ToolContext};
use arawn_engine::conversation::{Message, ToolDefinition, ToolUse};
use arawn_engine::error::EngineError;
use arawn_engine::paths::{join_path, normalize_components, path_starts_with, same_path};
use arawn_engine::query_engine::{
    call_key, filter_tools_for_context, partition_calls, plan_mode_gate, to_chat_messages, EngineLoop,
};
use arawn_engine::token_estimator::TokenEstimator;
use arawn_engine::tool_result_limiter::{exceeds_limit, truncate_output, ToolOutput};
use arawn_engine::tool_timeout::{check_override, default_timeout, resolve, TimeoutArg};

fn tool(name: &str) -> ToolDefinition {
    ToolDefinition { name: name.into(), description: String::new(), parameters: "{}".into() }
}

fn user(s: &str) -> Message {
    Message::User { content: s.into() }
}

fn names(ts: &[ToolDefinition]) -> Vec<String> {
    ts.iter().map(|t| t.name.clone()).collect()
}

#[test]
fn short_conversations_offer_every_tool() {
    let tools = vec![tool("think"), tool("web_fetch"), tool("custom")];
    let out = filter_tools_for_context(&tools, &[user("hi")]);
    assert_eq!(names(&out), vec!["think", "web_fetch", "custom"]);
}

#[test]
fn keywords_turn_on_tool_groups() {
    let tools = vec![tool("think"), tool("web_fetch"), tool("web_search"), tool("TaskCreate"), tool("Agent"), tool("custom")];
    let msgs = vec![user("a"), user("b"), user("Please SEARCH the docs")];
    let out = filter_tools_for_context(&tools, &msgs);
    assert_eq!(names(&out), vec!["think", "web_fetch", "web_search"]);
}

#[test]
fn used_tools_stay_available() {
    let tools = vec![tool("think"), tool("custom"), tool("memory_store"), tool("memory_search")];
    let msgs = vec![
        user("a"),
        Message::Assistant { content: String::new(), tool_uses: vec![ToolUse { id: "1".into(), name: "memory_store".into(), input: "{}".into() }] },
        Message::ToolResult { tool_use_id: "1".into(), content: "ok".into(), is_error: false },
        user("next"),
    ];
    let out = filter_tools_for_context(&tools, &msgs);
    assert_eq!(names(&out), vec!["think", "memory_store", "memory_search"]);
}

#[test]
fn loop_turn_limit() {
    let mut l = EngineLoop::new(2);
    assert_eq!(l.begin_turn(), Ok(1));
    assert_eq!(l.begin_turn(), Ok(2));
    assert_eq!(l.begin_turn(), Err(2));
}

#[test]
fn compaction_circuit_breaker() {
    let mut l = EngineLoop::new(0);
    for _ in 0..3 {
        assert!(l.compaction_allowed());
        l.record_compaction(false);
    }
    assert!(!l.compaction_allowed());
    l.record_compaction(true);
    assert!(l.compaction_allowed());
}

#[test]
fn repeated_failures_are_blocked() {
    let mut l = EngineLoop::new(0);
    assert!(l.check_call("shell", true, true, "{}").is_none());
    l.record_result("shell", "{}", true);
    l.record_result("shell", "{}", true);
    let r = l.check_call("shell", true, true, "{}").unwrap();
    assert!(r.is_error);
    assert_eq!(
        r.content,
        "This exact call to 'shell' has already failed 2 times with the same arguments. Try a different approach, different arguments, or tell the user what went wrong."
    );
    l.record_result("shell", "{}", false);
    assert!(l.check_call("shell", true, true, "{}").is_none());
    assert_eq!(call_key("a", "{}"), "a:{}");
}

#[test]
fn invalid_calls_are_rejected_with_reasons() {
    let l = EngineLoop::new(0);
    assert_eq!(
        l.check_call("file_write<|x|>", false, true, "{}").unwrap().content,
        "Tool 'file_write<|x|>' is not available. Use one of the registered tools."
    );
    assert_eq!(
        l.check_call("shell", true, false, "[1]").unwrap().content,
        "Invalid arguments for tool 'shell': expected a JSON object, got [1]"
    );
}

#[test]
fn plan_mode_blocks_side_effects() {
    assert!(plan_mode_gate(true, "ExitPlanMode", false).is_none());
    assert!(plan_mode_gate(true, "file_read", true).is_none());
    assert!(plan_mode_gate(false, "shell", false).is_none());
    assert!(plan_mode_gate(true, "shell", false).unwrap().content.contains("Tool 'shell' has side effects"));
}

#[test]
fn calls_split_by_read_only() {
    let (ro, rw) = partition_calls(&vec![0, 2, 3], &vec![true, true, false, true]);
    assert_eq!(ro, vec![0, 3]);
    assert_eq!(rw, vec![2]);
}

#[test]
fn chat_messages_keep_roles() {
    let msgs = vec![
        user("u"),
        Message::ToolResult { tool_use_id: "7".into(), content: "r".into(), is_error: true },
        Message::Summary { content: "s".into() },
    ];
    let chat = to_chat_messages(&msgs);
    assert_eq!(chat[0].role, "user");
    assert_eq!(chat[1].role, "tool");
    assert_eq!(chat[1].tool_call_id.as_deref(), Some("7"));
    assert_eq!(chat[2].role, "user");
}

#[test]
fn estimate_user_message() {
    assert_eq!(TokenEstimator::estimate_message(&user("Hello, world!")), 7);
}

#[test]
fn estimate_messages_sums() {
    let msgs = vec![user(&"a".repeat(100)), Message::Assistant { content: "b".repeat(200), tool_uses: vec![] }];
    let total = TokenEstimator::estimate_messages(&msgs);
    let individual: u32 = msgs.iter().map(TokenEstimator::estimate_message).sum();
    assert_eq!(total, individual);
    assert_eq!(total, 29 + 54);
}

#[test]
fn estimate_tools_and_prompt() {
    let tools = vec![ToolDefinition { name: "shell".into(), description: "Execute a shell command".into(), parameters: "{\"type\":\"object\"}".into() }];
    assert_eq!(TokenEstimator::estimate_tools(&tools), (5 + 23 + 17) / 4 + 4);
    assert_eq!(TokenEstimator::estimate_system_prompt("abcdefgh"), 6);
}

#[test]
fn default_when_no_env_no_config() {
    assert_eq!(default_timeout(None, None), 120);
}

#[test]
fn config_overrides_default() {
    assert_eq!(default_timeout(None, Some(60)), 60);
}

#[test]
fn env_overrides_config() {
    assert_eq!(default_timeout(Some("90"), Some(60)), 90);
}

#[test]
fn env_zero_falls_back() {
    assert_eq!(default_timeout(Some("0"), Some(45)), 45);
}

#[test]
fn env_garbage_falls_back() {
    assert_eq!(default_timeout(Some("not-a-number"), Some(45)), 45);
}

#[test]
fn config_zero_falls_back_to_default() {
    assert_eq!(default_timeout(None, Some(0)), 120);
}

#[test]
fn resolve_with_override_uses_override() {
    assert_eq!(resolve(Some(5), Some(60), None), (5, "override"));
}

#[test]
fn resolve_without_override_uses_default() {
    assert_eq!(resolve(None, Some(60), None), (60, "default"));
}

#[test]
fn extract_override_absent() {
    assert_eq!(check_override(TimeoutArg::Absent).unwrap(), None);
}

#[test]
fn extract_override_strips_and_returns() {
    assert_eq!(check_override(TimeoutArg::Number { as_u64: Some(30), text: "30".into() }).unwrap(), Some(30));
}

#[test]
fn extract_override_zero_is_rejected() {
    assert!(check_override(TimeoutArg::Number { as_u64: Some(0), text: "0".into() }).is_err());
}

#[test]
fn extract_override_negative_is_rejected() {
    assert_eq!(
        check_override(TimeoutArg::Number { as_u64: None, text: "-5".into() }).unwrap_err(),
        "timeout_secs must be a positive integer; got -5"
    );
}

#[test]
fn extract_override_string_is_rejected() {
    assert!(check_override(TimeoutArg::Other { text: "\"30\"".into() }).is_err());
}

#[test]
fn extract_override_non_object_args_returns_none() {
    assert_eq!(check_override(TimeoutArg::NotAnObject).unwrap(), None);
}

#[test]
fn large_outputs_get_a_preview() {
    let out = ToolOutput { content: "x".repeat(3000), is_error: true };
    assert!(exceeds_limit(&out, 2500));
    let t = truncate_output(out, 2500, Some("/d/r.txt"));
    assert!(t.is_error);
    assert!(t.content.starts_with(&"x".repeat(2000)));
    assert!(t.content.contains("... (3000 chars total, truncated)"));
    assert!(t.content.ends_with("\n\nFull output saved to: /d/r.txt\nUse file_read to access the complete output."));
}

#[test]
fn user_messages_of_errors() {
    let e = EngineError::MaxIterations { iterations: 200, session_id: "s1".into() };
    assert_eq!(e.user_message(), "Reached the maximum iteration limit (200 turns). Session s1 has been saved \u{2014} resume with --session s1");
    assert_eq!(EngineError::Tool("x".into()).user_message(), "A tool encountered an error: x");
}

#[test]
fn compaction_keeps_recent_messages() {
    let c = Compactor::with_keep_recent("m", 2);
    let msgs = vec![Message::Summary { content: "old".into() }, user("a"), user("b"), user("c")];
    let (prompt, req) = c.compaction_request(&msgs).unwrap();
    assert!(prompt.contains("RECENT portion"));
    assert_eq!(req.len(), 2);
    assert!(c.compaction_request(&msgs[..2]).is_none());
}

#[test]
fn paths_compare_by_components() {
    assert!(same_path("/a//b/", "/a/b"));
    assert!(!same_path("a", "./a"));
    assert!(path_starts_with("/ws/src/x.rs", "/ws"));
    assert!(!path_starts_with("/wsx/src", "/ws"));
    assert_eq!(normalize_components("/ws/a/../b/./c"), "/ws/b/c");
    assert_eq!(join_path("/a", "/b"), "/b");
}

#[test]
fn context_paths_and_depth() {
    let mut ctx = ToolContext::new("Test WS", "/tmp/test-ws", "s");
    assert_eq!(ctx.workstream_name(), "Test WS");
    assert!(ctx.can_spawn_agent());
    ctx.mark_file_read("/tmp/test-ws/a.rs".into());
    assert!(ctx.has_read_file("/tmp/test-ws//a.rs"));
    let child = ctx.for_sub_agent();
    assert_eq!(child.agent_depth(), 1);
    assert!(!child.has_read_file("/tmp/test-ws/a.rs"));
    assert_eq!(validate_resolved("../x", "/etc/x".into(), "/tmp/test-ws", false).unwrap_err(), "path '../x' escapes workstream root");
    assert_eq!(validate_resolved("a", "/tmp/test-ws/a".into(), "/tmp/test-ws", false).unwrap(), "/tmp/test-ws/a");
}

#[test]
fn estimate_assistant_with_tool_uses() {
    let msg = Message::Assistant {
        content: "Let me check.".into(),
        tool_uses: vec![ToolUse { id: "c1".into(), name: "shell".into(), input: r#"{"command":"ls -la"}"#.into() }],
    };
    let tokens = TokenEstimator::estimate_message(&msg);
    assert!(tokens > 10);
}

#[test]
fn estimate_tool_result() {
    let msg = Message::ToolResult {
        tool_use_id: "c1".into(),
        content: "file1.rs\nfile2.rs\nfile3.rs\n".into(),
        is_error: false,
    };
    let tokens = TokenEstimator::estimate_message(&msg);
    assert!(tokens > 5);
}

#[test]
fn estimate_tools() {
    let tools = vec![ToolDefinition {
        name: "shell".into(),
        description: "Execute a shell command".into(),
        parameters: r#"{"type":"object","properties":{"command":{"type":"string"}}}"#.into(),
    }];
    let tokens = TokenEstimator::estimate_tools(&tools);
    assert!(tokens > 10);
}

#[test]
fn context_from_workstream() {
    let session_id = "3f0b8a52-95a4-4a8e-9a53-0c1f2d7e6b11";
    let ctx = ToolContext::new("Test WS", "/tmp/test-ws", session_id);
    assert_eq!(ctx.session_id, session_id);
    assert_eq!(ctx.working_dir, "/tmp/test-ws");
    assert_eq!(ctx.workstream_name(), "Test WS");
}

#[test]
fn context_is_clone() {
    let ctx = ToolContext::new("Clone Test", "/tmp/clone", "8d1c2e0f-7a3b-4c5d-9e6f-1a2b3c4d5e6f");
    let cloned = ctx.clone();
    assert_eq!(ctx.session_id, cloned.session_id);
    assert_eq!(ctx.working_dir, cloned.working_dir);
}
