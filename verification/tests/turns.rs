use arawn_engine::background::TaskNotification;
use arawn_engine::compactor::{compaction_result, Compactor};
use arawn_engine::conversation::Message;
use arawn_engine::permissions::PermissionDecision;
use arawn_engine::query_engine::{gate_tool_call, notification_messages, EngineLoop, ToolResult, TurnAction};
use arawn_engine::stream::{AssembledResponse, AssembledToolCall};
use arawn_engine::token_estimator::TokenEstimator;

fn call(id: &str, name: &str, args: &str) -> AssembledToolCall {
    AssembledToolCall { id: id.into(), name: name.into(), arguments: args.into() }
}

fn result(content: &str, is_error: bool) -> ToolResult {
    ToolResult { content: content.into(), is_error }
}

#[test]
fn gates_refuse_in_order() {
    // Plan mode comes first, even when everything else would refuse too.
    let r = gate_tool_call(true, "shell", false, Some(PermissionDecision::Denied), Some(None), false).unwrap();
    assert!(r.is_error);
    assert!(r.content.starts_with("Plan mode is active"));
    // Then the permission decision.
    let r = gate_tool_call(false, "shell", false, Some(PermissionDecision::Denied), Some(None), false).unwrap();
    assert_eq!(r.content, "Permission denied: tool 'shell' is not allowed by your permission settings.");
    // Then the hooks.
    let r = gate_tool_call(false, "shell", false, Some(PermissionDecision::Allowed), Some(Some("no".into())), false).unwrap();
    assert_eq!(r.content, "Hook blocked tool 'shell': no");
    let r = gate_tool_call(false, "shell", false, None, Some(None), true).unwrap();
    assert_eq!(r.content, "Hook blocked tool 'shell': Blocked by hook");
    // Then the lookup.
    let r = gate_tool_call(false, "shell", false, None, None, false).unwrap();
    assert_eq!(r.content, "Tool 'shell' not found");
    // Everything passes: run.
    assert!(gate_tool_call(false, "shell", false, Some(PermissionDecision::Allowed), None, true).is_none());
    assert!(gate_tool_call(true, "file_read", true, None, None, true).is_none());
    assert!(gate_tool_call(true, "ExitPlanMode", false, None, None, true).is_none());
}

#[test]
fn response_without_calls_finishes() {
    let engine = EngineLoop::new(10);
    let response = AssembledResponse { text: "All done.".into(), tool_calls: vec![], usage: None };
    match engine.after_response(&response, &vec![], &vec![]) {
        TurnAction::Finish { message, text } => {
            assert_eq!(text, "All done.");
            match message {
                Message::Assistant { content, tool_uses } => {
                    assert_eq!(content, "All done.");
                    assert!(tool_uses.is_empty());
                }
                other => panic!("unexpected message: {other:?}"),
            }
        }
        TurnAction::RunTools(_) => panic!("expected the loop to finish"),
    }
}

#[test]
fn response_with_calls_runs_tools() {
    let engine = EngineLoop::new(10);
    let response = AssembledResponse {
        text: "Looking.".into(),
        tool_calls: vec![call("c1", "file_read", "{\"path\":\"a\"}"), call("c2", "shell", "{\"command\":\"ls\"}")],
        usage: None,
    };
    match engine.after_response(&response, &vec![true, true], &vec![true, false]) {
        TurnAction::RunTools(plan) => {
            assert_eq!(plan.read_only, vec![0]);
            assert_eq!(plan.writes, vec![1]);
            assert!(plan.results.iter().all(|r| r.is_none()));
        }
        TurnAction::Finish { .. } => panic!("expected tools to run"),
    }
}

#[test]
fn tool_results_appended_in_call_order_and_counted() {
    let mut engine = EngineLoop::new(10);
    let calls = vec![call("c1", "shell", "{\"command\":\"false\"}"), call("c2", "file_read", "{\"path\":\"a\"}")];
    let results = vec![result("exit 1", true), result("contents", false)];
    let msgs = engine.finish_tool_turn(&calls, &results);
    assert_eq!(msgs.len(), 2);
    match &msgs[0] {
        Message::ToolResult { tool_use_id, content, is_error } => {
            assert_eq!(tool_use_id, "c1");
            assert_eq!(content, "exit 1");
            assert!(*is_error);
        }
        other => panic!("unexpected message: {other:?}"),
    }
    match &msgs[1] {
        Message::ToolResult { tool_use_id, content, is_error } => {
            assert_eq!(tool_use_id, "c2");
            assert_eq!(content, "contents");
            assert!(!*is_error);
        }
        other => panic!("unexpected message: {other:?}"),
    }
    assert_eq!(engine.failures("shell", "{\"command\":\"false\"}"), 1);
    assert_eq!(engine.failures("file_read", "{\"path\":\"a\"}"), 0);
    // A second failure of the same call in a later turn brings it to two.
    engine.finish_tool_turn(&vec![calls[0].clone()], &vec![result("exit 1", true)]);
    assert_eq!(engine.failures("shell", "{\"command\":\"false\"}"), 2);
}

#[test]
fn notifications_become_user_messages() {
    let notifs = vec![TaskNotification {
        task_id: "bg_1".into(),
        description: "build".into(),
        status: "completed".into(),
        summary: "done".into(),
    }];
    let msgs = notification_messages(&notifs);
    assert_eq!(msgs.len(), 1);
    match &msgs[0] {
        Message::User { content } => assert_eq!(
            content,
            "<task-notification>\n<task-id>bg_1</task-id>\n<status>completed</status>\n<summary>done</summary>\n</task-notification>"
        ),
        other => panic!("unexpected message: {other:?}"),
    }
}

fn user(n: usize) -> Message {
    Message::User { content: format!("message number {n} with some words in it") }
}

#[test]
fn summary_replaces_old_messages_and_keeps_recent() {
    let compactor = Compactor::with_keep_recent("test-model", 3);
    let before: Vec<Message> = (0..10).map(user).collect();
    let (after, summarized) = compactor.apply_summary(
        before.iter().map(|m| match m {
            Message::User { content } => Message::User { content: content.clone() },
            _ => unreachable!(),
        }).collect(),
        "<analysis>\nThinking.\n</analysis>\n\n<summary>\n1. Primary Request: User asked questions.\n</summary>",
    );
    assert_eq!(summarized, 7);
    assert_eq!(after.len(), 4);
    match &after[0] {
        Message::Summary { content } => {
            assert!(content.contains("Primary Request: User asked questions."));
            assert!(!content.contains("Thinking."));
            assert!(content.contains("Recent messages are preserved verbatim."));
        }
        other => panic!("expected a summary, got {other:?}"),
    }
    for (i, m) in after[1..].iter().enumerate() {
        match m {
            Message::User { content } => assert_eq!(content, &format!("message number {} with some words in it", 7 + i)),
            other => panic!("expected a kept message, got {other:?}"),
        }
    }
    let r = compaction_result(&before, &after, summarized);
    assert_eq!(r.messages_summarized, 7);
    assert_eq!(r.tokens_before, TokenEstimator::estimate_messages(&before));
    assert_eq!(r.tokens_after, TokenEstimator::estimate_messages(&after));
}

#[test]
fn summary_is_noop_for_short_conversations() {
    let compactor = Compactor::with_keep_recent("test-model", 10);
    let (after, summarized) = compactor.apply_summary((0..5).map(user).collect(), "<summary>x</summary>");
    assert_eq!(summarized, 0);
    assert_eq!(after.len(), 5);
}
