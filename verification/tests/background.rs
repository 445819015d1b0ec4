use arawn_engine::background::{
    append_output, format_task_id, BackgroundTaskKind, BackgroundTaskManager, BackgroundTaskStatus,
    TaskNotification, MAX_OUTPUT_BYTES,
};

#[test]
fn generate_task_id_format() {
    let id = format_task_id([0xab, 0xcd, 0x12, 0x34]);
    assert!(id.starts_with("bg_"));
    assert_eq!(id.len(), 11);
    assert_eq!(id, "bg_abcd1234");
}

#[test]
fn task_status_labels() {
    assert_eq!(BackgroundTaskStatus::Running.label(), "running");
    assert_eq!(BackgroundTaskStatus::Completed { exit_code: Some(0) }.label(), "completed");
    assert_eq!(BackgroundTaskStatus::Failed { error: "boom".into() }.label(), "failed");
    assert_eq!(BackgroundTaskStatus::Killed.label(), "killed");
}

#[test]
fn task_status_is_terminal() {
    assert!(!BackgroundTaskStatus::Running.is_terminal());
    assert!(BackgroundTaskStatus::Completed { exit_code: None }.is_terminal());
    assert!(BackgroundTaskStatus::Failed { error: String::new() }.is_terminal());
    assert!(BackgroundTaskStatus::Killed.is_terminal());
}

#[test]
fn notification_to_message_format() {
    let notif = TaskNotification {
        task_id: "bg_abcd1234".into(),
        description: "cargo test".into(),
        status: "completed".into(),
        summary: "Background command \"cargo test\" (exit code 0)".into(),
    };
    let msg = notif.to_message();
    assert!(msg.contains("<task-id>bg_abcd1234</task-id>"));
    assert!(msg.contains("<status>completed</status>"));
}

#[test]
fn register_and_complete() {
    let mut mgr = BackgroundTaskManager::new();
    assert!(mgr.register("bg_00000001".into(), BackgroundTaskKind::Shell { command: "echo hi".into() }, "echo hi".into(), 100));
    let id = "bg_00000001";
    assert_eq!(mgr.running_count(), 1);
    assert_eq!(mgr.status(id), Some(BackgroundTaskStatus::Running));
    mgr.complete(id, BackgroundTaskStatus::Completed { exit_code: Some(0) }, 105);
    assert_eq!(mgr.running_count(), 0);
    assert!(mgr.status(id).unwrap().is_terminal());
    let notifs = mgr.drain_notifications();
    assert_eq!(notifs.len(), 1);
    assert_eq!(notifs[0].task_id, id);
    assert_eq!(notifs[0].status, "completed");
    assert_eq!(notifs[0].summary, "Background command \"echo hi\" (exit code 0)");
    assert!(mgr.drain_notifications().is_empty());
}

#[test]
fn cancel_running_task() {
    let mut mgr = BackgroundTaskManager::new();
    mgr.register("bg_00000002".into(), BackgroundTaskKind::Shell { command: "sleep 999".into() }, "sleep".into(), 0);
    assert!(mgr.cancel("bg_00000002"));
    mgr.complete("bg_00000002", BackgroundTaskStatus::Killed, 1);
    assert!(!mgr.cancel("bg_00000002"));
}

#[test]
fn output_buffer_bounded() {
    let mut buf = String::new();
    let big_chunk = "x".repeat(MAX_OUTPUT_BYTES + 1000);
    append_output(&mut buf, &big_chunk);
    assert!(buf.len() <= MAX_OUTPUT_BYTES + 100);
    assert!(buf.contains("[...output truncated...]"));
}

#[test]
fn output_buffer_small_writes() {
    let mut buf = String::new();
    append_output(&mut buf, "line 1\n");
    append_output(&mut buf, "line 2\n");
    assert_eq!(buf, "line 1\nline 2\n");
}

#[test]
fn output_buffer_keeps_the_tail_exactly() {
    let mut buf = String::new();
    let text = format!("{}{}", "a".repeat(MAX_OUTPUT_BYTES), "b".repeat(10));
    append_output(&mut buf, &text);
    // trim_to = (102410 - 102400) + 64 = 74 bytes dropped from the front
    let expected = format!("[...output truncated...]\n{}{}", "a".repeat(MAX_OUTPUT_BYTES - 74), "b".repeat(10));
    assert_eq!(buf, expected);
}

#[test]
fn list_tasks() {
    let mut mgr = BackgroundTaskManager::new();
    mgr.register(
        "bg_00000003".into(),
        BackgroundTaskKind::Agent { prompt: "research".into(), agent_type: Some("explorer".into()) },
        "research task".into(),
        10,
    );
    let list = mgr.list(15);
    assert_eq!(list.len(), 1);
    assert_eq!(list[0].description, "research task");
    assert_eq!(list[0].status, "running");
    assert_eq!(list[0].elapsed_secs, 5);
}

#[test]
fn complete_unknown_task_is_safe() {
    let mut mgr = BackgroundTaskManager::new();
    mgr.complete("bg_nonexistent", BackgroundTaskStatus::Killed, 0);
    assert!(mgr.drain_notifications().is_empty());
}

#[test]
fn cancel_nonexistent_returns_false() {
    let mgr = BackgroundTaskManager::new();
    assert!(!mgr.cancel("bg_nonexistent"));
}

#[test]
fn duplicate_complete_only_notifies_once() {
    let mut mgr = BackgroundTaskManager::new();
    mgr.register("bg_00000004".into(), BackgroundTaskKind::Shell { command: "echo".into() }, "echo".into(), 0);
    mgr.complete("bg_00000004", BackgroundTaskStatus::Completed { exit_code: Some(0) }, 1);
    mgr.complete("bg_00000004", BackgroundTaskStatus::Completed { exit_code: Some(0) }, 2);
    let notifs = mgr.drain_notifications();
    assert_eq!(notifs.len(), 1);
}

#[test]
fn failed_and_killed_summaries() {
    let mut mgr = BackgroundTaskManager::new();
    mgr.register("bg_a".into(), BackgroundTaskKind::Agent { prompt: "p".into(), agent_type: None }, "job".into(), 0);
    mgr.register("bg_b".into(), BackgroundTaskKind::Shell { command: "c".into() }, "other".into(), 0);
    mgr.complete("bg_a", BackgroundTaskStatus::Failed { error: "boom".into() }, 1);
    mgr.complete("bg_b", BackgroundTaskStatus::Killed, 1);
    let n = mgr.drain_notifications();
    assert_eq!(n[0].summary, "Background task \"job\" failed: boom");
    assert_eq!(n[1].summary, "Background task \"other\" was stopped");
    assert_eq!(n[1].status, "killed");
}

#[test]
fn negative_exit_code_is_written_with_sign() {
    let mut mgr = BackgroundTaskManager::new();
    mgr.register("bg_c".into(), BackgroundTaskKind::Agent { prompt: "p".into(), agent_type: None }, "a".into(), 0);
    mgr.complete("bg_c", BackgroundTaskStatus::Completed { exit_code: Some(-3) }, 1);
    let n = mgr.drain_notifications();
    assert_eq!(n[0].summary, "Background agent \"a\" (exit code -3)");
}

#[test]
fn register_rejects_taken_id() {
    let mut mgr = BackgroundTaskManager::new();
    assert!(mgr.register("bg_x".into(), BackgroundTaskKind::Shell { command: "a".into() }, "a".into(), 0));
    assert!(!mgr.register("bg_x".into(), BackgroundTaskKind::Shell { command: "b".into() }, "b".into(), 0));
    assert_eq!(mgr.list(0).len(), 1);
}
