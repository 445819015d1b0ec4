use arawn_engine::query_engine::retry_backoff;
use arawn_engine::conversation::Message;
use arawn_engine::query_engine::EngineLoop;
use arawn_engine::stream::{assemble, parse_arguments, AssembledToolCall, StreamAssembler, StreamChunk, TokenUsage};

fn text(t: &str) -> StreamChunk {
    StreamChunk::TextDelta { text: t.into() }
}

fn start(id: &str, name: &str) -> StreamChunk {
    StreamChunk::ToolUseStart { id: id.into(), name: name.into() }
}

fn delta(json: &str) -> StreamChunk {
    StreamChunk::ToolUseInputDelta { json: json.into() }
}

fn done() -> StreamChunk {
    StreamChunk::Done { usage: None }
}

#[test]
fn text_only_stream() {
    let r = assemble(&vec![text("Hello"), text(", "), text("world"), done()]);
    assert_eq!(r.text, "Hello, world");
    assert!(r.tool_calls.is_empty());
}

#[test]
fn raw_chunks_split_arguments() {
    let r = assemble(&vec![start("c1", "shell"), delta("{\"comm"), delta("and\": \"ls"), delta(" -la\"}"), done()]);
    assert_eq!(r.tool_calls.len(), 1);
    assert_eq!(r.tool_calls[0].id, "c1");
    assert_eq!(r.tool_calls[0].name, "shell");
    assert_eq!(r.tool_calls[0].arguments, "{\"command\":\"ls -la\"}");
}

#[test]
fn parallel_tool_calls_in_one_turn() {
    let r = assemble(&vec![
        start("c1", "file_read"),
        delta("{\"path\":\"a\"}"),
        start("c2", "file_read"),
        delta("{\"path\":\"b\"}"),
        done(),
    ]);
    let names: Vec<&str> = r.tool_calls.iter().map(|c| c.id.as_str()).collect();
    assert_eq!(names, vec!["c1", "c2"]);
    assert_eq!(r.tool_calls[1].arguments, "{\"path\":\"b\"}");
}

#[test]
fn stream_without_done_flushes_at_end() {
    let r = assemble(&vec![text("x"), start("c1", "think"), delta("{}")]);
    assert_eq!(r.tool_calls.len(), 1);
    assert!(r.usage.is_none());
}

#[test]
fn done_only_stream_is_empty() {
    let r = assemble(&vec![StreamChunk::Done { usage: Some(TokenUsage { input_tokens: 3, output_tokens: 5 }) }]);
    assert_eq!(r.text, "");
    assert!(r.tool_calls.is_empty());
    assert_eq!(r.usage, Some(TokenUsage { input_tokens: 3, output_tokens: 5 }));
}

#[test]
fn text_after_tool_start_is_kept() {
    let r = assemble(&vec![text("Let me look. "), start("c1", "glob"), text("Done."), delta("{\"pattern\":\"*.rs\"}"), done()]);
    assert_eq!(r.text, "Let me look. Done.");
    assert_eq!(r.tool_calls[0].arguments, "{\"pattern\":\"*.rs\"}");
}

#[test]
fn malformed_or_missing_arguments_become_empty_object() {
    let r = assemble(&vec![start("c1", "shell"), delta("{\"command\": \"ls"), done()]);
    assert_eq!(r.tool_calls[0].arguments, "{}");
    let r2 = assemble(&vec![start("c2", "think"), done()]);
    assert_eq!(r2.tool_calls[0].arguments, "{}");
    assert_eq!(parse_arguments(""), "{}");
    assert_eq!(parse_arguments("[1, 2]"), "[1,2]");
}

#[test]
fn non_object_arguments_rejected_before_running() {
    let engine = EngineLoop::new(10);
    let call = AssembledToolCall { id: "c1".into(), name: "shell".into(), arguments: parse_arguments("\"ls\"") };
    let rejected = engine.check_tool_call(&call, true).unwrap();
    assert!(rejected.is_error);
    assert_eq!(rejected.content, "Invalid arguments for tool 'shell': expected a JSON object, got \"ls\"");
    let ok = AssembledToolCall { id: "c2".into(), name: "shell".into(), arguments: "{\"command\":\"ls\"}".into() };
    assert!(engine.check_tool_call(&ok, true).is_none());
}

#[test]
fn many_deltas_reassemble() {
    let mut a = StreamAssembler::new();
    a.feed(start("c1", "file_write"));
    a.feed(delta("{\"content\":\""));
    for _ in 0..500 {
        a.feed(delta("ab"));
    }
    a.feed(delta("\"}"));
    let r = a.finish();
    assert_eq!(r.tool_calls[0].arguments.len(), "{\"content\":\"\"}".len() + 1000);
}

#[test]
fn tool_turn_plan_rejects_and_splits() {
    let mut engine = EngineLoop::new(10);
    engine.record_result("shell", "{\"command\":\"false\"}", true);
    engine.record_result("shell", "{\"command\":\"false\"}", true);
    let response = assemble(&vec![
        text("Working."),
        start("c1", "file_read"),
        delta("{\"path\":\"a\"}"),
        start("c2", "nope"),
        delta("{}"),
        start("c3", "shell"),
        delta("{\"command\":\"false\"}"),
        start("c4", "file_write"),
        delta("[]"),
        start("c5", "shell"),
        delta("{\"command\":\"ls\"}"),
        done(),
    ]);
    let registered = vec![true, false, true, true, true];
    let read_only = vec![true, false, false, false, false];
    let plan = engine.plan_tool_turn(&response, &registered, &read_only);
    match &plan.message {
        Message::Assistant { content, tool_uses } => {
            assert_eq!(content, "Working.");
            assert_eq!(tool_uses.len(), 5);
            assert_eq!(tool_uses[2].input, "{\"command\":\"false\"}");
        }
        other => panic!("unexpected message: {other:?}"),
    }
    assert!(plan.results[0].is_none());
    assert_eq!(
        plan.results[1].as_ref().unwrap().content,
        "Tool 'nope' is not available. Use one of the registered tools."
    );
    assert!(plan.results[2].as_ref().unwrap().content.starts_with("This exact call to 'shell' has already failed 2 times"));
    assert_eq!(
        plan.results[3].as_ref().unwrap().content,
        "Invalid arguments for tool 'file_write': expected a JSON object, got []"
    );
    assert!(plan.results[4].is_none());
    assert_eq!(plan.read_only, vec![0]);
    assert_eq!(plan.writes, vec![4]);
}

#[test]
fn transient_errors_retry_with_backoff() {
    assert_eq!(retry_backoff("Rate limit exceeded", 0), Some(500));
    assert_eq!(retry_backoff("request TIMEOUT", 1), Some(1000));
    assert_eq!(retry_backoff("HTTP 503 Service Unavailable", 2), None);
    assert_eq!(retry_backoff("server error 500", 0), Some(500));
    assert_eq!(retry_backoff("model not found", 0), None);
    assert_eq!(retry_backoff("Connection reset by peer", 0), Some(500));
}
