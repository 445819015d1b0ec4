use arawn_engine::compact_prompt::{
    format_compact_summary, get_compact_prompt, get_compact_user_summary_message, get_partial_compact_prompt,
};

#[test]
fn compact_prompt_contains_key_sections() {
    let prompt = get_compact_prompt();
    assert!(prompt.contains("CRITICAL: Respond with TEXT ONLY"));
    assert!(prompt.contains("<analysis>"));
    assert!(prompt.contains("Primary Request and Intent"));
    assert!(prompt.contains("Current Work"));
    assert!(prompt.contains("REMINDER: Do NOT call any tools"));
}

#[test]
fn partial_prompt_mentions_recent() {
    let prompt = get_partial_compact_prompt();
    assert!(prompt.contains("RECENT portion"));
    assert!(prompt.contains("earlier messages are being kept intact"));
}

#[test]
fn format_strips_analysis_extracts_summary() {
    let raw = r#"<analysis>
Some thinking here about the conversation.
</analysis>

<summary>
1. Primary Request and Intent:
   User wants to build a CLI tool.

2. Key Technical Concepts:
   - Rust
   - tokio
</summary>"#;
    let result = format_compact_summary(raw);
    assert!(!result.contains("<analysis>"));
    assert!(!result.contains("</analysis>"));
    assert!(!result.contains("<summary>"));
    assert!(!result.contains("</summary>"));
    assert!(result.contains("Primary Request and Intent"));
    assert!(result.contains("CLI tool"));
    assert!(result.starts_with("Summary:"));
}

#[test]
fn format_handles_no_tags() {
    let raw = "Just plain text summary without XML tags.";
    let result = format_compact_summary(raw);
    assert_eq!(result, raw);
}

#[test]
fn format_handles_analysis_only() {
    let raw = "<analysis>thinking</analysis>\nSome content after.";
    let result = format_compact_summary(raw);
    assert!(!result.contains("thinking"));
    assert!(result.contains("Some content after"));
}

#[test]
fn user_summary_message_has_framing() {
    let summary = "<summary>\n1. Intent: build stuff\n</summary>";
    let msg = get_compact_user_summary_message(summary, true);
    assert!(msg.contains("continued from a previous conversation"));
    assert!(msg.contains("Recent messages are preserved"));
    assert!(msg.contains("Pick up the last task"));
}

#[test]
fn format_collapses_blank_runs_exactly() {
    assert_eq!(format_compact_summary("a\n\n\n\n\nb"), "a\n\nb");
    assert_eq!(format_compact_summary("  a\n\nb  "), "a\n\nb");
}

#[test]
fn summary_is_trimmed_and_headed() {
    assert_eq!(format_compact_summary("x <summary>  hi  </summary> y"), "Summary:\nhi");
}

#[test]
fn message_without_recent_flag_omits_note() {
    let msg = get_compact_user_summary_message("plain", false);
    assert!(!msg.contains("Recent messages are preserved"));
    assert!(msg.contains("\n\nplain\n\nContinue the conversation"));
}
