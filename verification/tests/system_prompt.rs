use arawn_engine::conversation::ToolDefinition;
use arawn_engine::system_prompt::{context_file_from, truncate_head_tail, ContextFile, SystemPromptBuilder};

fn no_overrides() -> Vec<Option<String>> {
    Vec::new()
}

fn tool(name: &str, description: &str) -> ToolDefinition {
    ToolDefinition { name: name.into(), description: description.into(), parameters: "{}".into() }
}

#[test]
fn default_assembly_includes_all_static_sections() {
    let prompt = SystemPromptBuilder::new()
        .load_static_sections(&no_overrides())
        .environment("macOS", "zsh", "/tmp/test", "test-model")
        .workstream("scratch", "/tmp/test")
        .build();
    assert!(prompt.contains("You are Arawn"));
    assert!(prompt.contains("# System"));
    assert!(prompt.contains("# Doing tasks"));
    assert!(prompt.contains("# Executing actions"));
    assert!(prompt.contains("# Using your tools"));
    assert!(prompt.contains("# Tone and style"));
    assert!(prompt.contains("# Output efficiency"));
    assert!(prompt.contains("# Environment"));
    assert!(prompt.contains("# Workstream"));
}

#[test]
fn sections_have_headers() {
    let prompt = SystemPromptBuilder::new().load_static_sections(&no_overrides()).build();
    let header_count = prompt.lines().filter(|l| l.starts_with("# ")).count();
    assert!(header_count >= 5, "expected at least 5 section headers, got {header_count}");
}

#[test]
fn empty_optional_sections_omitted() {
    let prompt = SystemPromptBuilder::new()
        .load_static_sections(&no_overrides())
        .memories(&[])
        .plugin_prompts(&[])
        .session_context("")
        .build();
    assert!(!prompt.contains("# Relevant Memories"));
    assert!(!prompt.contains("# Plugin Instructions"));
    assert!(!prompt.contains("# Session Context"));
}

#[test]
fn single_section_override() {
    let overrides = vec![Some("I am a custom identity.".to_string())];
    let prompt = SystemPromptBuilder::new().load_static_sections(&overrides).build();
    assert!(prompt.contains("I am a custom identity."));
    assert!(!prompt.contains("You are Arawn"));
}

#[test]
fn partial_overrides_other_sections_use_defaults() {
    let overrides = vec![Some("Custom identity.".to_string()), None, None];
    let prompt = SystemPromptBuilder::new().load_static_sections(&overrides).build();
    assert!(prompt.contains("Custom identity."));
    assert!(prompt.contains("# System"));
    assert!(prompt.contains("# Doing tasks"));
}

#[test]
fn missing_override_dir_uses_defaults() {
    let prompt = SystemPromptBuilder::new().load_static_sections(&no_overrides()).build();
    assert!(prompt.contains("You are Arawn"));
}

#[test]
fn empty_override_file_produces_empty_section() {
    let overrides = vec![Some(String::new())];
    let prompt = SystemPromptBuilder::new().load_static_sections(&overrides).build();
    assert!(!prompt.contains("You are Arawn"));
}

#[test]
fn under_budget_all_sections_included() {
    let prompt = SystemPromptBuilder::new()
        .with_token_budget(10_000)
        .load_static_sections(&no_overrides())
        .environment("macOS", "zsh", "/tmp", "model")
        .workstream("test", "/tmp")
        .build();
    assert!(prompt.contains("You are Arawn"));
    assert!(prompt.contains("# Environment"));
    assert!(prompt.contains("# Workstream"));
}

#[test]
fn over_budget_drops_low_priority_sections() {
    let prompt = SystemPromptBuilder::new()
        .with_token_budget(200)
        .load_static_sections(&no_overrides())
        .plugin_prompts(&["Extra plugin content here.".to_string()])
        .build();
    assert!(prompt.contains("You are Arawn"));
}

#[test]
fn identity_survives_budget_cuts() {
    let prompt = SystemPromptBuilder::new()
        .with_token_budget(100)
        .load_static_sections(&no_overrides())
        .plugin_prompts(&["plugin stuff".to_string()])
        .build();
    assert!(prompt.contains("You are Arawn"));
    assert!(!prompt.contains("plugin stuff"));
}

#[test]
fn truncation_produces_clean_sections() {
    let prompt = SystemPromptBuilder::new().with_token_budget(300).load_static_sections(&no_overrides()).build();
    for line in prompt.lines() {
        if line.starts_with('#') {
            assert!(line.len() > 2, "found truncated header: {line}");
        }
    }
}

#[test]
fn context_file_injected() {
    let file = context_file_from("/ws/arawn.md".into(), "This is a Rust project.".into(), 10_000, 7_000, 2_000).unwrap();
    let files = vec![file];
    let prompt = SystemPromptBuilder::new().context_files(&files).build();
    assert!(prompt.contains("This is a Rust project."));
    assert!(prompt.contains("# Project Context"));
}

#[test]
fn context_file_missing_section_omitted() {
    let files: Vec<ContextFile> = Vec::new();
    let prompt = SystemPromptBuilder::new().context_files(&files).build();
    assert!(!prompt.contains("# Project Context"));
}

#[test]
fn large_context_file_truncated() {
    let big_content = format!("HEADER LINE\n{}\nFOOTER LINE", "x".repeat(20_000));
    let file = context_file_from("/ws/arawn.md".into(), big_content, 10_000, 7_000, 2_000).unwrap();
    assert!(file.truncated);
    assert!(file.content.contains("HEADER LINE"));
    assert!(file.content.contains("FOOTER LINE"));
    assert!(file.content.contains("truncated"));
}

#[test]
fn blank_context_file_is_skipped() {
    assert!(context_file_from("/ws/arawn.md".into(), "  \n\t".into(), 10_000, 7_000, 2_000).is_none());
}

#[test]
fn head_tail_truncation_counts_removed_bytes() {
    let s = "abcdefghij";
    assert_eq!(truncate_head_tail(s, 3, 2), "abc\n\n...[content truncated \u{2014} 5 chars removed]...\n\nij");
}

#[test]
fn tools_section_reflects_tool_list() {
    let tools = vec![tool("shell", "Run a command"), tool("file_read", "Read a file")];
    let prompt = SystemPromptBuilder::new().tools(&tools).build();
    assert!(prompt.contains("2 tools available"));
    assert!(!prompt.contains("Run a command"));
}

#[test]
fn per_turn_freshness_different_tools() {
    let tools_v1 = vec![tool("shell", "v1")];
    let tools_v2 = vec![tool("new_tool", "v2"), tool("another", "v2b")];
    let prompt1 = SystemPromptBuilder::new().tools(&tools_v1).build();
    let prompt2 = SystemPromptBuilder::new().tools(&tools_v2).build();
    assert!(prompt1.contains("1 tools available"));
    assert!(prompt2.contains("2 tools available"));
}

#[test]
fn environment_section_contains_info() {
    let prompt = SystemPromptBuilder::new().environment("Linux", "bash", "/home/user", "llama-3.3").build();
    assert!(prompt.contains("Linux"));
    assert!(prompt.contains("bash"));
    assert!(prompt.contains("/home/user"));
    assert!(prompt.contains("llama-3.3"));
}

#[test]
fn workstream_section_contains_info() {
    let prompt = SystemPromptBuilder::new().workstream("Home Maintenance", "/home/user/maintenance").build();
    assert!(prompt.contains("Home Maintenance"));
    assert!(prompt.contains("/home/user/maintenance"));
}

#[test]
fn sections_ordered_by_priority_and_joined() {
    let prompt = SystemPromptBuilder::new()
        .session_context("resumed")
        .workstream("w", "/r")
        .environment_at("os", "sh", "/c", "m", "2026-01-01 00:00 UTC")
        .build();
    assert_eq!(
        prompt,
        "# Workstream\n- Name: w\n- Root: /r\n\n# Environment\n- Platform: os\n- Shell: sh\n- Working directory: /c\n- Date: 2026-01-01 00:00 UTC\n- Model: m\n\n# Session Context\nresumed"
    );
}
