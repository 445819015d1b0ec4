use arawn_engine::agent_defs::{
    build_agent_registry, built_in_agents, extract_field, find_agent, get_all_agents, parse_agent_markdown,
    parse_list, split_frontmatter, AgentSource,
};

#[test]
fn built_in_agents_exist() {
    let agents = built_in_agents();
    assert!(agents.len() >= 3);
    assert!(agents.iter().any(|a| a.name == "general-purpose"));
    assert!(agents.iter().any(|a| a.name == "Explore"));
    assert!(agents.iter().any(|a| a.name == "Plan"));
}

#[test]
fn find_agent_by_name() {
    let agents = built_in_agents();
    let explore = find_agent(&agents, "Explore");
    assert_eq!(explore.name, "Explore");
}

#[test]
fn find_agent_case_insensitive() {
    let agents = built_in_agents();
    let explore = find_agent(&agents, "explore");
    assert_eq!(explore.name, "Explore");
}

#[test]
fn find_agent_unknown_falls_back() {
    let agents = built_in_agents();
    let fallback = find_agent(&agents, "nonexistent");
    assert_eq!(fallback.name, "general-purpose");
}

#[test]
fn parse_agent_markdown_file() {
    let content = r#"---
name: inspector
description: Code quality agent that checks for issues
tools: file_read, grep, glob
maxTurns: 15
---

You are a code review specialist. Review the code for:
- Bug risks
- Performance issues
- Style violations
"#;
    let agent = parse_agent_markdown(content).unwrap();
    assert_eq!(agent.name, "inspector");
    assert_eq!(agent.when_to_use, "Code quality agent that checks for issues");
    assert!(agent.system_prompt.contains("code review specialist"));
    assert_eq!(agent.tools.as_ref().unwrap(), &["file_read", "grep", "glob"]);
    assert_eq!(agent.max_turns, Some(15));
    assert_eq!(agent.source, AgentSource::User);
}

#[test]
fn parse_agent_with_disallowed_tools() {
    let content = r#"---
name: safe-explorer
description: Read-only exploration
disallowedTools: file_edit, file_write, shell
---

Explore only. Do not modify files.
"#;
    let agent = parse_agent_markdown(content).unwrap();
    assert_eq!(agent.disallowed_tools.as_ref().unwrap(), &["file_edit", "file_write", "shell"]);
}

#[test]
fn user_agents_override_builtin() {
    let content = r#"---
name: Explore
description: Custom explore agent
---

My custom explore prompt.
"#;
    let user = parse_agent_markdown(content).unwrap();
    let all = get_all_agents(Some(vec![user]));
    let explore = find_agent(&all, "Explore");
    assert_eq!(explore.source, AgentSource::User);
    assert!(explore.system_prompt.contains("custom explore"));
}

#[test]
fn agent_defs_split_frontmatter_works() {
    let (fm, body) = split_frontmatter("---\nname: test\n---\nBody here").unwrap();
    assert_eq!(fm, "name: test");
    assert!(body.contains("Body here"));
}

#[test]
fn split_frontmatter_no_delimiters() {
    assert!(split_frontmatter("Just plain text").is_none());
}

#[test]
fn extract_field_quoted() {
    assert_eq!(extract_field("name: \"hello world\"", "name"), Some("hello world".into()));
}

#[test]
fn extract_field_unquoted() {
    assert_eq!(extract_field("maxTurns: 15", "maxTurns"), Some("15".into()));
}

#[test]
fn parse_list_wildcard() {
    assert_eq!(parse_list("*"), vec!["*"]);
}

#[test]
fn parse_list_comma_separated() {
    assert_eq!(parse_list("file_read, grep, glob"), vec!["file_read", "grep", "glob"]);
}

#[test]
fn parse_agent_without_frontmatter_is_rejected() {
    assert!(parse_agent_markdown("no frontmatter here").is_err());
}

#[test]
fn agent_registry_keeps_only_allowed_tools() {
    let agents = built_in_agents();
    let explore = find_agent(&agents, "Explore");
    let tools: Vec<String> = vec!["file_read".into(), "file_write".into(), "grep".into()];
    let allowed = build_agent_registry(&tools, &explore);
    assert!(allowed.contains(&"file_read".to_string()));
    assert!(!allowed.contains(&"file_write".to_string()));
}
