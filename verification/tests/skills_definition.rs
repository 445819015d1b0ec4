use arawn_engine::skills::definition::{extract_list_field, parse_skill_markdown, split_frontmatter};

#[test]
fn parse_minimal_skill() {
    let content = r#"---
description: "A simple skill"
---

Do the thing.
"#;
    let skill = parse_skill_markdown(content, "test-skill").unwrap();
    assert_eq!(skill.name, "test-skill");
    assert_eq!(skill.description, "A simple skill");
    assert_eq!(skill.prompt, "Do the thing.");
    assert!(skill.user_invocable);
    assert!(skill.allowed_tools.is_none());
    assert!(skill.model.is_none());
}

#[test]
fn parse_full_skill() {
    let content = r#"---
name: "commit"
description: "Create a git commit with a conventional message"
argument-hint: "[-m message]"
user-invocable: true
model: sonnet
allowed-tools:
  - "Bash(git *)"
  - "Read"
  - "Grep"
---

# Commit workflow

Review staged changes and create a commit with a conventional message.
"#;
    let skill = parse_skill_markdown(content, "fallback").unwrap();
    assert_eq!(skill.name, "commit");
    assert_eq!(skill.description, "Create a git commit with a conventional message");
    assert_eq!(skill.argument_hint, Some("[-m message]".into()));
    assert_eq!(skill.model, Some("sonnet".into()));
    assert_eq!(
        skill.allowed_tools.as_ref().unwrap(),
        &["Bash(git *)", "Read", "Grep"]
    );
    assert!(skill.prompt.contains("Commit workflow"));
}

#[test]
fn parse_inline_array() {
    let content = r#"---
description: "test"
allowed-tools: ["Bash", "Read"]
---

Body.
"#;
    let skill = parse_skill_markdown(content, "test").unwrap();
    assert_eq!(
        skill.allowed_tools.as_ref().unwrap(),
        &["Bash", "Read"]
    );
}

#[test]
fn parse_model_inherit() {
    let content = r#"---
description: "test"
model: inherit
---

Body.
"#;
    let skill = parse_skill_markdown(content, "test").unwrap();
    assert!(skill.model.is_none());
}

#[test]
fn parse_user_invocable_false() {
    let content = r#"---
description: "test"
user-invocable: false
---

Body.
"#;
    let skill = parse_skill_markdown(content, "test").unwrap();
    assert!(!skill.user_invocable);
}

#[test]
fn parse_missing_description_errors() {
    let content = r#"---
name: "bad"
---

Body.
"#;
    let result = parse_skill_markdown(content, "bad");
    assert!(result.is_err());
    assert!(result.unwrap_err().contains("description"));
}

#[test]
fn parse_no_frontmatter_errors() {
    let result = parse_skill_markdown("Just plain text", "test");
    assert!(result.is_err());
}

#[test]
fn name_from_frontmatter_overrides_default() {
    let content = r#"---
name: "custom-name"
description: "test"
---

Body.
"#;
    let skill = parse_skill_markdown(content, "filename-name").unwrap();
    assert_eq!(skill.name, "custom-name");
}

#[test]
fn definition_split_frontmatter_works() {
    let (fm, body) = split_frontmatter("---\nname: test\n---\nBody here").unwrap();
    assert_eq!(fm, "name: test");
    assert!(body.contains("Body here"));
}

#[test]
fn extract_list_multiline() {
    let fm = "allowed-tools:\n  - \"Bash(git *)\"\n  - Read\nother: value";
    let list = extract_list_field(fm, "allowed-tools").unwrap();
    assert_eq!(list, vec!["Bash(git *)", "Read"]);
}
