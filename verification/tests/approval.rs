use arawn_engine::approval::{ApprovalTier, ArgShape, SessionAllowlist};

#[test]
fn shell_shape_is_command_verbatim() {
    let shape = ArgShape::for_tool("shell", r#"{"command":"git status"}"#);
    assert_eq!(shape.as_str(), "shell:git status");
}

#[test]
fn shell_shape_distinguishes_distinct_commands() {
    let a = ArgShape::for_tool("shell", r#"{"command":"ls"}"#);
    let b = ArgShape::for_tool("shell", r#"{"command":"rm -rf /"}"#);
    assert_ne!(a, b);
}

#[test]
fn file_shape_collapses_files_in_same_dir() {
    let a = ArgShape::for_tool("file_write", r#"{"path":"/tmp/proj/foo.rs","content":"x"}"#);
    let b = ArgShape::for_tool("file_write", r#"{"path":"/tmp/proj/bar.rs","content":"y"}"#);
    assert_eq!(a, b);
}

#[test]
fn file_shape_distinguishes_different_dirs() {
    let a = ArgShape::for_tool("file_write", r#"{"path":"/tmp/a/foo"}"#);
    let b = ArgShape::for_tool("file_write", r#"{"path":"/tmp/b/foo"}"#);
    assert_ne!(a, b);
}

#[test]
fn file_shape_handles_file_path_alias() {
    let a = ArgShape::for_tool("file_write", r#"{"path":"/x/y/z"}"#);
    let b = ArgShape::for_tool("file_write", r#"{"file_path":"/x/y/z"}"#);
    assert_eq!(a, b);
}

#[test]
fn env_shape_keyed_by_name() {
    let a = ArgShape::for_tool("safe_env", r#"{"name":"OPENAI_API_KEY"}"#);
    let b = ArgShape::for_tool("safe_env", r#"{"name":"AWS_SECRET_ACCESS_KEY"}"#);
    assert_ne!(a, b);
}

#[test]
fn unknown_tool_collapses_to_any_input() {
    let a = ArgShape::for_tool("Read", r#"{"path":"/a"}"#);
    let b = ArgShape::for_tool("Read", r#"{"path":"/b"}"#);
    assert_eq!(a, b);
    assert_eq!(a.as_str(), "Read:*");
}

#[test]
fn malformed_json_falls_back_to_wildcard() {
    let a = ArgShape::for_tool("shell", "not json");
    assert_eq!(a.as_str(), "shell:*");
}

#[test]
fn allowlist_grant_and_check() {
    let mut allow = SessionAllowlist::new();
    let shape = ArgShape::for_tool("shell", r#"{"command":"ls"}"#);
    assert!(!allow.is_granted("shell", &shape));
    allow.grant("shell".into(), shape.clone());
    assert!(allow.is_granted("shell", &shape));
}

#[test]
fn allowlist_grant_is_specific_to_shape() {
    let mut allow = SessionAllowlist::new();
    let safe_shape = ArgShape::for_tool("shell", r#"{"command":"ls"}"#);
    let dangerous_shape = ArgShape::for_tool("shell", r#"{"command":"rm -rf /"}"#);
    allow.grant("shell".into(), safe_shape.clone());
    assert!(allow.is_granted("shell", &safe_shape));
    assert!(!allow.is_granted("shell", &dangerous_shape));
}

#[test]
fn allowlist_clear_drops_entries() {
    let mut allow = SessionAllowlist::new();
    let s = ArgShape::for_tool("shell", r#"{"command":"ls"}"#);
    allow.grant("shell".into(), s.clone());
    allow.clear();
    assert!(!allow.is_granted("shell", &s));
    assert!(allow.is_empty());
}

#[test]
fn home_is_folded_in_file_shapes() {
    let a = ArgShape::for_tool_with_home("file_edit", r#"{"path":"/home/me/p/x.rs"}"#, Some("/home/me"));
    assert_eq!(a.as_str(), "file:~/p");
    let b = ArgShape::for_tool_with_home("file_edit", r#"{"path":"/opt/p/x.rs"}"#, Some("/home/me"));
    assert_eq!(b.as_str(), "file:/opt/p");
    let c = ArgShape::for_tool_with_home("Bash", r#"{"command":"  ls  "}"#, None);
    assert_eq!(c.as_str(), "shell:ls");
}

#[test]
fn grant_is_idempotent() {
    let mut allow = SessionAllowlist::new();
    let s = ArgShape("shell:ls".into());
    allow.grant("shell".into(), s.clone());
    allow.grant("shell".into(), s.clone());
    assert_eq!(allow.len(), 1);
}

#[test]
fn tiers_have_names() {
    assert_eq!(ApprovalTier::AllowOnce.as_str(), "allow_once");
}
