use arawn_engine::hooks::matcher::{glob_match, HookMatcher};


// --- glob_match tests ---

#[test]
fn glob_exact() {
    assert!(glob_match("Bash", "Bash"));
    assert!(!glob_match("Bash", "Edit"));
}

#[test]
fn glob_star() {
    assert!(glob_match("file_*", "file_read"));
    assert!(glob_match("*", "anything"));
    assert!(glob_match("*Tool", "ShellTool"));
}

#[test]
fn matcher_glob_question_mark() {
    assert!(glob_match("Rea?", "Read"));
    assert!(!glob_match("Rea?", "Reads"));
}

// --- HookMatcher tests ---

#[test]
fn empty_matcher_matches_everything() {
    let m = HookMatcher::new("");
    assert!(m.matches("Bash", "ls"));
    assert!(m.matches("Read", "/foo"));
    assert!(m.matches("", ""));
}

#[test]
fn exact_tool_match() {
    let m = HookMatcher::new("Bash");
    assert!(m.matches("Bash", "ls"));
    assert!(!m.matches("Edit", "file.rs"));
}

#[test]
fn pipe_separated_alternatives() {
    let m = HookMatcher::new("Bash|Edit|Write");
    assert!(m.matches("Bash", ""));
    assert!(m.matches("Edit", ""));
    assert!(m.matches("Write", ""));
    assert!(!m.matches("Read", ""));
}

#[test]
fn glob_tool_match() {
    let m = HookMatcher::new("file_*");
    assert!(m.matches("file_read", ""));
    assert!(m.matches("file_write", ""));
    assert!(!m.matches("shell", ""));
}

#[test]
fn content_pattern() {
    let m = HookMatcher::new("Bash(git *)");
    assert!(m.matches("Bash", "git push origin main"));
    assert!(m.matches("Bash", "git commit -m 'foo'"));
    assert!(!m.matches("Bash", "rm -rf /"));
    assert!(!m.matches("Edit", "git push"));
}

#[test]
fn content_pattern_with_pipes() {
    let m = HookMatcher::new("Bash|Edit(*.rs)");
    // "Bash|Edit" as name part, "(*.rs)" as content pattern
    assert!(m.matches("Bash", "main.rs"));
    assert!(m.matches("Edit", "lib.rs"));
    assert!(!m.matches("Bash", "main.py"));
    assert!(!m.matches("Read", "main.rs"));
}

#[test]
fn session_source_matching() {
    let m = HookMatcher::new("startup");
    assert!(m.matches("startup", ""));
    assert!(!m.matches("resume", ""));
}

#[test]
fn wildcard_matches_any_tool() {
    let m = HookMatcher::new("*");
    assert!(m.matches("Bash", ""));
    assert!(m.matches("Read", ""));
    assert!(m.matches("anything", ""));
}

#[test]
fn nested_parens_in_content() {
    let m = HookMatcher::new("Bash(echo foo(bar))");
    assert!(m.matches("Bash", "echo foo(bar)"));
}
