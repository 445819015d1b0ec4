use arawn_engine::permissions::rules::{glob_match, PermissionDecision, PermissionRule, RuleKind, RuleMatcher};


// --- glob_match tests ---

#[test]
fn glob_exact_match() {
    assert!(glob_match("Bash", "Bash"));
    assert!(!glob_match("Bash", "Read"));
}

#[test]
fn glob_star_match() {
    assert!(glob_match("file_*", "file_read"));
    assert!(glob_match("file_*", "file_write"));
    assert!(glob_match("file_*", "file_"));
    assert!(!glob_match("file_*", "glob"));
}

#[test]
fn rules_glob_question_mark() {
    assert!(glob_match("Rea?", "Read"));
    assert!(!glob_match("Rea?", "Real!"));
}

#[test]
fn glob_complex_patterns() {
    assert!(glob_match("*", "anything"));
    assert!(glob_match("*Tool", "ShellTool"));
    assert!(glob_match("A*B*C", "AxBxC"));
    assert!(!glob_match("A*B*C", "AxBx"));
}

#[test]
fn glob_content_patterns() {
    assert!(glob_match("git *", "git push"));
    assert!(glob_match("git *", "git commit -m 'foo'"));
    assert!(!glob_match("git *", "rm -rf /"));
    assert!(glob_match("rm *", "rm -rf /"));
}

// --- PermissionRule tests ---

#[test]
fn rule_exact_tool_match() {
    let rule = PermissionRule::new(RuleKind::Allow, "Read");
    assert!(rule.matches("Read", ""));
    assert!(!rule.matches("Write", ""));
}

#[test]
fn rule_glob_tool_match() {
    let rule = PermissionRule::new(RuleKind::Allow, "file_*");
    assert!(rule.matches("file_read", ""));
    assert!(rule.matches("file_write", ""));
    assert!(!rule.matches("shell", ""));
}

#[test]
fn rule_with_content_pattern() {
    let rule = PermissionRule::new(RuleKind::Allow, "Bash").with_content("git *");
    assert!(rule.matches("Bash", "git push origin main"));
    assert!(!rule.matches("Bash", "rm -rf /"));
    assert!(!rule.matches("Read", "git push"));
}

#[test]
fn rule_parse_simple() {
    let rule = PermissionRule::parse(RuleKind::Deny, "Bash");
    assert_eq!(rule.tool_pattern, "Bash");
    assert_eq!(rule.content_pattern, None);
}

#[test]
fn rule_parse_with_content() {
    let rule = PermissionRule::parse(RuleKind::Allow, "Bash(git *)");
    assert_eq!(rule.tool_pattern, "Bash");
    assert_eq!(rule.content_pattern, Some("git *".to_string()));
}

#[test]
fn rule_parse_nested_parens() {
    // Content with parens inside — only split on first (
    let rule = PermissionRule::parse(RuleKind::Ask, "Bash(echo foo(bar))");
    assert_eq!(rule.tool_pattern, "Bash");
    assert_eq!(rule.content_pattern, Some("echo foo(bar)".to_string()));
}

// --- RuleMatcher tests ---

#[test]
fn matcher_deny_takes_priority() {
    let rules = vec![
        PermissionRule::new(RuleKind::Allow, "Bash"),
        PermissionRule::new(RuleKind::Deny, "Bash"),
    ];
    assert_eq!(
        RuleMatcher::evaluate(&rules, "Bash", "ls"),
        PermissionDecision::Denied
    );
}

#[test]
fn matcher_allow_before_ask() {
    let rules = vec![
        PermissionRule::new(RuleKind::Ask, "Bash"),
        PermissionRule::new(RuleKind::Allow, "Bash"),
    ];
    assert_eq!(
        RuleMatcher::evaluate(&rules, "Bash", "ls"),
        PermissionDecision::Allowed
    );
}

#[test]
fn matcher_ask_when_only_ask_rule() {
    let rules = vec![PermissionRule::new(RuleKind::Ask, "Bash")];
    assert_eq!(
        RuleMatcher::evaluate(&rules, "Bash", "ls"),
        PermissionDecision::Ask
    );
}

#[test]
fn matcher_no_match_when_no_rules() {
    assert_eq!(
        RuleMatcher::evaluate(&[], "Bash", "ls"),
        PermissionDecision::NoMatch
    );
}

#[test]
fn matcher_no_match_when_rules_dont_apply() {
    let rules = vec![PermissionRule::new(RuleKind::Allow, "Read")];
    assert_eq!(
        RuleMatcher::evaluate(&rules, "Bash", "ls"),
        PermissionDecision::NoMatch
    );
}

#[test]
fn matcher_content_pattern_deny() {
    let rules = vec![
        PermissionRule::new(RuleKind::Allow, "Bash"),
        PermissionRule::new(RuleKind::Deny, "Bash").with_content("rm *"),
    ];
    // "rm -rf /" matches the deny rule
    assert_eq!(
        RuleMatcher::evaluate(&rules, "Bash", "rm -rf /"),
        PermissionDecision::Denied
    );
    // "ls" doesn't match deny, but matches allow
    assert_eq!(
        RuleMatcher::evaluate(&rules, "Bash", "ls"),
        PermissionDecision::Allowed
    );
}

#[test]
fn matcher_mixed_rules_realistic() {
    let rules = vec![
        // Read-only tools always allowed
        PermissionRule::new(RuleKind::Allow, "Read"),
        PermissionRule::new(RuleKind::Allow, "Glob"),
        PermissionRule::new(RuleKind::Allow, "Grep"),
        PermissionRule::new(RuleKind::Allow, "Think"),
        // Git commands allowed in Bash
        PermissionRule::parse(RuleKind::Allow, "Bash(git *)"),
        // Destructive commands denied
        PermissionRule::parse(RuleKind::Deny, "Bash(rm -rf *)"),
        // Everything else asks
        PermissionRule::new(RuleKind::Ask, "Bash"),
        PermissionRule::new(RuleKind::Ask, "Edit"),
        PermissionRule::new(RuleKind::Ask, "Write"),
    ];

    assert_eq!(
        RuleMatcher::evaluate(&rules, "Read", "/foo"),
        PermissionDecision::Allowed
    );
    assert_eq!(
        RuleMatcher::evaluate(&rules, "Grep", "pattern"),
        PermissionDecision::Allowed
    );
    assert_eq!(
        RuleMatcher::evaluate(&rules, "Bash", "git push"),
        PermissionDecision::Allowed
    );
    assert_eq!(
        RuleMatcher::evaluate(&rules, "Bash", "rm -rf /"),
        PermissionDecision::Denied
    );
    assert_eq!(
        RuleMatcher::evaluate(&rules, "Bash", "cargo test"),
        PermissionDecision::Ask
    );
    assert_eq!(
        RuleMatcher::evaluate(&rules, "Edit", "/foo.rs"),
        PermissionDecision::Ask
    );
    assert_eq!(
        RuleMatcher::evaluate(&rules, "UnknownTool", ""),
        PermissionDecision::NoMatch
    );
}
