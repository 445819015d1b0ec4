use arawn_engine::approval::ArgShape;
use arawn_engine::permissions::checker::AUDIT_CAP;
use arawn_engine::permissions::{
    CheckStep, DecisionAudit, DecisionReason, PermissionCategory, PermissionChecker, PermissionDecision,
    PermissionMode, PermissionRule, PromptOutcome, RuleKind,
};

const ALLOW_ONCE: PromptOutcome = PromptOutcome::Answered(Some(0));
const ALLOW_ALWAYS: PromptOutcome = PromptOutcome::Answered(Some(1));
const DENY: PromptOutcome = PromptOutcome::Answered(Some(2));

/// Runs a whole check: the decision step, then the prompt when one is asked
/// for, answered with `outcome`.
fn check_explained(
    checker: &mut PermissionChecker,
    audit: &mut DecisionAudit,
    tool: &str,
    input: &str,
    category: PermissionCategory,
    outcome: PromptOutcome,
) -> (PermissionDecision, DecisionReason) {
    let shape = ArgShape::for_tool(tool, input);
    match checker.decide(tool, input, category, &shape, 0, audit) {
        CheckStep::Decided { decision, reason } => (decision, reason),
        CheckStep::Prompt { reason } => {
            let (decision, _) = checker.resolve_prompt(tool, input, &shape, outcome, &reason, 0, audit);
            (decision, reason)
        }
    }
}

fn check(checker: &mut PermissionChecker, tool: &str, input: &str, category: PermissionCategory, outcome: PromptOutcome) -> PermissionDecision {
    let mut audit = DecisionAudit::new();
    check_explained(checker, &mut audit, tool, input, category, outcome).0
}

#[test]
fn allowed_by_rule() {
    let mut checker = PermissionChecker::new(vec![PermissionRule::new(RuleKind::Allow, "Read")]);
    assert_eq!(check(&mut checker, "Read", "/foo", PermissionCategory::ReadOnly, PromptOutcome::NoPrompter), PermissionDecision::Allowed);
}

#[test]
fn denied_by_rule() {
    let mut checker = PermissionChecker::new(vec![PermissionRule::new(RuleKind::Deny, "Bash")]);
    assert_eq!(check(&mut checker, "Bash", "rm -rf /", PermissionCategory::Shell, PromptOutcome::NoPrompter), PermissionDecision::Denied);
}

#[test]
fn ask_without_prompter_denies() {
    let mut checker = PermissionChecker::new(vec![PermissionRule::new(RuleKind::Ask, "Bash")]);
    assert_eq!(check(&mut checker, "Bash", "ls", PermissionCategory::Shell, PromptOutcome::NoPrompter), PermissionDecision::Denied);
}

#[test]
fn ask_with_allow_once() {
    let mut checker = PermissionChecker::new(vec![PermissionRule::new(RuleKind::Ask, "Bash")]);
    assert_eq!(check(&mut checker, "Bash", "ls", PermissionCategory::Shell, ALLOW_ONCE), PermissionDecision::Allowed);
    assert!(!checker.is_granted_shape("Bash", &ArgShape::for_tool("Bash", "ls")));
    // Not granted: the next call asks again, and without a prompter it is denied.
    assert_eq!(check(&mut checker, "Bash", "ls", PermissionCategory::Shell, PromptOutcome::NoPrompter), PermissionDecision::Denied);
}

#[test]
fn ask_with_deny() {
    let mut checker = PermissionChecker::new(vec![PermissionRule::new(RuleKind::Ask, "Edit")]);
    assert_eq!(check(&mut checker, "Edit", "/foo.rs", PermissionCategory::FileWrite, DENY), PermissionDecision::Denied);
}

#[test]
fn accept_edits_mode_allows_file_ops() {
    let mut checker = PermissionChecker::new(vec![]).with_mode(PermissionMode::AcceptEdits);
    assert_eq!(check(&mut checker, "Read", "/foo", PermissionCategory::ReadOnly, PromptOutcome::NoPrompter), PermissionDecision::Allowed);
    assert_eq!(check(&mut checker, "Edit", "/foo.rs", PermissionCategory::FileWrite, PromptOutcome::NoPrompter), PermissionDecision::Allowed);
    assert_eq!(check(&mut checker, "Write", "/bar.rs", PermissionCategory::FileWrite, PromptOutcome::NoPrompter), PermissionDecision::Allowed);
    assert_eq!(check(&mut checker, "Bash", "ls", PermissionCategory::Shell, PromptOutcome::NoPrompter), PermissionDecision::Denied);
}

#[test]
fn explicit_rules_override_mode() {
    let mut checker = PermissionChecker::new(vec![PermissionRule::new(RuleKind::Allow, "Bash")]);
    assert_eq!(check(&mut checker, "Bash", "ls", PermissionCategory::Shell, PromptOutcome::NoPrompter), PermissionDecision::Allowed);
}

#[test]
fn session_grant_works_for_non_denied_tools() {
    let mut checker = PermissionChecker::new(vec![PermissionRule::new(RuleKind::Ask, "think")]);
    checker.grant_tool("think".to_string());
    assert_eq!(check(&mut checker, "think", "", PermissionCategory::ReadOnly, PromptOutcome::NoPrompter), PermissionDecision::Allowed);
}

#[test]
fn shape_aware_grant_only_allows_matching_shape() {
    let mut checker = PermissionChecker::new(vec![PermissionRule::new(RuleKind::Ask, "shell")]);
    let safe_input = r#"{"command":"ls"}"#;
    assert_eq!(check(&mut checker, "shell", safe_input, PermissionCategory::Shell, ALLOW_ALWAYS), PermissionDecision::Allowed);
    let safe_shape = ArgShape::for_tool("shell", safe_input);
    assert!(checker.is_granted_shape("shell", &safe_shape));
    let dangerous_shape = ArgShape::for_tool("shell", r#"{"command":"rm -rf /"}"#);
    assert!(!checker.is_granted_shape("shell", &dangerous_shape));
}

#[test]
fn fail_closed_when_no_prompter() {
    let mut checker = PermissionChecker::new(vec![PermissionRule::new(RuleKind::Ask, "shell")]);
    assert_eq!(
        check(&mut checker, "shell", r#"{"command":"ls"}"#, PermissionCategory::Shell, PromptOutcome::NoPrompter),
        PermissionDecision::Denied
    );
}

#[test]
fn clear_grants_resets() {
    let mut checker = PermissionChecker::new(vec![PermissionRule::new(RuleKind::Deny, "Bash")]);
    checker.grant_tool("Bash".to_string());
    checker.clear_grants();
    assert!(!checker.is_granted_shape("Bash", &ArgShape("Bash:*".to_string())));
    assert_eq!(check(&mut checker, "Bash", "ls", PermissionCategory::Shell, PromptOutcome::NoPrompter), PermissionDecision::Denied);
}

#[test]
fn update_rules_hot_reload() {
    let mut checker = PermissionChecker::new(vec![]);
    assert_eq!(check(&mut checker, "Bash", "ls", PermissionCategory::Shell, PromptOutcome::NoPrompter), PermissionDecision::Denied);
    checker.update_rules(vec![PermissionRule::new(RuleKind::Allow, "Bash")]);
    assert_eq!(check(&mut checker, "Bash", "ls", PermissionCategory::Shell, PromptOutcome::NoPrompter), PermissionDecision::Allowed);
    checker.update_rules(vec![PermissionRule::new(RuleKind::Deny, "Bash")]);
    assert_eq!(check(&mut checker, "Bash", "ls", PermissionCategory::Shell, PromptOutcome::NoPrompter), PermissionDecision::Denied);
}

#[test]
fn update_mode_hot_reload() {
    let mut checker = PermissionChecker::new(vec![]);
    assert_eq!(check(&mut checker, "Bash", "ls", PermissionCategory::Shell, PromptOutcome::NoPrompter), PermissionDecision::Denied);
    checker.update_mode(PermissionMode::BypassPermissions);
    assert_eq!(check(&mut checker, "Bash", "ls", PermissionCategory::Shell, PromptOutcome::NoPrompter), PermissionDecision::Allowed);
    checker.update_mode(PermissionMode::Default);
    assert_eq!(check(&mut checker, "Bash", "ls", PermissionCategory::Shell, PromptOutcome::NoPrompter), PermissionDecision::Denied);
}

#[test]
fn plan_mode_allows_read_only() {
    let mut checker = PermissionChecker::new(vec![]).with_mode(PermissionMode::Plan);
    for (tool, input) in [("Read", "/foo"), ("Glob", "*.rs"), ("Think", "hmm"), ("WebSearch", "query")] {
        assert_eq!(check(&mut checker, tool, input, PermissionCategory::ReadOnly, PromptOutcome::NoPrompter), PermissionDecision::Allowed);
    }
}

#[test]
fn plan_mode_denies_writes() {
    let mut checker = PermissionChecker::new(vec![]).with_mode(PermissionMode::Plan);
    assert_eq!(check(&mut checker, "Edit", "/foo.rs", PermissionCategory::FileWrite, ALLOW_ONCE), PermissionDecision::Denied);
    assert_eq!(check(&mut checker, "Write", "/bar.rs", PermissionCategory::FileWrite, ALLOW_ONCE), PermissionDecision::Denied);
    assert_eq!(check(&mut checker, "Bash", "ls", PermissionCategory::Shell, ALLOW_ONCE), PermissionDecision::Denied);
    assert_eq!(check(&mut checker, "AgentTool", "", PermissionCategory::Other, ALLOW_ONCE), PermissionDecision::Denied);
}

#[test]
fn plan_mode_allows_plan_meta_tools() {
    let mut checker = PermissionChecker::new(vec![]).with_mode(PermissionMode::Plan);
    assert_eq!(check(&mut checker, "enter_plan_mode", "", PermissionCategory::Other, PromptOutcome::NoPrompter), PermissionDecision::Allowed);
    assert_eq!(check(&mut checker, "exit_plan_mode", "", PermissionCategory::Other, PromptOutcome::NoPrompter), PermissionDecision::Allowed);
}

#[test]
fn check_explained_attributes_deny_to_matching_rule() {
    let mut checker = PermissionChecker::new(vec![PermissionRule::parse(RuleKind::Deny, "shell(rm -rf *)")]);
    let mut audit = DecisionAudit::new();
    let (decision, reason) = check_explained(
        &mut checker,
        &mut audit,
        "shell",
        "rm -rf /tmp/foo",
        PermissionCategory::Shell,
        PromptOutcome::NoPrompter,
    );
    assert_eq!(decision, PermissionDecision::Denied);
    let display = reason.display();
    assert!(display.contains("deny"), "expected rule kind in reason: {display}");
    assert!(display.contains("shell(rm -rf *)"), "expected rule spec: {display}");
}

#[test]
fn check_explained_attributes_no_match_to_mode_fallback() {
    let mut checker = PermissionChecker::new(vec![]);
    let mut audit = DecisionAudit::new();
    let (decision, reason) =
        check_explained(&mut checker, &mut audit, "file_read", "{}", PermissionCategory::ReadOnly, PromptOutcome::NoPrompter);
    assert_eq!(decision, PermissionDecision::Allowed);
    let display = reason.display();
    assert!(display.contains("mode default"), "expected mode default reason: {display}");
}

#[test]
fn audit_log_records_decisions_in_order_and_caps() {
    let mut checker = PermissionChecker::new(vec![]);
    let mut audit = DecisionAudit::new();
    for i in 0..(AUDIT_CAP + 5) {
        let _ = check_explained(
            &mut checker,
            &mut audit,
            &format!("tool_{i}"),
            "",
            PermissionCategory::ReadOnly,
            PromptOutcome::NoPrompter,
        );
    }
    let snapshot = checker.snapshot(&audit);
    assert_eq!(snapshot.recent_decisions.len(), AUDIT_CAP);
    assert_eq!(snapshot.recent_decisions[0].tool_name, "tool_5");
    let last = snapshot.recent_decisions.last().unwrap();
    assert_eq!(last.tool_name, format!("tool_{}", AUDIT_CAP + 4));
}

#[test]
fn shared_audit_aggregates_across_checkers() {
    let mut audit = DecisionAudit::new();
    let mut checker_a = PermissionChecker::new(vec![]);
    let mut checker_b = PermissionChecker::new(vec![]);
    let _ = check_explained(&mut checker_a, &mut audit, "tool_a", "", PermissionCategory::ReadOnly, PromptOutcome::NoPrompter);
    let _ = check_explained(&mut checker_b, &mut audit, "tool_b", "", PermissionCategory::ReadOnly, PromptOutcome::NoPrompter);
    let snap_a = checker_a.snapshot(&audit);
    let snap_b = checker_b.snapshot(&audit);
    assert_eq!(snap_a.recent_decisions.len(), 2);
    assert_eq!(snap_b.recent_decisions.len(), 2);
    assert_eq!(snap_a.recent_decisions[0].tool_name, "tool_a");
    assert_eq!(snap_a.recent_decisions[1].tool_name, "tool_b");
}
