use arawn_engine::permissions::MockModalPrompt;
use arawn_engine::permissions::prompt::parse_selection;
use arawn_engine::permissions::{CliModalPrompt, DecisionAudit, ModalOption, ModalRequest};
use arawn_engine::approval::{ApprovalTier, ArgShape};
use arawn_engine::permissions::checker::truncate_input;
use arawn_engine::permissions::{
    load_merged_permissions, CheckStep, PermissionCategory, PermissionChecker, PermissionConfig, PermissionDecision,
    PermissionMode, PermissionRule, PromptOutcome, RuleKind, RuleMatcher,
};

fn wildcard(tool: &str) -> ArgShape {
    ArgShape(format!("{tool}:*"))
}

fn settle(checker: &mut PermissionChecker, tool: &str, input: &str, category: PermissionCategory, outcome: PromptOutcome) -> PermissionDecision {
    let shape = wildcard(tool);
    let mut audit = DecisionAudit::new();
    match checker.decide(tool, input, category, &shape, 0, &mut audit) {
        CheckStep::Decided { decision, .. } => decision,
        CheckStep::Prompt { reason } => checker.resolve_prompt(tool, input, &shape, outcome, &reason, 0, &mut audit).0,
    }
}

#[test]
fn truncate_input_short() {
    assert_eq!(truncate_input("hello", 10), "hello");
}

#[test]
fn truncate_input_long() {
    let long = "a".repeat(300);
    let truncated = truncate_input(&long, 200);
    assert_eq!(truncated.len(), 203);
}

#[test]
fn truncate_input_multibyte_utf8_no_panic() {
    let emojis = "\u{1F980}".repeat(60);
    let truncated = truncate_input(&emojis, 200);
    assert!(truncated.len() <= 203);
    assert!(truncated.ends_with('\u{2026}'));
}

#[test]
fn snapshot_partitions_rules_by_kind_with_display_specs() {
    let rules = vec![
        PermissionRule::parse(RuleKind::Deny, "shell(rm -rf *)"),
        PermissionRule::parse(RuleKind::Allow, "Read"),
        PermissionRule::parse(RuleKind::Allow, "shell(cargo *)"),
        PermissionRule::parse(RuleKind::Ask, "web_fetch"),
    ];
    let checker = PermissionChecker::new(rules);
    let snap = checker.snapshot(&DecisionAudit::new());
    assert_eq!(snap.deny_rules, vec!["shell(rm -rf *)".to_string()]);
    assert_eq!(snap.allow_rules, vec!["Read".to_string(), "shell(cargo *)".to_string()]);
    assert_eq!(snap.ask_rules, vec!["web_fetch".to_string()]);
    assert_eq!(snap.recent_decisions.len(), 0);
}

#[test]
fn empty_config_produces_no_rules() {
    let config = PermissionConfig::default();
    assert!(config.into_rules().is_empty());
}

#[test]
fn config_parses_rules() {
    let config = PermissionConfig {
        allow: vec!["Read".into(), "Glob".into()],
        deny: vec!["Bash(rm -rf *)".into()],
        ask: vec!["Bash".into()],
    };
    let rules = config.into_rules();
    assert_eq!(rules.len(), 4);
    assert_eq!(rules[0].kind, RuleKind::Deny);
    assert_eq!(rules[0].tool_pattern, "Bash");
    assert_eq!(rules[1].kind, RuleKind::Allow);
    assert_eq!(rules[2].kind, RuleKind::Allow);
    assert_eq!(rules[3].kind, RuleKind::Ask);
}

#[test]
fn merge_preserves_priority() {
    let user = PermissionConfig { allow: vec![], deny: vec!["Bash(rm *)".into()], ask: vec![] };
    let project = PermissionConfig { allow: vec!["Bash".into()], deny: vec![], ask: vec![] };
    let merged = user.merge(project);
    let rules = merged.into_rules();
    assert_eq!(RuleMatcher::evaluate(&rules, "Bash", "rm -rf /"), PermissionDecision::Denied);
    assert_eq!(RuleMatcher::evaluate(&rules, "Bash", "ls"), PermissionDecision::Allowed);
}

#[test]
fn load_merged_missing_user_config() {
    let project = PermissionConfig { allow: vec!["Read".into()], deny: vec![], ask: vec![] };
    let rules = load_merged_permissions(None, Some(project));
    assert_eq!(rules.len(), 1);
    assert_eq!(rules[0].kind, RuleKind::Allow);
}

#[test]
fn config_load_missing_file_returns_defaults() {
    let rules = load_merged_permissions(None, None);
    assert!(rules.is_empty());
}

#[test]
fn default_mode_allows_read_only() {
    let mut checker = PermissionChecker::new(vec![]);
    for (tool, input) in [("Read", "/foo"), ("Glob", "*.rs"), ("Grep", "pattern"), ("Think", "hmm")] {
        assert_eq!(settle(&mut checker, tool, input, PermissionCategory::ReadOnly, PromptOutcome::NoPrompter), PermissionDecision::Allowed);
    }
}

#[test]
fn default_mode_asks_for_writes() {
    let mut checker = PermissionChecker::new(vec![]);
    assert_eq!(settle(&mut checker, "Edit", "/foo.rs", PermissionCategory::FileWrite, PromptOutcome::NoPrompter), PermissionDecision::Denied);
    assert_eq!(settle(&mut checker, "Bash", "ls", PermissionCategory::Shell, PromptOutcome::NoPrompter), PermissionDecision::Denied);
}

#[test]
fn ask_with_allow_always_grants_session() {
    let mut checker = PermissionChecker::new(vec![PermissionRule::new(RuleKind::Ask, "Bash")]);
    assert_eq!(settle(&mut checker, "Bash", "ls", PermissionCategory::Shell, PromptOutcome::Answered(Some(1))), PermissionDecision::Allowed);
    assert!(checker.is_granted_shape("Bash", &wildcard("Bash")));
    assert_eq!(settle(&mut checker, "Bash", "cargo test", PermissionCategory::Shell, PromptOutcome::NoPrompter), PermissionDecision::Allowed);
}

#[test]
fn ask_with_allow_once_and_deny() {
    let mut checker = PermissionChecker::new(vec![PermissionRule::new(RuleKind::Ask, "Edit")]);
    let shape = wildcard("Edit");
    let mut audit = DecisionAudit::new();
    let reason = match checker.decide("Edit", "/foo.rs", PermissionCategory::FileWrite, &shape, 0, &mut audit) {
        CheckStep::Prompt { reason } => reason,
        _ => panic!("expected a prompt"),
    };
    assert_eq!(checker.resolve_prompt("Edit", "/foo.rs", &shape, PromptOutcome::Answered(Some(0)), &reason, 1, &mut audit), (PermissionDecision::Allowed, ApprovalTier::AllowOnce));
    assert_eq!(checker.resolve_prompt("Edit", "/foo.rs", &shape, PromptOutcome::Answered(Some(2)), &reason, 2, &mut audit), (PermissionDecision::Denied, ApprovalTier::Deny));
    assert_eq!(checker.resolve_prompt("Edit", "/foo.rs", &shape, PromptOutcome::Answered(None), &reason, 3, &mut audit), (PermissionDecision::Denied, ApprovalTier::Deny));
    assert!(!checker.is_granted_shape("Edit", &shape));
}

#[test]
fn deny_rules_override_session_grants() {
    let mut checker = PermissionChecker::new(vec![PermissionRule::new(RuleKind::Deny, "Bash")]);
    checker.grant_tool("Bash".to_string());
    assert_eq!(settle(&mut checker, "Bash", "rm -rf /", PermissionCategory::Shell, PromptOutcome::Answered(Some(0))), PermissionDecision::Denied);
}

#[test]
fn bypass_mode_allows_everything() {
    let mut checker = PermissionChecker::new(vec![]).with_mode(PermissionMode::BypassPermissions);
    assert_eq!(settle(&mut checker, "Bash", "rm -rf /", PermissionCategory::Shell, PromptOutcome::NoPrompter), PermissionDecision::Allowed);
}

#[test]
fn plan_mode_denies_writes_allows_reads() {
    let mut checker = PermissionChecker::new(vec![]).with_mode(PermissionMode::Plan);
    assert_eq!(settle(&mut checker, "Edit", "/foo.rs", PermissionCategory::FileWrite, PromptOutcome::NoPrompter), PermissionDecision::Denied);
    assert_eq!(settle(&mut checker, "Read", "/foo", PermissionCategory::ReadOnly, PromptOutcome::NoPrompter), PermissionDecision::Allowed);
}

#[test]
fn audit_caps_at_fifty() {
    let checker = PermissionChecker::new(vec![]);
    let mut audit = DecisionAudit::new();
    for i in 0..60u64 {
        let shape = wildcard("Read");
        checker.decide("Read", &format!("/f{i}"), PermissionCategory::ReadOnly, &shape, i, &mut audit);
    }
    let snap = checker.snapshot(&audit);
    assert_eq!(snap.recent_decisions.len(), 50);
    assert_eq!(snap.recent_decisions[0].timestamp, 10);
    assert_eq!(snap.recent_decisions[49].timestamp, 59);
}

fn modal_request() -> ModalRequest {
    ModalRequest {
        title: "Test".into(),
        subtitle: None,
        options: vec![ModalOption::new("Option A"), ModalOption::new("Option B"), ModalOption::new("Option C")],
    }
}

#[test]
fn mock_always_returns_index() {
    let _ = modal_request();
    let mut mock = MockModalPrompt::always(Some(1));
    assert_eq!(mock.next_response(), Some(1));
    assert_eq!(mock.next_response(), Some(1));
}

#[test]
fn mock_always_cancel() {
    let mut mock = MockModalPrompt::always(None);
    assert_eq!(mock.next_response(), None);
}

#[test]
fn mock_queued_responses() {
    let mut mock = MockModalPrompt::with_responses(vec![Some(0), Some(2), None], Some(1));
    assert_eq!(mock.next_response(), Some(0));
    assert_eq!(mock.next_response(), Some(2));
    assert_eq!(mock.next_response(), None);
    assert_eq!(mock.next_response(), Some(1));
}

#[test]
fn cli_selection_parsing() {
    assert_eq!(parse_selection("1\n", 3), Some(0));
    assert_eq!(parse_selection("  3  ", 3), Some(2));
    assert_eq!(parse_selection("+2", 3), Some(1));
    assert_eq!(parse_selection("4", 3), None);
    assert_eq!(parse_selection("0", 3), None);
    assert_eq!(parse_selection("c", 3), None);
    assert_eq!(parse_selection(" C\n", 3), None);
    assert_eq!(parse_selection("abc", 3), None);
    assert_eq!(parse_selection("", 3), None);
}

#[test]
fn cli_prompt_rendering() {
    let req = ModalRequest {
        title: "Permission required".into(),
        subtitle: Some("shell: ls".into()),
        options: vec![ModalOption::new("Allow Once").with_description("once"), ModalOption::new("Deny")],
    };
    let text = CliModalPrompt::new().render(&req);
    assert_eq!(
        text,
        "\n─── Permission required ───\n  shell: ls\n\n  1. Allow Once  (once)\n  2. Deny\n\n  Select [1-2] or 'c' to cancel: "
    );
}
