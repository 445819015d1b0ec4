use arawn_engine::approval::ArgShape;
use arawn_engine::background::{BackgroundTaskKind, BackgroundTaskManager, BackgroundTaskStatus};
use arawn_engine::conversation::Message;
use arawn_engine::glob::glob_match;
use arawn_engine::hooks::{CommandHookDef, HookConfig, HookEvent, HookGroup};
use arawn_engine::permissions::checker::AUDIT_CAP;
use arawn_engine::permissions::{
    CheckStep, DecisionAudit, DecisionReason, PermissionCategory, PermissionChecker, PermissionDecision, PermissionMode, PermissionRule,
    PromptOutcome, RuleKind,
};
use arawn_engine::plugins::loader::PluginIdentifier;
use arawn_engine::plugins::manifest::ConfigValue;
use arawn_engine::plugins::settings::substitute_user_config;
use arawn_engine::prompt_injection::heuristics::strip_invisible;
use arawn_engine::query_engine::EngineLoop;
use arawn_engine::skills::loader::format_skill_listing;
use arawn_engine::skills::{load_merged_skills, SkillDefinition, SkillSource};
use arawn_engine::token_estimator::TokenEstimator;

fn skill(name: &str, description: &str, source: SkillSource) -> SkillDefinition {
    SkillDefinition {
        name: name.into(),
        description: description.into(),
        prompt: "p".into(),
        argument_hint: None,
        allowed_tools: None,
        model: None,
        user_invocable: true,
        source,
    }
}

fn decision(checker: &PermissionChecker, audit: &mut DecisionAudit, tool: &str, input: &str) -> Option<PermissionDecision> {
    let shape = ArgShape::for_tool(tool, input);
    match checker.decide(tool, input, PermissionCategory::Shell, &shape, 0, audit) {
        CheckStep::Decided { decision, .. } => Some(decision),
        CheckStep::Prompt { .. } => None,
    }
}

#[test]
fn deny_rule_beats_grant_and_mode() {
    let rules = vec![PermissionRule::parse(RuleKind::Deny, "shell(rm *)"), PermissionRule::parse(RuleKind::Allow, "shell")];
    let mut checker = PermissionChecker::new(rules).with_mode(PermissionMode::BypassPermissions);
    checker.grant_tool("shell".into());
    let mut audit = DecisionAudit::new();
    assert_eq!(decision(&checker, &mut audit, "shell", "rm -rf /"), Some(PermissionDecision::Denied));
    assert_eq!(decision(&checker, &mut audit, "shell", "ls"), Some(PermissionDecision::Allowed));
}

#[test]
fn allow_always_then_allowed_without_prompt() {
    let mut checker = PermissionChecker::new(vec![]);
    let input = "{\"command\":\"cargo test\"}";
    let shape = ArgShape::for_tool("shell", input);
    let mut audit = DecisionAudit::new();
    let reason = match checker.decide("shell", input, PermissionCategory::Shell, &shape, 0, &mut audit) {
        CheckStep::Prompt { reason } => reason,
        other => panic!("expected a prompt, got {other:?}"),
    };
    checker.resolve_prompt("shell", input, &shape, PromptOutcome::Answered(Some(1)), &reason, 1, &mut audit);
    match checker.decide("shell", input, PermissionCategory::Shell, &shape, 2, &mut audit) {
        CheckStep::Decided { decision, reason: DecisionReason::SessionGrant } => {
            assert_eq!(decision, PermissionDecision::Allowed)
        }
        other => panic!("expected a session grant, got {other:?}"),
    }
}

#[test]
fn audit_stays_bounded() {
    let checker = PermissionChecker::new(vec![PermissionRule::parse(RuleKind::Allow, "*")]);
    let mut audit = DecisionAudit::new();
    for i in 0..(AUDIT_CAP + 20) {
        decision(&checker, &mut audit, "shell", &format!("call {i}"));
    }
    let snap = checker.snapshot(&audit);
    assert_eq!(snap.recent_decisions.len(), AUDIT_CAP);
    assert_eq!(snap.recent_decisions.last().unwrap().tool_input_summary, format!("call {}", AUDIT_CAP + 19));
}

#[test]
fn star_and_literal_patterns() {
    for t in ["", "a", "file_read", "x*y?"] {
        assert!(glob_match("*", t));
        assert_eq!(glob_match("file_read", t), t == "file_read");
    }
}

#[test]
fn stripping_is_idempotent() {
    let once = strip_invisible("a\u{200b}b\u{1b}c\nd").into_owned();
    assert_eq!(once, "abc\nd");
    assert_eq!(strip_invisible(&once), once.as_str());
}

#[test]
fn merged_hooks_fire_base_then_other() {
    let hook = |c: &str| CommandHookDef { hook_type: "command".into(), command: c.into(), timeout: None };
    let mut base = HookConfig { events: vec![("PreToolUse".into(), vec![HookGroup { matcher: None, hooks: vec![hook("a")] }])] };
    let other = HookConfig { events: vec![("PreToolUse".into(), vec![HookGroup { matcher: None, hooks: vec![hook("b")] }])] };
    base.merge(other);
    let commands: Vec<&str> =
        base.matching_hooks(HookEvent::PreToolUse, "Bash", "").iter().map(|h| h.command.as_str()).collect();
    assert_eq!(commands, vec!["a", "b"]);
}

#[test]
fn project_skill_wins_over_user_skill() {
    let user = vec![skill("deploy", "user version", SkillSource::User), skill("lint", "lint", SkillSource::User)];
    let project = vec![skill("deploy", "project version", SkillSource::Project)];
    let registry = load_merged_skills(Some(project), Some(user), &Vec::new());
    assert_eq!(registry.len(), 2);
    assert_eq!(registry.get("deploy").unwrap().description, "project version");
}

#[test]
fn identifier_written_form_parses_back() {
    let id = PluginIdentifier::new("metis", "colliery-io-metis");
    let back = PluginIdentifier::parse(&id.to_string()).unwrap();
    assert_eq!(back.name, "metis");
    assert_eq!(back.marketplace, "colliery-io-metis");
}

#[test]
fn rule_written_form_roundtrip() {
    for spec in ["Read", "shell(cargo *)", "web_fetch(https://*)"] {
        assert_eq!(PermissionRule::parse(RuleKind::Allow, spec).display_spec(), spec);
    }
}

#[test]
fn two_failures_refuse_the_call_and_success_clears() {
    let mut engine = EngineLoop::new(10);
    engine.record_result("shell", "{}", true);
    assert!(engine.check_call("shell", true, true, "{}").is_none());
    engine.record_result("shell", "{}", true);
    assert!(engine.check_call("shell", true, true, "{}").is_some());
    engine.record_result("shell", "{}", false);
    assert!(engine.check_call("shell", true, true, "{}").is_none());
}

#[test]
fn registered_task_is_found() {
    let mut mgr = BackgroundTaskManager::new();
    mgr.register("bg_1".into(), BackgroundTaskKind::Shell { command: "a".into() }, "a".into(), 0);
    mgr.register("bg_2".into(), BackgroundTaskKind::Shell { command: "b".into() }, "b".into(), 0);
    assert!(!mgr.register("bg_1".into(), BackgroundTaskKind::Shell { command: "c".into() }, "c".into(), 0));
    assert_eq!(mgr.status("bg_2"), Some(BackgroundTaskStatus::Running));
    assert_eq!(mgr.status("bg_1"), Some(BackgroundTaskStatus::Running));
}

#[test]
fn templates_without_placeholders_unchanged() {
    let config = vec![("KEY".to_string(), ConfigValue::Text("v".into()))];
    assert_eq!(substitute_user_config("echo ${HOME} $KEY", &config), "echo ${HOME} $KEY");
}

#[test]
fn estimates_add_up() {
    let a = vec![Message::User { content: "hello".into() }];
    let b = vec![Message::Summary { content: "x".repeat(40) }, Message::User { content: "y".into() }];
    let both: Vec<Message> = a.iter().chain(b.iter()).cloned().collect();
    assert_eq!(
        TokenEstimator::estimate_messages(&both),
        TokenEstimator::estimate_messages(&a) + TokenEstimator::estimate_messages(&b)
    );
}

#[test]
fn listing_within_budget() {
    let skills: Vec<SkillDefinition> =
        (0..20).map(|i| skill(&format!("skill-{i}"), "does a thing", SkillSource::Project)).collect();
    for budget in [0, 40, 100, 300, 1000] {
        let listing = format_skill_listing(&skills, budget, 50);
        assert!(listing.len() <= budget);
    }
}

#[test]
fn checkers_share_one_audit() {
    let a = PermissionChecker::new(vec![PermissionRule::parse(RuleKind::Allow, "tool_a")]);
    let b = PermissionChecker::new(vec![PermissionRule::parse(RuleKind::Allow, "tool_b")]);
    let mut shared = DecisionAudit::new();
    decision(&a, &mut shared, "tool_a", "x");
    decision(&b, &mut shared, "tool_b", "y");
    let snap_a = a.snapshot(&shared);
    let snap_b = b.snapshot(&shared);
    assert_eq!(snap_a.recent_decisions.len(), 2);
    assert_eq!(snap_b.recent_decisions.len(), 2);
    assert_eq!(snap_a.recent_decisions[0].tool_name, "tool_a");
    assert_eq!(snap_a.recent_decisions[1].tool_name, "tool_b");
}
