use arawn_engine::permissions::PermissionMode;
use arawn_engine::plan::{generate_slug, plan_header, plan_path, PlanModeState};

#[test]
fn generate_slug_basic() {
    assert_eq!(generate_slug("refactor auth middleware"), "refactor-auth-middleware");
}

#[test]
fn generate_slug_strips_stop_words() {
    assert_eq!(generate_slug("plan for the database migration strategy"), "plan-database-migration-strategy");
}

#[test]
fn generate_slug_max_four_words() {
    assert_eq!(generate_slug("implement new caching layer distributed system redesign"), "implement-new-caching-layer");
}

#[test]
fn generate_slug_empty() {
    assert_eq!(generate_slug(""), "plan");
    assert_eq!(generate_slug("the a an"), "plan");
}

#[test]
fn generate_slug_special_chars() {
    assert_eq!(generate_slug("fix bug #123 (urgent)"), "fix-bug-123-urgent");
}

#[test]
fn plan_mode_lifecycle() {
    let mut state = PlanModeState::new();
    assert!(!state.is_active());
    let plan_file = state.enter(PermissionMode::Default, "test-plan", "/tmp/ws");
    assert!(state.is_active());
    assert_eq!(plan_file, "/tmp/ws/test-plan.plan.md");
    assert!(state.is_plan_file(&plan_file));
    assert!(state.is_plan_file("/tmp//ws/./test-plan.plan.md"));
    assert!(!state.is_plan_file("/some/other/file.md"));
    let pre_mode = state.exit();
    assert_eq!(pre_mode, Some(PermissionMode::Default));
    assert!(!state.is_active());
}

#[test]
fn exit_when_not_active_returns_none() {
    let mut state = PlanModeState::new();
    assert_eq!(state.exit(), None);
}

#[test]
fn snapshot_reflects_state() {
    let mut state = PlanModeState::new();
    let snap = state.snapshot();
    assert!(!snap.active);
    assert!(snap.plan_file.is_none());
    state.enter(PermissionMode::AcceptEdits, "snap-test", "/tmp");
    let snap = state.snapshot();
    assert!(snap.active);
    assert_eq!(snap.plan_slug.as_deref(), Some("snap-test"));
}

#[test]
fn plan_file_naming() {
    assert_eq!(plan_path("/w/", "s"), "/w/s.plan.md");
    assert_eq!(plan_header("s"), "# Plan: s\n\n");
}
