use arawn_engine::skills::loader::format_skill_listing;
use arawn_engine::skills::{load_merged_skills, SkillDefinition, SkillRegistry, SkillSource};

fn skill(name: &str, description: &str, user_invocable: bool) -> SkillDefinition {
    SkillDefinition {
        name: name.into(),
        description: description.into(),
        prompt: "test".into(),
        argument_hint: None,
        allowed_tools: None,
        model: None,
        user_invocable,
        source: SkillSource::Project,
    }
}

#[test]
fn registry_case_insensitive_lookup() {
    let mut registry = SkillRegistry::new();
    registry.register(skill("Commit", "test", true));
    assert!(registry.get("commit").is_some());
    assert!(registry.get("COMMIT").is_some());
    assert!(registry.get("Commit").is_some());
}

#[test]
fn format_listing_basic() {
    let mut commit = skill("commit", "Create a git commit", true);
    commit.prompt = String::new();
    commit.argument_hint = Some("[-m msg]".into());
    let mut review = skill("review", "Review code quality", true);
    review.prompt = String::new();
    let skills = vec![commit, review];
    let listing = format_skill_listing(&skills, 10000, 250);
    assert!(listing.contains("- commit [-m msg]: Create a git commit"));
    assert!(listing.contains("- review: Review code quality"));
}

#[test]
fn format_listing_truncates_description() {
    let skills = vec![skill("verbose", &"A".repeat(300), true)];
    let listing = format_skill_listing(&skills, 10000, 50);
    assert!(listing.contains("..."));
    assert!(listing.len() < 200);
}

#[test]
fn format_listing_respects_budget() {
    let skills: Vec<SkillDefinition> =
        (0..100).map(|i| skill(&format!("skill-{i}"), &format!("Description for skill {i}"), true)).collect();
    let listing = format_skill_listing(&skills, 200, 250);
    assert!(listing.len() <= 200);
}

#[test]
fn format_listing_empty() {
    let listing = format_skill_listing(&[], 10000, 250);
    assert!(listing.is_empty());
}

#[test]
fn user_invocable_filter() {
    let mut registry = SkillRegistry::new();
    registry.register(skill("visible", "test", true));
    registry.register(skill("hidden", "test", false));
    let num_builtins = registry.all().iter().filter(|s| s.source == SkillSource::BuiltIn).count();
    assert_eq!(registry.all().len(), 2 + num_builtins);
    let user_invocable = registry.user_invocable();
    assert!(user_invocable.iter().any(|s| s.name == "visible"));
    assert!(!user_invocable.iter().any(|s| s.name == "hidden"));
}

#[test]
fn project_overrides_user() {
    let mut user = skill("deploy", "User deploy", true);
    user.source = SkillSource::User;
    let project = skill("deploy", "Project deploy", true);
    let registry = load_merged_skills(Some(vec![project]), Some(vec![user]), &Vec::new());
    let s = registry.get("deploy").unwrap();
    assert_eq!(s.description, "Project deploy");
    assert_eq!(s.source, SkillSource::Project);
    assert_eq!(registry.len(), 1);
}

#[test]
fn listing_exact_text_and_cut() {
    let skills = vec![skill("a", "abcdef", true)];
    assert_eq!(
        format_skill_listing(&skills, 1000, 5),
        "The following skills are available for use with the Skill tool:\n- a: ab..."
    );
}

#[test]
fn listing_stops_at_first_line_that_does_not_fit() {
    // header is 66 bytes; "- a: x" is 6 bytes + newline
    let skills = vec![skill("a", "x", true), skill("bbbbbbbbbbbbbbbbbbbb", "y", true), skill("c", "z", true)];
    let listing = format_skill_listing(&skills, 66 + 7 + 7, 250);
    assert_eq!(listing, "The following skills are available for use with the Skill tool:\n- a: x");
}

#[test]
fn register_replaces_same_name() {
    let mut registry = SkillRegistry::new();
    registry.register(skill("x", "first", true));
    registry.register(skill("x", "second", true));
    assert_eq!(registry.len(), 1);
    assert_eq!(registry.get("x").unwrap().description, "second");
}

#[test]
fn register_builtins_skips_unparsable_and_marks_builtin() {
    let mut registry = SkillRegistry::new();
    let builtins: Vec<(String, String)> = vec![
        ("commit".into(), "---\ndescription: Make a commit\n---\nCommit the work.".into()),
        ("broken".into(), "no frontmatter here".into()),
        ("review".into(), "---\nname: code-review\ndescription: Review code\n---\nReview it.".into()),
    ];
    registry.register_builtins(&builtins);
    assert_eq!(registry.len(), 2);
    let commit = registry.get("commit").unwrap();
    assert_eq!(commit.source, SkillSource::BuiltIn);
    assert_eq!(commit.prompt, "Commit the work.");
    assert!(registry.get("code-review").is_some());
    assert!(registry.get("broken").is_none());
}

#[test]
fn merged_skills_layer_builtin_user_project() {
    let builtins: Vec<(String, String)> = vec![
        ("workflows".into(), "---\ndescription: Built-in workflows\n---\nFollow the workflow.".into()),
        ("deploy".into(), "---\ndescription: Built-in deploy\n---\nDeploy it.".into()),
        ("lint".into(), "---\ndescription: Built-in lint\n---\nLint it.".into()),
    ];
    let mut user_deploy = skill("deploy", "User deploy", true);
    user_deploy.source = SkillSource::User;
    let mut user_lint = skill("lint", "User lint", true);
    user_lint.source = SkillSource::User;
    let project = skill("deploy", "Project deploy", true);
    let registry = load_merged_skills(Some(vec![project]), Some(vec![user_deploy, user_lint]), &builtins);
    assert_eq!(registry.len(), 3);
    let workflows = registry.get("workflows").unwrap();
    assert_eq!(workflows.source, SkillSource::BuiltIn);
    assert_eq!(workflows.description, "Built-in workflows");
    let lint = registry.get("lint").unwrap();
    assert_eq!(lint.source, SkillSource::User);
    assert_eq!(lint.description, "User lint");
    let deploy = registry.get("deploy").unwrap();
    assert_eq!(deploy.source, SkillSource::Project);
    assert_eq!(deploy.description, "Project deploy");
}

#[test]
fn merged_skills_without_dirs_keep_builtins() {
    let builtins: Vec<(String, String)> =
        vec![("workflows".into(), "---\ndescription: Built-in workflows\n---\nFollow the workflow.".into())];
    let registry = load_merged_skills(None, None, &builtins);
    assert_eq!(registry.len(), 1);
    assert_eq!(registry.get("workflows").unwrap().source, SkillSource::BuiltIn);
}
