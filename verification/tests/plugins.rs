use arawn_engine::hooks::{CommandHookDef, HookConfig, HookGroup, HookMatcher};
use arawn_engine::plugins::components::{merge_plugin_hooks, plugin_components, register_plugin_skills, FoundDir, FoundHooks};
use arawn_engine::plugins::installer::{cache_path, clone_plan, install_version, ClonePlan, InstallRecord, InstallScope, InstalledPluginsRegistry};
use arawn_engine::plugins::loader::{resolve_component, strip_leading_dot_slash, PluginIdentifier};
use arawn_engine::plugins::marketplace::{
    fetch_plan, git_clone_args, resolve_plugin, FetchPlan, GithubSourceTag, KnownMarketplaces, MarketplaceEntry,
    MarketplaceManifest, MarketplacePlugin, MarketplaceSource, PluginSourceRef,
};
use arawn_engine::skills::{SkillDefinition, SkillRegistry, SkillSource};

fn record(scope: InstallScope, path: &str, version: &str, project: Option<&str>) -> InstallRecord {
    InstallRecord {
        scope,
        install_path: path.into(),
        version: version.into(),
        installed_at: "".into(),
        project_path: project.map(|p| p.into()),
    }
}

#[test]
fn registry_replace_same_scope() {
    let mut registry = InstalledPluginsRegistry::new();
    registry.add("test@market", record(InstallScope::User, "/v1", "1.0", None));
    registry.add("test@market", record(InstallScope::User, "/v2", "2.0", None));
    let records = registry.get("test@market").unwrap();
    assert_eq!(records.len(), 1);
    assert_eq!(records[0].version, "2.0");
}

#[test]
fn registry_multiple_scopes() {
    let mut registry = InstalledPluginsRegistry::new();
    registry.add("test@market", record(InstallScope::User, "/user", "1.0", None));
    registry.add("test@market", record(InstallScope::Project, "/project", "1.0", Some("/my/project")));
    let records = registry.get("test@market").unwrap();
    assert_eq!(records.len(), 2);
}

#[test]
fn registry_remove_one_scope() {
    let mut registry = InstalledPluginsRegistry::new();
    registry.add("test@market", record(InstallScope::User, "/user", "1.0", None));
    registry.add("test@market", record(InstallScope::Project, "/project", "1.0", None));
    let fully_removed = registry.remove("test@market", &InstallScope::User);
    assert!(!fully_removed);
    assert_eq!(registry.get("test@market").unwrap().len(), 1);
}

#[test]
fn registry_remove_last_scope() {
    let mut registry = InstalledPluginsRegistry::new();
    registry.add("test@market", record(InstallScope::User, "/user", "1.0", None));
    let fully_removed = registry.remove("test@market", &InstallScope::User);
    assert!(fully_removed);
    assert!(registry.get("test@market").is_none());
}

#[test]
fn registry_load_missing() {
    let registry = InstalledPluginsRegistry::new();
    assert_eq!(registry.version, 2);
    assert!(registry.plugins.is_empty());
}

#[test]
fn remove_unknown_plugin_is_false() {
    let mut registry = InstalledPluginsRegistry::new();
    assert!(!registry.remove("nope@x", &InstallScope::User));
}

#[test]
fn identifier_parse_display() {
    let id = PluginIdentifier::parse("metis@colliery-io-metis").unwrap();
    assert_eq!(id.name, "metis");
    assert_eq!(id.marketplace, "colliery-io-metis");
    assert_eq!(id.to_string(), "metis@colliery-io-metis");
}

#[test]
fn identifier_parse_invalid() {
    assert!(PluginIdentifier::parse("no-at-sign").is_none());
    assert!(PluginIdentifier::parse("@marketplace").is_none());
    assert!(PluginIdentifier::parse("name@").is_none());
}

#[test]
fn identifier_splits_at_first_at_sign() {
    let id = PluginIdentifier::parse("a@b@c").unwrap();
    assert_eq!(id.name, "a");
    assert_eq!(id.marketplace, "b@c");
    assert_eq!(PluginIdentifier::inline("x").to_string(), "x@inline");
}

#[test]
fn marketplace_source_git_url() {
    let gh = MarketplaceSource::GitHub { repo: "org/repo".into(), git_ref: None };
    assert_eq!(gh.git_url(), Some("https://github.com/org/repo.git".to_string()));
    let git = MarketplaceSource::Git { url: "https://example.com/repo.git".into(), git_ref: Some("v1.0".into()) };
    assert_eq!(git.git_url(), Some("https://example.com/repo.git".to_string()));
    assert_eq!(git.git_ref(), Some("v1.0"));
    let dir = MarketplaceSource::Directory { path: "/local".into() };
    assert!(dir.git_url().is_none());
}

fn manifest() -> MarketplaceManifest {
    MarketplaceManifest {
        name: "test-market".into(),
        plugins: vec![
            MarketplacePlugin { name: "plugin-a".into(), version: Some("1.0.0".into()), description: Some("Plugin A".into()), source: None },
            MarketplacePlugin {
                name: "plugin-b".into(),
                version: Some("2.0.0".into()),
                description: Some("Plugin B".into()),
                source: Some(PluginSourceRef::GitHub {
                    source_type: GithubSourceTag::Github,
                    repo: "org/plugin-b".into(),
                    git_ref: None,
                    path: Some("sub".into()),
                }),
            },
        ],
        metadata: None,
    }
}

#[test]
fn resolve_plugin_found() {
    let m = manifest();
    let p = resolve_plugin(&m, "plugin-b").unwrap();
    assert_eq!(p.version.as_deref(), Some("2.0.0"));
}

#[test]
fn resolve_plugin_not_found() {
    let m = manifest();
    assert!(resolve_plugin(&m, "nope").is_none());
}

#[test]
fn known_marketplaces_roundtrip() {
    let mut known = KnownMarketplaces::default();
    known.add(
        "test".into(),
        MarketplaceEntry { source: MarketplaceSource::Directory { path: "/tmp/m".into() }, install_location: None, last_updated: None },
    );
    assert!(known.get("test").is_some());
    assert!(known.get("other").is_none());
    assert_eq!(known.names(), vec!["test".to_string()]);
}

#[test]
fn fetch_plans() {
    let dir = MarketplaceSource::Directory { path: "/local".into() };
    match fetch_plan(&dir, "m", "/root/marketplaces", false) {
        FetchPlan::ReadDirectory { dir } => assert_eq!(dir, "/local"),
        _ => panic!("expected a directory read"),
    }
    let gh = MarketplaceSource::GitHub { repo: "o/r".into(), git_ref: Some("main".into()) };
    match fetch_plan(&gh, "m", "/root/marketplaces", false) {
        FetchPlan::Clone { url, dir, git_ref } => {
            assert_eq!(url, "https://github.com/o/r.git");
            assert_eq!(dir, "/root/marketplaces/m");
            assert_eq!(git_ref.as_deref(), Some("main"));
        },
        _ => panic!("expected a clone"),
    }
    match fetch_plan(&gh, "m", "/root/marketplaces/", true) {
        FetchPlan::Pull { dir, .. } => assert_eq!(dir, "/root/marketplaces/m"),
        _ => panic!("expected a pull"),
    }
    assert_eq!(git_clone_args("u", "t", Some("v1")), vec!["clone", "--depth", "1", "--branch", "v1", "u", "t"]);
    assert_eq!(git_clone_args("u", "t", None), vec!["clone", "--depth", "1", "u", "t"]);
}

#[test]
fn clone_plans() {
    let m = manifest();
    let market = MarketplaceSource::Git { url: "https://x/m.git".into(), git_ref: Some("dev".into()) };
    match clone_plan(&m.plugins[1], &market, None).unwrap() {
        ClonePlan::GitClone { url, git_ref, subdir } => {
            assert_eq!(url, "https://github.com/org/plugin-b.git");
            assert!(git_ref.is_none());
            assert_eq!(subdir.as_deref(), Some("sub"));
        },
        _ => panic!("expected a clone"),
    }
    match clone_plan(&m.plugins[0], &market, None).unwrap() {
        ClonePlan::GitClone { url, git_ref, .. } => {
            assert_eq!(url, "https://x/m.git");
            assert_eq!(git_ref.as_deref(), Some("dev"));
        },
        _ => panic!("expected a clone"),
    }
    let rel = MarketplacePlugin { name: "r".into(), version: None, description: None, source: Some(PluginSourceRef::RelativePath("./plugins/r".into())) };
    assert_eq!(
        clone_plan(&rel, &market, None).unwrap_err(),
        "plugin source is a relative path but no marketplace directory available"
    );
    match clone_plan(&rel, &market, Some("/mk")).unwrap() {
        ClonePlan::CopyFromMarketplace { source_dir } => assert_eq!(source_dir, "/mk/plugins/r"),
        _ => panic!("expected a copy"),
    }
    let dir_market = MarketplaceSource::Directory { path: "/d".into() };
    assert_eq!(clone_plan(&m.plugins[0], &dir_market, None).unwrap_err(), "no git URL available for plugin source");
    assert_eq!(install_version(&rel), "latest");
    assert_eq!(
        cache_path("/plugins", &PluginIdentifier::new("metis", "market"), "2.0.4"),
        "/plugins/cache/market/metis/2.0.4"
    );
}

#[test]
fn component_paths_resolve() {
    assert_eq!(strip_leading_dot_slash("./agents"), "agents");
    assert_eq!(resolve_component("/p", &Some("./custom".into()), "agents", false), Some("/p/custom".to_string()));
    assert_eq!(resolve_component("/p", &None, "agents", true), Some("/p/agents".to_string()));
    assert_eq!(resolve_component("/p", &None, "agents", false), None);
}

#[test]
fn register_skills_into_registry() {
    let mut registry = SkillRegistry::new();
    let skills = vec![SkillDefinition {
        name: "test-plugin:deploy".into(),
        description: "Deploy".into(),
        prompt: "Do it".into(),
        argument_hint: None,
        allowed_tools: None,
        model: None,
        user_invocable: true,
        source: SkillSource::Plugin("test-plugin".into()),
    }];
    register_plugin_skills(&mut registry, skills);
    assert!(registry.get("test-plugin:deploy").is_some());
}

#[test]
fn merge_hooks_into_config() {
    let mut target = HookConfig::default();
    let plugin_hooks = HookConfig {
        events: vec![(
            "PreToolUse".into(),
            vec![HookGroup {
                matcher: Some(HookMatcher::new("Bash")),
                hooks: vec![CommandHookDef { hook_type: "command".into(), command: "exit 0".into(), timeout: None }],
            }],
        )],
    };
    merge_plugin_hooks(&mut target, plugin_hooks);
    assert!(!target.is_empty());
}

#[test]
fn components_are_namespaced_and_errors_collected() {
    let skill = SkillDefinition {
        name: "deploy".into(),
        description: "Deploy the app".into(),
        prompt: "go".into(),
        argument_hint: None,
        allowed_tools: None,
        model: None,
        user_invocable: true,
        source: SkillSource::Plugin("my-plugin".into()),
    };
    let c = plugin_components(
        "my-plugin",
        Some(FoundDir { path: "/p/agents".into(), found: None }),
        Some(FoundDir { path: "/p/skills".into(), found: Some(vec![skill]) }),
        FoundHooks::Missing { path: "/p/hooks.json".into() },
        vec!["srv".into()],
    );
    assert_eq!(c.skills[0].name, "my-plugin:deploy");
    assert!(c.agents.is_empty());
    assert_eq!(c.errors, vec!["agents directory does not exist: /p/agents".to_string(), "hooks file does not exist: /p/hooks.json".to_string()]);
    assert!(c.hooks.is_none());
    assert_eq!(c.mcp_server_names, vec!["srv".to_string()]);
}

#[test]
fn empty_plugin_loads_nothing() {
    let c = plugin_components("p", None, None, FoundHooks::NotDeclared, vec![]);
    assert!(c.agents.is_empty() && c.skills.is_empty() && c.hooks.is_none() && c.errors.is_empty());
}
