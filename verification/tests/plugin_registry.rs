use arawn_engine::hooks::file_watch::ChangeKind;
use arawn_engine::paths::{extension, file_name};
use arawn_engine::plugins::tool_watch::is_plugin_event;
use arawn_engine::plugins::loader::{resolve_paths, FoundLocations};
use arawn_engine::plugins::builtin::{builtin_plugins, register_builtin_plugins, BuiltinPluginDef};
use arawn_engine::plugins::loader::{
    latest_version, plugin_from_manifest, LoadedPlugin, PluginIdentifier, PluginRegistry, PluginSource, ResolvedPaths,
};
use arawn_engine::plugins::manifest::{ConfigValue, HooksField, PluginError, PluginManifest, UserConfigField};
use arawn_engine::plugins::settings::{
    apply_enable_disable, config_to_env_vars, replace_str, resolve_user_config, substitute_user_config,
    validate_user_config, PluginSettings,
};

fn make_plugin(name: &str, marketplace: &str) -> LoadedPlugin {
    LoadedPlugin {
        id: PluginIdentifier::new(name, marketplace),
        manifest: PluginManifest { name: name.into(), ..Default::default() },
        plugin_dir: "/tmp".into(),
        source: PluginSource::Cache,
        enabled: true,
        resolved_paths: ResolvedPaths::default(),
    }
}

fn field(field_type: &str, title: Option<&str>, required: bool, default: Option<ConfigValue>) -> UserConfigField {
    UserConfigField {
        field_type: field_type.into(),
        title: title.map(|t| t.into()),
        description: None,
        required,
        default,
    }
}

fn lookup<'a>(entries: &'a [(String, ConfigValue)], key: &str) -> Option<&'a ConfigValue> {
    entries.iter().find(|(k, _)| k == key).map(|(_, v)| v)
}

fn env_lookup<'a>(entries: &'a [(String, String)], key: &str) -> Option<&'a String> {
    entries.iter().find(|(k, _)| k == key).map(|(_, v)| v)
}

// Built-in plugins

#[test]
fn builtin_plugin_converts_to_loaded() {
    let def = BuiltinPluginDef {
        name: "test-builtin".into(),
        description: "A test plugin".into(),
        version: Some("1.0.0".into()),
        skills: vec![],
        hooks: None,
        agents: vec![],
    };
    let loaded = def.into_loaded_plugin();
    assert_eq!(loaded.name(), "test-builtin");
    assert_eq!(loaded.source, PluginSource::BuiltIn);
    assert!(loaded.enabled);
    assert_eq!(loaded.manifest.description.as_deref(), Some("A test plugin"));
    assert_eq!(loaded.id.to_string(), "test-builtin@builtin");
    assert_eq!(loaded.plugin_dir, "");
}

#[test]
fn builtin_plugins_exist() {
    let plugins = builtin_plugins();
    assert!(!plugins.is_empty());
    let (core, components) = &plugins[0];
    assert_eq!(core.name(), "core");
    assert_eq!(core.source, PluginSource::BuiltIn);
    assert_eq!(core.manifest.version.as_deref(), Some("0.1.0"));
    assert!(components.skills.is_empty() && components.hooks.is_none() && components.agents.is_empty());
}

#[test]
fn register_into_registry() {
    let mut registry = PluginRegistry::new();
    let components = register_builtin_plugins(&mut registry);
    assert!(!registry.is_empty());
    assert!(registry.get("core@builtin").is_some());
    assert!(registry.get("core").is_some());
    assert_eq!(components.len(), 1);
}

#[test]
fn disk_plugin_overrides_builtin() {
    let mut registry = PluginRegistry::new();
    register_builtin_plugins(&mut registry);
    let mut disk_plugin = make_plugin("core", "custom-market");
    disk_plugin.manifest.description = Some("Custom core".into());
    disk_plugin.plugin_dir = "/tmp/custom-core".into();
    registry.register(disk_plugin);

    let builtin = registry.get("core@builtin").unwrap();
    assert_eq!(builtin.source, PluginSource::BuiltIn);
    let custom = registry.get("core@custom-market").unwrap();
    assert_eq!(custom.source, PluginSource::Cache);
    // Two plugins are named `core`: the name alone no longer finds one.
    assert!(registry.get("core").is_none());
}

#[test]
fn disable_builtin_via_settings() {
    let mut registry = PluginRegistry::new();
    register_builtin_plugins(&mut registry);
    assert!(registry.get("core@builtin").unwrap().enabled);
    registry.set_enabled("core@builtin", false);
    assert!(!registry.get("core@builtin").unwrap().enabled);
    assert_eq!(registry.enabled().len(), 0);
}

// The registry

#[test]
fn registry_keyed_by_id() {
    let mut registry = PluginRegistry::new();
    registry.register(make_plugin("test", "market"));
    assert!(registry.get("test@market").is_some());
    assert!(registry.get("test").is_some());
    assert!(registry.get("nonexistent").is_none());
}

#[test]
fn registry_enable_disable() {
    let mut registry = PluginRegistry::new();
    registry.register(make_plugin("test", "market"));
    assert_eq!(registry.enabled().len(), 1);
    registry.set_enabled("test@market", false);
    assert_eq!(registry.enabled().len(), 0);
    assert_eq!(registry.all().len(), 1);
}

#[test]
fn registry_register_replaces_same_key() {
    let mut registry = PluginRegistry::new();
    registry.register(make_plugin("test", "market"));
    let mut second = make_plugin("test", "market");
    second.plugin_dir = "/other".into();
    registry.register(second);
    assert_eq!(registry.len(), 1);
    assert_eq!(registry.get("test@market").unwrap().plugin_dir, "/other");
}

#[test]
fn latest_version_is_greatest_string() {
    let versions: Vec<String> = vec!["1.0.0".into(), "2.0.0".into(), "1.5.0".into()];
    assert_eq!(latest_version(&versions), Some(1));
    assert_eq!(latest_version(&vec![]), None);
    let equal: Vec<String> = vec!["1.0".into(), "1.0".into()];
    assert_eq!(latest_version(&equal), Some(0));
}

#[test]
fn plugin_from_manifest_names_and_rejects() {
    let ok = plugin_from_manifest(
        PluginManifest { name: "my-local-plugin".into(), agents: Some("./agents".into()), ..Default::default() },
        "/dir",
        "dirname",
        "inline",
        PluginSource::Inline,
        ResolvedPaths::default(),
    )
    .ok()
    .unwrap();
    assert_eq!(ok.id.to_string(), "my-local-plugin@inline");
    assert_eq!(ok.source, PluginSource::Inline);
    let bad = plugin_from_manifest(
        PluginManifest { name: "x".into(), agents: Some("agents".into()), ..Default::default() },
        "/dir",
        "dirname",
        "inline",
        PluginSource::Inline,
        ResolvedPaths::default(),
    );
    assert!(bad.is_err());
}

// Manifest validation

#[test]
fn validate_missing_name() {
    let manifest = PluginManifest { name: String::new(), ..Default::default() };
    let errors = manifest.validate();
    assert!(errors.iter().any(|e| matches!(e, PluginError::MissingField(f) if f == "name")));
}

#[test]
fn validate_invalid_paths() {
    let manifest = PluginManifest {
        name: "test".into(),
        agents: Some("agents".into()),
        skills: Some("./skills".into()),
        ..Default::default()
    };
    let errors = manifest.validate();
    assert_eq!(errors.len(), 1);
    assert!(matches!(&errors[0], PluginError::InvalidPath { field, .. } if field == "agents"));
}

#[test]
fn validate_invalid_hooks_path() {
    let manifest = PluginManifest {
        name: "test".into(),
        hooks: Some(HooksField::Path("hooks.json".into())),
        ..Default::default()
    };
    let errors = manifest.validate();
    assert_eq!(errors.len(), 1);
    assert!(matches!(&errors[0], PluginError::InvalidPath { field, .. } if field == "hooks"));
}

#[test]
fn validate_valid_manifest() {
    let manifest = PluginManifest {
        name: "my-plugin".into(),
        agents: Some("./agents".into()),
        skills: Some("./skills".into()),
        hooks: Some(HooksField::Path("./hooks.json".into())),
        ..Default::default()
    };
    assert!(manifest.validate().is_empty());
}

// Settings

#[test]
fn default_all_enabled() {
    let mut plugins = vec![make_plugin("a", "market"), make_plugin("b", "market")];
    let settings = PluginSettings::default();
    apply_enable_disable(&mut plugins, &settings);
    assert!(plugins[0].enabled);
    assert!(plugins[1].enabled);
}

#[test]
fn disable_by_id() {
    let mut plugins = vec![make_plugin("a", "market"), make_plugin("b", "market"), make_plugin("c", "market")];
    let settings = PluginSettings { enabled_plugins: vec![("b@market".into(), false)], ..Default::default() };
    apply_enable_disable(&mut plugins, &settings);
    assert!(plugins[0].enabled);
    assert!(!plugins[1].enabled);
    assert!(plugins[2].enabled);
}

#[test]
fn disable_by_name_fallback() {
    let mut plugins = vec![make_plugin("a", "market")];
    let settings = PluginSettings { enabled_plugins: vec![("a".into(), false)], ..Default::default() };
    apply_enable_disable(&mut plugins, &settings);
    assert!(!plugins[0].enabled);
}

#[test]
fn id_setting_wins_over_name_setting() {
    let mut plugins = vec![make_plugin("a", "market")];
    plugins[0].enabled = false;
    let settings = PluginSettings {
        enabled_plugins: vec![("a".into(), false), ("a@market".into(), true)],
        ..Default::default()
    };
    apply_enable_disable(&mut plugins, &settings);
    assert!(plugins[0].enabled);
}

#[test]
fn validate_missing_required() {
    let declarations = vec![
        ("API_KEY".to_string(), field("string", Some("API Key"), true, None)),
        ("OPTIONAL".to_string(), field("string", None, false, None)),
    ];
    let values = vec![];
    let warnings = validate_user_config("test-plugin", &declarations, &values);
    assert_eq!(warnings.len(), 1);
    assert!(warnings[0].contains("API_KEY"));
    assert!(warnings[0].contains("test-plugin"));
    assert_eq!(warnings[0], "plugin 'test-plugin': missing required config field 'API_KEY' (API Key)");
}

#[test]
fn validate_missing_required_without_title_names_key() {
    let declarations = vec![("TOKEN".to_string(), field("string", None, true, None))];
    let warnings = validate_user_config("p", &declarations, &vec![]);
    assert_eq!(warnings, vec!["plugin 'p': missing required config field 'TOKEN' (TOKEN)".to_string()]);
}

#[test]
fn validate_all_present() {
    let declarations = vec![("API_KEY".to_string(), field("string", None, true, None))];
    let values = vec![("API_KEY".to_string(), ConfigValue::Text("abc123".into()))];
    let warnings = validate_user_config("test", &declarations, &values);
    assert!(warnings.is_empty());
}

#[test]
fn resolve_with_defaults() {
    let declarations = vec![
        ("PORT".to_string(), field("number", None, false, Some(ConfigValue::Json("8080".into())))),
        ("HOST".to_string(), field("string", None, false, None)),
    ];
    let resolved = resolve_user_config(&declarations, &vec![]);
    assert_eq!(lookup(&resolved, "PORT"), Some(&ConfigValue::Json("8080".into())));
    assert!(lookup(&resolved, "HOST").is_none());
}

#[test]
fn resolve_value_overrides_default() {
    let declarations =
        vec![("PORT".to_string(), field("number", None, false, Some(ConfigValue::Json("8080".into()))))];
    let values = vec![("PORT".to_string(), ConfigValue::Json("3000".into()))];
    let resolved = resolve_user_config(&declarations, &values);
    assert_eq!(lookup(&resolved, "PORT"), Some(&ConfigValue::Json("3000".into())));
}

#[test]
fn config_to_env() {
    let config = vec![
        ("API_KEY".to_string(), ConfigValue::Text("abc123".into())),
        ("PORT".to_string(), ConfigValue::Json("8080".into())),
    ];
    let env = config_to_env_vars(&config);
    assert_eq!(env_lookup(&env, "PLUGIN_API_KEY"), Some(&"abc123".to_string()));
    assert_eq!(env_lookup(&env, "PLUGIN_PORT"), Some(&"8080".to_string()));
}

#[test]
fn config_to_env_uppercases_keys() {
    let config = vec![("api_key".to_string(), ConfigValue::Text("x".into()))];
    let env = config_to_env_vars(&config);
    assert_eq!(env, vec![("PLUGIN_API_KEY".to_string(), "x".to_string())]);
}

#[test]
fn substitute_placeholders() {
    let config = vec![
        ("API_KEY".to_string(), ConfigValue::Text("secret123".into())),
        ("PORT".to_string(), ConfigValue::Json("8080".into())),
    ];
    let template = "curl -H 'Auth: ${user_config.API_KEY}' http://localhost:${user_config.PORT}";
    let result = substitute_user_config(template, &config);
    assert_eq!(result, "curl -H 'Auth: secret123' http://localhost:8080");
}

#[test]
fn substitute_no_match_left_alone() {
    let result = substitute_user_config("no ${user_config.MISSING} here", &vec![]);
    assert_eq!(result, "no ${user_config.MISSING} here");
}

#[test]
fn replace_matches_std_replace() {
    for (s, p, r) in [("aaaa", "aa", "b"), ("abcabc", "bc", ""), ("xyz", "xyzw", "q"), ("", "a", "b"), ("ééa", "é", "e")] {
        assert_eq!(replace_str(s, p, r), s.replace(p, r));
    }
}

#[test]
fn resolve_paths_declared_and_conventional() {
    let manifest = PluginManifest {
        name: "p".into(),
        agents: Some("./my-agents".into()),
        hooks: Some(HooksField::Path("./config/hooks.json".into())),
        ..Default::default()
    };
    let found = FoundLocations { agents_dir: false, skills_dir: true, commands_dir: false, tools_dir: false, hooks_json: true };
    let r = resolve_paths(&manifest, "/plugins/p", &found);
    assert_eq!(r.agents.as_deref(), Some("/plugins/p/my-agents"));
    assert_eq!(r.skills.as_deref(), Some("/plugins/p/skills"));
    assert_eq!(r.commands, None);
    assert_eq!(r.tools, None);
    assert_eq!(r.hooks_file.as_deref(), Some("/plugins/p/config/hooks.json"));
    let bare = PluginManifest { name: "p".into(), ..Default::default() };
    let r2 = resolve_paths(&bare, "/plugins/p", &found);
    assert_eq!(r2.hooks_file.as_deref(), Some("/plugins/p/hooks/hooks.json"));
}

#[test]
fn tool_archive_events() {
    let archive = vec!["/plugins/tools/weather.arawn_tool".to_string()];
    assert!(is_plugin_event(Some(ChangeKind::Created), &archive));
    assert!(!is_plugin_event(None, &archive));
    assert!(!is_plugin_event(Some(ChangeKind::Modified), &vec!["/plugins/tools/readme.md".to_string()]));
    assert!(!is_plugin_event(Some(ChangeKind::Removed), &vec!["/plugins/.arawn_tool".to_string()]));
    for p in ["/a/b.tar.gz", "/a/.hidden", "/a/b.", "a/..", "/", "x", "dir/file.rs/"] {
        let std_ext = std::path::Path::new(p).file_name().and_then(|n| std::path::Path::new(n).extension()).map(|e| e.to_string_lossy().to_string());
        let ours = file_name(p).and_then(|n| extension(&n));
        assert_eq!(ours, std_ext, "{p}");
        let std_name = std::path::Path::new(p).file_name().map(|n| n.to_string_lossy().to_string());
        assert_eq!(file_name(p), std_name, "{p}");
    }
}
