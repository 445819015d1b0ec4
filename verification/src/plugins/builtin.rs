//! Built-in plugins: plugins defined in code, registered alongside those
//! found on disk and enabled or disabled like them.
use vstd::prelude::*;

use super::loader::{LoadedPlugin, PluginIdentifier, PluginRegistry, PluginSource, ResolvedPaths};
use super::manifest::PluginManifest;
use crate::agent_defs::AgentDefinition;
use crate::hooks::HookConfig;
use crate::keyed::key_value;
use crate::skills::SkillDefinition;

verus! {

/// The marketplace name of every built-in plugin.
pub const BUILTIN_MARKETPLACE: &'static str = "builtin";

/// A plugin defined in code rather than on disk.
pub struct BuiltinPluginDef {
    pub name: String,
    pub description: String,
    pub version: Option<String>,
    pub skills: Vec<SkillDefinition>,
    pub hooks: Option<HookConfig>,
    pub agents: Vec<AgentDefinition>,
}

/// The components of a built-in plugin, already in memory.
pub struct BuiltinComponents {
    pub skills: Vec<SkillDefinition>,
    pub hooks: Option<HookConfig>,
    pub agents: Vec<AgentDefinition>,
}

/// `p` is the built-in plugin `name`: its manifest holds only the name,
/// `version` and `description`; it has no directory, is enabled, and
/// resolves no component path.
pub open spec fn is_builtin_plugin(
    p: LoadedPlugin,
    name: Seq<char>,
    description: Seq<char>,
    version: Option<String>,
) -> bool {
    &&& p.id.name@ == name
    &&& p.id.marketplace@ == BUILTIN_MARKETPLACE@
    &&& p.manifest.name@ == name
    &&& p.manifest.version == version
    &&& p.manifest.description matches Some(d) && d@ == description
    &&& p.manifest.author is None
    &&& p.manifest.agents is None
    &&& p.manifest.skills is None
    &&& p.manifest.commands is None
    &&& p.manifest.tools is None
    &&& p.manifest.hooks is None
    &&& p.manifest.mcp_servers is None
    &&& p.manifest.settings is None
    &&& p.manifest.user_config is None
    &&& p.plugin_dir@.len() == 0
    &&& p.source == PluginSource::BuiltIn
    &&& p.enabled
    &&& p.resolved_paths.agents is None
    &&& p.resolved_paths.skills is None
    &&& p.resolved_paths.commands is None
    &&& p.resolved_paths.tools is None
    &&& p.resolved_paths.hooks_file is None
}

impl BuiltinPluginDef {
    /// The definition as a plugin of the `builtin` marketplace.
    pub fn into_loaded_plugin(self) -> (r: LoadedPlugin)
        ensures
            is_builtin_plugin(r, self.name@, self.description@, self.version),
    {
        let id = PluginIdentifier::new(self.name.as_str(), BUILTIN_MARKETPLACE);
        LoadedPlugin {
            id,
            manifest: PluginManifest {
                name: self.name,
                version: self.version,
                description: Some(self.description),
                author: None,
                agents: None,
                skills: None,
                commands: None,
                tools: None,
                hooks: None,
                mcp_servers: None,
                settings: None,
                user_config: None,
            },
            plugin_dir: String::new(),
            source: PluginSource::BuiltIn,
            enabled: true,
            resolved_paths: ResolvedPaths {
                agents: None,
                skills: None,
                commands: None,
                tools: None,
                hooks_file: None,
            },
        }
    }
}

/// The `core` plugin: version `0.1.0`, no components.
pub open spec fn is_core_plugin(p: LoadedPlugin) -> bool {
    exists|v: String|
        v@ == "0.1.0"@ && #[trigger] is_builtin_plugin(p, "core"@, "Built-in core functionality"@, Some(v))
}

/// Components that hold nothing.
pub open spec fn no_components(c: BuiltinComponents) -> bool {
    c.skills@.len() == 0 && c.hooks is None && c.agents@.len() == 0
}

fn core_plugin() -> (r: (LoadedPlugin, BuiltinComponents))
    ensures
        is_core_plugin(r.0),
        no_components(r.1),
{
    let version = "0.1.0".to_string();
    let def = BuiltinPluginDef {
        name: "core".to_string(),
        description: "Built-in core functionality".to_string(),
        version: Some(version),
        skills: Vec::new(),
        hooks: None,
        agents: Vec::new(),
    };
    let components = BuiltinComponents { skills: Vec::new(), hooks: None, agents: Vec::new() };
    let ghost v = def.version->0;
    let plugin = def.into_loaded_plugin();
    assert(is_builtin_plugin(plugin, "core"@, "Built-in core functionality"@, Some(v)));
    (plugin, components)
}

/// All built-in plugins, with their components: the `core` plugin.
pub fn builtin_plugins() -> (r: Vec<(LoadedPlugin, BuiltinComponents)>)
    ensures
        r@.len() == 1,
        is_core_plugin(r@[0].0),
        no_components(r@[0].1),
{
    let mut r = Vec::new();
    r.push(core_plugin());
    r
}

/// Register the built-in plugins, each under `name@builtin`, and hand back
/// their components. Plugins registered later under the same key replace
/// them.
pub fn register_builtin_plugins(registry: &mut PluginRegistry) -> (r: Vec<BuiltinComponents>)
    requires
        old(registry).wf(),
    ensures
        final(registry).wf(),
        r@.len() == 1,
        no_components(r@[0]),
        key_value(final(registry).plugins@, "core@builtin"@) matches Some(p) && is_core_plugin(p),
        forall|k: Seq<char>| #![trigger key_value(final(registry).plugins@, k)]
            k != "core@builtin"@ ==> key_value(final(registry).plugins@, k) == key_value(old(registry).plugins@, k),
{
    let mut plugins = builtin_plugins();
    let mut all = Vec::new();
    proof {
        reveal_strlit("core@builtin");
        reveal_strlit("core");
        reveal_strlit("builtin");
        reveal_strlit("@");
    }
    let (plugin, components) = plugins.pop().unwrap();
    let ghost p = plugin;
    assert(p.id.name@ + "@"@ + p.id.marketplace@ == "core@builtin"@);
    registry.register(plugin);
    all.push(components);
    all
}

} // verus!
