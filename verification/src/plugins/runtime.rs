//! The plugin runtime: where plugins are looked for, and how the
//! components of the plugins loaded add up to what the engine is given.
//!
//! Discovering plugins and reading their components is left to the caller,
//! which hands each loaded plugin's components to [`PluginLoadResult`].
use vstd::prelude::*;

use super::builtin::BuiltinComponents;
use super::components::PluginComponents;
use super::loader::{LoadedPlugin, PluginRegistry};
use super::manifest::McpServerDef;
use crate::agent_defs::{dup_strings, AgentDefinition};
use crate::frontmatter::strings_of;
use crate::hooks::config::{groups_of_key, HookConfig};
use crate::skills::definition::same_skill;
use crate::skills::loader::{register_all, register_each, SkillRegistry};
use crate::skills::SkillDefinition;
use crate::text::{decimal, decimal_string, push_str};

verus! {

/// An MCP server declared by a plugin, ready for connection.
#[derive(Debug, Clone)]
pub struct PluginMcpServer {
    pub name: String,
    pub command: String,
    pub args: Vec<String>,
    pub env: Vec<(String, String)>,
    /// The declaring plugin's `name@marketplace`.
    pub plugin_id: String,
}

/// The view of a list of `(name, value)` text pairs.
pub open spec fn pairs_view(v: Seq<(String, String)>) -> Seq<(Seq<char>, Seq<char>)> {
    v.map_values(|e: (String, String)| (e.0@, e.1@))
}

/// `s` is the server `(name, def)` declared by `plugin`.
pub open spec fn is_server_of(s: PluginMcpServer, plugin: LoadedPlugin, entry: (String, McpServerDef)) -> bool {
    &&& s.name@ == entry.0@
    &&& s.command@ == entry.1.command@
    &&& strings_of(s.args@) == strings_of(entry.1.args@)
    &&& pairs_view(s.env@) == pairs_view(entry.1.env@)
    &&& s.plugin_id@ == plugin.id.name@ + "@"@ + plugin.id.marketplace@
}

/// The MCP servers a plugin's manifest declares.
pub open spec fn declared_servers(plugin: LoadedPlugin) -> Seq<(String, McpServerDef)> {
    match plugin.manifest.mcp_servers {
        Some(v) => v@,
        None => seq![],
    }
}

fn dup_pairs(v: &Vec<(String, String)>) -> (r: Vec<(String, String)>)
    ensures
        pairs_view(r@) == pairs_view(v@),
{
    let mut out: Vec<(String, String)> = Vec::new();
    let mut i: usize = 0;
    while i < v.len()
        invariant
            i <= v@.len(),
            pairs_view(out@) == pairs_view(v@.take(i as int)),
        decreases v.len() - i,
    {
        let ghost before = out@;
        out.push((v[i].0.clone(), v[i].1.clone()));
        assert(pairs_view(out@) =~= pairs_view(before).push((v@[i as int].0@, v@[i as int].1@)));
        assert(pairs_view(v@.take(i + 1)) =~= pairs_view(v@.take(i as int)).push((v@[i as int].0@, v@[i as int].1@)));
        i = i + 1;
    }
    assert(v@.take(v@.len() as int) =~= v@);
    out
}

/// The MCP servers of a plugin, in the order its manifest lists them.
pub fn servers_of(plugin: &LoadedPlugin) -> (r: Vec<PluginMcpServer>)
    ensures
        r@.len() == declared_servers(*plugin).len(),
        forall|i: int| 0 <= i < r@.len() ==> is_server_of(#[trigger] r@[i], *plugin, declared_servers(*plugin)[i]),
{
    let mut out: Vec<PluginMcpServer> = Vec::new();
    match &plugin.manifest.mcp_servers {
        None => {},
        Some(servers) => {
            let id = plugin.id.to_string();
            let mut i: usize = 0;
            while i < servers.len()
                invariant
                    i <= servers@.len(),
                    Some(*servers) == plugin.manifest.mcp_servers,
                    id@ == plugin.id.name@ + "@"@ + plugin.id.marketplace@,
                    out@.len() == i,
                    forall|k: int| 0 <= k < i ==> is_server_of(#[trigger] out@[k], *plugin, servers@[k]),
                decreases servers.len() - i,
            {
                let (name, def) = &servers[i];
                out.push(
                    PluginMcpServer {
                        name: name.clone(),
                        command: def.command.clone(),
                        args: dup_strings(&def.args),
                        env: dup_pairs(&def.env),
                        plugin_id: id.clone(),
                    },
                );
                i = i + 1;
            }
        },
    }
    out
}

/// What the loaded plugins give the engine.
pub struct PluginLoadResult {
    pub agents: Vec<AgentDefinition>,
    pub skills: Vec<SkillDefinition>,
    pub hooks: HookConfig,
    pub mcp_servers: Vec<PluginMcpServer>,
}

/// The groups of an optional hook configuration under `key`.
pub open spec fn opt_groups(h: Option<HookConfig>, key: Seq<char>) -> Seq<crate::hooks::HookGroup> {
    match h {
        Some(c) => groups_of_key(c.events@, key),
        None => seq![],
    }
}

/// `a` ends with skills of the contents of `tail`, after `a[..n]`.
pub open spec fn ends_with_skills(a: Seq<SkillDefinition>, n: int, tail: Seq<SkillDefinition>) -> bool {
    &&& a.len() == n + tail.len()
    &&& forall|k: int| 0 <= k < tail.len() ==> same_skill(#[trigger] a[n + k], tail[k])
}

fn dup_skills(v: &Vec<SkillDefinition>) -> (r: Vec<SkillDefinition>)
    ensures
        ends_with_skills(r@, 0, v@),
{
    let mut out: Vec<SkillDefinition> = Vec::new();
    let mut i: usize = 0;
    while i < v.len()
        invariant
            i <= v@.len(),
            out@.len() == i,
            forall|k: int| 0 <= k < i ==> same_skill(#[trigger] out@[0 + k], v@[k]),
        decreases v.len() - i,
    {
        out.push(v[i].duplicate());
        i = i + 1;
    }
    out
}

impl PluginLoadResult {
    /// Nothing loaded yet.
    pub fn new() -> (r: Self)
        ensures
            r.agents@.len() == 0,
            r.skills@.len() == 0,
            r.hooks.events@.len() == 0,
            r.mcp_servers@.len() == 0,
    {
        PluginLoadResult {
            agents: Vec::new(),
            skills: Vec::new(),
            hooks: HookConfig { events: Vec::new() },
            mcp_servers: Vec::new(),
        }
    }

    /// Add a built-in plugin's components: its agents and skills after
    /// those already here, its hooks after the hooks already here.
    pub fn add_builtin(&mut self, components: BuiltinComponents)
        ensures
            final(self).agents@ == old(self).agents@ + components.agents@,
            final(self).skills@ == old(self).skills@ + components.skills@,
            forall|key: Seq<char>| #![trigger groups_of_key(final(self).hooks.events@, key)]
                groups_of_key(final(self).hooks.events@, key) == groups_of_key(old(self).hooks.events@, key)
                    + opt_groups(components.hooks, key),
            final(self).mcp_servers == old(self).mcp_servers,
    {
        let BuiltinComponents { skills, hooks, agents } = components;
        let mut agents = agents;
        let mut skills = skills;
        self.agents.append(&mut agents);
        self.skills.append(&mut skills);
        match hooks {
            Some(h) => self.hooks.merge(h),
            None => {},
        }
    }

    /// Add an enabled plugin's components: its agents after those already
    /// here; its skills registered into `skill_registry` and listed after
    /// those already here; its hooks after the hooks already here; and the
    /// MCP servers its manifest declares.
    pub fn add_plugin(&mut self, plugin: &LoadedPlugin, components: PluginComponents, skill_registry: &mut SkillRegistry)
        requires
            old(skill_registry).wf(),
        ensures
            final(skill_registry).wf(),
            final(skill_registry)@ == register_all(old(skill_registry)@, components.skills@, components.skills@.len() as int),
            final(self).agents@ == old(self).agents@ + components.agents@,
            ends_with_skills(final(self).skills@, old(self).skills@.len() as int, components.skills@),
            final(self).skills@.take(old(self).skills@.len() as int) == old(self).skills@,
            forall|key: Seq<char>| #![trigger groups_of_key(final(self).hooks.events@, key)]
                groups_of_key(final(self).hooks.events@, key) == groups_of_key(old(self).hooks.events@, key)
                    + opt_groups(components.hooks, key),
            final(self).mcp_servers@.len() == old(self).mcp_servers@.len() + declared_servers(*plugin).len(),
            final(self).mcp_servers@.take(old(self).mcp_servers@.len() as int) == old(self).mcp_servers@,
            forall|i: int| 0 <= i < declared_servers(*plugin).len() ==> is_server_of(
                #[trigger] final(self).mcp_servers@[old(self).mcp_servers@.len() + i],
                *plugin,
                declared_servers(*plugin)[i],
            ),
    {
        let PluginComponents { agents, skills, hooks, mcp_server_names: _, errors: _ } = components;
        let mut agents = agents;
        self.agents.append(&mut agents);
        let mut copies = dup_skills(&skills);
        let ghost before = self.skills@;
        let ghost added = copies@;
        self.skills.append(&mut copies);
        assert(self.skills@.take(before.len() as int) =~= before);
        assert forall|k: int| 0 <= k < skills@.len() implies same_skill(
            #[trigger] self.skills@[before.len() + k],
            skills@[k],
        ) by {
            assert(self.skills@[before.len() + k] == added[0 + k]);
        }
        register_each(skill_registry, skills);
        match hooks {
            Some(h) => self.hooks.merge(h),
            None => {},
        }
        let mut servers = servers_of(plugin);
        let ghost before_servers = self.mcp_servers@;
        self.mcp_servers.append(&mut servers);
        assert(self.mcp_servers@.take(before_servers.len() as int) =~= before_servers);
    }
}

/// The message announcing a reload.
pub open spec fn spec_reload_message(plugins: nat, skills: nat, agents: nat) -> Seq<char> {
    "plugins reloaded: "@ + decimal(plugins) + " plugin(s), "@ + decimal(skills) + " skill(s), "@ + decimal(agents)
        + " agent(s)"@
}

/// The message announcing a reload of `plugins` plugins with `skills`
/// skills and `agents` agents.
pub fn reload_message(plugins: usize, skills: usize, agents: usize) -> (r: String)
    ensures
        r@ == spec_reload_message(plugins as nat, skills as nat, agents as nat),
{
    let mut m = "plugins reloaded: ".to_string();
    let p = decimal_string(plugins);
    push_str(&mut m, p.as_str());
    push_str(&mut m, " plugin(s), ");
    let s = decimal_string(skills);
    push_str(&mut m, s.as_str());
    push_str(&mut m, " skill(s), ");
    let a = decimal_string(agents);
    push_str(&mut m, a.as_str());
    push_str(&mut m, " agent(s)");
    m
}

/// Where plugins are looked for, and the registry of those loaded.
pub struct PluginRuntime {
    /// The plugins root, holding the versioned cache.
    pub plugins_root: String,
    /// The project settings file that enables and disables plugins.
    pub settings_path: Option<String>,
    /// Directories loaded as inline plugins.
    pub plugin_dirs: Vec<String>,
    pub registry: PluginRegistry,
}

impl PluginRuntime {
    pub fn new(plugins_root: String) -> (r: Self)
        ensures
            r.plugins_root == plugins_root,
            r.settings_path is None,
            r.plugin_dirs@.len() == 0,
            r.registry.plugins@.len() == 0,
            r.registry.wf(),
    {
        PluginRuntime { plugins_root, settings_path: None, plugin_dirs: Vec::new(), registry: PluginRegistry::new() }
    }

    /// Take enable/disable settings from `path`.
    pub fn with_settings(self, path: String) -> (r: Self)
        ensures
            r.settings_path == Some(path),
            r.plugins_root == self.plugins_root,
            r.plugin_dirs == self.plugin_dirs,
            r.registry == self.registry,
    {
        PluginRuntime { settings_path: Some(path), ..self }
    }

    /// Also load `dir` as an inline plugin.
    pub fn with_plugin_dir(self, dir: String) -> (r: Self)
        ensures
            r.plugin_dirs@ == self.plugin_dirs@.push(dir),
            r.settings_path == self.settings_path,
            r.plugins_root == self.plugins_root,
            r.registry == self.registry,
    {
        let mut s = self;
        s.plugin_dirs.push(dir);
        s
    }
}

} // verus!
