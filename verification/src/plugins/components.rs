//! A plugin's components (agents, skills, hooks, MCP servers): how what was
//! read from the plugin's directories becomes its contribution to the
//! engine's registries.
//!
//! Reading the directories is left to the caller, which hands in what it
//! found.
use vstd::prelude::*;

use crate::agent_defs::{AgentDefinition, AgentSource};
use crate::hooks::config::{groups_of_key, spec_config_empty, HookConfig};
use crate::skills::loader::{register_all, register_each, SkillRegistry};
use crate::skills::SkillDefinition;
use crate::text::push_str;

verus! {

/// What a plugin contributes.
#[derive(Debug)]
pub struct PluginComponents {
    /// Agent definitions, named `plugin:agent`.
    pub agents: Vec<AgentDefinition>,
    /// Skill definitions, named `plugin:skill`.
    pub skills: Vec<SkillDefinition>,
    /// Hook configuration, when the plugin has any hooks.
    pub hooks: Option<HookConfig>,
    /// Names of the MCP servers the plugin declares.
    pub mcp_server_names: Vec<String>,
    /// Problems met while loading; the other components still load.
    pub errors: Vec<String>,
}

/// A declared component directory and what was found there: `None` when
/// it does not exist.
pub struct FoundDir<T> {
    pub path: String,
    pub found: Option<Vec<T>>,
}

/// The plugin's hooks as found.
pub enum FoundHooks {
    /// The manifest declares no hooks.
    NotDeclared,
    /// The manifest points to a hooks file that was not resolved.
    Unresolved,
    /// The manifest points to a hooks file, which does not exist.
    Missing { path: String },
    /// The hooks file's configuration.
    FromFile { config: HookConfig },
    /// Hooks written in the manifest itself.
    Inline { config: HookConfig },
}

/// `plugin:name`.
pub open spec fn namespaced(plugin: Seq<char>, name: Seq<char>) -> Seq<char> {
    plugin + ":"@ + name
}

/// Agent `a` is the plugin's agent `b`: named `plugin:agent`, treated as a
/// user agent, the rest of the definition unchanged.
pub open spec fn namespaced_agent(plugin: Seq<char>, a: AgentDefinition, b: AgentDefinition) -> bool {
    &&& a.name@ == namespaced(plugin, b.name@)
    &&& a.source == AgentSource::User
    &&& a.when_to_use == b.when_to_use && a.system_prompt == b.system_prompt
    &&& a.tools == b.tools && a.disallowed_tools == b.disallowed_tools
    &&& a.model == b.model && a.max_turns == b.max_turns
}

/// Skill `a` is the plugin's skill `b`: named `plugin:skill`, the rest of
/// the definition (its source included) unchanged.
pub open spec fn namespaced_skill(plugin: Seq<char>, a: SkillDefinition, b: SkillDefinition) -> bool {
    &&& a.name@ == namespaced(plugin, b.name@)
    &&& a.description == b.description && a.prompt == b.prompt
    &&& a.argument_hint == b.argument_hint && a.allowed_tools == b.allowed_tools
    &&& a.model == b.model && a.user_invocable == b.user_invocable && a.source == b.source
}

fn namespace(plugin: &str, name: &str) -> (r: String)
    ensures
        r@ == namespaced(plugin@, name@),
{
    let mut r = plugin.to_string();
    push_str(&mut r, ":");
    push_str(&mut r, name);
    r
}

/// The agents of a plugin: named `plugin:agent`, and treated as user
/// agents; the rest of each definition unchanged.
pub fn namespace_agents(plugin_name: &str, agents: Vec<AgentDefinition>) -> (r: Vec<AgentDefinition>)
    ensures
        r@.len() == agents@.len(),
        forall|i: int| 0 <= i < r@.len() ==> namespaced_agent(plugin_name@, #[trigger] r@[i], agents@[i]),
{
    let mut out: Vec<AgentDefinition> = Vec::new();
    let mut rest = agents;
    let ghost s = rest@;
    let n = rest.len();
    let mut i: usize = 0;
    while i < n
        invariant
            n == s.len(),
            i <= n,
            rest@ == s.skip(i as int),
            out@.len() == i,
            forall|k: int| 0 <= k < i ==> namespaced_agent(plugin_name@, #[trigger] out@[k], s[k]),
        decreases n - i,
    {
        let mut a = rest.remove(0);
        assert(a == s[i as int]);
        assert(rest@ =~= s.skip(i + 1));
        a.name = namespace(plugin_name, a.name.as_str());
        a.source = AgentSource::User;
        out.push(a);
        i = i + 1;
    }
    out
}

/// The skills of a plugin: named `plugin:skill`; the rest unchanged.
pub fn namespace_skills(plugin_name: &str, skills: Vec<SkillDefinition>) -> (r: Vec<SkillDefinition>)
    ensures
        r@.len() == skills@.len(),
        forall|i: int| 0 <= i < r@.len() ==> namespaced_skill(plugin_name@, #[trigger] r@[i], skills@[i]),
{
    let mut out: Vec<SkillDefinition> = Vec::new();
    let mut rest = skills;
    let ghost s = rest@;
    let n = rest.len();
    let mut i: usize = 0;
    while i < n
        invariant
            n == s.len(),
            i <= n,
            rest@ == s.skip(i as int),
            out@.len() == i,
            forall|k: int| 0 <= k < i ==> namespaced_skill(plugin_name@, #[trigger] out@[k], s[k]),
        decreases n - i,
    {
        let mut a = rest.remove(0);
        assert(a == s[i as int]);
        assert(rest@ =~= s.skip(i + 1));
        a.name = namespace(plugin_name, a.name.as_str());
        out.push(a);
        i = i + 1;
    }
    out
}

/// The error for a declared component path that does not exist.
pub open spec fn missing_message(what: Seq<char>, path: Seq<char>) -> Seq<char> {
    what + " does not exist: "@ + path
}

fn missing(what: &str, path: &str) -> (r: String)
    ensures
        r@ == missing_message(what@, path@),
{
    let mut r = what.to_string();
    push_str(&mut r, " does not exist: ");
    push_str(&mut r, path);
    r
}

/// The errors of a plugin's loading, in the order agents, skills, hooks.
pub open spec fn component_errors<A, S>(agents: Option<FoundDir<A>>, skills: Option<FoundDir<S>>, hooks: FoundHooks) -> Seq<Seq<char>> {
    (match agents {
        Some(d) => if d.found is None { seq![missing_message("agents directory"@, d.path@)] } else { seq![] },
        None => seq![],
    }) + (match skills {
        Some(d) => if d.found is None { seq![missing_message("skills directory"@, d.path@)] } else { seq![] },
        None => seq![],
    }) + (match hooks {
        FoundHooks::Missing { path } => seq![missing_message("hooks file"@, path@)],
        _ => seq![],
    })
}

/// The hooks a plugin contributes: a non-empty configuration from its
/// hooks file or its manifest.
pub open spec fn component_hooks(hooks: FoundHooks) -> Option<HookConfig> {
    match hooks {
        FoundHooks::FromFile { config } => if spec_config_empty(config.events@) { None } else { Some(config) },
        FoundHooks::Inline { config } => if spec_config_empty(config.events@) { None } else { Some(config) },
        _ => None,
    }
}

/// Put together what a plugin contributes from what was found in its
/// directories: agents and skills namespaced by the plugin's name, hooks
/// when non-empty, the MCP server names, and an error for each declared
/// path that does not exist.
pub fn plugin_components(
    plugin_name: &str,
    agents: Option<FoundDir<AgentDefinition>>,
    skills: Option<FoundDir<SkillDefinition>>,
    hooks: FoundHooks,
    mcp_server_names: Vec<String>,
) -> (r: PluginComponents)
    ensures
        r.errors@.map_values(|e: String| e@) == component_errors(agents, skills, hooks),
        r.hooks == component_hooks(hooks),
        r.mcp_server_names == mcp_server_names,
        r.agents@.len() == match agents { Some(FoundDir { found: Some(v), .. }) => v@.len(), _ => 0 },
        forall|i: int| 0 <= i < r.agents@.len() ==> (agents matches Some(FoundDir { found: Some(v), .. })
            && namespaced_agent(plugin_name@, #[trigger] r.agents@[i], v@[i])),
        r.skills@.len() == match skills { Some(FoundDir { found: Some(v), .. }) => v@.len(), _ => 0 },
        forall|i: int| 0 <= i < r.skills@.len() ==> (skills matches Some(FoundDir { found: Some(v), .. })
            && namespaced_skill(plugin_name@, #[trigger] r.skills@[i], v@[i])),
{
    let ghost ag = agents;
    let ghost sk = skills;
    let ghost hk = hooks;
    let mut errors: Vec<String> = Vec::new();
    let out_agents = match agents {
        Some(d) => match d.found {
            Some(v) => namespace_agents(plugin_name, v),
            None => {
                errors.push(missing("agents directory", d.path.as_str()));
                Vec::new()
            },
        },
        None => Vec::new(),
    };
    let ghost e1 = errors@.map_values(|e: String| e@);
    let out_skills = match skills {
        Some(d) => match d.found {
            Some(v) => namespace_skills(plugin_name, v),
            None => {
                errors.push(missing("skills directory", d.path.as_str()));
                Vec::new()
            },
        },
        None => Vec::new(),
    };
    let ghost e2 = errors@.map_values(|e: String| e@);
    let out_hooks = match hooks {
        FoundHooks::Missing { path } => {
            errors.push(missing("hooks file", path.as_str()));
            None
        },
        FoundHooks::FromFile { config } => if config.is_empty() { None } else { Some(config) },
        FoundHooks::Inline { config } => if config.is_empty() { None } else { Some(config) },
        _ => None,
    };
    assert(errors@.map_values(|e: String| e@) =~= component_errors(ag, sk, hk));
    PluginComponents {
        agents: out_agents,
        skills: out_skills,
        hooks: out_hooks,
        mcp_server_names,
        errors,
    }
}

/// Register a plugin's skills, in order.
pub fn register_plugin_skills(registry: &mut SkillRegistry, skills: Vec<SkillDefinition>)
    requires
        old(registry).wf(),
    ensures
        final(registry).wf(),
        final(registry)@ == register_all(old(registry)@, skills@, skills@.len() as int),
{
    register_each(registry, skills);
}

/// Merge a plugin's hooks into a configuration: for every event, the
/// plugin's groups come after the existing ones.
pub fn merge_plugin_hooks(target: &mut HookConfig, plugin_hooks: HookConfig)
    ensures
        forall|key: Seq<char>| #![trigger groups_of_key(final(target).events@, key)]
            groups_of_key(final(target).events@, key) == groups_of_key(old(target).events@, key)
                + groups_of_key(plugin_hooks.events@, key),
{
    target.merge(plugin_hooks);
}

} // verus!
