//! Plugin identifiers and the resolution of a plugin's component paths.
use vstd::prelude::*;

use super::manifest::{error_view, spec_validate, HooksField, PluginError, PluginManifest};
use crate::plan::opt_view;
use crate::keyed::{find_key, key_value, lemma_key_update, set_key, unique_keys};
use crate::paths::{join_path, joined_path};
use crate::text::{chars_of, find_char, find_char_from, push_str, starts_with, str_starts_with, sub_string, suffix_bytes};

verus! {

/// Plugin identifier in `name@marketplace` form.
#[derive(Debug, Clone, PartialEq, Eq, Hash)]
pub struct PluginIdentifier {
    pub name: String,
    pub marketplace: String,
}

/// The pieces of `s` around its first `@`, when both are non-empty.
pub open spec fn spec_parse_identifier(s: Seq<char>) -> Option<(Seq<char>, Seq<char>)> {
    match find_char_from(s, '@', 0) {
        None => None,
        Some(k) => if k == 0 || k + 1 == s.len() {
            None
        } else {
            Some((s.take(k), s.skip(k + 1)))
        },
    }
}

impl PluginIdentifier {
    pub fn new(name: &str, marketplace: &str) -> (r: Self)
        ensures
            r.name@ == name@,
            r.marketplace@ == marketplace@,
    {
        PluginIdentifier { name: name.to_string(), marketplace: marketplace.to_string() }
    }

    /// Parse from `name@marketplace`: split at the first `@`; both parts
    /// must be non-empty.
    pub fn parse(s: &str) -> (r: Option<Self>)
        ensures
            match spec_parse_identifier(s@) {
                None => r is None,
                Some((n, m)) => r matches Some(id) && id.name@ == n && id.marketplace@ == m,
            },
    {
        let v = chars_of(s);
        let n = v.len();
        proof {
            crate::text::lemma_find_char_from(v@, '@', 0);
        }
        match find_char(v.as_slice(), '@', 0) {
            None => None,
            Some(k) => {
                if k == 0 || k + 1 == n {
                    None
                } else {
                    let name = sub_string(v.as_slice(), 0, k);
                    let market = sub_string(v.as_slice(), k + 1, n);
                    proof {
                        assert(v@.subrange(0, k as int) == v@.take(k as int));
                        assert(v@.subrange(k + 1, n as int) == v@.skip(k + 1));
                    }
                    Some(PluginIdentifier { name, marketplace: market })
                }
            },
        }
    }

    /// The identifier of an inline plugin (loaded from a directory given
    /// for the session).
    pub fn inline(name: &str) -> (r: Self)
        ensures
            r.name@ == name@,
            r.marketplace@ == "inline"@,
    {
        PluginIdentifier { name: name.to_string(), marketplace: "inline".to_string() }
    }

    /// `name@marketplace`.
    pub fn to_string(&self) -> (r: String)
        ensures
            r@ == self.name@ + "@"@ + self.marketplace@,
    {
        let mut r = self.name.clone();
        push_str(&mut r, "@");
        push_str(&mut r, self.marketplace.as_str());
        r
    }
}

/// Where a loaded plugin came from.
#[derive(Debug, Clone, PartialEq, Eq, Structural)]
pub enum PluginSource {
    /// From the versioned cache (installed from a marketplace).
    Cache,
    /// Loaded from a directory given for the session.
    Inline,
    /// Built into the program.
    BuiltIn,
}

/// Resolved paths of a plugin's component directories.
#[derive(Debug, Clone, Default)]
pub struct ResolvedPaths {
    pub agents: Option<String>,
    pub skills: Option<String>,
    pub commands: Option<String>,
    pub tools: Option<String>,
    pub hooks_file: Option<String>,
}

/// `p` without a leading `./`.
pub open spec fn strip_dot_slash(p: Seq<char>) -> Seq<char> {
    if starts_with(p, "./"@) { p.skip(2) } else { p }
}

/// Where a component lives: the declared path (without a leading `./`)
/// under the plugin directory; without one, the directory named by
/// convention when it exists.
pub open spec fn spec_resolve_component(plugin_dir: Seq<char>, declared: Option<Seq<char>>, convention: Seq<char>, convention_exists: bool) -> Option<Seq<char>> {
    match declared {
        Some(p) => Some(joined_path(plugin_dir, strip_dot_slash(p))),
        None => if convention_exists { Some(joined_path(plugin_dir, convention)) } else { None },
    }
}

/// `p` without a leading `./`.
pub fn strip_leading_dot_slash(p: &str) -> (r: String)
    ensures
        r@ == strip_dot_slash(p@),
{
    proof {
        reveal_strlit("./");
    }
    if str_starts_with(p, "./") {
        let v = chars_of(p);
        let n = v.len();
        proof {
            assert(v@.subrange(2, n as int) == v@.skip(2));
        }
        sub_string(v.as_slice(), 2, n)
    } else {
        p.to_string()
    }
}

/// Resolve one component directory of a plugin.
pub fn resolve_component(plugin_dir: &str, declared: &Option<String>, convention: &str, convention_exists: bool) -> (r: Option<String>)
    ensures
        r matches Some(s) ==> spec_resolve_component(plugin_dir@, crate::plan::opt_view(*declared), convention@, convention_exists) == Some(s@),
        r is None ==> spec_resolve_component(plugin_dir@, crate::plan::opt_view(*declared), convention@, convention_exists) is None,
{
    match declared {
        Some(p) => {
            let stripped = strip_leading_dot_slash(p.as_str());
            Some(join_path(plugin_dir, stripped.as_str()))
        },
        None => if convention_exists {
            Some(join_path(plugin_dir, convention))
        } else {
            None
        },
    }
}

/// Where a plugin's hooks file is: the declared path (without a leading
/// `./`) under the plugin directory; without one, `hooks/hooks.json` when
/// that file exists.
pub open spec fn spec_resolve_hooks_file(plugin_dir: Seq<char>, hooks: Option<HooksField>, default_exists: bool) -> Option<Seq<char>> {
    match hooks {
        Some(HooksField::Path(p)) => Some(joined_path(plugin_dir, strip_dot_slash(p@))),
        _ => if default_exists {
            Some(joined_path(joined_path(plugin_dir, "hooks"@), "hooks.json"@))
        } else {
            None
        },
    }
}

/// Which conventional locations exist in a plugin directory: the
/// `agents`, `skills`, `commands` and `tools` directories and the
/// `hooks/hooks.json` file.
pub struct FoundLocations {
    pub agents_dir: bool,
    pub skills_dir: bool,
    pub commands_dir: bool,
    pub tools_dir: bool,
    pub hooks_json: bool,
}

/// Resolve the component paths of a plugin: declared paths first, else
/// the conventional locations that exist.
pub fn resolve_paths(manifest: &PluginManifest, plugin_dir: &str, found: &FoundLocations) -> (r: ResolvedPaths)
    ensures
        opt_view(r.agents) == spec_resolve_component(plugin_dir@, opt_view(manifest.agents), "agents"@, found.agents_dir),
        opt_view(r.skills) == spec_resolve_component(plugin_dir@, opt_view(manifest.skills), "skills"@, found.skills_dir),
        opt_view(r.commands) == spec_resolve_component(plugin_dir@, opt_view(manifest.commands), "commands"@, found.commands_dir),
        opt_view(r.tools) == spec_resolve_component(plugin_dir@, opt_view(manifest.tools), "tools"@, found.tools_dir),
        opt_view(r.hooks_file) == spec_resolve_hooks_file(plugin_dir@, manifest.hooks, found.hooks_json),
{
    let hooks_file = match &manifest.hooks {
        Some(HooksField::Path(p)) => {
            let stripped = strip_leading_dot_slash(p.as_str());
            Some(join_path(plugin_dir, stripped.as_str()))
        },
        _ => if found.hooks_json {
            let dir = join_path(plugin_dir, "hooks");
            Some(join_path(dir.as_str(), "hooks.json"))
        } else {
            None
        },
    };
    ResolvedPaths {
        agents: resolve_component(plugin_dir, &manifest.agents, "agents", found.agents_dir),
        skills: resolve_component(plugin_dir, &manifest.skills, "skills", found.skills_dir),
        commands: resolve_component(plugin_dir, &manifest.commands, "commands", found.commands_dir),
        tools: resolve_component(plugin_dir, &manifest.tools, "tools", found.tools_dir),
        hooks_file,
    }
}

/// A discovered and validated plugin.
#[derive(Debug, Clone)]
pub struct LoadedPlugin {
    /// `name@marketplace`.
    pub id: PluginIdentifier,
    pub manifest: PluginManifest,
    /// The plugin's directory.
    pub plugin_dir: String,
    pub source: PluginSource,
    /// Whether the plugin is enabled for the current project.
    pub enabled: bool,
    /// Resolved component directories.
    pub resolved_paths: ResolvedPaths,
}

impl LoadedPlugin {
    /// The plugin's name.
    pub fn name(&self) -> (r: &str)
        ensures
            r@ == self.manifest.name@,
    {
        self.manifest.name.as_str()
    }
}

/// The result of loading a plugin from a directory: its manifest's
/// errors, or the plugin, named by its manifest or else by `default_name`.
pub fn plugin_from_manifest(
    manifest: PluginManifest,
    dir: &str,
    default_name: &str,
    marketplace: &str,
    source: PluginSource,
    resolved_paths: ResolvedPaths,
) -> (r: Result<LoadedPlugin, Vec<PluginError>>)
    ensures
        spec_validate(manifest).len() > 0 ==> (r matches Err(es) && es@.map_values(|e: PluginError| error_view(e))
            == spec_validate(manifest)),
        spec_validate(manifest).len() == 0 ==> (r matches Ok(p) && p.id.name@ == (if manifest.name@.len() == 0 {
            default_name@
        } else {
            manifest.name@
        }) && p.id.marketplace@ == marketplace@ && p.manifest == manifest && p.plugin_dir@ == dir@
            && p.source == source && p.enabled),
{
    let errors = manifest.validate();
    if errors.len() > 0 {
        return Err(errors);
    }
    let name = if crate::text::str_is_empty(manifest.name.as_str()) {
        default_name.to_string()
    } else {
        manifest.name.clone()
    };
    let id = PluginIdentifier { name, marketplace: marketplace.to_string() };
    Ok(LoadedPlugin { id, manifest, plugin_dir: dir.to_string(), source, enabled: true, resolved_paths })
}

/// `a` comes before `b` in code point order (which is the byte order of
/// their UTF-8 forms).
pub open spec fn text_lt(a: Seq<char>, b: Seq<char>) -> bool
    decreases a.len(),
{
    if a.len() == 0 {
        b.len() > 0
    } else if b.len() == 0 {
        false
    } else if a[0] != b[0] {
        (a[0] as u32) < (b[0] as u32)
    } else {
        text_lt(a.drop_first(), b.drop_first())
    }
}

fn chars_lt(a: &[char], b: &[char]) -> (r: bool)
    ensures
        r == text_lt(a@, b@),
{
    let mut i: usize = 0;
    assert(a@.skip(0) =~= a@);
    assert(b@.skip(0) =~= b@);
    while i < a.len() && i < b.len()
        invariant
            i <= a@.len(),
            i <= b@.len(),
            a@.take(i as int) == b@.take(i as int),
            text_lt(a@, b@) == text_lt(a@.skip(i as int), b@.skip(i as int)),
        decreases a.len() - i,
    {
        if a[i] != b[i] {
            assert(a@.skip(i as int)[0] == a@[i as int]);
            assert(b@.skip(i as int)[0] == b@[i as int]);
            return (a[i] as u32) < (b[i] as u32);
        }
        assert(a@.skip(i as int).drop_first() == a@.skip(i + 1));
        assert(b@.skip(i as int).drop_first() == b@.skip(i + 1));
        assert(a@.take(i + 1) == a@.take(i as int).push(a@[i as int]));
        assert(b@.take(i + 1) == b@.take(i as int).push(b@[i as int]));
        i = i + 1;
    }
    b.len() > i
}

/// The position of the latest version: the greatest in code point order,
/// the first of equals.
pub open spec fn latest_of(vs: Seq<Seq<char>>) -> Option<int>
    decreases vs.len(),
{
    if vs.len() == 0 {
        None
    } else {
        match latest_of(vs.drop_last()) {
            None => Some(vs.len() - 1),
            Some(k) => if text_lt(vs[k], vs.last()) { Some(vs.len() - 1) } else { Some(k) },
        }
    }
}

/// The position of the latest of a plugin's versions, if any.
pub fn latest_version(versions: &Vec<String>) -> (r: Option<usize>)
    ensures
        match r {
            None => latest_of(versions@.map_values(|v: String| v@)) is None,
            Some(k) => latest_of(versions@.map_values(|v: String| v@)) == Some(k as int),
        },
{
    let ghost vs = versions@.map_values(|v: String| v@);
    let mut best: Option<usize> = None;
    let mut best_chars: Vec<char> = Vec::new();
    let mut i: usize = 0;
    while i < versions.len()
        invariant
            i <= versions@.len(),
            vs == versions@.map_values(|v: String| v@),
            match best {
                None => latest_of(vs.take(i as int)) is None,
                Some(k) => latest_of(vs.take(i as int)) == Some(k as int) && k < i && best_chars@ == vs[k as int],
            },
        decreases versions.len() - i,
    {
        assert(vs.take(i + 1).drop_last() == vs.take(i as int));
        assert(vs.take(i + 1).last() == vs[i as int]);
        let v = crate::text::chars_of(versions[i].as_str());
        match best {
            None => {
                best = Some(i);
                best_chars = v;
            },
            Some(k) => {
                assert(vs.take(i + 1)[k as int] == vs[k as int]);
                if chars_lt(best_chars.as_slice(), v.as_slice()) {
                    best = Some(i);
                    best_chars = v;
                }
            },
        }
        i = i + 1;
    }
    assert(vs.take(vs.len() as int) == vs);
    best
}

/// Loaded plugins by `name@marketplace`. No two entries share a key.
pub struct PluginRegistry {
    pub plugins: Vec<(String, LoadedPlugin)>,
}

/// The plugins named `name` (by their manifests), counted over `ps[..n]`.
pub open spec fn count_named(ps: Seq<(String, LoadedPlugin)>, name: Seq<char>, n: int) -> nat
    decreases n,
{
    if n <= 0 {
        0
    } else {
        count_named(ps, name, n - 1) + if ps[n - 1].1.manifest.name@ == name { 1nat } else { 0nat }
    }
}

/// A lookup by key, or by name when exactly one plugin has it.
pub open spec fn spec_lookup_plugin(ps: Seq<(String, LoadedPlugin)>, key: Seq<char>) -> Option<LoadedPlugin> {
    match key_value(ps, key) {
        Some(p) => Some(p),
        None => if count_named(ps, key, ps.len() as int) == 1 {
            Some(ps[choose|i: int| 0 <= i < ps.len() && ps[i].1.manifest.name@ == key].1)
        } else {
            None
        },
    }
}

impl PluginRegistry {
    pub open spec fn wf(&self) -> bool {
        unique_keys(self.plugins@)
    }

    pub fn new() -> (r: Self)
        ensures
            r.plugins@.len() == 0,
            r.wf(),
    {
        PluginRegistry { plugins: Vec::new() }
    }

    /// Register a plugin under `name@marketplace`, replacing one of that key.
    pub fn register(&mut self, plugin: LoadedPlugin)
        requires
            old(self).wf(),
        ensures
            final(self).wf(),
            forall|k: Seq<char>| #![trigger key_value(final(self).plugins@, k)]
                key_value(final(self).plugins@, k) == if k == plugin.id.name@ + "@"@ + plugin.id.marketplace@ {
                    Some(plugin)
                } else {
                    key_value(old(self).plugins@, k)
                },
    {
        let key = plugin.id.to_string();
        set_key(&mut self.plugins, key.as_str(), plugin);
    }

    /// A plugin by key (`name@marketplace`), or by name alone when exactly
    /// one plugin has that name.
    pub fn get(&self, key: &str) -> (r: Option<&LoadedPlugin>)
        requires
            self.wf(),
        ensures
            match spec_lookup_plugin(self.plugins@, key@) {
                Some(p) => r == Some(&p),
                None => r is None,
            },
    {
        match find_key(&self.plugins, key) {
            Some(i) => return Some(&self.plugins[i].1),
            None => {},
        }
        let mut found: Option<usize> = None;
        let mut count: usize = 0;
        let mut i: usize = 0;
        while i < self.plugins.len()
            invariant
                i <= self.plugins@.len(),
                count == count_named(self.plugins@, key@, i as int),
                count <= i,
                count == 0 ==> found is None,
                count == 0 ==> forall|j: int| 0 <= j < i ==> self.plugins@[j].1.manifest.name@ != key@,
                count >= 1 ==> (found matches Some(k) && k < i && self.plugins@[k as int].1.manifest.name@ == key@),
                count == 1 ==> forall|j: int| 0 <= j < i && self.plugins@[j].1.manifest.name@ == key@ ==> j == found->0,
            decreases self.plugins.len() - i,
        {
            if crate::text::str_eq(self.plugins[i].1.manifest.name.as_str(), key) {
                if count == 0 {
                    found = Some(i);
                }
                count = count + 1;
            }
            i = i + 1;
        }
        if count == 1 {
            let k = found.unwrap();
            proof {
                let c = choose|i: int| 0 <= i < self.plugins@.len() && self.plugins@[i].1.manifest.name@ == key@;
                assert(0 <= k < self.plugins@.len() && self.plugins@[k as int].1.manifest.name@ == key@);
                assert(c == k);
            }
            Some(&self.plugins[k].1)
        } else {
            None
        }
    }

    /// All registered plugins, in registration order.
    pub fn all(&self) -> (r: Vec<&LoadedPlugin>)
        ensures
            r@.map_values(|p: &LoadedPlugin| *p) == self.plugins@.map_values(|e: (String, LoadedPlugin)| e.1),
    {
        let mut out: Vec<&LoadedPlugin> = Vec::new();
        let mut i: usize = 0;
        while i < self.plugins.len()
            invariant
                i <= self.plugins@.len(),
                out@.map_values(|p: &LoadedPlugin| *p) == self.plugins@.take(i as int).map_values(
                    |e: (String, LoadedPlugin)| e.1,
                ),
            decreases self.plugins.len() - i,
        {
            let ghost before = out@.map_values(|p: &LoadedPlugin| *p);
            out.push(&self.plugins[i].1);
            assert(out@.map_values(|p: &LoadedPlugin| *p) =~= before.push(self.plugins@[i as int].1));
            assert(self.plugins@.take(i + 1).map_values(|e: (String, LoadedPlugin)| e.1) =~= self.plugins@.take(
                i as int,
            ).map_values(|e: (String, LoadedPlugin)| e.1).push(self.plugins@[i as int].1));
            i = i + 1;
        }
        assert(self.plugins@.take(self.plugins@.len() as int) =~= self.plugins@);
        out
    }

    /// The enabled plugins, in registration order.
    pub fn enabled(&self) -> (r: Vec<&LoadedPlugin>)
        ensures
            r@.map_values(|p: &LoadedPlugin| *p) == enabled_of(self.plugins@, self.plugins@.len() as int),
    {
        let mut out: Vec<&LoadedPlugin> = Vec::new();
        let mut i: usize = 0;
        while i < self.plugins.len()
            invariant
                i <= self.plugins@.len(),
                out@.map_values(|p: &LoadedPlugin| *p) == enabled_of(self.plugins@, i as int),
            decreases self.plugins.len() - i,
        {
            if self.plugins[i].1.enabled {
                let ghost before = out@.map_values(|p: &LoadedPlugin| *p);
                out.push(&self.plugins[i].1);
                assert(out@.map_values(|p: &LoadedPlugin| *p) =~= before.push(self.plugins@[i as int].1));
            }
            i = i + 1;
        }
        out
    }

    pub fn len(&self) -> (n: usize)
        ensures
            n == self.plugins@.len(),
    {
        self.plugins.len()
    }

    pub fn is_empty(&self) -> (b: bool)
        ensures
            b == (self.plugins@.len() == 0),
    {
        self.plugins.len() == 0
    }

    /// Enable or disable the plugin of a key; an unknown key changes nothing.
    pub fn set_enabled(&mut self, key: &str, enabled: bool)
        requires
            old(self).wf(),
        ensures
            final(self).wf(),
            final(self).plugins@.len() == old(self).plugins@.len(),
            forall|i: int| 0 <= i < old(self).plugins@.len() ==> (#[trigger] final(self).plugins@[i]).0 == old(self).plugins@[i].0
                && final(self).plugins@[i].1.id == old(self).plugins@[i].1.id
                && final(self).plugins@[i].1.manifest == old(self).plugins@[i].1.manifest
                && final(self).plugins@[i].1.enabled == if old(self).plugins@[i].0@ == key@ { enabled } else { old(self).plugins@[i].1.enabled },
    {
        match find_key(&self.plugins, key) {
            Some(i) => {
                let ghost before = self.plugins@;
                let (name, mut plugin) = self.plugins.remove(i);
                plugin.enabled = enabled;
                self.plugins.insert(i, (name, plugin));
                assert forall|j: int| 0 <= j < before.len() && j != i implies self.plugins@[j] == before[j] by {
                    if j < i {
                    } else {
                    }
                }
                assert forall|a: int, b: int| 0 <= a < b < self.plugins@.len() implies self.plugins@[a].0@ != self.plugins@[b].0@ by {
                    assert(self.plugins@[a].0 == before[a].0);
                    assert(self.plugins@[b].0 == before[b].0);
                }
                assert forall|j: int| 0 <= j < before.len() && before[j].0@ == key@ implies j == i by {
                    if j != i {
                        assert(before[j].0@ != before[i as int].0@);
                    }
                }
            },
            None => {},
        }
    }
}

/// The enabled plugins of `ps[..n]`, in order.
pub open spec fn enabled_of(ps: Seq<(String, LoadedPlugin)>, n: int) -> Seq<LoadedPlugin>
    decreases n,
{
    if n <= 0 {
        seq![]
    } else if ps[n - 1].1.enabled {
        enabled_of(ps, n - 1).push(ps[n - 1].1)
    } else {
        enabled_of(ps, n - 1)
    }
}

/// After registering a plugin, a lookup of its `name@marketplace` finds
/// it, and lookups of the other keys registered before find what they
/// found before.
pub proof fn law_register_then_get(
    before: Seq<(String, LoadedPlugin)>,
    after: Seq<(String, LoadedPlugin)>,
    plugin: LoadedPlugin,
)
    requires
        forall|k: Seq<char>| #![trigger key_value(after, k)]
            key_value(after, k) == if k == plugin.id.name@ + "@"@ + plugin.id.marketplace@ {
                Some(plugin)
            } else {
                key_value(before, k)
            },
    ensures
        spec_lookup_plugin(after, plugin.id.name@ + "@"@ + plugin.id.marketplace@) == Some(plugin),
        forall|k: Seq<char>|
            k != plugin.id.name@ + "@"@ + plugin.id.marketplace@ && (#[trigger] key_value(before, k)) is Some
                ==> spec_lookup_plugin(after, k) == spec_lookup_plugin(before, k),
{
    assert forall|k: Seq<char>|
        k != plugin.id.name@ + "@"@ + plugin.id.marketplace@ && (#[trigger] key_value(before, k)) is Some
            implies spec_lookup_plugin(after, k) == spec_lookup_plugin(before, k) by {
        assert(key_value(after, k) == key_value(before, k));
    }
    assert(key_value(after, plugin.id.name@ + "@"@ + plugin.id.marketplace@) == Some(plugin));
}

/// An identifier written as `name@marketplace` parses back into its name
/// and marketplace, when both are non-empty and the name holds no `@`.
pub proof fn law_identifier_roundtrip(name: Seq<char>, marketplace: Seq<char>)
    requires
        name.len() > 0,
        marketplace.len() > 0,
        forall|i: int| 0 <= i < name.len() ==> name[i] != '@',
    ensures
        spec_parse_identifier(name + "@"@ + marketplace) == Some((name, marketplace)),
{
    reveal_strlit("@");
    let s = name + "@"@ + marketplace;
    let k = name.len() as int;
    crate::text::lemma_find_char_from(s, '@', 0);
    assert(s[k] == '@');
    match find_char_from(s, '@', 0) {
        Some(j) => {
            if j < k {
                assert(s[j] == name[j]);
            }
            if j > k {
                assert(s[k] != '@');
            }
        },
        None => {
            assert(s[k] != '@');
        },
    }
    assert(s.take(k) =~= name);
    assert(s.skip(k + 1) =~= marketplace);
}

} // verus!
