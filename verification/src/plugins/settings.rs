//! Plugin settings: which plugins are enabled, and the values users give
//! for the options plugins declare.
//!
//! Reading the settings file is left to the caller; the maps of the file
//! are held here as lists of `(key, value)` entries without repeated keys.
use vstd::prelude::*;

use super::loader::LoadedPlugin;
use super::manifest::{ConfigValue, UserConfigField};
use crate::keyed::{find_key, key_index, key_value, set_key, unique_keys};
use crate::text::{chars_of, concat2, contains, matches_at, occurs_at, push_str, to_uppercase, unicode_upper};

verus! {

/// The plugin section of the settings file.
#[derive(Debug, Clone, Default)]
pub struct PluginSettings {
    /// `name@marketplace` (or a plugin name alone) to enabled. Plugins not
    /// listed are enabled.
    pub enabled_plugins: Vec<(String, bool)>,
    /// Per-plugin option values, by plugin name.
    pub plugin_configs: Vec<(String, PluginConfigEntry)>,
}

/// The option values a user gave for one plugin.
#[derive(Debug, Clone, Default)]
pub struct PluginConfigEntry {
    pub options: Vec<(String, ConfigValue)>,
}

impl PluginSettings {
    /// Both maps have no repeated key.
    pub open spec fn wf(&self) -> bool {
        unique_keys(self.enabled_plugins@) && unique_keys(self.plugin_configs@)
    }
}

/// Whether a plugin is enabled under `enabled`: the entry of its
/// `name@marketplace`, else that of its manifest name, else as it was.
pub open spec fn enabled_under(p: LoadedPlugin, enabled: Seq<(String, bool)>) -> bool {
    match key_value(enabled, p.id.name@ + "@"@ + p.id.marketplace@) {
        Some(b) => b,
        None => match key_value(enabled, p.manifest.name@) {
            Some(b) => b,
            None => p.enabled,
        },
    }
}

/// Apply the enable/disable settings to each plugin.
pub fn apply_enable_disable(plugins: &mut Vec<LoadedPlugin>, settings: &PluginSettings)
    requires
        settings.wf(),
    ensures
        final(plugins)@.len() == old(plugins)@.len(),
        forall|i: int| 0 <= i < old(plugins)@.len() ==> (#[trigger] final(plugins)@[i]) == (LoadedPlugin {
            enabled: enabled_under(old(plugins)@[i], settings.enabled_plugins@),
            ..old(plugins)@[i]
        }),
{
    let ghost start = plugins@;
    let mut i: usize = 0;
    while i < plugins.len()
        invariant
            settings.wf(),
            i <= plugins@.len(),
            plugins@.len() == start.len(),
            forall|j: int| 0 <= j < i ==> (#[trigger] plugins@[j]) == (LoadedPlugin {
                enabled: enabled_under(start[j], settings.enabled_plugins@),
                ..start[j]
            }),
            forall|j: int| i <= j < start.len() ==> #[trigger] plugins@[j] == start[j],
        decreases plugins.len() - i,
    {
        let id = plugins[i].id.to_string();
        let setting = match find_key(&settings.enabled_plugins, id.as_str()) {
            Some(k) => Some(settings.enabled_plugins[k].1),
            None => match find_key(&settings.enabled_plugins, plugins[i].manifest.name.as_str()) {
                Some(k) => Some(settings.enabled_plugins[k].1),
                None => None,
            },
        };
        match setting {
            Some(b) => {
                let ghost before = plugins@;
                let mut p = plugins.remove(i);
                p.enabled = b;
                plugins.insert(i, p);
                assert forall|j: int| 0 <= j < before.len() && j != i implies plugins@[j] == before[j] by {
                    if j < i {
                    } else {
                    }
                }
            },
            None => {},
        }
        i = i + 1;
    }
}

/// The message for a required option the user did not give.
pub open spec fn missing_message(plugin: Seq<char>, key: Seq<char>, title: Option<String>) -> Seq<char> {
    "plugin '"@ + plugin + "': missing required config field '"@ + key + "' ("@ + match title {
        Some(t) => t@,
        None => key,
    } + ")"@
}

/// One message for each required option of `decls` that `values` lacks,
/// in the order of `decls`.
pub open spec fn missing_warnings(
    plugin: Seq<char>,
    decls: Seq<(String, UserConfigField)>,
    values: Seq<(String, ConfigValue)>,
) -> Seq<Seq<char>>
    decreases decls.len(),
{
    if decls.len() == 0 {
        seq![]
    } else {
        let rest = missing_warnings(plugin, decls.drop_last(), values);
        let (k, f) = decls.last();
        if f.required && key_index(values, k@) is None {
            rest.push(missing_message(plugin, k@, f.title))
        } else {
            rest
        }
    }
}

/// Check the user's values against the options a plugin declares: one
/// warning for each required option without a value.
pub fn validate_user_config(
    plugin_name: &str,
    declarations: &Vec<(String, UserConfigField)>,
    values: &Vec<(String, ConfigValue)>,
) -> (r: Vec<String>)
    requires
        unique_keys(declarations@),
        unique_keys(values@),
    ensures
        r@.map_values(|w: String| w@) == missing_warnings(plugin_name@, declarations@, values@),
{
    let mut warnings: Vec<String> = Vec::new();
    let mut i: usize = 0;
    while i < declarations.len()
        invariant
            unique_keys(values@),
            i <= declarations@.len(),
            warnings@.map_values(|w: String| w@) == missing_warnings(
                plugin_name@,
                declarations@.take(i as int),
                values@,
            ),
        decreases declarations.len() - i,
    {
        let key = declarations[i].0.as_str();
        let field = &declarations[i].1;
        assert(declarations@.take(i + 1).drop_last() =~= declarations@.take(i as int));
        let ghost before = warnings@.map_values(|w: String| w@);
        if field.required && find_key(values, key).is_none() {
            let mut msg = concat2("plugin '", plugin_name);
            push_str(&mut msg, "': missing required config field '");
            push_str(&mut msg, key);
            push_str(&mut msg, "' (");
            match &field.title {
                Some(t) => push_str(&mut msg, t.as_str()),
                None => push_str(&mut msg, key),
            }
            push_str(&mut msg, ")");
            warnings.push(msg);
            assert(warnings@.map_values(|w: String| w@) =~= before.push(
                missing_message(plugin_name@, key@, field.title),
            ));
        }
        i = i + 1;
    }
    assert(declarations@.take(declarations@.len() as int) =~= declarations@);
    warnings
}

/// The resolved options, in the order of `decls`: the user's value of each
/// declared option, else its default; options with neither are left out.
pub open spec fn resolved_options(
    decls: Seq<(String, UserConfigField)>,
    values: Seq<(String, ConfigValue)>,
) -> Seq<(Seq<char>, ConfigValue)>
    decreases decls.len(),
{
    if decls.len() == 0 {
        seq![]
    } else {
        let rest = resolved_options(decls.drop_last(), values);
        let (k, f) = decls.last();
        match key_value(values, k@) {
            Some(v) => rest.push((k@, v)),
            None => match f.default {
                Some(d) => rest.push((k@, d)),
                None => rest,
            },
        }
    }
}

/// The view of a list of options: keys by their text.
pub open spec fn options_view(entries: Seq<(String, ConfigValue)>) -> Seq<(Seq<char>, ConfigValue)> {
    entries.map_values(|e: (String, ConfigValue)| (e.0@, e.1))
}

/// The user's values of a plugin's declared options, with defaults for
/// those not given.
pub fn resolve_user_config(
    declarations: &Vec<(String, UserConfigField)>,
    values: &Vec<(String, ConfigValue)>,
) -> (r: Vec<(String, ConfigValue)>)
    requires
        unique_keys(declarations@),
        unique_keys(values@),
    ensures
        options_view(r@) == resolved_options(declarations@, values@),
{
    let mut resolved: Vec<(String, ConfigValue)> = Vec::new();
    let mut i: usize = 0;
    while i < declarations.len()
        invariant
            unique_keys(values@),
            i <= declarations@.len(),
            options_view(resolved@) == resolved_options(declarations@.take(i as int), values@),
        decreases declarations.len() - i,
    {
        let key = &declarations[i].0;
        let field = &declarations[i].1;
        assert(declarations@.take(i + 1).drop_last() =~= declarations@.take(i as int));
        let ghost before = options_view(resolved@);
        match find_key(values, key.as_str()) {
            Some(k) => {
                resolved.push((key.clone(), values[k].1.duplicate()));
                assert(options_view(resolved@) =~= before.push((key@, values@[k as int].1)));
            },
            None => match &field.default {
                Some(d) => {
                    resolved.push((key.clone(), d.duplicate()));
                    assert(options_view(resolved@) =~= before.push((key@, field.default->0)));
                },
                None => {},
            },
        }
        i = i + 1;
    }
    assert(declarations@.take(declarations@.len() as int) =~= declarations@);
    resolved
}

/// The text a value stands for in the environment and in templates: a
/// string's content, or the JSON text of any other value.
pub open spec fn value_text(v: ConfigValue) -> Seq<char> {
    match v {
        ConfigValue::Text(s) => s@,
        ConfigValue::Json(j) => j@,
    }
}

fn value_string(v: &ConfigValue) -> (r: String)
    ensures
        r@ == value_text(*v),
{
    match v {
        ConfigValue::Text(s) => s.clone(),
        ConfigValue::Json(j) => j.clone(),
    }
}

/// The environment variable of an option: `PLUGIN_` and its key in upper case.
pub open spec fn env_var_name(key: Seq<char>) -> Seq<char> {
    "PLUGIN_"@ + unicode_upper(key)
}

/// The value of variable `name` made from `config`: that of the last option
/// whose variable it is.
pub open spec fn env_lookup(config: Seq<(String, ConfigValue)>, name: Seq<char>) -> Option<Seq<char>>
    decreases config.len(),
{
    if config.len() == 0 {
        None
    } else if env_var_name(config.last().0@) == name {
        Some(value_text(config.last().1))
    } else {
        env_lookup(config.drop_last(), name)
    }
}

/// The environment variables of a plugin's options.
pub fn config_to_env_vars(config: &Vec<(String, ConfigValue)>) -> (r: Vec<(String, String)>)
    ensures
        unique_keys(r@),
        forall|name: Seq<char>| #![trigger key_value(r@, name)]
            match key_value(r@, name) {
                Some(v) => env_lookup(config@, name) == Some(v@),
                None => env_lookup(config@, name) is None,
            },
{
    let mut env: Vec<(String, String)> = Vec::new();
    let mut i: usize = 0;
    while i < config.len()
        invariant
            i <= config@.len(),
            unique_keys(env@),
            forall|name: Seq<char>| #![trigger key_value(env@, name)]
                match key_value(env@, name) {
                    Some(v) => env_lookup(config@.take(i as int), name) == Some(v@),
                    None => env_lookup(config@.take(i as int), name) is None,
                },
        decreases config.len() - i,
    {
        let upper = to_uppercase(config[i].0.as_str());
        let name = concat2("PLUGIN_", upper.as_str());
        let value = value_string(&config[i].1);
        let ghost old_env = env@;
        let ghost pre = config@.take(i as int);
        let ghost post = config@.take(i + 1);
        assert(post.drop_last() =~= pre);
        assert(post.last() == config@[i as int]);
        set_key(&mut env, name.as_str(), value);
        assert forall|n: Seq<char>| #![trigger key_value(env@, n)]
            match key_value(env@, n) {
                Some(v) => env_lookup(post, n) == Some(v@),
                None => env_lookup(post, n) is None,
            } by {
            assert(key_value(old_env, n) == key_value(old_env, n));
        }
        i = i + 1;
    }
    assert(config@.take(config@.len() as int) =~= config@);
    env
}

/// `s` with each occurrence of the non-empty `pat` replaced by `rep`,
/// taken from left to right without overlap.
pub open spec fn replace_all(s: Seq<char>, pat: Seq<char>, rep: Seq<char>) -> Seq<char>
    decreases s.len(),
{
    if pat.len() == 0 || s.len() < pat.len() {
        s
    } else if s.take(pat.len() as int) == pat {
        rep + replace_all(s.skip(pat.len() as int), pat, rep)
    } else {
        seq![s[0]] + replace_all(s.drop_first(), pat, rep)
    }
}

proof fn lemma_replace_short(s: Seq<char>, pat: Seq<char>, rep: Seq<char>)
    requires
        s.len() < pat.len(),
    ensures
        replace_all(s, pat, rep) == s,
{
}

/// Replace every occurrence of the non-empty `pat` in `s` by `rep`.
pub fn replace_str(s: &str, pat: &str, rep: &str) -> (r: String)
    requires
        pat@.len() > 0,
    ensures
        r@ == replace_all(s@, pat@, rep@),
{
    let v = chars_of(s);
    let p = chars_of(pat);
    let n = v.len();
    let plen = p.len();
    let mut out = String::new();
    let mut i: usize = 0;
    assert(v@.skip(0) =~= v@);
    while i < n
        invariant
            n == v@.len(),
            plen == p@.len(),
            v@ == s@,
            p@ == pat@,
            plen > 0,
            i <= n,
            out@ + replace_all(v@.skip(i as int), p@, rep@) == replace_all(s@, pat@, rep@),
        decreases n - i,
    {
        let ghost rest = v@.skip(i as int);
        if matches_at(v.as_slice(), p.as_slice(), i) {
            assert(rest.take(plen as int) =~= v@.subrange(i as int, i + plen));
            assert(rest.skip(plen as int) =~= v@.skip(i + plen));
            push_str(&mut out, rep);
            i = i + plen;
        } else {
            assert(rest.drop_first() =~= v@.skip(i + 1));
            if n - i < plen {
                proof {
                    lemma_replace_short(rest, p@, rep@);
                    lemma_replace_short(rest.drop_first(), p@, rep@);
                }
                assert(rest =~= seq![v@[i as int]] + rest.drop_first());
            } else {
                assert(rest.take(plen as int) != p@) by {
                    if rest.take(plen as int) == p@ {
                        assert(v@.subrange(i as int, i + plen) =~= rest.take(plen as int));
                    }
                }
            }
            out.push(v[i]);
            i = i + 1;
        }
    }
    assert(v@.skip(n as int) =~= Seq::<char>::empty());
    out
}

/// The placeholder of an option in templates: `${user_config.KEY}`.
pub open spec fn placeholder(key: Seq<char>) -> Seq<char> {
    "${user_config."@ + key + "}"@
}

/// `template` with the placeholders of the options of `config[..n]`
/// replaced, one option after another.
pub open spec fn substituted(template: Seq<char>, config: Seq<(String, ConfigValue)>, n: int) -> Seq<char>
    decreases n,
{
    if n <= 0 {
        template
    } else {
        replace_all(substituted(template, config, n - 1), placeholder(config[n - 1].0@), value_text(config[n - 1].1))
    }
}

/// Replace each `${user_config.KEY}` placeholder by the option's text.
pub fn substitute_user_config(template: &str, config: &Vec<(String, ConfigValue)>) -> (r: String)
    ensures
        r@ == substituted(template@, config@, config@.len() as int),
{
    let mut result = template.to_string();
    let mut i: usize = 0;
    while i < config.len()
        invariant
            i <= config@.len(),
            result@ == substituted(template@, config@, i as int),
        decreases config.len() - i,
    {
        let mut pat = concat2("${user_config.", config[i].0.as_str());
        push_str(&mut pat, "}");
        proof {
            reveal_strlit("}");
        }
        let rep = value_string(&config[i].1);
        result = replace_str(result.as_str(), pat.as_str(), rep.as_str());
        i = i + 1;
    }
    result
}

/// Text without the pattern comes out of a replacement unchanged.
pub proof fn law_replace_absent(s: Seq<char>, pat: Seq<char>, rep: Seq<char>)
    requires
        pat.len() > 0,
        !contains(s, pat),
    ensures
        replace_all(s, pat, rep) == s,
    decreases s.len(),
{
    if s.len() >= pat.len() {
        assert(s.take(pat.len() as int) != pat) by {
            if s.take(pat.len() as int) == pat {
                assert(s.subrange(0, pat.len() as int) =~= s.take(pat.len() as int));
                assert(occurs_at(s, pat, 0));
            }
        }
        let t = s.drop_first();
        assert(!contains(t, pat)) by {
            if contains(t, pat) {
                let i = choose|i: int| occurs_at(t, pat, i);
                assert(s.subrange(i + 1, i + 1 + pat.len()) =~= t.subrange(i, i + pat.len()));
                assert(occurs_at(s, pat, i + 1));
            }
        }
        law_replace_absent(t, pat, rep);
        assert(seq![s[0]] + t =~= s);
    }
}

/// A template with no `${user_config.` in it comes out of substitution
/// unchanged, whatever the options.
pub proof fn law_substitute_without_placeholders(template: Seq<char>, config: Seq<(String, ConfigValue)>, n: int)
    requires
        !contains(template, "${user_config."@),
    ensures
        substituted(template, config, n) == template,
    decreases n,
{
    if n > 0 {
        law_substitute_without_placeholders(template, config, n - 1);
        let pat = placeholder(config[n - 1].0@);
        let pre = "${user_config."@;
        reveal_strlit("${user_config.");
        reveal_strlit("}");
        assert(!contains(template, pat)) by {
            if contains(template, pat) {
                let i = choose|i: int| occurs_at(template, pat, i);
                assert(template.subrange(i, i + pre.len()) =~= pat.subrange(0, pre.len() as int));
                assert(pat.subrange(0, pre.len() as int) =~= pre);
                assert(occurs_at(template, pre, i));
            }
        }
        law_replace_absent(template, pat, value_text(config[n - 1].1));
    }
}

} // verus!
