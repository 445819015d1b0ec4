//! Plugin manifests (`plugin.json`) and their validation.
//!
//! Reading and parsing the JSON is left to the caller; JSON values the
//! engine does not interpret are kept as JSON text.
use vstd::prelude::*;

use crate::hooks::HookConfig;
use crate::text::{push_str, starts_with, str_is_empty, str_starts_with};

verus! {

/// A plugin manifest. All fields but `name` are optional.
#[derive(Debug, Clone, Default)]
pub struct PluginManifest {
    /// Plugin name (required), in kebab-case.
    pub name: String,
    pub version: Option<String>,
    pub description: Option<String>,
    pub author: Option<PluginAuthor>,
    /// Component paths, relative to the plugin root and starting with `./`.
    pub agents: Option<String>,
    pub skills: Option<String>,
    pub commands: Option<String>,
    pub tools: Option<String>,
    /// Hook configuration, inline or as a path to a hooks file.
    pub hooks: Option<HooksField>,
    /// MCP server configurations, by server name.
    pub mcp_servers: Option<Vec<(String, McpServerDef)>>,
    /// Settings to merge into the engine's settings, as JSON text.
    pub settings: Option<String>,
    /// User-configurable fields, by name.
    pub user_config: Option<Vec<(String, UserConfigField)>>,
}

/// Author information for a plugin.
#[derive(Debug, Clone)]
pub struct PluginAuthor {
    pub name: String,
    pub email: Option<String>,
    pub url: Option<String>,
}

/// An MCP server of a plugin; its name is its key in the manifest.
#[derive(Debug, Clone)]
pub struct McpServerDef {
    pub command: String,
    pub args: Vec<String>,
    pub env: Vec<(String, String)>,
}

/// A user-configurable field declared by a plugin.
#[derive(Debug, Clone)]
pub struct UserConfigField {
    /// `string`, `number`, `boolean`, `directory` or `file`.
    pub field_type: String,
    pub title: Option<String>,
    pub description: Option<String>,
    pub required: bool,
    pub default: Option<ConfigValue>,
}

/// A JSON value as plugin configuration uses it: a string, by its
/// content, or any other value, by its JSON text.
#[derive(Debug, Clone, PartialEq, Eq)]
pub enum ConfigValue {
    Text(String),
    Json(String),
}

impl ConfigValue {
    /// A copy of the value.
    pub fn duplicate(&self) -> (r: Self)
        ensures
            r == *self,
    {
        match self {
            ConfigValue::Text(s) => ConfigValue::Text(s.clone()),
            ConfigValue::Json(s) => ConfigValue::Json(s.clone()),
        }
    }
}

/// The `hooks` field: an inline configuration or a path to a hooks file.
#[derive(Debug, Clone)]
pub enum HooksField {
    Inline(HookConfig),
    Path(String),
}

/// An error found in a manifest.
#[derive(Debug, Clone)]
pub enum PluginError {
    /// A required field is missing.
    MissingField(String),
    /// A path field does not start with `./`.
    InvalidPath { field: String, path: String },
    /// The manifest could not be parsed.
    ParseError(String),
}

/// The message of an error.
pub open spec fn spec_error_message(e: PluginError) -> Seq<char> {
    match e {
        PluginError::MissingField(f) => "missing required field: "@ + f@,
        PluginError::InvalidPath { field, path } => "invalid path for '"@ + field@ + "': '"@ + path@
            + "' (must start with \"./\")"@,
        PluginError::ParseError(m) => "parse error: "@ + m@,
    }
}

impl PluginError {
    /// The error as text.
    pub fn to_string(&self) -> (r: String)
        ensures
            r@ == spec_error_message(*self),
    {
        match self {
            PluginError::MissingField(f) => {
                let mut r = "missing required field: ".to_string();
                push_str(&mut r, f.as_str());
                r
            },
            PluginError::InvalidPath { field, path } => {
                let mut r = "invalid path for '".to_string();
                push_str(&mut r, field.as_str());
                push_str(&mut r, "': '");
                push_str(&mut r, path.as_str());
                push_str(&mut r, "' (must start with \"./\")");
                r
            },
            PluginError::ParseError(m) => {
                let mut r = "parse error: ".to_string();
                push_str(&mut r, m.as_str());
                r
            },
        }
    }
}

/// An error as (kind, field, text): 0 missing field, 1 invalid path, 2
/// parse error.
pub open spec fn error_view(e: PluginError) -> (int, Seq<char>, Seq<char>) {
    match e {
        PluginError::MissingField(f) => (0, f@, seq![]),
        PluginError::InvalidPath { field, path } => (1, field@, path@),
        PluginError::ParseError(m) => (2, seq![], m@),
    }
}

/// The component paths that are set, as (field, path), in the order
/// agents, skills, commands, tools.
pub open spec fn spec_component_paths(m: PluginManifest) -> Seq<(Seq<char>, Seq<char>)> {
    (match m.agents { Some(p) => seq![("agents"@, p@)], None => seq![] })
        + (match m.skills { Some(p) => seq![("skills"@, p@)], None => seq![] })
        + (match m.commands { Some(p) => seq![("commands"@, p@)], None => seq![] })
        + (match m.tools { Some(p) => seq![("tools"@, p@)], None => seq![] })
}

/// The invalid-path errors of `ps`, in order.
pub open spec fn path_errors(ps: Seq<(Seq<char>, Seq<char>)>) -> Seq<(int, Seq<char>, Seq<char>)>
    decreases ps.len(),
{
    if ps.len() == 0 {
        seq![]
    } else {
        let p = path_errors(ps.drop_last());
        if starts_with(ps.last().1, "./"@) { p } else { p.push((1, ps.last().0, ps.last().1)) }
    }
}

/// The errors of a manifest, in order: a missing name, then each component
/// path or hooks path that does not start with `./`.
pub open spec fn spec_validate(m: PluginManifest) -> Seq<(int, Seq<char>, Seq<char>)> {
    (if m.name@.len() == 0 { seq![(0, "name"@, seq![])] } else { seq![] })
        + path_errors(spec_component_paths(m))
        + match m.hooks {
        Some(HooksField::Path(p)) => if starts_with(p@, "./"@) { seq![] } else { seq![(1, "hooks"@, p@)] },
        _ => seq![],
    }
}

impl PluginManifest {
    /// The component paths that are set, as (field, path).
    pub fn component_paths(&self) -> (r: Vec<(String, String)>)
        ensures
            r@.map_values(|e: (String, String)| (e.0@, e.1@)) == spec_component_paths(*self),
    {
        let mut out: Vec<(String, String)> = Vec::new();
        let ghost a = match &self.agents { Some(p) => seq![("agents"@, p@)], None => Seq::<(Seq<char>, Seq<char>)>::empty() };
        let ghost b = match &self.skills { Some(p) => seq![("skills"@, p@)], None => Seq::<(Seq<char>, Seq<char>)>::empty() };
        let ghost c = match &self.commands { Some(p) => seq![("commands"@, p@)], None => Seq::<(Seq<char>, Seq<char>)>::empty() };
        let ghost d = match &self.tools { Some(p) => seq![("tools"@, p@)], None => Seq::<(Seq<char>, Seq<char>)>::empty() };
        match &self.agents {
            Some(p) => out.push(("agents".to_string(), p.clone())),
            None => {},
        }
        assert(out@.map_values(|e: (String, String)| (e.0@, e.1@)) =~= a);
        match &self.skills {
            Some(p) => out.push(("skills".to_string(), p.clone())),
            None => {},
        }
        assert(out@.map_values(|e: (String, String)| (e.0@, e.1@)) =~= a + b);
        match &self.commands {
            Some(p) => out.push(("commands".to_string(), p.clone())),
            None => {},
        }
        assert(out@.map_values(|e: (String, String)| (e.0@, e.1@)) =~= a + b + c);
        match &self.tools {
            Some(p) => out.push(("tools".to_string(), p.clone())),
            None => {},
        }
        assert(out@.map_values(|e: (String, String)| (e.0@, e.1@)) =~= a + b + c + d);
        out
    }

    /// The errors of this manifest; empty when it is valid.
    pub fn validate(&self) -> (r: Vec<PluginError>)
        ensures
            r@.map_values(|e: PluginError| error_view(e)) == spec_validate(*self),
    {
        proof {
            reveal_strlit("./");
        }
        let mut errors: Vec<PluginError> = Vec::new();
        if str_is_empty(self.name.as_str()) {
            errors.push(PluginError::MissingField("name".to_string()));
        }
        let ghost first = errors@.map_values(|e: PluginError| error_view(e));
        assert(first =~= (if self.name@.len() == 0 { seq![(0int, "name"@, Seq::<char>::empty())] } else { seq![] }));
        let paths = self.component_paths();
        let ghost ps = spec_component_paths(*self);
        let mut i: usize = 0;
        while i < paths.len()
            invariant
                i <= paths@.len(),
                paths@.map_values(|e: (String, String)| (e.0@, e.1@)) == ps,
                errors@.map_values(|e: PluginError| error_view(e)) == first + path_errors(ps.take(i as int)),
            decreases paths.len() - i,
        {
            assert(ps.take(i + 1).drop_last() == ps.take(i as int));
            assert(ps.take(i + 1).last() == (paths@[i as int].0@, paths@[i as int].1@));
            let ghost before = errors@.map_values(|e: PluginError| error_view(e));
            if !str_starts_with(paths[i].1.as_str(), "./") {
                errors.push(PluginError::InvalidPath { field: paths[i].0.clone(), path: paths[i].1.clone() });
                assert(errors@.map_values(|e: PluginError| error_view(e)) =~= before.push((1int, paths@[i as int].0@, paths@[i as int].1@)));
            }
            i = i + 1;
        }
        assert(ps.take(ps.len() as int) == ps);
        let ghost mid = errors@.map_values(|e: PluginError| error_view(e));
        match &self.hooks {
            Some(HooksField::Path(p)) => {
                if !str_starts_with(p.as_str(), "./") {
                    errors.push(PluginError::InvalidPath { field: "hooks".to_string(), path: p.clone() });
                    assert(errors@.map_values(|e: PluginError| error_view(e)) =~= mid.push((1int, "hooks"@, p@)));
                }
            },
            _ => {},
        }
        assert(errors@.map_values(|e: PluginError| error_view(e)) =~= spec_validate(*self));
        errors
    }
}

} // verus!
