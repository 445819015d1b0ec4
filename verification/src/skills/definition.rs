//! Skill definitions parsed from markdown files with YAML frontmatter.
use vstd::prelude::*;

use crate::agent_defs::{opt_string, opt_strings, spec_model};
use crate::frontmatter::{
    extract_field, spec_extract_field, spec_extract_list_field, spec_split_frontmatter,
};
use crate::text::{str_eq, trim, trim_string};

pub use crate::frontmatter::{extract_list_field, split_frontmatter};

verus! {

/// A skill definition loaded from a markdown file with YAML frontmatter.
///
/// Skills are reusable prompt-based workflows invoked by name (like slash
/// commands). The markdown body is the prompt template.
#[derive(Debug, Clone)]
pub struct SkillDefinition {
    /// Unique skill name (derived from filename or frontmatter).
    pub name: String,
    /// Description of when to use this skill (shown in system prompt).
    pub description: String,
    /// The prompt template (markdown body after frontmatter).
    pub prompt: String,
    /// Optional argument hint shown to the model (e.g. "[-m message]").
    pub argument_hint: Option<String>,
    /// Allowed tools when this skill is active (None = all tools).
    pub allowed_tools: Option<Vec<String>>,
    /// Model override (None = inherit from current session).
    pub model: Option<String>,
    /// Whether users can invoke this skill directly (default: true).
    pub user_invocable: bool,
    /// Source of this skill (project, user, plugin).
    pub source: SkillSource,
}

/// The default of `user_invocable`.
pub fn default_true() -> (b: bool)
    ensures
        b,
{
    true
}

#[derive(Debug, Clone, PartialEq, Default)]
pub enum SkillSource {
    /// Project-level skill (.arawn/skills/)
    #[default]
    Project,
    /// User-level skill (~/.arawn/skills/)
    User,
    /// Plugin-provided skill
    Plugin(String),
    /// Built-in skill
    BuiltIn,
}

/// The view of a skill source.
pub open spec fn source_view(s: SkillSource) -> (int, Seq<char>) {
    match s {
        SkillSource::Project => (0, seq![]),
        SkillSource::User => (1, seq![]),
        SkillSource::Plugin(p) => (2, p@),
        SkillSource::BuiltIn => (3, seq![]),
    }
}

impl SkillSource {
    pub fn duplicate(&self) -> (r: Self)
        ensures
            source_view(r) == source_view(*self),
    {
        match self {
            SkillSource::Project => SkillSource::Project,
            SkillSource::User => SkillSource::User,
            SkillSource::Plugin(p) => SkillSource::Plugin(p.clone()),
            SkillSource::BuiltIn => SkillSource::BuiltIn,
        }
    }

    /// Whether two sources are the same.
    pub fn same_as(&self, other: &SkillSource) -> (b: bool)
        ensures
            b == (source_view(*self) == source_view(*other)),
    {
        match (self, other) {
            (SkillSource::Project, SkillSource::Project) => true,
            (SkillSource::User, SkillSource::User) => true,
            (SkillSource::Plugin(a), SkillSource::Plugin(b)) => str_eq(a.as_str(), b.as_str()),
            (SkillSource::BuiltIn, SkillSource::BuiltIn) => true,
            _ => false,
        }
    }
}

/// `a` has the contents of `b`.
pub open spec fn same_skill(a: SkillDefinition, b: SkillDefinition) -> bool {
    &&& a.name@ == b.name@
    &&& a.description@ == b.description@
    &&& a.prompt@ == b.prompt@
    &&& opt_string(a.argument_hint) == opt_string(b.argument_hint)
    &&& opt_strings(a.allowed_tools) == opt_strings(b.allowed_tools)
    &&& opt_string(a.model) == opt_string(b.model)
    &&& a.user_invocable == b.user_invocable
    &&& source_view(a.source) == source_view(b.source)
}

impl SkillDefinition {
    /// A copy with equal contents.
    pub fn duplicate(&self) -> (r: Self)
        ensures
            same_skill(r, *self),
    {
        SkillDefinition {
            name: self.name.clone(),
            description: self.description.clone(),
            prompt: self.prompt.clone(),
            argument_hint: match &self.argument_hint {
                Some(h) => Some(h.clone()),
                None => None,
            },
            allowed_tools: match &self.allowed_tools {
                Some(v) => Some(crate::agent_defs::dup_strings(v)),
                None => None,
            },
            model: match &self.model {
                Some(m) => Some(m.clone()),
                None => None,
            },
            user_invocable: self.user_invocable,
            source: self.source.duplicate(),
        }
    }
}

/// `user-invocable`: any value other than `true` turns it off; without the
/// field it stays on.
pub open spec fn spec_user_invocable(v: Option<Seq<char>>) -> bool {
    match v {
        Some(s) => s == "true"@,
        None => true,
    }
}

/// The outcome of parsing a skill file's content.
pub open spec fn spec_parse_skill_ok(content: Seq<char>, default_name: Seq<char>, r: Result<SkillDefinition, String>) -> bool {
    match spec_split_frontmatter(content) {
        None => r matches Err(e) && e@ == "missing YAML frontmatter (expected --- delimiters)"@,
        Some((fm, body)) => match spec_extract_field(fm, "description"@) {
            None => r matches Err(e) && e@ == "missing required 'description' field in frontmatter"@,
            Some(desc) => r matches Ok(s) && {
                &&& s.name@ == match spec_extract_field(fm, "name"@) {
                    Some(n) => n,
                    None => default_name,
                }
                &&& s.description@ == desc
                &&& s.prompt@ == trim(body)
                &&& opt_string(s.argument_hint) == spec_extract_field(fm, "argument-hint"@)
                &&& opt_strings(s.allowed_tools) == spec_extract_list_field(fm, "allowed-tools"@)
                &&& opt_string(s.model) == spec_model(spec_extract_field(fm, "model"@))
                &&& s.user_invocable == spec_user_invocable(spec_extract_field(fm, "user-invocable"@))
                &&& s.source == SkillSource::Project
            },
        },
    }
}

/// Parse a skill definition from a markdown file's content. `description`
/// is required; `name` defaults to `default_name`.
pub fn parse_skill_markdown(content: &str, default_name: &str) -> (r: Result<SkillDefinition, String>)
    ensures
        spec_parse_skill_ok(content@, default_name@, r),
{
    let (frontmatter, body) = match split_frontmatter(content) {
        Some(p) => p,
        None => return Err("missing YAML frontmatter (expected --- delimiters)".to_string()),
    };
    let name = match extract_field(frontmatter.as_str(), "name") {
        Some(n) => n,
        None => default_name.to_string(),
    };
    let description = match extract_field(frontmatter.as_str(), "description") {
        Some(d) => d,
        None => return Err("missing required 'description' field in frontmatter".to_string()),
    };
    let argument_hint = extract_field(frontmatter.as_str(), "argument-hint");
    let allowed_tools = extract_list_field(frontmatter.as_str(), "allowed-tools");
    let model = match extract_field(frontmatter.as_str(), "model") {
        Some(m) => if str_eq(m.as_str(), "inherit") {
            None
        } else {
            Some(m)
        },
        None => None,
    };
    let user_invocable = match extract_field(frontmatter.as_str(), "user-invocable") {
        Some(v) => str_eq(v.as_str(), "true"),
        None => default_true(),
    };
    Ok(SkillDefinition {
        name,
        description,
        prompt: trim_string(body.as_str()),
        argument_hint,
        allowed_tools,
        model,
        user_invocable,
        source: SkillSource::Project,
    })
}

} // verus!
