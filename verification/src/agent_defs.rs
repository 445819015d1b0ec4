//! Agent definitions: the built-in sub-agent types, user-defined ones read
//! from markdown files, lookup by name, and the tool filter of an agent.
use vstd::prelude::*;

use crate::frontmatter::{spec_extract_field, spec_parse_list, spec_split_frontmatter, strings_of};
use crate::text::{
    ascii_lower_chars, ascii_lower_seq, chars_eq, chars_of, parse_usize, spec_parse_usize, str_eq,
    trim, trim_string,
};

pub use crate::frontmatter::{extract_field, parse_list, split_frontmatter};

verus! {

/// An agent definition — controls system prompt, tool access, and behavior.
#[derive(Debug, Clone)]
pub struct AgentDefinition {
    /// Unique name used as `subagent_type` (e.g., "Explore", "Plan").
    pub name: String,
    /// When the model should use this agent type.
    pub when_to_use: String,
    /// System prompt for this agent type.
    pub system_prompt: String,
    /// Allowed tool names. `None` or `["*"]` = all tools.
    pub tools: Option<Vec<String>>,
    /// Tool names to exclude (applied after `tools` filter).
    pub disallowed_tools: Option<Vec<String>>,
    /// Model override (None = inherit from parent).
    pub model: Option<String>,
    /// Maximum agentic turns before stopping.
    pub max_turns: Option<usize>,
    /// Source of this definition.
    pub source: AgentSource,
}

#[derive(Debug, Clone, Copy, PartialEq, Eq, Structural)]
pub enum AgentSource {
    BuiltIn,
    User,
}

pub const GENERAL_PURPOSE_WHEN: &'static str = "General-purpose agent for researching complex questions, searching for code, and executing multi-step tasks. When you are searching for a keyword or file and are not confident that you will find the right match in the first few tries use this agent to perform the search for you.";

pub const GENERAL_PURPOSE_PROMPT: &'static str = "You are a focused sub-agent. Complete the task given to you using the available tools. Complete the task fully \u{2014} don't gold-plate, but don't leave it half-done. When done, respond with a concise report covering what was done and any key findings.";

pub const EXPLORE_WHEN: &'static str = "Fast agent specialized for exploring codebases. Use this when you need to quickly find files by patterns (eg. \"src/components/**/*.tsx\"), search code for keywords (eg. \"API endpoints\"), or answer questions about the codebase (eg. \"how do API endpoints work?\"). When calling this agent, specify the desired thoroughness level: \"quick\" for basic searches, \"medium\" for moderate exploration, or \"very thorough\" for comprehensive analysis across multiple locations and naming conventions.";

pub const EXPLORE_PROMPT: &'static str = "You are a file search specialist. You excel at thoroughly navigating and exploring codebases.\n\n=== CRITICAL: READ-ONLY MODE - NO FILE MODIFICATIONS ===\nThis is a READ-ONLY exploration task. You are STRICTLY PROHIBITED from creating, modifying, or deleting files. You do NOT have access to file editing tools.\n\nYour strengths:\n- Rapidly finding files using glob patterns\n- Searching code and text with powerful regex patterns\n- Reading and analyzing file contents\n\nGuidelines:\n- Use glob for broad file pattern matching\n- Use grep for searching file contents with regex\n- Use file_read when you know the specific file path\n- Use shell ONLY for read-only operations (ls, git log, git diff, find)\n- Spawn multiple parallel tool calls for efficiency\n\nComplete the search request efficiently and report findings clearly.";

pub const PLAN_WHEN: &'static str = "Software architect agent for designing implementation plans. Use this when you need to plan the implementation strategy for a task. Returns step-by-step plans, identifies critical files, and considers architectural trade-offs.";

pub const PLAN_PROMPT: &'static str = "You are a software architect and planning specialist. Your role is to explore the codebase and design implementation plans.\n\n=== CRITICAL: READ-ONLY MODE - NO FILE MODIFICATIONS ===\nThis is a READ-ONLY planning task. You are STRICTLY PROHIBITED from creating, modifying, or deleting files.\n\n## Your Process\n1. **Understand Requirements**: Focus on the requirements provided.\n2. **Explore Thoroughly**: Find existing patterns and conventions. Understand the current architecture. Identify similar features.\n3. **Design Solution**: Create implementation approach. Consider trade-offs and architectural decisions.\n4. **Detail the Plan**: Provide step-by-step implementation strategy. Identify dependencies and sequencing.\n\n## Required Output\nEnd your response with:\n### Critical Files for Implementation\nList 3-5 files most critical for implementing this plan.";

pub open spec fn opt_strings(o: Option<Vec<String>>) -> Option<Seq<Seq<char>>> {
    match o {
        Some(v) => Some(strings_of(v@)),
        None => None,
    }
}

pub open spec fn opt_string(o: Option<String>) -> Option<Seq<char>> {
    match o {
        Some(s) => Some(s@),
        None => None,
    }
}

/// The tools that the read-only built-in agents may not use.
pub open spec fn read_only_denylist() -> Seq<Seq<char>> {
    seq!["agent"@, "file_edit"@, "file_write"@]
}

/// `a` is the built-in agent with the given texts; `read_only` says whether
/// it is barred from the editing tools.
pub open spec fn is_builtin(a: AgentDefinition, name: Seq<char>, when: Seq<char>, prompt: Seq<char>, read_only: bool) -> bool {
    &&& a.name@ == name
    &&& a.when_to_use@ == when
    &&& a.system_prompt@ == prompt
    &&& a.tools is None
    &&& (if read_only {
        opt_strings(a.disallowed_tools) == Some(read_only_denylist())
    } else {
        a.disallowed_tools is None
    })
    &&& a.model is None
    &&& a.max_turns is None
    &&& a.source == AgentSource::BuiltIn
}

pub open spec fn is_general_purpose(a: AgentDefinition) -> bool {
    is_builtin(a, "general-purpose"@, GENERAL_PURPOSE_WHEN@, GENERAL_PURPOSE_PROMPT@, false)
}

/// `v` is the list of built-in agents: general-purpose, Explore, Plan.
pub open spec fn builtin_list(v: Seq<AgentDefinition>) -> bool {
    &&& v.len() == 3
    &&& is_general_purpose(v[0])
    &&& is_builtin(v[1], "Explore"@, EXPLORE_WHEN@, EXPLORE_PROMPT@, true)
    &&& is_builtin(v[2], "Plan"@, PLAN_WHEN@, PLAN_PROMPT@, true)
}

fn read_only_tools() -> (r: Option<Vec<String>>)
    ensures
        opt_strings(r) == Some(read_only_denylist()),
{
    let mut v: Vec<String> = Vec::new();
    v.push("agent".to_string());
    v.push("file_edit".to_string());
    v.push("file_write".to_string());
    assert(strings_of(v@) =~= read_only_denylist());
    Some(v)
}

/// Returns the built-in agent definitions.
pub fn built_in_agents() -> (r: Vec<AgentDefinition>)
    ensures
        builtin_list(r@),
{
    let mut v: Vec<AgentDefinition> = Vec::new();
    v.push(AgentDefinition {
        name: "general-purpose".to_string(),
        when_to_use: GENERAL_PURPOSE_WHEN.to_string(),
        system_prompt: GENERAL_PURPOSE_PROMPT.to_string(),
        tools: None,
        disallowed_tools: None,
        model: None,
        max_turns: None,
        source: AgentSource::BuiltIn,
    });
    v.push(AgentDefinition {
        name: "Explore".to_string(),
        when_to_use: EXPLORE_WHEN.to_string(),
        system_prompt: EXPLORE_PROMPT.to_string(),
        tools: None,
        disallowed_tools: read_only_tools(),
        model: None,
        max_turns: None,
        source: AgentSource::BuiltIn,
    });
    v.push(AgentDefinition {
        name: "Plan".to_string(),
        when_to_use: PLAN_WHEN.to_string(),
        system_prompt: PLAN_PROMPT.to_string(),
        tools: None,
        disallowed_tools: read_only_tools(),
        model: None,
        max_turns: None,
        source: AgentSource::BuiltIn,
    });
    v
}

/// The model field: `inherit` (or no field) means none.
pub open spec fn spec_model(v: Option<Seq<char>>) -> Option<Seq<char>> {
    match v {
        Some(m) => if m == "inherit"@ { None } else { Some(m) },
        None => None,
    }
}

pub open spec fn spec_list_field(v: Option<Seq<char>>) -> Option<Seq<Seq<char>>> {
    match v {
        Some(s) => Some(spec_parse_list(s)),
        None => None,
    }
}

pub open spec fn spec_max_turns(v: Option<Seq<char>>) -> Option<nat> {
    match v {
        Some(s) => spec_parse_usize(s),
        None => None,
    }
}

pub open spec fn opt_nat(o: Option<usize>) -> Option<nat> {
    match o {
        Some(n) => Some(n as nat),
        None => None,
    }
}

/// The outcome of parsing an agent file's content.
pub open spec fn spec_parse_agent_ok(content: Seq<char>, r: Result<AgentDefinition, String>) -> bool {
    match spec_split_frontmatter(content) {
        None => r matches Err(e) && e@ == "missing YAML frontmatter (expected --- delimiters)"@,
        Some((fm, body)) => match (spec_extract_field(fm, "name"@), spec_extract_field(fm, "description"@)) {
            (None, _) => r matches Err(e) && e@ == "missing required 'name' field in frontmatter"@,
            (Some(_), None) => r matches Err(e) && e@
                == "missing required 'description' field in frontmatter"@,
            (Some(name), Some(desc)) => r matches Ok(a) && {
                &&& a.name@ == name
                &&& a.when_to_use@ == desc
                &&& a.system_prompt@ == trim(body)
                &&& opt_strings(a.tools) == spec_list_field(spec_extract_field(fm, "tools"@))
                &&& opt_strings(a.disallowed_tools) == spec_list_field(
                    spec_extract_field(fm, "disallowedTools"@),
                )
                &&& opt_string(a.model) == spec_model(spec_extract_field(fm, "model"@))
                &&& opt_nat(a.max_turns) == spec_max_turns(spec_extract_field(fm, "maxTurns"@))
                &&& a.source == AgentSource::User
            },
        },
    }
}

/// Parse an agent definition from a markdown file's content: YAML
/// frontmatter with `name` and `description` (required), `tools` and
/// `disallowedTools` (comma-separated, `*` for all), `model` (`inherit`
/// for none) and `maxTurns`; the trimmed body is the system prompt.
pub fn parse_agent_markdown(content: &str) -> (r: Result<AgentDefinition, String>)
    ensures
        spec_parse_agent_ok(content@, r),
{
    let (frontmatter, body) = match split_frontmatter(content) {
        Some(p) => p,
        None => return Err("missing YAML frontmatter (expected --- delimiters)".to_string()),
    };
    let name = match extract_field(frontmatter.as_str(), "name") {
        Some(n) => n,
        None => return Err("missing required 'name' field in frontmatter".to_string()),
    };
    let description = match extract_field(frontmatter.as_str(), "description") {
        Some(d) => d,
        None => return Err("missing required 'description' field in frontmatter".to_string()),
    };
    let tools = match extract_field(frontmatter.as_str(), "tools") {
        Some(s) => Some(parse_list(s.as_str())),
        None => None,
    };
    let disallowed_tools = match extract_field(frontmatter.as_str(), "disallowedTools") {
        Some(s) => Some(parse_list(s.as_str())),
        None => None,
    };
    let model = match extract_field(frontmatter.as_str(), "model") {
        Some(m) => if str_eq(m.as_str(), "inherit") {
            None
        } else {
            Some(m)
        },
        None => None,
    };
    let max_turns = match extract_field(frontmatter.as_str(), "maxTurns") {
        Some(s) => {
            let c = chars_of(s.as_str());
            parse_usize(c.as_slice())
        },
        None => None,
    };
    Ok(AgentDefinition {
        name,
        when_to_use: description,
        system_prompt: trim_string(body.as_str()),
        tools,
        disallowed_tools,
        model,
        max_turns,
        source: AgentSource::User,
    })
}

/// Index of the first agent named exactly `name`.
pub open spec fn first_named(v: Seq<AgentDefinition>, name: Seq<char>) -> Option<int>
    decreases v.len(),
{
    if v.len() == 0 {
        None
    } else {
        match first_named(v.drop_last(), name) {
            Some(i) => Some(i),
            None => if v.last().name@ == name {
                Some(v.len() - 1)
            } else {
                None
            },
        }
    }
}

/// Lay `users[..n]` over `all`: each user agent replaces the first agent of
/// the same name, or is appended when there is none.
pub open spec fn overlay(all: Seq<AgentDefinition>, users: Seq<AgentDefinition>, n: int) -> Seq<AgentDefinition>
    decreases n,
{
    if n <= 0 {
        all
    } else {
        let prev = overlay(all, users, n - 1);
        let u = users[n - 1];
        match first_named(prev, u.name@) {
            Some(p) => prev.update(p, u),
            None => prev.push(u),
        }
    }
}

proof fn lemma_first_named(v: Seq<AgentDefinition>, name: Seq<char>)
    ensures
        first_named(v, name) matches Some(i) ==> 0 <= i < v.len() && v[i].name@ == name && forall|
            j: int,
        | 0 <= j < i ==> v[j].name@ != name,
        first_named(v, name) is None ==> forall|j: int| 0 <= j < v.len() ==> v[j].name@ != name,
    decreases v.len(),
{
    if v.len() > 0 {
        let w = v.drop_last();
        lemma_first_named(w, name);
        assert(forall|j: int| 0 <= j < w.len() ==> #[trigger] v[j] == w[j]);
    }
}

fn find_named(v: &Vec<AgentDefinition>, name: &str) -> (r: Option<usize>)
    ensures
        r matches Some(i) ==> first_named(v@, name@) == Some(i as int),
        r is None ==> first_named(v@, name@) is None,
{
    let mut i: usize = 0;
    while i < v.len()
        invariant
            i <= v@.len(),
            forall|j: int| 0 <= j < i ==> v@[j].name@ != name@,
        decreases v.len() - i,
    {
        if str_eq(v[i].name.as_str(), name) {
            proof {
                lemma_first_named(v@, name@);
                if first_named(v@, name@) is None {
                    assert(v@[i as int].name@ == name@);
                } else {
                    let k = first_named(v@, name@)->0;
                    if k < i {
                        assert(v@[k].name@ != name@);
                    } else if k > i {
                        assert(v@[i as int].name@ == name@);
                    }
                }
            }
            return Some(i);
        }
        i = i + 1;
    }
    proof {
        lemma_first_named(v@, name@);
        if first_named(v@, name@) is Some {
            let k = first_named(v@, name@)->0;
            assert(v@[k].name@ != name@);
        }
    }
    None
}

/// Get all agent definitions: the built-ins with the user-defined ones laid
/// over them (a user agent replaces the built-in of the same name).
pub fn get_all_agents(user_agents: Option<Vec<AgentDefinition>>) -> (r: Vec<AgentDefinition>)
    ensures
        exists|b: Seq<AgentDefinition>|
            builtin_list(b) && r@ == match user_agents {
                Some(u) => overlay(b, u@, u@.len() as int),
                None => b,
            },
{
    let mut all = built_in_agents();
    let ghost b = all@;
    match user_agents {
        None => {
            assert(builtin_list(b) && all@ == b);
            all
        },
        Some(users) => {
            let mut users = users;
            let ghost u = users@;
            let n = users.len();
            let mut i: usize = 0;
            while i < n
                invariant
                    i <= n,
                    n == u.len(),
                    users@ == u.skip(i as int),
                    all@ == overlay(b, u, i as int),
                decreases n - i,
            {
                let agent = users.remove(0);
                assert(agent == u[i as int]);
                assert(users@ =~= u.skip(i + 1));
                match find_named(&all, agent.name.as_str()) {
                    Some(p) => {
                        proof {
                            lemma_first_named(all@, agent.name@);
                        }
                        all.set(p, agent);
                    },
                    None => {
                        all.push(agent);
                    },
                }
                i = i + 1;
            }
            assert(builtin_list(b));
            all
        },
    }
}

/// Index of the first agent whose name equals `name` ignoring ASCII case.
pub open spec fn first_named_ci(v: Seq<AgentDefinition>, name: Seq<char>) -> Option<int>
    decreases v.len(),
{
    if v.len() == 0 {
        None
    } else {
        match first_named_ci(v.drop_last(), name) {
            Some(i) => Some(i),
            None => if ascii_lower_seq(v.last().name@) == ascii_lower_seq(name) {
                Some(v.len() - 1)
            } else {
                None
            },
        }
    }
}

impl AgentDefinition {
    /// A copy with equal contents.
    pub fn duplicate(&self) -> (r: Self)
        ensures
            r.name@ == self.name@,
            r.when_to_use@ == self.when_to_use@,
            r.system_prompt@ == self.system_prompt@,
            opt_strings(r.tools) == opt_strings(self.tools),
            opt_strings(r.disallowed_tools) == opt_strings(self.disallowed_tools),
            opt_string(r.model) == opt_string(self.model),
            r.max_turns == self.max_turns,
            r.source == self.source,
    {
        AgentDefinition {
            name: self.name.clone(),
            when_to_use: self.when_to_use.clone(),
            system_prompt: self.system_prompt.clone(),
            tools: dup_opt_strings(&self.tools),
            disallowed_tools: dup_opt_strings(&self.disallowed_tools),
            model: match &self.model {
                Some(m) => Some(m.clone()),
                None => None,
            },
            max_turns: self.max_turns,
            source: self.source,
        }
    }
}

/// `a` has the contents of `b`.
pub open spec fn same_agent(a: AgentDefinition, b: AgentDefinition) -> bool {
    &&& a.name@ == b.name@
    &&& a.when_to_use@ == b.when_to_use@
    &&& a.system_prompt@ == b.system_prompt@
    &&& opt_strings(a.tools) == opt_strings(b.tools)
    &&& opt_strings(a.disallowed_tools) == opt_strings(b.disallowed_tools)
    &&& opt_string(a.model) == opt_string(b.model)
    &&& a.max_turns == b.max_turns
    &&& a.source == b.source
}

pub fn dup_strings(v: &Vec<String>) -> (r: Vec<String>)
    ensures
        strings_of(r@) == strings_of(v@),
{
    let mut out: Vec<String> = Vec::new();
    let mut i: usize = 0;
    while i < v.len()
        invariant
            i <= v@.len(),
            strings_of(out@) == strings_of(v@.take(i as int)),
        decreases v.len() - i,
    {
        let c = v[i].clone();
        assert(c@ == v@[i as int]@);
        let ghost prev = out@;
        out.push(c);
        assert(strings_of(out@) =~= strings_of(prev).push(c@));
        assert(strings_of(v@.take(i + 1)) =~= strings_of(v@.take(i as int)).push(v@[i as int]@));
        assert(v@.take(i + 1) == v@.take(i as int).push(v@[i as int]));
        assert(strings_of(out@) =~= strings_of(v@.take(i + 1)));
        i = i + 1;
    }
    assert(v@.take(v@.len() as int) == v@);
    out
}

fn dup_opt_strings(o: &Option<Vec<String>>) -> (r: Option<Vec<String>>)
    ensures
        opt_strings(r) == opt_strings(*o),
{
    match o {
        Some(v) => Some(dup_strings(v)),
        None => None,
    }
}

/// The agent that `find_agent` picks.
pub open spec fn spec_find_agent_ok(agents: Seq<AgentDefinition>, name: Seq<char>, r: AgentDefinition) -> bool {
    match first_named_ci(agents, name) {
        Some(i) => same_agent(r, agents[i]),
        None => match first_named(agents, "general-purpose"@) {
            Some(j) => same_agent(r, agents[j]),
            None => is_general_purpose(r),
        },
    }
}

proof fn lemma_first_named_ci(v: Seq<AgentDefinition>, name: Seq<char>)
    ensures
        first_named_ci(v, name) matches Some(i) ==> 0 <= i < v.len() && ascii_lower_seq(v[i].name@)
            == ascii_lower_seq(name) && forall|j: int|
            0 <= j < i ==> ascii_lower_seq(v[j].name@) != ascii_lower_seq(name),
        first_named_ci(v, name) is None ==> forall|j: int|
            0 <= j < v.len() ==> ascii_lower_seq(v[j].name@) != ascii_lower_seq(name),
    decreases v.len(),
{
    if v.len() > 0 {
        let w = v.drop_last();
        lemma_first_named_ci(w, name);
        assert(forall|j: int| 0 <= j < w.len() ==> #[trigger] v[j] == w[j]);
    }
}

/// Look up an agent definition by name, ignoring ASCII case. Falls back to
/// the general-purpose agent.
pub fn find_agent(agents: &Vec<AgentDefinition>, name: &str) -> (r: AgentDefinition)
    ensures
        spec_find_agent_ok(agents@, name@, r),
{
    let target = chars_of(name);
    let lt = ascii_lower_chars(target.as_slice());
    let mut i: usize = 0;
    while i < agents.len()
        invariant
            i <= agents@.len(),
            lt@ == ascii_lower_seq(name@),
            forall|j: int| 0 <= j < i ==> ascii_lower_seq(agents@[j].name@) != ascii_lower_seq(name@),
        decreases agents.len() - i,
    {
        let n = chars_of(agents[i].name.as_str());
        let ln = ascii_lower_chars(n.as_slice());
        if chars_eq(ln.as_slice(), lt.as_slice()) {
            proof {
                lemma_first_named_ci(agents@, name@);
                if first_named_ci(agents@, name@) is None {
                    assert(ascii_lower_seq(agents@[i as int].name@) == ascii_lower_seq(name@));
                } else {
                    let k = first_named_ci(agents@, name@)->0;
                    if k < i {
                        assert(ascii_lower_seq(agents@[k].name@) != ascii_lower_seq(name@));
                    } else if k > i {
                        assert(ascii_lower_seq(agents@[i as int].name@) == ascii_lower_seq(name@));
                    }
                }
            }
            return agents[i].duplicate();
        }
        i = i + 1;
    }
    proof {
        lemma_first_named_ci(agents@, name@);
        if first_named_ci(agents@, name@) is Some {
            let k = first_named_ci(agents@, name@)->0;
            assert(ascii_lower_seq(agents@[k].name@) != ascii_lower_seq(name@));
        }
    }
    match find_named(agents, "general-purpose") {
        Some(j) => {
            proof {
                lemma_first_named(agents@, "general-purpose"@);
            }
            agents[j].duplicate()
        },
        None => {
            let mut b = built_in_agents();
            b.swap_remove(0)
        },
    }
}

/// Whether the agent may use every tool: no list, an empty list, or `["*"]`.
pub open spec fn spec_all_tools(tools: Option<Seq<Seq<char>>>) -> bool {
    match tools {
        None => true,
        Some(t) => t.len() == 0 || (t.len() == 1 && t[0] == "*"@),
    }
}

/// Whether an agent with this definition may use tool `name`: not
/// disallowed, and listed unless it may use every tool.
pub open spec fn spec_tool_allowed(d: AgentDefinition, name: Seq<char>) -> bool {
    &&& !(match opt_strings(d.disallowed_tools) {
        Some(ds) => ds.contains(name),
        None => false,
    })
    &&& (spec_all_tools(opt_strings(d.tools)) || opt_strings(d.tools)->0.contains(name))
}

/// The tools of `names[..n]` that the agent may use, in order.
pub open spec fn allowed_tools(names: Seq<Seq<char>>, d: AgentDefinition, n: int) -> Seq<Seq<char>>
    decreases n,
{
    if n <= 0 {
        seq![]
    } else {
        let rest = allowed_tools(names, d, n - 1);
        if spec_tool_allowed(d, names[n - 1]) {
            rest.push(names[n - 1])
        } else {
            rest
        }
    }
}

fn list_contains(v: &Vec<String>, name: &str) -> (b: bool)
    ensures
        b == strings_of(v@).contains(name@),
{
    let mut i: usize = 0;
    while i < v.len()
        invariant
            i <= v@.len(),
            forall|j: int| 0 <= j < i ==> v@[j]@ != name@,
        decreases v.len() - i,
    {
        if str_eq(v[i].as_str(), name) {
            assert(strings_of(v@)[i as int] == name@);
            return true;
        }
        i = i + 1;
    }
    proof {
        if strings_of(v@).contains(name@) {
            let k = choose|k: int| 0 <= k < strings_of(v@).len() && strings_of(v@)[k] == name@;
            assert(v@[k]@ == name@);
        }
    }
    false
}

/// The names, among the parent registry's tools, that a sub-agent with this
/// definition gets: disallowed tools are left out, and unless the
/// definition allows every tool, so are the tools it does not list.
pub fn build_agent_registry(tool_names: &Vec<String>, definition: &AgentDefinition) -> (r: Vec<String>)
    ensures
        strings_of(r@) == allowed_tools(strings_of(tool_names@), *definition, tool_names@.len() as int),
{
    let has_wildcard = match &definition.tools {
        None => true,
        Some(t) => t.len() == 0 || (t.len() == 1 && str_eq(t[0].as_str(), "*")),
    };
    let ghost names = strings_of(tool_names@);
    let mut out: Vec<String> = Vec::new();
    let mut i: usize = 0;
    while i < tool_names.len()
        invariant
            i <= tool_names@.len(),
            names == strings_of(tool_names@),
            has_wildcard == spec_all_tools(opt_strings(definition.tools)),
            strings_of(out@) == allowed_tools(names, *definition, i as int),
        decreases tool_names.len() - i,
    {
        let name = tool_names[i].as_str();
        let disallowed = match &definition.disallowed_tools {
            Some(d) => list_contains(d, name),
            None => false,
        };
        let listed = match &definition.tools {
            Some(t) => list_contains(t, name),
            None => false,
        };
        assert(names[i as int] == name@);
        if !disallowed && (has_wildcard || listed) {
            out.push(tool_names[i].clone());
            assert(strings_of(out@) =~= allowed_tools(names, *definition, i + 1));
        }
        i = i + 1;
    }
    out
}

} // verus!
