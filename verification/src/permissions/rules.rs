//! Permission rules: a kind (allow / deny / ask), a tool-name glob and an
//! optional glob on the tool input.
use vstd::prelude::*;

use crate::glob::glob_matches;
use crate::text::{chars_of, concat3, find_char, find_char_from, lemma_find_char_from, push_str, string_of, sub_string, sub_vec};

pub use crate::glob::glob_match;

verus! {

/// The kind of permission rule — what happens when it matches.
#[derive(Debug, Clone, Copy, PartialEq, Eq, Hash, Structural)]
pub enum RuleKind {
    Allow,
    Deny,
    Ask,
}

/// A single permission rule: a kind (allow/deny/ask), a tool name pattern,
/// and an optional content pattern for matching tool input.
///
/// Rules are written as `"Read"` (exact tool name), `"file_*"` (glob on the
/// tool name) or `"Bash(git *)"` (tool name plus a glob on the input).
#[derive(Debug, Clone, PartialEq, Eq, Hash)]
pub struct PermissionRule {
    pub kind: RuleKind,
    pub tool_pattern: String,
    /// Optional content pattern — if present, the tool input must also match this glob.
    pub content_pattern: Option<String>,
}

/// The view of an optional string.
pub open spec fn opt_str(o: Option<String>) -> Option<Seq<char>> {
    match o {
        Some(s) => Some(s@),
        None => None,
    }
}

/// `s` without its final character when that character is `c`.
pub open spec fn strip_last_char(s: Seq<char>, c: char) -> Seq<char> {
    if s.len() > 0 && s.last() == c {
        s.drop_last()
    } else {
        s
    }
}

/// The tool pattern of the compact form `Tool` or `Tool(content)`: the text
/// before the first `(`.
pub open spec fn spec_tool_part(s: Seq<char>) -> Seq<char> {
    match find_char_from(s, '(', 0) {
        Some(p) => s.take(p),
        None => s,
    }
}

/// The content pattern of the compact form: the text after the first `(`,
/// without one final `)`.
pub open spec fn spec_content_part(s: Seq<char>) -> Option<Seq<char>> {
    match find_char_from(s, '(', 0) {
        Some(p) => Some(strip_last_char(s.skip(p + 1), ')')),
        None => None,
    }
}

/// Whether a rule applies to a tool call.
pub open spec fn spec_rule_matches(r: PermissionRule, name: Seq<char>, input: Seq<char>) -> bool {
    glob_matches(r.tool_pattern@, name) && match r.content_pattern {
        Some(p) => glob_matches(p@, input),
        None => true,
    }
}

/// The compact form of a rule: `Tool` or `Tool(content)`.
pub open spec fn spec_display(r: PermissionRule) -> Seq<char> {
    match r.content_pattern {
        Some(c) => r.tool_pattern@ + "("@ + c@ + ")"@,
        None => r.tool_pattern@,
    }
}

/// Copy `s` without its final `c`, if it ends with one.
pub fn strip_last(s: &[char], c: char) -> (r: Vec<char>)
    ensures
        r@ == strip_last_char(s@, c),
{
    if s.len() > 0 && s[s.len() - 1] == c {
        let v = sub_vec(s, 0, s.len() - 1);
        assert(s@.subrange(0, s@.len() - 1) == s@.drop_last());
        v
    } else {
        let v = sub_vec(s, 0, s.len());
        assert(s@.subrange(0, s@.len() as int) == s@);
        v
    }
}

impl PermissionRule {
    pub fn new(kind: RuleKind, tool_pattern: &str) -> (r: Self)
        ensures
            r.kind == kind,
            r.tool_pattern@ == tool_pattern@,
            r.content_pattern is None,
    {
        PermissionRule { kind, tool_pattern: tool_pattern.to_string(), content_pattern: None }
    }

    pub fn with_content(self, pattern: &str) -> (r: Self)
        ensures
            r.kind == self.kind,
            r.tool_pattern == self.tool_pattern,
            opt_str(r.content_pattern) == Some(pattern@),
    {
        PermissionRule {
            kind: self.kind,
            tool_pattern: self.tool_pattern,
            content_pattern: Some(pattern.to_string()),
        }
    }

    /// A copy of this rule with equal fields.
    pub fn duplicate(&self) -> (r: Self)
        ensures
            r == *self,
    {
        PermissionRule {
            kind: self.kind,
            tool_pattern: self.tool_pattern.clone(),
            content_pattern: match &self.content_pattern {
                Some(c) => Some(c.clone()),
                None => None,
            },
        }
    }

    /// Parse a rule from the compact string format: `"ToolName"` or
    /// `"ToolName(content pattern)"`. Only the first `(` splits, and only
    /// one final `)` is removed.
    pub fn parse(kind: RuleKind, spec: &str) -> (r: Self)
        ensures
            r.kind == kind,
            r.tool_pattern@ == spec_tool_part(spec@),
            opt_str(r.content_pattern) == spec_content_part(spec@),
    {
        let s = chars_of(spec);
        let n = s.len();
        match find_char(s.as_slice(), '(', 0) {
            Some(p) => {
                proof {
                    lemma_find_char_from(s@, '(', 0);
                    assert(find_char_from(s@, '(', 0) == Some(p as int));
                    assert(p < s@.len());
                }
                let tool = sub_string(s.as_slice(), 0, p);
                let inner = sub_vec(s.as_slice(), p + 1, n);
                let content = strip_last(inner.as_slice(), ')');
                assert(s@.subrange(0, p as int) == s@.take(p as int));
                assert(s@.subrange(p + 1, s@.len() as int) == s@.skip(p + 1));
                PermissionRule {
                    kind,
                    tool_pattern: tool,
                    content_pattern: Some(string_of(content.as_slice())),
                }
            },
            None => PermissionRule { kind, tool_pattern: spec.to_string(), content_pattern: None },
        }
    }

    /// Check if this rule matches a given tool name and input.
    pub fn matches(&self, tool_name: &str, tool_input: &str) -> (b: bool)
        ensures
            b == spec_rule_matches(*self, tool_name@, tool_input@),
    {
        if !glob_match(self.tool_pattern.as_str(), tool_name) {
            return false;
        }
        match &self.content_pattern {
            Some(pattern) => glob_match(pattern.as_str(), tool_input),
            None => true,
        }
    }

    /// The rule in its compact written form, e.g. `shell(rm -rf *)`.
    pub fn display_spec(&self) -> (s: String)
        ensures
            s@ == spec_display(*self),
    {
        match &self.content_pattern {
            Some(c) => {
                let mut s = concat3(self.tool_pattern.as_str(), "(", c.as_str());
                push_str(&mut s, ")");
                s
            },
            None => self.tool_pattern.clone(),
        }
    }
}

/// The result of evaluating permission rules against a tool call.
#[derive(Debug, Clone, Copy, PartialEq, Eq, Structural)]
pub enum PermissionDecision {
    /// Tool is explicitly allowed — proceed with execution.
    Allowed,
    /// Tool is explicitly denied — return error to LLM.
    Denied,
    /// User must be prompted for permission.
    Ask,
    /// No rule matched — fall back to permission mode default.
    NoMatch,
}

/// Some rule of kind `kind` applies to the call.
pub open spec fn some_rule_of_kind(
    rules: Seq<PermissionRule>,
    kind: RuleKind,
    name: Seq<char>,
    input: Seq<char>,
) -> bool {
    exists|i: int|
        0 <= i < rules.len() && rules[i].kind == kind && #[trigger] spec_rule_matches(
            rules[i],
            name,
            input,
        )
}

/// The decision of a rule list: deny beats allow beats ask beats no match.
pub open spec fn spec_evaluate(rules: Seq<PermissionRule>, name: Seq<char>, input: Seq<char>) -> PermissionDecision {
    if some_rule_of_kind(rules, RuleKind::Deny, name, input) {
        PermissionDecision::Denied
    } else if some_rule_of_kind(rules, RuleKind::Allow, name, input) {
        PermissionDecision::Allowed
    } else if some_rule_of_kind(rules, RuleKind::Ask, name, input) {
        PermissionDecision::Ask
    } else {
        PermissionDecision::NoMatch
    }
}

/// `i` is the first rule of kind `kind` that applies to the call.
pub open spec fn first_of_kind(
    rules: Seq<PermissionRule>,
    kind: RuleKind,
    name: Seq<char>,
    input: Seq<char>,
    i: int,
) -> bool {
    &&& 0 <= i < rules.len()
    &&& rules[i].kind == kind
    &&& spec_rule_matches(rules[i], name, input)
    &&& forall|j: int|
        0 <= j < i ==> !(rules[j].kind == kind && #[trigger] spec_rule_matches(rules[j], name, input))
}

/// The rule kind that a decision stems from.
pub open spec fn decision_kind(d: PermissionDecision) -> RuleKind {
    match d {
        PermissionDecision::Denied => RuleKind::Deny,
        PermissionDecision::Allowed => RuleKind::Allow,
        _ => RuleKind::Ask,
    }
}

/// Evaluates a list of permission rules against a tool call.
pub struct RuleMatcher;

/// Index of the first rule of `kind` that applies, if any.
fn first_match_of_kind(rules: &[PermissionRule], kind: RuleKind, tool_name: &str, tool_input: &str) -> (r: Option<usize>)
    ensures
        r matches Some(i) ==> first_of_kind(rules@, kind, tool_name@, tool_input@, i as int),
        r is None ==> !some_rule_of_kind(rules@, kind, tool_name@, tool_input@),
{
    let mut i: usize = 0;
    while i < rules.len()
        invariant
            i <= rules@.len(),
            forall|j: int|
                0 <= j < i ==> !(rules@[j].kind == kind && #[trigger] spec_rule_matches(
                    rules@[j],
                    tool_name@,
                    tool_input@,
                )),
        decreases rules.len() - i,
    {
        if rules[i].kind == kind && rules[i].matches(tool_name, tool_input) {
            return Some(i);
        }
        i = i + 1;
    }
    None
}

impl RuleMatcher {
    /// Evaluate rules against a tool call. Priority: deny > allow > ask > no match.
    pub fn evaluate(rules: &[PermissionRule], tool_name: &str, tool_input: &str) -> (d: PermissionDecision)
        ensures
            d == spec_evaluate(rules@, tool_name@, tool_input@),
    {
        Self::evaluate_with_match(rules, tool_name, tool_input).0
    }

    /// Like [`RuleMatcher::evaluate`], and also hands back the first rule of
    /// the deciding kind.
    pub fn evaluate_with_match(rules: &[PermissionRule], tool_name: &str, tool_input: &str) -> (r: (
        PermissionDecision,
        Option<PermissionRule>,
    ))
        ensures
            r.0 == spec_evaluate(rules@, tool_name@, tool_input@),
            r.0 == PermissionDecision::NoMatch <==> r.1 is None,
            r.1 matches Some(rule) ==> exists|i: int|
                first_of_kind(rules@, decision_kind(r.0), tool_name@, tool_input@, i) && rules@[i]
                    == rule,
    {
        if let Some(i) = first_match_of_kind(rules, RuleKind::Deny, tool_name, tool_input) {
            return (PermissionDecision::Denied, Some(rules[i].duplicate()));
        }
        if let Some(i) = first_match_of_kind(rules, RuleKind::Allow, tool_name, tool_input) {
            return (PermissionDecision::Allowed, Some(rules[i].duplicate()));
        }
        if let Some(i) = first_match_of_kind(rules, RuleKind::Ask, tool_name, tool_input) {
            return (PermissionDecision::Ask, Some(rules[i].duplicate()));
        }
        (PermissionDecision::NoMatch, None)
    }
}

/// A rule parsed from its written form is displayed as that form: a
/// bare tool pattern, or a pattern and a parenthesised content pattern.
pub proof fn law_written_form_roundtrip(s: Seq<char>, r: PermissionRule)
    requires
        r.tool_pattern@ == spec_tool_part(s),
        opt_str(r.content_pattern) == spec_content_part(s),
        (forall|i: int| 0 <= i < s.len() ==> s[i] != '(') || (s.len() > 0 && s.last() == ')'),
    ensures
        spec_display(r) == s,
{
    reveal_strlit("(");
    reveal_strlit(")");
    lemma_find_char_from(s, '(', 0);
    match find_char_from(s, '(', 0) {
        Some(p) => {
            assert(s[p] == '(');
            assert(s.len() > 0 && s.last() == ')');
            assert(p < s.len() - 1);
            let rest = s.skip(p + 1);
            assert(rest.len() > 0 && rest.last() == ')');
            assert(s.take(p) + "("@ + rest.drop_last() + ")"@ =~= s);
        },
        None => {},
    }
}

} // verus!
