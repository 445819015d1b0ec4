//! Permission configuration: allow / deny / ask rule lists in compact form.
use vstd::prelude::*;

use super::rules::{opt_str, spec_content_part, spec_tool_part, PermissionRule, RuleKind};

verus! {

/// Permission configuration — holds allow/deny/ask rule lists.
///
/// Loaded from settings and merged with priority (user > project > defaults).
#[derive(Debug, Clone, Default)]
pub struct PermissionConfig {
    /// Rules that explicitly allow tool execution.
    pub allow: Vec<String>,
    /// Rules that explicitly deny tool execution.
    pub deny: Vec<String>,
    /// Rules that require user confirmation before tool execution.
    pub ask: Vec<String>,
}

/// `r` is what `PermissionRule::parse(kind, s)` gives.
pub open spec fn parsed_as(r: PermissionRule, kind: RuleKind, s: Seq<char>) -> bool {
    &&& r.kind == kind
    &&& r.tool_pattern@ == spec_tool_part(s)
    &&& opt_str(r.content_pattern) == spec_content_part(s)
}

/// `out[start..start + specs.len()]` holds the parsed `specs`, in order.
pub open spec fn parsed_block(out: Seq<PermissionRule>, start: int, kind: RuleKind, specs: Seq<String>) -> bool {
    forall|k: int| 0 <= k < specs.len() ==> #[trigger] parsed_as(out[start + k], kind, specs[k]@)
}

fn push_parsed(out: &mut Vec<PermissionRule>, kind: RuleKind, specs: &Vec<String>)
    ensures
        final(out)@.len() == old(out)@.len() + specs@.len(),
        forall|k: int| 0 <= k < old(out)@.len() ==> #[trigger] final(out)@[k] == old(out)@[k],
        parsed_block(final(out)@, old(out)@.len() as int, kind, specs@),
{
    let ghost start = out@.len();
    let mut i: usize = 0;
    while i < specs.len()
        invariant
            i <= specs@.len(),
            start == old(out)@.len(),
            out@.len() == start + i,
            forall|k: int| 0 <= k < start ==> #[trigger] out@[k] == old(out)@[k],
            forall|k: int| 0 <= k < i ==> #[trigger] parsed_as(out@[start + k], kind, specs@[k]@),
        decreases specs.len() - i,
    {
        let r = PermissionRule::parse(kind, specs[i].as_str());
        out.push(r);
        i = i + 1;
    }
}

impl PermissionConfig {
    /// Parse the string-based config into typed `PermissionRule` values:
    /// all deny rules first, then allow, then ask, each in list order.
    pub fn into_rules(&self) -> (rules: Vec<PermissionRule>)
        ensures
            rules@.len() == self.deny@.len() + self.allow@.len() + self.ask@.len(),
            parsed_block(rules@, 0, RuleKind::Deny, self.deny@),
            parsed_block(rules@, self.deny@.len() as int, RuleKind::Allow, self.allow@),
            parsed_block(
                rules@,
                (self.deny@.len() + self.allow@.len()) as int,
                RuleKind::Ask,
                self.ask@,
            ),
    {
        let mut rules: Vec<PermissionRule> = Vec::new();
        push_parsed(&mut rules, RuleKind::Deny, &self.deny);
        let ghost r1 = rules@;
        push_parsed(&mut rules, RuleKind::Allow, &self.allow);
        let ghost r2 = rules@;
        push_parsed(&mut rules, RuleKind::Ask, &self.ask);
        assert forall|k: int| 0 <= k < self.deny@.len() implies #[trigger] parsed_as(
            rules@[0 + k],
            RuleKind::Deny,
            self.deny@[k]@,
        ) by {
            assert(parsed_as(r1[0 + k], RuleKind::Deny, self.deny@[k]@));
            assert(r2[k] == r1[k]);
        }
        assert forall|k: int| 0 <= k < self.allow@.len() implies #[trigger] parsed_as(
            rules@[self.deny@.len() + k],
            RuleKind::Allow,
            self.allow@[k]@,
        ) by {
            assert(parsed_as(r2[self.deny@.len() + k], RuleKind::Allow, self.allow@[k]@));
        }
        rules
    }

    /// Merge two configs: `self` is higher priority (e.g., user-level),
    /// `other` is lower priority (e.g., project-level). Each list is the
    /// list of `self` followed by that of `other`.
    pub fn merge(self, other: PermissionConfig) -> (r: PermissionConfig)
        ensures
            r.allow@ == self.allow@ + other.allow@,
            r.deny@ == self.deny@ + other.deny@,
            r.ask@ == self.ask@ + other.ask@,
    {
        let mut allow = self.allow;
        let mut deny = self.deny;
        let mut ask = self.ask;
        let mut oa = other.allow;
        let mut od = other.deny;
        let mut oq = other.ask;
        allow.append(&mut oa);
        deny.append(&mut od);
        ask.append(&mut oq);
        PermissionConfig { allow, deny, ask }
    }
}

/// Wrapper for the permissions section in the top-level config.
#[derive(Debug, Clone, Default)]
pub struct PermissionsSection {
    pub permissions: PermissionConfig,
}

/// The allow / deny / ask lists of an optional configuration (empty when absent).
pub open spec fn lists_of(c: Option<PermissionConfig>) -> (Seq<String>, Seq<String>, Seq<String>) {
    match c {
        Some(c) => (c.allow@, c.deny@, c.ask@),
        None => (seq![], seq![], seq![]),
    }
}

/// Merge the user-level and project-level configurations (user first) and
/// turn them into rules. A missing configuration counts as empty.
pub fn load_merged_permissions(
    user_config: Option<PermissionConfig>,
    project_config: Option<PermissionConfig>,
) -> (rules: Vec<PermissionRule>)
    ensures
        ({
            let (ua, ud, uq) = lists_of(user_config);
            let (pa, pd, pq) = lists_of(project_config);
            &&& rules@.len() == ud.len() + pd.len() + ua.len() + pa.len() + uq.len() + pq.len()
            &&& parsed_block(rules@, 0, RuleKind::Deny, ud + pd)
            &&& parsed_block(rules@, (ud.len() + pd.len()) as int, RuleKind::Allow, ua + pa)
            &&& parsed_block(
                rules@,
                (ud.len() + pd.len() + ua.len() + pa.len()) as int,
                RuleKind::Ask,
                uq + pq,
            )
        }),
{
    let u = match user_config {
        Some(c) => c,
        None => PermissionConfig { allow: Vec::new(), deny: Vec::new(), ask: Vec::new() },
    };
    let p = match project_config {
        Some(c) => c,
        None => PermissionConfig { allow: Vec::new(), deny: Vec::new(), ask: Vec::new() },
    };
    u.merge(p).into_rules()
}

} // verus!
