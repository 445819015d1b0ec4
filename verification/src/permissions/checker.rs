//! The permission checker: rules, mode fallback, session grants and the
//! in-memory audit of decisions.
//!
//! A check runs in two steps. [`PermissionChecker::decide`] settles every
//! call that needs no user interaction; when it answers
//! [`CheckStep::Prompt`], the caller asks the user (with the request from
//! [`prompt_request`]) and hands the answer to
//! [`PermissionChecker::resolve_prompt`].
use vstd::prelude::*;

use super::rules::{
    first_of_kind, some_rule_of_kind, spec_display, spec_evaluate, PermissionDecision, PermissionRule, RuleKind,
    RuleMatcher,
};
use crate::approval::allowlist::{ArgShape, SessionAllowlist};
use crate::approval::audit::ApprovalTier;
use crate::text::{
    char_len_utf8, char_width, chars_of, concat2, concat3, lemma_utf8_len_ge_len,
    lemma_utf8_len_prefix_le, lemma_utf8_len_take, push_str, str_eq, string_of, sub_string,
    utf8_len,
};

verus! {

/// The risk class a tool declares for itself.
#[derive(Debug, Clone, Copy, PartialEq, Eq, Structural)]
pub enum PermissionCategory {
    /// Observes only.
    ReadOnly,
    /// Writes or edits files.
    FileWrite,
    /// Runs shell commands.
    Shell,
    /// Anything else.
    Other,
}

/// Permission mode — controls fallback behavior when no explicit rule matches.
#[derive(Debug, Clone, Copy, PartialEq, Eq, Structural, Default)]
pub enum PermissionMode {
    /// Read-only tools auto-allowed, write/shell tools trigger Ask.
    #[default]
    Default,
    /// File tools (read + write) auto-allowed, shell still triggers Ask.
    AcceptEdits,
    /// Everything auto-allowed — power user / CI mode.
    BypassPermissions,
    /// Plan mode — only side-effect-free tools allowed; everything with side
    /// effects is denied, except the plan-mode tools themselves.
    Plan,
}

/// The decision a mode takes when no rule matched.
pub open spec fn spec_fallback(mode: PermissionMode, category: PermissionCategory, tool_name: Seq<char>) -> PermissionDecision {
    match mode {
        PermissionMode::Default => match category {
            PermissionCategory::ReadOnly => PermissionDecision::Allowed,
            _ => PermissionDecision::Ask,
        },
        PermissionMode::AcceptEdits => match category {
            PermissionCategory::ReadOnly | PermissionCategory::FileWrite => PermissionDecision::Allowed,
            _ => PermissionDecision::Ask,
        },
        PermissionMode::BypassPermissions => PermissionDecision::Allowed,
        PermissionMode::Plan => match category {
            PermissionCategory::ReadOnly => PermissionDecision::Allowed,
            _ => if tool_name == "enter_plan_mode"@ || tool_name == "exit_plan_mode"@ {
                PermissionDecision::Allowed
            } else {
                PermissionDecision::Denied
            },
        },
    }
}

impl PermissionMode {
    /// Determine the fallback decision for a tool when no explicit rule
    /// matched. The tool name only matters for the plan-mode exception that
    /// lets `enter_plan_mode` / `exit_plan_mode` through.
    pub fn fallback(&self, category: PermissionCategory, tool_name: &str) -> (d: PermissionDecision)
        ensures
            d == spec_fallback(*self, category, tool_name@),
    {
        match self {
            PermissionMode::Default => match category {
                PermissionCategory::ReadOnly => PermissionDecision::Allowed,
                _ => PermissionDecision::Ask,
            },
            PermissionMode::AcceptEdits => match category {
                PermissionCategory::ReadOnly | PermissionCategory::FileWrite => {
                    PermissionDecision::Allowed
                },
                _ => PermissionDecision::Ask,
            },
            PermissionMode::BypassPermissions => PermissionDecision::Allowed,
            PermissionMode::Plan => match category {
                PermissionCategory::ReadOnly => PermissionDecision::Allowed,
                _ => {
                    if str_eq(tool_name, "enter_plan_mode") || str_eq(tool_name, "exit_plan_mode") {
                        PermissionDecision::Allowed
                    } else {
                        PermissionDecision::Denied
                    }
                },
            },
        }
    }
}

/// Response from a user when prompted for permission.
#[derive(Debug, Clone, Copy, PartialEq, Eq, Structural)]
pub enum PermissionResponse {
    AllowOnce,
    AllowAlways,
    Deny,
}

/// A single option displayed in a modal prompt.
#[derive(Debug, Clone)]
pub struct ModalOption {
    pub label: String,
    pub description: Option<String>,
}

impl ModalOption {
    pub fn new(label: &str) -> (r: Self)
        ensures
            r.label@ == label@,
            r.description is None,
    {
        ModalOption { label: label.to_string(), description: None }
    }

    pub fn with_description(self, desc: &str) -> (r: Self)
        ensures
            r.label == self.label,
            r.description matches Some(d) && d@ == desc@,
    {
        ModalOption { label: self.label, description: Some(desc.to_string()) }
    }
}

/// A request to show a modal to the user and get a selection.
#[derive(Debug, Clone)]
pub struct ModalRequest {
    pub title: String,
    pub subtitle: Option<String>,
    pub options: Vec<ModalOption>,
}

/// The shape that a wildcard grant for `tool` stores: `tool:*`.
pub open spec fn wildcard_shape(tool: Seq<char>) -> Seq<char> {
    tool + ":*"@
}

/// Whether grants `g` let a call of `tool` with `shape` through: an exact
/// grant or a wildcard grant for the tool.
pub open spec fn spec_granted(g: Seq<(Seq<char>, Seq<char>)>, tool: Seq<char>, shape: Seq<char>) -> bool {
    g.contains((tool, shape)) || g.contains((tool, wildcard_shape(tool)))
}

proof fn lemma_push_to_set<A>(s: Seq<A>, x: A)
    ensures
        s.push(x).to_set() == s.to_set().insert(x),
{
    assert forall|y: A| s.push(x).to_set().contains(y) <==> s.to_set().insert(x).contains(y) by {
        if s.contains(y) {
            let i = choose|i: int| 0 <= i < s.len() && s[i] == y;
            assert(s.push(x)[i] == y);
        }
        if y == x {
            assert(s.push(x)[s.len() as int] == x);
        }
        if s.push(x).contains(y) {
            let i = choose|i: int| 0 <= i < s.push(x).len() && s.push(x)[i] == y;
            if i < s.len() {
                assert(s[i] == y);
            }
        }
    }
    assert(s.push(x).to_set() =~= s.to_set().insert(x));
}

/// In-memory store for session-scoped permission grants, keyed by
/// `(tool_name, ArgShape)`. The tool-only API grants the wildcard shape
/// `tool:*`.
#[derive(Debug, Default)]
pub struct SessionGrants {
    inner: SessionAllowlist,
}

fn wildcard_for(tool_name: &str) -> (s: ArgShape)
    ensures
        s.0@ == wildcard_shape(tool_name@),
{
    ArgShape(concat2(tool_name, ":*"))
}

impl View for SessionGrants {
    type V = Seq<(Seq<char>, Seq<char>)>;

    closed spec fn view(&self) -> Seq<(Seq<char>, Seq<char>)> {
        self.inner@
    }
}

impl SessionGrants {
    pub closed spec fn wf(&self) -> bool {
        self.inner.wf()
    }

    pub fn new() -> (r: Self)
        ensures
            r@ == Seq::<(Seq<char>, Seq<char>)>::empty(),
            r.wf(),
    {
        SessionGrants { inner: SessionAllowlist::new() }
    }

    /// Wildcard grant — matches any input on this tool.
    pub fn grant(&mut self, tool_name: String)
        requires
            old(self).wf(),
        ensures
            final(self).wf(),
            final(self)@.to_set() == old(self)@.to_set().insert(
                (tool_name@, wildcard_shape(tool_name@)),
            ),
    {
        let shape = wildcard_for(tool_name.as_str());
        let ghost key = (tool_name@, shape.0@);
        self.inner.grant(tool_name, shape);
        proof {
            if old(self)@.contains(key) {
                assert(old(self)@.to_set().insert(key) =~= old(self)@.to_set());
            } else {
                lemma_push_to_set(old(self)@, key);
            }
        }
    }

    /// Shape-aware grant.
    pub fn grant_shape(&mut self, tool_name: String, shape: ArgShape)
        requires
            old(self).wf(),
        ensures
            final(self).wf(),
            final(self)@.to_set() == old(self)@.to_set().insert((tool_name@, shape.0@)),
    {
        let ghost key = (tool_name@, shape.0@);
        self.inner.grant(tool_name, shape);
        proof {
            if old(self)@.contains(key) {
                assert(old(self)@.to_set().insert(key) =~= old(self)@.to_set());
            } else {
                lemma_push_to_set(old(self)@, key);
            }
        }
    }

    /// Wildcard check — true if a wildcard grant exists for this tool.
    pub fn is_granted(&self, tool_name: &str) -> (b: bool)
        ensures
            b == self@.contains((tool_name@, wildcard_shape(tool_name@))),
    {
        let w = wildcard_for(tool_name);
        self.inner.is_granted(tool_name, &w)
    }

    /// Shape-aware check. Falls back to the wildcard grant when no exact
    /// shape grant exists.
    pub fn is_granted_shape(&self, tool_name: &str, shape: &ArgShape) -> (b: bool)
        ensures
            b == spec_granted(self@, tool_name@, shape.0@),
    {
        if self.inner.is_granted(tool_name, shape) {
            return true;
        }
        let w = wildcard_for(tool_name);
        self.inner.is_granted(tool_name, &w)
    }

    /// Clear all session grants.
    pub fn clear(&mut self)
        ensures
            final(self)@ == Seq::<(Seq<char>, Seq<char>)>::empty(),
            final(self).wf(),
    {
        self.inner.clear();
    }
}

/// Why a permission decision came out the way it did.
#[derive(Debug, Clone)]
pub enum DecisionReason {
    /// A specific rule matched.
    MatchedRule(PermissionRule),
    /// A previous session grant let it through.
    SessionGrant,
    /// No rule matched; the active mode's fallback decided.
    ModeFallback { mode: PermissionMode },
    /// User answered an interactive prompt.
    Prompted,
    /// No checker is wired (default-allow, internal callers).
    NoChecker,
}

pub open spec fn spec_kind_word(k: RuleKind) -> Seq<char> {
    match k {
        RuleKind::Allow => "allow"@,
        RuleKind::Deny => "deny"@,
        RuleKind::Ask => "ask"@,
    }
}

/// The mode's name as it appears, lower-cased, in reasons.
pub open spec fn spec_mode_word(m: PermissionMode) -> Seq<char> {
    match m {
        PermissionMode::Default => "default"@,
        PermissionMode::AcceptEdits => "acceptedits"@,
        PermissionMode::BypassPermissions => "bypasspermissions"@,
        PermissionMode::Plan => "plan"@,
    }
}

pub open spec fn spec_reason_display(r: DecisionReason) -> Seq<char> {
    match r {
        DecisionReason::MatchedRule(rule) => "rule '"@ + spec_kind_word(rule.kind) + " "@
            + spec_display(rule) + "'"@,
        DecisionReason::SessionGrant => "session grant"@,
        DecisionReason::ModeFallback { mode } => "mode default '"@ + spec_mode_word(mode) + "'"@,
        DecisionReason::Prompted => "user prompt"@,
        DecisionReason::NoChecker => "no permission checker configured"@,
    }
}

fn kind_word(k: RuleKind) -> (s: &'static str)
    ensures
        s@ == spec_kind_word(k),
{
    match k {
        RuleKind::Allow => "allow",
        RuleKind::Deny => "deny",
        RuleKind::Ask => "ask",
    }
}

fn mode_word(m: PermissionMode) -> (s: &'static str)
    ensures
        s@ == spec_mode_word(m),
{
    match m {
        PermissionMode::Default => "default",
        PermissionMode::AcceptEdits => "acceptedits",
        PermissionMode::BypassPermissions => "bypasspermissions",
        PermissionMode::Plan => "plan",
    }
}

impl DecisionReason {
    /// One-line human-readable form for error messages and audit display.
    pub fn display(&self) -> (s: String)
        ensures
            s@ == spec_reason_display(*self),
    {
        match self {
            DecisionReason::MatchedRule(r) => {
                let mut s = concat3("rule '", kind_word(r.kind), " ");
                let d = r.display_spec();
                push_str(&mut s, d.as_str());
                push_str(&mut s, "'");
                s
            },
            DecisionReason::SessionGrant => "session grant".to_string(),
            DecisionReason::ModeFallback { mode } => concat3("mode default '", mode_word(*mode), "'"),
            DecisionReason::Prompted => "user prompt".to_string(),
            DecisionReason::NoChecker => "no permission checker configured".to_string(),
        }
    }

    /// A copy with equal contents.
    pub fn duplicate(&self) -> (r: Self)
        ensures
            r == *self,
    {
        match self {
            DecisionReason::MatchedRule(r) => DecisionReason::MatchedRule(r.duplicate()),
            DecisionReason::SessionGrant => DecisionReason::SessionGrant,
            DecisionReason::ModeFallback { mode } => DecisionReason::ModeFallback { mode: *mode },
            DecisionReason::Prompted => DecisionReason::Prompted,
            DecisionReason::NoChecker => DecisionReason::NoChecker,
        }
    }
}

/// One row of the audit log — what was checked, when, and how it was decided.
#[derive(Debug, Clone)]
pub struct AuditEntry {
    /// Unix epoch seconds, as supplied by the caller.
    pub timestamp: u64,
    pub tool_name: String,
    pub tool_input_summary: String,
    pub decision: PermissionDecision,
    pub reason: String,
}

impl AuditEntry {
    pub fn duplicate(&self) -> (r: Self)
        ensures
            r == *self,
    {
        AuditEntry {
            timestamp: self.timestamp,
            tool_name: self.tool_name.clone(),
            tool_input_summary: self.tool_input_summary.clone(),
            decision: self.decision,
            reason: self.reason.clone(),
        }
    }
}

/// Read-only snapshot of the current permission state.
#[derive(Debug, Clone)]
pub struct PermissionSnapshot {
    pub mode: PermissionMode,
    pub allow_rules: Vec<String>,
    pub deny_rules: Vec<String>,
    pub ask_rules: Vec<String>,
    pub recent_decisions: Vec<AuditEntry>,
}

/// Cap on the audit buffer — newest decisions evict oldest.
pub const AUDIT_CAP: usize = 50;

/// The written forms of the rules of `kind`, in order.
pub open spec fn displays_of_kind(rules: Seq<PermissionRule>, kind: RuleKind) -> Seq<Seq<char>>
    decreases rules.len(),
{
    if rules.len() == 0 {
        seq![]
    } else {
        let rest = displays_of_kind(rules.drop_last(), kind);
        if rules.last().kind == kind {
            rest.push(spec_display(rules.last()))
        } else {
            rest
        }
    }
}

pub open spec fn strings_view(v: Seq<String>) -> Seq<Seq<char>> {
    v.map_values(|s: String| s@)
}

/// The first `n` characters of `s` (all of it when shorter).
pub open spec fn take_chars(s: Seq<char>, n: int) -> Seq<char> {
    if s.len() <= n {
        s
    } else {
        s.take(n)
    }
}

/// The audit after recording `e`: the oldest entry drops out when the
/// buffer is full.
pub open spec fn capped_push(a: Seq<AuditEntry>, e: AuditEntry) -> Seq<AuditEntry> {
    if a.len() >= AUDIT_CAP {
        a.skip(1).push(e)
    } else {
        a.push(e)
    }
}

/// One step of a check.
#[derive(Debug, Clone)]
pub enum CheckStep {
    /// Settled without asking the user.
    Decided { decision: PermissionDecision, reason: DecisionReason },
    /// The user must be asked; the reason is what the decision will be
    /// attributed to.
    Prompt { reason: DecisionReason },
}

/// What came of asking the user.
#[derive(Debug, Clone, Copy, PartialEq, Eq, Structural)]
pub enum PromptOutcome {
    /// No prompter is wired: the call fails closed.
    NoPrompter,
    /// The prompter returned this option index, or nothing when cancelled.
    Answered(Option<usize>),
}

/// The index of the first rule of `kind` applying to the call.
pub open spec fn first_index(rules: Seq<PermissionRule>, kind: RuleKind, name: Seq<char>, input: Seq<char>) -> int {
    choose|i: int| first_of_kind(rules, kind, name, input, i)
}

/// The first step of a check.
pub open spec fn spec_step(
    rules: Seq<PermissionRule>,
    mode: PermissionMode,
    grants: Seq<(Seq<char>, Seq<char>)>,
    name: Seq<char>,
    input: Seq<char>,
    category: PermissionCategory,
    shape: Seq<char>,
) -> CheckStep {
    let d = spec_evaluate(rules, name, input);
    if d == PermissionDecision::Denied {
        CheckStep::Decided {
            decision: PermissionDecision::Denied,
            reason: DecisionReason::MatchedRule(rules[first_index(rules, RuleKind::Deny, name, input)]),
        }
    } else if spec_granted(grants, name, shape) {
        CheckStep::Decided { decision: PermissionDecision::Allowed, reason: DecisionReason::SessionGrant }
    } else if d == PermissionDecision::Allowed {
        CheckStep::Decided {
            decision: PermissionDecision::Allowed,
            reason: DecisionReason::MatchedRule(rules[first_index(rules, RuleKind::Allow, name, input)]),
        }
    } else if d == PermissionDecision::Ask {
        CheckStep::Prompt { reason: DecisionReason::Prompted }
    } else {
        let f = spec_fallback(mode, category, name);
        if f == PermissionDecision::Ask {
            CheckStep::Prompt { reason: DecisionReason::ModeFallback { mode } }
        } else {
            CheckStep::Decided { decision: f, reason: DecisionReason::ModeFallback { mode } }
        }
    }
}

/// The decision and approval tier that an answer to the prompt gives.
pub open spec fn spec_prompt_result(outcome: PromptOutcome) -> (PermissionDecision, ApprovalTier) {
    match outcome {
        PromptOutcome::NoPrompter => (PermissionDecision::Denied, ApprovalTier::FailedClosed),
        PromptOutcome::Answered(Some(0)) => (PermissionDecision::Allowed, ApprovalTier::AllowOnce),
        PromptOutcome::Answered(Some(1)) => (PermissionDecision::Allowed, ApprovalTier::AllowForSession),
        PromptOutcome::Answered(_) => (PermissionDecision::Denied, ApprovalTier::Deny),
    }
}

/// `e` records a decision on the call.
pub open spec fn audit_records(
    e: AuditEntry,
    now: u64,
    name: Seq<char>,
    input: Seq<char>,
    decision: PermissionDecision,
    reason: DecisionReason,
) -> bool {
    &&& e.timestamp == now
    &&& e.tool_name@ == name
    &&& e.tool_input_summary@ == take_chars(input, 120)
    &&& e.decision == decision
    &&& e.reason@ == spec_reason_display(reason)
}

/// The central permission checker. Evaluates rules against tool calls,
/// decides through the mode when no rule applies, and honours session
/// grants. Its decisions are recorded in a [`DecisionAudit`], which several
/// checkers may share.
pub struct PermissionChecker {
    rules: Vec<PermissionRule>,
    mode: PermissionMode,
    grants: SessionGrants,
}

/// The rolling log of recent permission decisions, oldest first, holding at
/// most [`AUDIT_CAP`] entries.
pub struct DecisionAudit {
    entries: Vec<AuditEntry>,
}

/// Copy the first `n` characters of `s`.
fn summary_of(s: &str, n: usize) -> (r: String)
    ensures
        r@ == take_chars(s@, n as int),
{
    let v = chars_of(s);
    if v.len() <= n {
        string_of(v.as_slice())
    } else {
        assert(v@.subrange(0, n as int) == v@.take(n as int));
        sub_string(v.as_slice(), 0, n)
    }
}

impl View for DecisionAudit {
    type V = Seq<AuditEntry>;

    closed spec fn view(&self) -> Seq<AuditEntry> {
        self.entries@
    }
}

impl DecisionAudit {
    /// At most [`AUDIT_CAP`] entries.
    pub open spec fn wf(&self) -> bool {
        self@.len() <= AUDIT_CAP
    }

    /// An empty log.
    pub fn new() -> (r: Self)
        ensures
            r@ == Seq::<AuditEntry>::empty(),
            r.wf(),
    {
        DecisionAudit { entries: Vec::new() }
    }

    /// Record a decision on a call at time `now`; when the log is full, its
    /// oldest entry drops out. The input is kept as its first 120
    /// characters.
    pub fn record(
        &mut self,
        tool_name: &str,
        tool_input: &str,
        decision: PermissionDecision,
        reason: &DecisionReason,
        now: u64,
    )
        requires
            old(self).wf(),
        ensures
            final(self).wf(),
            final(self)@.len() > 0,
            final(self)@ == capped_push(old(self)@, final(self)@.last()),
            audit_records(final(self)@.last(), now, tool_name@, tool_input@, decision, *reason),
    {
        if self.entries.len() >= AUDIT_CAP {
            self.entries.remove(0);
            assert(self.entries@ == old(self).entries@.skip(1));
        }
        let e = AuditEntry {
            timestamp: now,
            tool_name: tool_name.to_string(),
            tool_input_summary: summary_of(tool_input, 120),
            decision,
            reason: reason.display(),
        };
        self.entries.push(e);
    }

    /// A copy of the entries, oldest first.
    pub fn entries(&self) -> (r: Vec<AuditEntry>)
        ensures
            r@ == self@,
    {
        let mut recent: Vec<AuditEntry> = Vec::new();
        let mut j: usize = 0;
        while j < self.entries.len()
            invariant
                j <= self.entries@.len(),
                recent@ == self.entries@.take(j as int),
            decreases self.entries.len() - j,
        {
            recent.push(self.entries[j].duplicate());
            assert(self.entries@.take(j + 1) == self.entries@.take(j as int).push(self.entries@[j as int]));
            j = j + 1;
        }
        assert(self.entries@.take(self.entries@.len() as int) == self.entries@);
        recent
    }
}

impl PermissionChecker {
    /// The grants hold no repeats.
    pub closed spec fn wf(&self) -> bool {
        self.grants.wf()
    }

    pub closed spec fn spec_rules(&self) -> Seq<PermissionRule> {
        self.rules@
    }

    pub closed spec fn spec_mode(&self) -> PermissionMode {
        self.mode
    }

    pub closed spec fn spec_grants(&self) -> Seq<(Seq<char>, Seq<char>)> {
        self.grants@
    }

    /// Create a new permission checker with the given rules and default mode.
    pub fn new(rules: Vec<PermissionRule>) -> (r: Self)
        ensures
            r.wf(),
            r.spec_rules() == rules@,
            r.spec_mode() == PermissionMode::Default,
            r.spec_grants() == Seq::<(Seq<char>, Seq<char>)>::empty(),
    {
        PermissionChecker {
            rules,
            mode: PermissionMode::Default,
            grants: SessionGrants::new(),
        }
    }

    /// Set the permission mode.
    pub fn with_mode(self, mode: PermissionMode) -> (r: Self)
        requires
            self.wf(),
        ensures
            r.wf(),
            r.spec_mode() == mode,
            r.spec_rules() == self.spec_rules(),
            r.spec_grants() == self.spec_grants(),
    {
        PermissionChecker { mode, ..self }
    }

    /// Replace the current rules with new ones.
    pub fn update_rules(&mut self, rules: Vec<PermissionRule>)
        requires
            old(self).wf(),
        ensures
            final(self).wf(),
            final(self).spec_rules() == rules@,
            final(self).spec_mode() == old(self).spec_mode(),
            final(self).spec_grants() == old(self).spec_grants(),
    {
        self.rules = rules;
    }

    /// Update the permission mode.
    pub fn update_mode(&mut self, mode: PermissionMode)
        requires
            old(self).wf(),
        ensures
            final(self).wf(),
            final(self).spec_mode() == mode,
            final(self).spec_rules() == old(self).spec_rules(),
            final(self).spec_grants() == old(self).spec_grants(),
    {
        self.mode = mode;
    }

    /// Get the current permission mode.
    pub fn mode(&self) -> (m: PermissionMode)
        ensures
            m == self.spec_mode(),
    {
        self.mode
    }

    /// Clear all session grants.
    pub fn clear_grants(&mut self)
        requires
            old(self).wf(),
        ensures
            final(self).wf(),
            final(self).spec_grants() == Seq::<(Seq<char>, Seq<char>)>::empty(),
            final(self).spec_mode() == old(self).spec_mode(),
            final(self).spec_rules() == old(self).spec_rules(),
    {
        self.grants.clear();
    }

    /// Grant a tool for the rest of the session, whatever its input.
    pub fn grant_tool(&mut self, tool_name: String)
        requires
            old(self).wf(),
        ensures
            final(self).wf(),
            final(self).spec_grants().to_set() == old(self).spec_grants().to_set().insert(
                (tool_name@, wildcard_shape(tool_name@)),
            ),
            final(self).spec_mode() == old(self).spec_mode(),
            final(self).spec_rules() == old(self).spec_rules(),
    {
        self.grants.grant(tool_name);
    }

    /// Whether a call of `tool_name` with `shape` is covered by a grant.
    pub fn is_granted_shape(&self, tool_name: &str, shape: &ArgShape) -> (b: bool)
        ensures
            b == spec_granted(self.spec_grants(), tool_name@, shape.0@),
    {
        self.grants.is_granted_shape(tool_name, shape)
    }

    /// Capture a read-only snapshot of the current rules (in written form,
    /// by kind), mode, and the recent decisions of `audit`.
    pub fn snapshot(&self, audit: &DecisionAudit) -> (s: PermissionSnapshot)
        ensures
            s.mode == self.spec_mode(),
            strings_view(s.allow_rules@) == displays_of_kind(self.spec_rules(), RuleKind::Allow),
            strings_view(s.deny_rules@) == displays_of_kind(self.spec_rules(), RuleKind::Deny),
            strings_view(s.ask_rules@) == displays_of_kind(self.spec_rules(), RuleKind::Ask),
            s.recent_decisions@ == audit@,
    {
        let mut allow_rules: Vec<String> = Vec::new();
        let mut deny_rules: Vec<String> = Vec::new();
        let mut ask_rules: Vec<String> = Vec::new();
        let mut i: usize = 0;
        while i < self.rules.len()
            invariant
                i <= self.rules@.len(),
                strings_view(allow_rules@) == displays_of_kind(self.rules@.take(i as int), RuleKind::Allow),
                strings_view(deny_rules@) == displays_of_kind(self.rules@.take(i as int), RuleKind::Deny),
                strings_view(ask_rules@) == displays_of_kind(self.rules@.take(i as int), RuleKind::Ask),
            decreases self.rules.len() - i,
        {
            let r = &self.rules[i];
            let spec = r.display_spec();
            let ghost t = self.rules@.take(i + 1);
            assert(t.drop_last() == self.rules@.take(i as int));
            assert(t.last() == self.rules@[i as int]);
            match r.kind {
                RuleKind::Allow => {
                    allow_rules.push(spec);
                    assert(strings_view(allow_rules@) =~= displays_of_kind(t, RuleKind::Allow));
                },
                RuleKind::Deny => {
                    deny_rules.push(spec);
                    assert(strings_view(deny_rules@) =~= displays_of_kind(t, RuleKind::Deny));
                },
                RuleKind::Ask => {
                    ask_rules.push(spec);
                    assert(strings_view(ask_rules@) =~= displays_of_kind(t, RuleKind::Ask));
                },
            }
            i = i + 1;
        }
        assert(self.rules@.take(self.rules@.len() as int) == self.rules@);
        PermissionSnapshot { mode: self.mode, allow_rules, deny_rules, ask_rules, recent_decisions: audit.entries() }
    }

    /// The part of a check that needs no user: deny rules win over
    /// everything (grants included), then session grants, then allow rules;
    /// an ask rule, or a mode fallback of `Ask`, calls for a prompt.
    /// Settled decisions are recorded in the audit at time `now`.
    pub fn decide(
        &self,
        tool_name: &str,
        tool_input: &str,
        category: PermissionCategory,
        shape: &ArgShape,
        now: u64,
        audit: &mut DecisionAudit,
    ) -> (step: CheckStep)
        requires
            self.wf(),
            old(audit).wf(),
        ensures
            final(audit).wf(),
            step == spec_step(
                self.spec_rules(),
                self.spec_mode(),
                self.spec_grants(),
                tool_name@,
                tool_input@,
                category,
                shape.0@,
            ),
            step matches CheckStep::Prompt { .. } ==> final(audit)@ == old(audit)@,
            step matches CheckStep::Decided { decision, reason } ==> {
                &&& final(audit)@.len() > 0
                &&& final(audit)@ == capped_push(old(audit)@, final(audit)@.last())
                &&& audit_records(final(audit)@.last(), now, tool_name@, tool_input@, decision, reason)
            },
    {
        let ghost rules = self.rules@;
        let (rule_decision, matched) = RuleMatcher::evaluate_with_match(
            self.rules.as_slice(),
            tool_name,
            tool_input,
        );
        if rule_decision == PermissionDecision::Denied {
            let rule = match matched {
                Some(r) => r,
                None => {
                    assert(false);
                    PermissionRule::new(RuleKind::Deny, tool_name)
                },
            };
            proof {
                let i = choose|i: int|
                    first_of_kind(rules, RuleKind::Deny, tool_name@, tool_input@, i) && rules[i]
                        == rule;
                let j = first_index(rules, RuleKind::Deny, tool_name@, tool_input@);
                assert(first_of_kind(rules, RuleKind::Deny, tool_name@, tool_input@, j));
                if j < i {
                    assert(false);
                } else if i < j {
                    assert(false);
                }
            }
            let reason = DecisionReason::MatchedRule(rule);
            audit.record(tool_name, tool_input, PermissionDecision::Denied, &reason, now);
            return CheckStep::Decided { decision: PermissionDecision::Denied, reason };
        }
        if self.grants.is_granted_shape(tool_name, shape) {
            let reason = DecisionReason::SessionGrant;
            audit.record(tool_name, tool_input, PermissionDecision::Allowed, &reason, now);
            return CheckStep::Decided { decision: PermissionDecision::Allowed, reason };
        }
        match rule_decision {
            PermissionDecision::Allowed => {
                let rule = match matched {
                    Some(r) => r,
                    None => {
                        assert(false);
                        PermissionRule::new(RuleKind::Allow, tool_name)
                    },
                };
                proof {
                    let i = choose|i: int|
                        first_of_kind(rules, RuleKind::Allow, tool_name@, tool_input@, i)
                            && rules[i] == rule;
                    let j = first_index(rules, RuleKind::Allow, tool_name@, tool_input@);
                    assert(first_of_kind(rules, RuleKind::Allow, tool_name@, tool_input@, j));
                    if j < i {
                        assert(false);
                    } else if i < j {
                        assert(false);
                    }
                }
                let reason = DecisionReason::MatchedRule(rule);
                audit.record(tool_name, tool_input, PermissionDecision::Allowed, &reason, now);
                CheckStep::Decided { decision: PermissionDecision::Allowed, reason }
            },
            PermissionDecision::Ask => CheckStep::Prompt { reason: DecisionReason::Prompted },
            _ => {
                let mode = self.mode;
                let fallback = mode.fallback(category, tool_name);
                let reason = DecisionReason::ModeFallback { mode };
                if fallback == PermissionDecision::Ask {
                    CheckStep::Prompt { reason }
                } else {
                    audit.record(tool_name, tool_input, fallback, &reason, now);
                    CheckStep::Decided { decision: fallback, reason }
                }
            },
        }
    }

    /// Settle a check that needed a prompt. "Allow Always" (option 1) grants
    /// the call's shape for the session; option 0 allows once; any other
    /// answer, a cancelled prompt or a missing prompter denies. The decision
    /// is recorded in the audit with `reason`; the approval tier is returned
    /// for the approval log.
    pub fn resolve_prompt(
        &mut self,
        tool_name: &str,
        tool_input: &str,
        shape: &ArgShape,
        outcome: PromptOutcome,
        reason: &DecisionReason,
        now: u64,
        audit: &mut DecisionAudit,
    ) -> (r: (PermissionDecision, ApprovalTier))
        requires
            old(self).wf(),
            old(audit).wf(),
        ensures
            final(self).wf(),
            final(audit).wf(),
            r == spec_prompt_result(outcome),
            final(self).spec_rules() == old(self).spec_rules(),
            final(self).spec_mode() == old(self).spec_mode(),
            r.1 == ApprovalTier::AllowForSession ==> final(self).spec_grants().to_set()
                == old(self).spec_grants().to_set().insert((tool_name@, shape.0@)),
            r.1 != ApprovalTier::AllowForSession ==> final(self).spec_grants() == old(
                self,
            ).spec_grants(),
            final(audit)@.len() > 0,
            final(audit)@ == capped_push(old(audit)@, final(audit)@.last()),
            audit_records(final(audit)@.last(), now, tool_name@, tool_input@, r.0, *reason),
    {
        let (decision, tier) = match outcome {
            PromptOutcome::NoPrompter => (PermissionDecision::Denied, ApprovalTier::FailedClosed),
            PromptOutcome::Answered(Some(0)) => (PermissionDecision::Allowed, ApprovalTier::AllowOnce),
            PromptOutcome::Answered(Some(1)) => {
                self.grants.grant_shape(tool_name.to_string(), shape.duplicate());
                (PermissionDecision::Allowed, ApprovalTier::AllowForSession)
            },
            PromptOutcome::Answered(_) => (PermissionDecision::Denied, ApprovalTier::Deny),
        };
        audit.record(tool_name, tool_input, decision, reason, now);
        (decision, tier)
    }
}

/// Whether `k` characters of `s` is the longest prefix whose UTF-8 encoding
/// fits in `max` bytes.
pub open spec fn longest_prefix_within(s: Seq<char>, max: int, k: int) -> bool {
    &&& 0 <= k <= s.len()
    &&& utf8_len(s.take(k)) <= max
    &&& (k == s.len() || utf8_len(s.take(k + 1)) > max)
}

/// `t` is `input` shortened to at most `max` bytes: the whole input when it
/// fits, else its longest prefix that fits, followed by `…`.
pub open spec fn truncated_to(input: Seq<char>, max: int, t: Seq<char>) -> bool {
    &&& utf8_len(input) <= max ==> t == input
    &&& utf8_len(input) > max ==> exists|k: int| longest_prefix_within(input, max, k) && t == input.take(k) + seq!['\u{2026}']
}

/// Shorten `input` to at most `max_len` bytes at a character boundary,
/// marking a cut with `…`.
pub fn truncate_input(input: &str, max_len: usize) -> (r: String)
    ensures
        truncated_to(input@, max_len as int, r@),
{
    let v = chars_of(input);
    let n = v.len();
    let total = crate::text::byte_len(input);
    if total <= max_len {
        return input.to_string();
    }
    let mut i: usize = 0;
    let mut bytes: usize = 0;
    proof {
        assert(v@.take(0) == Seq::<char>::empty());
    }
    while i < n && char_len_utf8(v[i]) <= max_len - bytes
        invariant
            n == v@.len(),
            v@ == input@,
            i <= n,
            bytes == utf8_len(v@.take(i as int)),
            bytes <= max_len,
        decreases n - i,
    {
        proof {
            lemma_utf8_len_take(v@, i as int);
        }
        bytes = bytes + char_len_utf8(v[i]);
        i = i + 1;
    }
    proof {
        if i < n {
            lemma_utf8_len_take(v@, i as int);
        }
        assert(v@.subrange(0, i as int) == v@.take(i as int));
        assert(longest_prefix_within(input@, max_len as int, i as int));
    }
    let mut r = sub_string(v.as_slice(), 0, i);
    r.push('\u{2026}');
    assert(r@ =~= input@.take(i as int) + seq!['\u{2026}']);
    assert(longest_prefix_within(input@, max_len as int, i as int) && r@ == input@.take(i as int) + seq![
        '\u{2026}',
    ]);
    r
}

/// The request shown to the user when a tool call needs approval.
pub fn prompt_request(tool_name: &str, tool_input: &str) -> (req: ModalRequest)
    ensures
        req.title@ == "Permission Required"@,
        req.subtitle matches Some(s) && exists|t: Seq<char>|
            s@ == "Tool: "@ + tool_name@ + " \u{2014} "@ + t && truncated_to(tool_input@, 200, t),
        req.options@.len() == 3,
        req.options@[0].label@ == "Allow Once"@,
        req.options@[0].description matches Some(d) && d@ == "Allow this tool call only"@,
        req.options@[1].label@ == "Allow Always"@,
        req.options@[1].description matches Some(d) && d@ == "Allow for the rest of the session"@,
        req.options@[2].label@ == "Deny"@,
        req.options@[2].description matches Some(d) && d@ == "Block this tool call"@,
{
    let t = truncate_input(tool_input, 200);
    let mut subtitle = concat3("Tool: ", tool_name, " \u{2014} ");
    push_str(&mut subtitle, t.as_str());
    let mut options: Vec<ModalOption> = Vec::new();
    options.push(ModalOption::new("Allow Once").with_description("Allow this tool call only"));
    options.push(
        ModalOption::new("Allow Always").with_description("Allow for the rest of the session"),
    );
    options.push(ModalOption::new("Deny").with_description("Block this tool call"));
    ModalRequest { title: "Permission Required".to_string(), subtitle: Some(subtitle), options }
}

/// A deny rule that applies wins over everything else: grants, allow
/// rules and the mode cannot let the call through.
pub proof fn law_deny_rule_wins(
    rules: Seq<PermissionRule>,
    mode: PermissionMode,
    grants: Seq<(Seq<char>, Seq<char>)>,
    name: Seq<char>,
    input: Seq<char>,
    category: PermissionCategory,
    shape: Seq<char>,
)
    requires
        some_rule_of_kind(rules, RuleKind::Deny, name, input),
    ensures
        spec_step(rules, mode, grants, name, input, category, shape) matches CheckStep::Decided {
            decision: PermissionDecision::Denied,
            ..
        },
{
}

/// An allow rule that applies, with no deny rule, allows the call in every
/// mode: explicit rules override the mode.
pub proof fn law_allow_rule_overrides_mode(
    rules: Seq<PermissionRule>,
    mode: PermissionMode,
    grants: Seq<(Seq<char>, Seq<char>)>,
    name: Seq<char>,
    input: Seq<char>,
    category: PermissionCategory,
    shape: Seq<char>,
)
    requires
        !some_rule_of_kind(rules, RuleKind::Deny, name, input),
        some_rule_of_kind(rules, RuleKind::Allow, name, input),
    ensures
        spec_step(rules, mode, grants, name, input, category, shape) matches CheckStep::Decided {
            decision: PermissionDecision::Allowed,
            ..
        },
{
}

/// Once a call's shape is granted for the session (by "Allow Always", or
/// a wildcard grant of the tool), every later call of that tool with that
/// shape is allowed without a prompt, unless a deny rule applies.
pub proof fn law_granted_shape_allowed(
    rules: Seq<PermissionRule>,
    mode: PermissionMode,
    grants: Seq<(Seq<char>, Seq<char>)>,
    name: Seq<char>,
    input: Seq<char>,
    category: PermissionCategory,
    shape: Seq<char>,
)
    requires
        !some_rule_of_kind(rules, RuleKind::Deny, name, input),
        grants.to_set().contains((name, shape)) || grants.to_set().contains((name, wildcard_shape(name))),
    ensures
        spec_step(rules, mode, grants, name, input, category, shape) == (CheckStep::Decided {
            decision: PermissionDecision::Allowed,
            reason: DecisionReason::SessionGrant,
        }),
{
    if grants.to_set().contains((name, shape)) {
        assert(grants.contains((name, shape)));
    } else {
        assert(grants.contains((name, wildcard_shape(name))));
    }
}

/// A grant for one shape lets through that shape only; a wildcard grant
/// lets through every shape of its tool and of no other tool.
pub proof fn law_grant_is_shape_specific(tool: Seq<char>, granted: Seq<char>, other_tool: Seq<char>, shape: Seq<char>)
    ensures
        spec_granted(seq![(tool, granted)], other_tool, shape) <==> (other_tool == tool && (shape == granted
            || granted == wildcard_shape(tool))),
{
    let g = seq![(tool, granted)];
    if spec_granted(g, other_tool, shape) {
        if g.contains((other_tool, shape)) {
            let i = choose|i: int| 0 <= i < g.len() && g[i] == (other_tool, shape);
            assert(i == 0);
        } else {
            let i = choose|i: int| 0 <= i < g.len() && g[i] == (other_tool, wildcard_shape(other_tool));
            assert(i == 0);
        }
    }
    if other_tool == tool && shape == granted {
        assert(g[0] == (other_tool, shape));
    }
    if other_tool == tool && granted == wildcard_shape(tool) {
        assert(g[0] == (other_tool, wildcard_shape(other_tool)));
    }
}

/// The audit never holds more than [`AUDIT_CAP`] entries, and its newest
/// entry is the last one recorded.
pub proof fn law_audit_bounded(a: Seq<AuditEntry>, e: AuditEntry)
    requires
        a.len() <= AUDIT_CAP,
    ensures
        capped_push(a, e).len() <= AUDIT_CAP,
        capped_push(a, e).last() == e,
        a.len() < AUDIT_CAP ==> capped_push(a, e) == a.push(e),
{
}

/// Accept-edits mode lets file tools through and nothing more: read-only
/// and file-writing calls are allowed, every other call (shell, other
/// tools) still asks, whatever the tool's name. It differs from the default
/// mode only on file-writing calls.
pub proof fn law_accept_edits_only_file_tools(category: PermissionCategory, name: Seq<char>)
    ensures
        (category == PermissionCategory::ReadOnly || category == PermissionCategory::FileWrite)
            ==> spec_fallback(PermissionMode::AcceptEdits, category, name) == PermissionDecision::Allowed,
        (category != PermissionCategory::ReadOnly && category != PermissionCategory::FileWrite)
            ==> spec_fallback(PermissionMode::AcceptEdits, category, name) == PermissionDecision::Ask,
        category != PermissionCategory::FileWrite ==> spec_fallback(PermissionMode::AcceptEdits, category, name)
            == spec_fallback(PermissionMode::Default, category, name),
        spec_fallback(PermissionMode::Default, PermissionCategory::FileWrite, name) == PermissionDecision::Ask,
{
}

} // verus!
