//! Hook configuration: which hook groups are registered for which events,
//! and how the results of running hooks combine.
use vstd::prelude::*;

use super::events::{spec_event_key, HookEvent};
use super::matcher::{spec_hook_matches, HookMatcher};
use crate::text::str_eq;

verus! {

/// A group of hooks sharing a common matcher.
#[derive(Debug, Clone)]
pub struct HookGroup {
    /// Optional matcher — if absent, hooks fire for all events of this type.
    pub matcher: Option<HookMatcher>,
    /// The hooks in this group.
    pub hooks: Vec<CommandHookDef>,
}

/// Definition of a command hook: a shell command to execute when the event fires.
#[derive(Debug, Clone)]
pub struct CommandHookDef {
    /// Hook type — currently only "command" is supported.
    pub hook_type: String,
    /// The shell command to execute.
    pub command: String,
    /// Timeout in seconds. Defaults to 10 if not specified.
    pub timeout: Option<u64>,
}

/// Top-level hook configuration: event names, each with its hook groups.
/// A name may appear more than once; its groups are then those of all its
/// entries, in order.
#[derive(Debug, Clone, Default)]
pub struct HookConfig {
    pub events: Vec<(String, Vec<HookGroup>)>,
}

/// The groups listed under `key`, in order.
pub open spec fn groups_of_key(events: Seq<(String, Vec<HookGroup>)>, key: Seq<char>) -> Seq<HookGroup>
    decreases events.len(),
{
    if events.len() == 0 {
        seq![]
    } else {
        let rest = groups_of_key(events.drop_last(), key);
        if events.last().0@ == key {
            rest + events.last().1@
        } else {
            rest
        }
    }
}

/// Whether a group fires for an event with `field` and `content`: it has no
/// matcher, or its matcher selects the event.
pub open spec fn group_fires(g: HookGroup, field: Seq<char>, content: Seq<char>) -> bool {
    match g.matcher {
        None => true,
        Some(m) => spec_hook_matches(m.raw@, field, content),
    }
}

/// The hooks of the groups that fire, in order.
pub open spec fn firing_hooks(groups: Seq<HookGroup>, field: Seq<char>, content: Seq<char>) -> Seq<CommandHookDef>
    decreases groups.len(),
{
    if groups.len() == 0 {
        seq![]
    } else {
        let rest = firing_hooks(groups.drop_last(), field, content);
        if group_fires(groups.last(), field, content) {
            rest + groups.last().hooks@
        } else {
            rest
        }
    }
}

pub proof fn lemma_groups_of_key_append(a: Seq<(String, Vec<HookGroup>)>, b: Seq<(String, Vec<HookGroup>)>, key: Seq<char>)
    ensures
        groups_of_key(a + b, key) == groups_of_key(a, key) + groups_of_key(b, key),
    decreases b.len(),
{
    if b.len() == 0 {
        assert(a + b == a);
        assert(groups_of_key(a, key) + seq![] == groups_of_key(a, key));
    } else {
        assert((a + b).drop_last() == a + b.drop_last());
        assert((a + b).last() == b.last());
        lemma_groups_of_key_append(a, b.drop_last(), key);
    }
}

proof fn lemma_firing_hooks_append(a: Seq<HookGroup>, b: Seq<HookGroup>, field: Seq<char>, content: Seq<char>)
    ensures
        firing_hooks(a + b, field, content) == firing_hooks(a, field, content) + firing_hooks(b, field, content),
    decreases b.len(),
{
    if b.len() == 0 {
        assert(a + b =~= a);
        assert(firing_hooks(a, field, content) + seq![] =~= firing_hooks(a, field, content));
    } else {
        assert((a + b).drop_last() =~= a + b.drop_last());
        assert((a + b).last() == b.last());
        lemma_firing_hooks_append(a, b.drop_last(), field, content);
        assert(firing_hooks(a, field, content) + firing_hooks(b.drop_last(), field, content) + b.last().hooks@
            =~= firing_hooks(a, field, content) + (firing_hooks(b.drop_last(), field, content) + b.last().hooks@));
    }
}

/// After merging configuration `b` into `a`, the hooks an event fires are
/// those `a` fires, then those `b` fires.
pub proof fn law_merge_fires_in_order(
    a: Seq<(String, Vec<HookGroup>)>,
    b: Seq<(String, Vec<HookGroup>)>,
    key: Seq<char>,
    field: Seq<char>,
    content: Seq<char>,
)
    ensures
        firing_hooks(groups_of_key(a + b, key), field, content) == firing_hooks(groups_of_key(a, key), field, content)
            + firing_hooks(groups_of_key(b, key), field, content),
{
    lemma_groups_of_key_append(a, b, key);
    lemma_firing_hooks_append(groups_of_key(a, key), groups_of_key(b, key), field, content);
}

/// Map a HookEvent to its config key string.
pub fn event_to_key(event: HookEvent) -> (s: &'static str)
    ensures
        s@ == spec_event_key(event),
{
    match event {
        HookEvent::PreToolUse => "PreToolUse",
        HookEvent::PostToolUse => "PostToolUse",
        HookEvent::PostToolUseFailure => "PostToolUseFailure",
        HookEvent::PermissionRequest => "PermissionRequest",
        HookEvent::PermissionDenied => "PermissionDenied",
        HookEvent::SessionStart => "SessionStart",
        HookEvent::SessionEnd => "SessionEnd",
        HookEvent::Setup => "Setup",
        HookEvent::Stop => "Stop",
        HookEvent::StopFailure => "StopFailure",
        HookEvent::UserPromptSubmit => "UserPromptSubmit",
        HookEvent::SubagentStart => "SubagentStart",
        HookEvent::SubagentStop => "SubagentStop",
        HookEvent::PreCompact => "PreCompact",
        HookEvent::PostCompact => "PostCompact",
        HookEvent::Notification => "Notification",
        HookEvent::WorktreeCreate => "WorktreeCreate",
        HookEvent::WorktreeRemove => "WorktreeRemove",
        HookEvent::CwdChanged => "CwdChanged",
        HookEvent::FileChanged => "FileChanged",
        HookEvent::TeammateIdle => "TeammateIdle",
        HookEvent::TaskCreated => "TaskCreated",
        HookEvent::TaskCompleted => "TaskCompleted",
        HookEvent::Elicitation => "Elicitation",
        HookEvent::ElicitationResult => "ElicitationResult",
        HookEvent::PromptInjectionVerdict => "PromptInjectionVerdict",
    }
}

pub open spec fn deref_groups(v: Seq<&HookGroup>) -> Seq<HookGroup> {
    v.map_values(|g: &HookGroup| *g)
}

pub open spec fn deref_hooks(v: Seq<&CommandHookDef>) -> Seq<CommandHookDef> {
    v.map_values(|h: &CommandHookDef| *h)
}

/// No event has any group.
pub open spec fn spec_config_empty(events: Seq<(String, Vec<HookGroup>)>) -> bool {
    forall|i: int| 0 <= i < events.len() ==> (#[trigger] events[i]).1@.len() == 0
}

impl HookConfig {
    /// The groups configured for `event`, in order.
    pub fn groups_for(&self, event: HookEvent) -> (r: Vec<&HookGroup>)
        ensures
            deref_groups(r@) == groups_of_key(self.events@, spec_event_key(event)),
    {
        let key = event_to_key(event);
        let mut out: Vec<&HookGroup> = Vec::new();
        let mut i: usize = 0;
        while i < self.events.len()
            invariant
                i <= self.events@.len(),
                key@ == spec_event_key(event),
                deref_groups(out@) == groups_of_key(self.events@.take(i as int), key@),
            decreases self.events.len() - i,
        {
            let entry = &self.events[i];
            let ghost before = out@;
            assert(self.events@.take(i + 1).drop_last() == self.events@.take(i as int));
            assert(self.events@.take(i + 1).last() == self.events@[i as int]);
            if str_eq(entry.0.as_str(), key) {
                let mut j: usize = 0;
                while j < entry.1.len()
                    invariant
                        j <= entry.1@.len(),
                        deref_groups(out@) == deref_groups(before) + entry.1@.take(j as int),
                    decreases entry.1.len() - j,
                {
                    let ghost prev = out@;
                    out.push(&entry.1[j]);
                    assert(deref_groups(out@) =~= deref_groups(prev).push(entry.1@[j as int]));
                    assert(entry.1@.take(j + 1) =~= entry.1@.take(j as int).push(entry.1@[j as int]));
                    j = j + 1;
                }
                assert(entry.1@.take(entry.1@.len() as int) == entry.1@);
            }
            i = i + 1;
        }
        assert(self.events@.take(self.events@.len() as int) == self.events@);
        out
    }

    /// All command hooks configured for `event` whose group fires for the
    /// given field value and content, in order.
    pub fn matching_hooks(&self, event: HookEvent, field_value: &str, content: &str) -> (r: Vec<&CommandHookDef>)
        ensures
            deref_hooks(r@) == firing_hooks(
                groups_of_key(self.events@, spec_event_key(event)),
                field_value@,
                content@,
            ),
    {
        let groups = self.groups_for(event);
        let ghost gs = deref_groups(groups@);
        let mut out: Vec<&CommandHookDef> = Vec::new();
        let mut i: usize = 0;
        while i < groups.len()
            invariant
                i <= groups@.len(),
                gs == deref_groups(groups@),
                deref_hooks(out@) == firing_hooks(gs.take(i as int), field_value@, content@),
            decreases groups.len() - i,
        {
            let g = groups[i];
            assert(gs.take(i + 1).drop_last() == gs.take(i as int));
            assert(gs.take(i + 1).last() == *g);
            let fires = match &g.matcher {
                None => true,
                Some(m) => m.matches(field_value, content),
            };
            if fires {
                let ghost before = out@;
                let mut j: usize = 0;
                while j < g.hooks.len()
                    invariant
                        j <= g.hooks@.len(),
                        deref_hooks(out@) == deref_hooks(before) + g.hooks@.take(j as int),
                    decreases g.hooks.len() - j,
                {
                    let ghost prev = out@;
                    out.push(&g.hooks[j]);
                    assert(deref_hooks(out@) =~= deref_hooks(prev).push(g.hooks@[j as int]));
                    assert(g.hooks@.take(j + 1) =~= g.hooks@.take(j as int).push(g.hooks@[j as int]));
                    j = j + 1;
                }
                assert(g.hooks@.take(g.hooks@.len() as int) == g.hooks@);
            }
            i = i + 1;
        }
        assert(gs.take(gs.len() as int) == gs);
        out
    }

    /// Merge another config into this one: for every event, the groups of
    /// `other` come after those already here.
    pub fn merge(&mut self, other: HookConfig)
        ensures
            forall|key: Seq<char>|
                #![trigger groups_of_key(final(self).events@, key)]
                groups_of_key(final(self).events@, key) == groups_of_key(old(self).events@, key)
                    + groups_of_key(other.events@, key),
    {
        let mut o = other.events;
        let ghost a = self.events@;
        let ghost b = o@;
        self.events.append(&mut o);
        assert forall|key: Seq<char>| #![trigger groups_of_key(self.events@, key)]
            groups_of_key(self.events@, key) == groups_of_key(a, key) + groups_of_key(b, key) by {
            lemma_groups_of_key_append(a, b, key);
        }
    }

    /// Returns true if this config has no hooks defined.
    pub fn is_empty(&self) -> (b: bool)
        ensures
            b == spec_config_empty(self.events@),
    {
        let mut i: usize = 0;
        while i < self.events.len()
            invariant
                i <= self.events@.len(),
                forall|k: int| 0 <= k < i ==> (#[trigger] self.events@[k]).1@.len() == 0,
            decreases self.events.len() - i,
        {
            if self.events[i].1.len() != 0 {
                return false;
            }
            i = i + 1;
        }
        true
    }
}

/// The result of executing a single hook.
#[derive(Debug, Clone)]
pub enum HookResult {
    /// Hook allowed the operation (exit code 0).
    Allow { stdout: String },
    /// Hook blocked the operation (exit code 2).
    Block { reason: String, stderr: String },
    /// Hook produced a warning but didn't block (other exit codes).
    Warn { message: String, stderr: String },
}

impl HookResult {
    /// A copy of the result.
    pub fn duplicate(&self) -> (r: Self)
        ensures
            r == *self,
    {
        match self {
            HookResult::Allow { stdout } => HookResult::Allow { stdout: stdout.clone() },
            HookResult::Block { reason, stderr } => HookResult::Block { reason: reason.clone(), stderr: stderr.clone() },
            HookResult::Warn { message, stderr } => HookResult::Warn { message: message.clone(), stderr: stderr.clone() },
        }
    }

    pub fn is_block(&self) -> (b: bool)
        ensures
            b == (*self is Block),
    {
        match self {
            HookResult::Block { .. } => true,
            _ => false,
        }
    }
}

/// Aggregated result from running all matching hooks for an event.
#[derive(Debug, Clone, Default)]
pub struct AggregatedHookResult {
    /// Whether any hook blocked the operation.
    pub blocked: bool,
    /// The blocking reason (from the first blocking hook).
    pub block_reason: Option<String>,
    /// Warning messages from non-blocking hooks.
    pub warnings: Vec<String>,
}

/// The reason of the first blocking result.
pub open spec fn first_block(rs: Seq<HookResult>) -> Option<String>
    decreases rs.len(),
{
    if rs.len() == 0 {
        None
    } else {
        match first_block(rs.drop_last()) {
            Some(r) => Some(r),
            None => match rs.last() {
                HookResult::Block { reason, .. } => Some(reason),
                _ => None,
            },
        }
    }
}

/// The messages of the warning results, in order.
pub open spec fn warnings_of(rs: Seq<HookResult>) -> Seq<String>
    decreases rs.len(),
{
    if rs.len() == 0 {
        seq![]
    } else {
        match rs.last() {
            HookResult::Warn { message, .. } => warnings_of(rs.drop_last()).push(message),
            _ => warnings_of(rs.drop_last()),
        }
    }
}

impl AggregatedHookResult {
    /// The empty aggregate: nothing blocked, no warnings.
    pub fn new() -> (r: Self)
        ensures
            !r.blocked,
            r.block_reason is None,
            r.warnings@.len() == 0,
    {
        AggregatedHookResult { blocked: false, block_reason: None, warnings: Vec::new() }
    }

    /// The aggregate of the results of all hooks run for one event: blocked
    /// if any hook blocked, with the first blocking hook's reason, and the
    /// warnings in order.
    pub fn of_results(results: &[HookResult]) -> (r: Self)
        ensures
            r.blocked == first_block(results@) is Some,
            r.block_reason == first_block(results@),
            r.warnings@ == warnings_of(results@),
    {
        let mut agg = AggregatedHookResult::new();
        let mut i: usize = 0;
        while i < results.len()
            invariant
                i <= results@.len(),
                agg.blocked == first_block(results@.take(i as int)) is Some,
                agg.block_reason == first_block(results@.take(i as int)),
                agg.warnings@ == warnings_of(results@.take(i as int)),
            decreases results.len() - i,
        {
            assert(results@.take(i + 1).drop_last() =~= results@.take(i as int));
            agg.add(results[i].duplicate());
            i = i + 1;
        }
        assert(results@.take(results@.len() as int) =~= results@);
        agg
    }

    /// Merge a single hook result into the aggregate: the first block sets
    /// the reason, later blocks change nothing, warnings are collected in
    /// order, allows change nothing.
    pub fn add(&mut self, result: HookResult)
        ensures
            match result {
                HookResult::Block { reason, .. } => if old(self).blocked {
                    *final(self) == *old(self)
                } else {
                    &&& final(self).blocked
                    &&& final(self).block_reason == Some(reason)
                    &&& final(self).warnings == old(self).warnings
                },
                HookResult::Warn { message, .. } => {
                    &&& final(self).blocked == old(self).blocked
                    &&& final(self).block_reason == old(self).block_reason
                    &&& final(self).warnings@ == old(self).warnings@.push(message)
                },
                HookResult::Allow { .. } => *final(self) == *old(self),
            },
    {
        match result {
            HookResult::Block { reason, .. } => {
                if !self.blocked {
                    self.blocked = true;
                    self.block_reason = Some(reason);
                }
            },
            HookResult::Warn { message, .. } => {
                self.warnings.push(message);
            },
            HookResult::Allow { .. } => {},
        }
    }
}

} // verus!
