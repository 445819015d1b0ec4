//! The decisions of the agentic loop (prompt, model, tool calls, results,
//! again): which tools the model is offered, which of its tool calls are
//! run, how repeated failures and compaction failures are tracked, and the
//! results given for calls that are refused.
//!
//! Talking to the model, running tools and hooks, and awaiting them are
//! left to the caller, which drives the loop with these decisions.
use vstd::prelude::*;

use crate::permissions::PermissionDecision;
use crate::background::{notification_message, TaskNotification};
use crate::conversation::{Message, ToolDefinition, ToolUse};
use crate::stream::{calls_view, is_json_object, json_object, AssembledResponse, AssembledToolCall};
use crate::keyed::{find_key, key_value, set_key, unique_keys, lemma_key_remove};
use crate::skills::loader::{format_skill_listing, listing_defined, listing_header, spec_skill_listing};
use crate::skills::SkillDefinition;
use crate::system_prompt::{
    assembled, context_entries, environment_text, memory_lines, plugin_lines, static_sections, tools_text,
    with_section, workstream_text, ContextFile, SectionView, SystemPromptBuilder, DEFAULT_TOKEN_BUDGET,
};
use crate::text::{
    contains, decimal, decimal_u64, push_str, str_contains, str_eq, str_is_empty, to_lowercase, unicode_lower,
    utf8_len,
};

verus! {

/// Default maximum number of loop turns.
pub const DEFAULT_MAX_ITERATIONS: usize = 200;

/// Consecutive compaction failures after which compaction is skipped.
pub const MAX_COMPACT_FAILURES: u32 = 3;

/// The system prompt used when no prompt context is configured.
pub const DEFAULT_SYSTEM_PROMPT: &'static str = "You are Arawn, a helpful assistant. When you need to perform actions, use the available tools. Think step by step.";

/// Tools always offered.
pub const CORE_TOOLS: [&'static str; 8] = ["think", "shell", "file_read", "file_write", "file_edit", "glob", "grep", "Skill"];

/// Web tools: offered when the conversation is about URLs, the web, search or APIs.
pub const WEB_TOOLS: [&'static str; 2] = ["web_fetch", "web_search"];

/// Planning tools: offered when the conversation is about planning.
pub const PLAN_TOOLS: [&'static str; 2] = ["EnterPlanMode", "ExitPlanMode"];

/// Task tools: offered when the conversation is about tasks, to-dos or background work.
pub const TASK_TOOLS: [&'static str; 6] = ["TaskCreate", "TaskUpdate", "TaskGet", "TaskList", "TaskOutput", "TaskStop"];

/// Memory tools: offered when the conversation is about remembering.
pub const MEMORY_TOOLS: [&'static str; 2] = ["memory_store", "memory_search"];

/// Agent tools: offered when the conversation is about delegating.
pub const AGENT_TOOLS: [&'static str; 1] = ["Agent"];

/// Other tools always offered.
pub const ALWAYS_TOOLS: [&'static str; 2] = ["ask_user", "sleep"];

/// Words of the last user message that call for web tools.
pub const WEB_WORDS: [&'static str; 8] = ["http", "url", "web", "search", "fetch", "api", "github", "google"];

/// Words that call for planning tools.
pub const PLAN_WORDS: [&'static str; 1] = ["plan"];

/// Words that call for task tools.
pub const TASK_WORDS: [&'static str; 3] = ["task", "todo", "background"];

/// Words that call for memory tools.
pub const MEMORY_WORDS: [&'static str; 4] = ["remember", "recall", "memory", "forget"];

/// Words that call for agent tools.
pub const AGENT_WORDS: [&'static str; 2] = ["agent", "delegat"];

/// A list of names as text.
pub open spec fn names(a: Seq<&str>) -> Seq<Seq<char>> {
    a.map_values(|s: &str| s@)
}

/// The lower-cased text of the last user message, or nothing.
pub open spec fn last_user_text(msgs: Seq<Message>) -> Seq<char>
    decreases msgs.len(),
{
    if msgs.len() == 0 {
        seq![]
    } else {
        match msgs.last() {
            Message::User { content } => unicode_lower(content@),
            _ => last_user_text(msgs.drop_last()),
        }
    }
}

/// The names of the tools used in assistant messages, in order.
pub open spec fn used_names(msgs: Seq<Message>) -> Seq<Seq<char>>
    decreases msgs.len(),
{
    if msgs.len() == 0 {
        seq![]
    } else {
        used_names(msgs.drop_last()) + match msgs.last() {
            Message::Assistant { tool_uses, .. } => tool_uses@.map_values(|u: ToolUse| u.name@),
            _ => seq![],
        }
    }
}

/// Some word of `words` occurs in `text`.
pub open spec fn mentions_any(text: Seq<char>, words: Seq<Seq<char>>) -> bool {
    exists|k: int| 0 <= k < words.len() && contains(text, words[k])
}

/// Some tool of `group` was used.
pub open spec fn used_any(used: Seq<Seq<char>>, group: Seq<Seq<char>>) -> bool {
    exists|k: int| 0 <= k < group.len() && used.contains(group[k])
}

/// A group of tools is offered: its words are mentioned or one of its
/// tools was used.
pub open spec fn group_on(msgs: Seq<Message>, words: Seq<Seq<char>>, group: Seq<Seq<char>>) -> bool {
    mentions_any(last_user_text(msgs), words) || used_any(used_names(msgs), group)
}

/// Whether a tool is offered for a conversation: core and always-offered
/// tools, the groups that are called for, and every tool already used.
pub open spec fn tool_offered(msgs: Seq<Message>, name: Seq<char>) -> bool {
    ||| names(CORE_TOOLS@).contains(name)
    ||| names(ALWAYS_TOOLS@).contains(name)
    ||| (group_on(msgs, names(WEB_WORDS@), names(WEB_TOOLS@)) && names(WEB_TOOLS@).contains(name))
    ||| (group_on(msgs, names(PLAN_WORDS@), names(PLAN_TOOLS@)) && names(PLAN_TOOLS@).contains(name))
    ||| (group_on(msgs, names(TASK_WORDS@), names(TASK_TOOLS@)) && names(TASK_TOOLS@).contains(name))
    ||| (group_on(msgs, names(MEMORY_WORDS@), names(MEMORY_TOOLS@)) && names(MEMORY_TOOLS@).contains(name))
    ||| (group_on(msgs, names(AGENT_WORDS@), names(AGENT_TOOLS@)) && names(AGENT_TOOLS@).contains(name))
    ||| used_names(msgs).contains(name)
}

/// The tools of `tools` that `keep` accepts, in order.
pub open spec fn kept_tools(tools: Seq<ToolDefinition>, msgs: Seq<Message>) -> Seq<ToolDefinition>
    decreases tools.len(),
{
    if tools.len() == 0 {
        seq![]
    } else if tool_offered(msgs, tools.last().name@) {
        kept_tools(tools.drop_last(), msgs).push(tools.last())
    } else {
        kept_tools(tools.drop_last(), msgs)
    }
}

/// The tools offered for a turn: all of them in a conversation of at most
/// two messages, else those that `tool_offered` accepts, in order.
pub open spec fn spec_filter_tools(tools: Seq<ToolDefinition>, msgs: Seq<Message>) -> Seq<ToolDefinition> {
    if msgs.len() <= 2 {
        tools
    } else {
        kept_tools(tools, msgs)
    }
}

fn last_user_lowered(messages: &[Message]) -> (r: String)
    ensures
        r@ == last_user_text(messages@),
{
    let mut i: usize = messages.len();
    assert(messages@.take(messages@.len() as int) == messages@);
    while i > 0
        invariant
            i <= messages@.len(),
            last_user_text(messages@) == last_user_text(messages@.take(i as int)),
        decreases i,
    {
        assert(messages@.take(i as int).drop_last() == messages@.take(i - 1));
        assert(messages@.take(i as int).last() == messages@[i - 1]);
        match &messages[i - 1] {
            Message::User { content } => {
                return to_lowercase(content.as_str());
            },
            _ => {},
        }
        i = i - 1;
    }
    assert(messages@.take(0) == Seq::<Message>::empty());
    String::new()
}

fn collect_used(messages: &[Message]) -> (r: Vec<String>)
    ensures
        r@.map_values(|s: String| s@) == used_names(messages@),
{
    let mut out: Vec<String> = Vec::new();
    let mut i: usize = 0;
    while i < messages.len()
        invariant
            i <= messages@.len(),
            out@.map_values(|s: String| s@) == used_names(messages@.take(i as int)),
        decreases messages.len() - i,
    {
        assert(messages@.take(i + 1).drop_last() == messages@.take(i as int));
        match &messages[i] {
            Message::Assistant { tool_uses, .. } => {
                let ghost before = out@.map_values(|s: String| s@);
                let mut j: usize = 0;
                while j < tool_uses.len()
                    invariant
                        j <= tool_uses@.len(),
                        out@.map_values(|s: String| s@) == before + tool_uses@.take(j as int).map_values(|u: ToolUse| u.name@),
                    decreases tool_uses.len() - j,
                {
                    let ghost prev = out@.map_values(|s: String| s@);
                    out.push(tool_uses[j].name.clone());
                    assert(out@.map_values(|s: String| s@) =~= prev.push(tool_uses@[j as int].name@));
                    assert(tool_uses@.take(j + 1).map_values(|u: ToolUse| u.name@) =~= tool_uses@.take(j as int).map_values(|u: ToolUse| u.name@).push(tool_uses@[j as int].name@));
                    assert(out@.map_values(|s: String| s@) =~= before + tool_uses@.take(j + 1).map_values(|u: ToolUse| u.name@));
                    j = j + 1;
                }
                assert(tool_uses@.take(tool_uses@.len() as int) == tool_uses@);
            },
            _ => {
                assert(used_names(messages@.take(i + 1)) =~= used_names(messages@.take(i as int)));
            },
        }
        i = i + 1;
    }
    assert(messages@.take(messages@.len() as int) == messages@);
    out
}

fn mentions(text: &str, words: &[&'static str]) -> (b: bool)
    ensures
        b == mentions_any(text@, names(words@)),
{
    let mut i: usize = 0;
    while i < words.len()
        invariant
            i <= words@.len(),
            forall|k: int| 0 <= k < i ==> !contains(text@, names(words@)[k]),
        decreases words.len() - i,
    {
        if str_contains(text, words[i]) {
            assert(contains(text@, names(words@)[i as int]));
            return true;
        }
        i = i + 1;
    }
    false
}

fn in_list(list: &Vec<String>, name: &str) -> (b: bool)
    ensures
        b == list@.map_values(|s: String| s@).contains(name@),
{
    let ghost v = list@.map_values(|s: String| s@);
    let mut i: usize = 0;
    while i < list.len()
        invariant
            i <= list@.len(),
            v == list@.map_values(|s: String| s@),
            forall|k: int| 0 <= k < i ==> v[k] != name@,
        decreases list.len() - i,
    {
        if str_eq(list[i].as_str(), name) {
            assert(v[i as int] == name@);
            return true;
        }
        i = i + 1;
    }
    false
}

fn in_group(group: &[&'static str], name: &str) -> (b: bool)
    ensures
        b == names(group@).contains(name@),
{
    let mut i: usize = 0;
    while i < group.len()
        invariant
            i <= group@.len(),
            forall|k: int| 0 <= k < i ==> names(group@)[k] != name@,
        decreases group.len() - i,
    {
        if str_eq(group[i], name) {
            assert(names(group@)[i as int] == name@);
            return true;
        }
        i = i + 1;
    }
    false
}

fn any_used(used: &Vec<String>, group: &[&'static str]) -> (b: bool)
    ensures
        b == used_any(used@.map_values(|s: String| s@), names(group@)),
{
    let mut i: usize = 0;
    while i < group.len()
        invariant
            i <= group@.len(),
            forall|k: int| 0 <= k < i ==> !used@.map_values(|s: String| s@).contains(#[trigger] names(group@)[k]),
        decreases group.len() - i,
    {
        if in_list(used, group[i]) {
            assert(names(group@)[i as int] == group@[i as int]@);
            assert(used@.map_values(|s: String| s@).contains(names(group@)[i as int]));
            return true;
        }
        i = i + 1;
    }
    false
}

/// The tools to offer the model this turn: every tool early in a
/// conversation, else the core tools, the groups the last user message or
/// earlier tool use calls for, and every tool already used.
pub fn filter_tools_for_context(all_tools: &[ToolDefinition], messages: &[Message]) -> (r: Vec<ToolDefinition>)
    ensures
        r@ == spec_filter_tools(all_tools@, messages@),
{
    let mut out: Vec<ToolDefinition> = Vec::new();
    if messages.len() <= 2 {
        let mut i: usize = 0;
        while i < all_tools.len()
            invariant
                i <= all_tools@.len(),
                out@ == all_tools@.take(i as int),
            decreases all_tools.len() - i,
        {
            out.push(all_tools[i].duplicate());
            assert(all_tools@.take(i + 1) == all_tools@.take(i as int).push(all_tools@[i as int]));
            i = i + 1;
        }
        assert(all_tools@.take(all_tools@.len() as int) == all_tools@);
        return out;
    }
    let last = last_user_lowered(messages);
    let used = collect_used(messages);
    let web = mentions(last.as_str(), &WEB_WORDS) || any_used(&used, &WEB_TOOLS);
    let plan = mentions(last.as_str(), &PLAN_WORDS) || any_used(&used, &PLAN_TOOLS);
    let task = mentions(last.as_str(), &TASK_WORDS) || any_used(&used, &TASK_TOOLS);
    let memory = mentions(last.as_str(), &MEMORY_WORDS) || any_used(&used, &MEMORY_TOOLS);
    let agent = mentions(last.as_str(), &AGENT_WORDS) || any_used(&used, &AGENT_TOOLS);
    let mut i: usize = 0;
    while i < all_tools.len()
        invariant
            i <= all_tools@.len(),
            out@ == kept_tools(all_tools@.take(i as int), messages@),
            web == group_on(messages@, names(WEB_WORDS@), names(WEB_TOOLS@)),
            plan == group_on(messages@, names(PLAN_WORDS@), names(PLAN_TOOLS@)),
            task == group_on(messages@, names(TASK_WORDS@), names(TASK_TOOLS@)),
            memory == group_on(messages@, names(MEMORY_WORDS@), names(MEMORY_TOOLS@)),
            agent == group_on(messages@, names(AGENT_WORDS@), names(AGENT_TOOLS@)),
            used@.map_values(|s: String| s@) == used_names(messages@),
        decreases all_tools.len() - i,
    {
        assert(all_tools@.take(i + 1).drop_last() == all_tools@.take(i as int));
        let name = all_tools[i].name.as_str();
        let offered = in_group(&CORE_TOOLS, name) || in_group(&ALWAYS_TOOLS, name)
            || (web && in_group(&WEB_TOOLS, name)) || (plan && in_group(&PLAN_TOOLS, name))
            || (task && in_group(&TASK_TOOLS, name)) || (memory && in_group(&MEMORY_TOOLS, name))
            || (agent && in_group(&AGENT_TOOLS, name)) || in_list(&used, name);
        assert(offered == tool_offered(messages@, all_tools@[i as int].name@));
        if offered {
            out.push(all_tools[i].duplicate());
        }
        i = i + 1;
    }
    assert(all_tools@.take(all_tools@.len() as int) == all_tools@);
    out
}

/// The result of a tool call as fed back to the model.
#[derive(Debug, Clone)]
pub struct ToolResult {
    pub content: String,
    pub is_error: bool,
}

/// The key under which failures of a call are counted: its tool name and
/// its arguments' JSON text.
pub open spec fn spec_call_key(name: Seq<char>, args: Seq<char>) -> Seq<char> {
    name + ":"@ + args
}

/// How many times a call has failed.
pub open spec fn failures_of(counts: Seq<(String, u32)>, key: Seq<char>) -> u32 {
    match key_value(counts, key) {
        Some(c) => c,
        None => 0,
    }
}

/// The error result for a call that is not run, by the first reason that
/// applies: an unknown tool, arguments that are not a JSON object, or a
/// call that has failed twice already with the same arguments.
pub open spec fn spec_call_rejection(name: Seq<char>, registered: bool, args_is_object: bool, args: Seq<char>, failures: u32) -> Option<Seq<char>> {
    if !registered {
        Some("Tool '"@ + name + "' is not available. Use one of the registered tools."@)
    } else if !args_is_object {
        Some("Invalid arguments for tool '"@ + name + "': expected a JSON object, got "@ + args)
    } else if failures >= 2 {
        Some("This exact call to '"@ + name + "' has already failed "@ + decimal(failures as nat)
            + " times with the same arguments. Try a different approach, different arguments, or tell the user what went wrong."@)
    } else {
        None
    }
}

/// The state the loop carries from turn to turn.
pub struct EngineLoop {
    /// Turns allowed; 0 for no limit.
    pub max_iterations: usize,
    iteration: usize,
    compact_failures: u32,
    /// Failures of each call, by call key. No two entries share a key.
    failed_call_counts: Vec<(String, u32)>,
}

/// The loop's state: the turns taken, the consecutive compaction failures
/// and the failure counts of calls.
pub struct LoopView {
    pub max_iterations: usize,
    pub iteration: usize,
    pub compact_failures: u32,
    pub failed: Seq<(String, u32)>,
}

impl View for EngineLoop {
    type V = LoopView;

    closed spec fn view(&self) -> LoopView {
        LoopView {
            max_iterations: self.max_iterations,
            iteration: self.iteration,
            compact_failures: self.compact_failures,
            failed: self.failed_call_counts@,
        }
    }
}

/// The key under which failures of a call are counted.
pub fn call_key(name: &str, args: &str) -> (r: String)
    ensures
        r@ == spec_call_key(name@, args@),
{
    let mut r = name.to_string();
    push_str(&mut r, ":");
    push_str(&mut r, args);
    r
}

impl EngineLoop {
    pub open spec fn wf(&self) -> bool {
        unique_keys(self@.failed)
    }

    /// A loop that has taken no turn.
    pub fn new(max_iterations: usize) -> (r: Self)
        ensures
            r.wf(),
            r@.max_iterations == max_iterations,
            r@.iteration == 0,
            r@.compact_failures == 0,
            r@.failed.len() == 0,
    {
        EngineLoop { max_iterations, iteration: 0, compact_failures: 0, failed_call_counts: Vec::new() }
    }

    /// Start a turn: `Err` with the turns taken when the limit is reached
    /// (changing nothing), else the new turn's number.
    pub fn begin_turn(&mut self) -> (r: Result<usize, usize>)
        requires
            old(self)@.max_iterations > 0 || old(self)@.iteration < usize::MAX,
        ensures
            final(self)@.max_iterations == old(self)@.max_iterations,
            final(self)@.compact_failures == old(self)@.compact_failures,
            final(self)@.failed == old(self)@.failed,
            old(self)@.max_iterations > 0 && old(self)@.iteration >= old(self)@.max_iterations ==> r == Err::<usize, usize>(
                old(self)@.iteration) && final(self)@.iteration == old(self)@.iteration,
            !(old(self)@.max_iterations > 0 && old(self)@.iteration >= old(self)@.max_iterations) ==> r == Ok::<usize, usize>(
                (old(self)@.iteration + 1) as usize) && final(self)@.iteration == old(self)@.iteration + 1,
    {
        if self.max_iterations > 0 && self.iteration >= self.max_iterations {
            return Err(self.iteration);
        }
        self.iteration = self.iteration + 1;
        Ok(self.iteration)
    }

    /// Whether compaction may be tried: fewer than three consecutive
    /// failures.
    pub fn compaction_allowed(&self) -> (b: bool)
        ensures
            b == (self@.compact_failures < MAX_COMPACT_FAILURES),
    {
        self.compact_failures < MAX_COMPACT_FAILURES
    }

    /// Record the outcome of a compaction: a failure counts, a success
    /// resets the count.
    pub fn record_compaction(&mut self, succeeded: bool)
        requires
            old(self)@.compact_failures < u32::MAX,
        ensures
            final(self)@.compact_failures == if succeeded { 0 } else { (old(self)@.compact_failures + 1) as u32 },
            final(self)@.iteration == old(self)@.iteration,
            final(self)@.max_iterations == old(self)@.max_iterations,
            final(self)@.failed == old(self)@.failed,
    {
        if succeeded {
            self.compact_failures = 0;
        } else {
            self.compact_failures = self.compact_failures + 1;
        }
    }

    /// How many times a call has failed.
    pub fn failures(&self, name: &str, args: &str) -> (n: u32)
        requires
            self.wf(),
        ensures
            n == failures_of(self@.failed, spec_call_key(name@, args@)),
    {
        let key = call_key(name, args);
        match find_key(&self.failed_call_counts, key.as_str()) {
            Some(i) => self.failed_call_counts[i].1,
            None => 0,
        }
    }

    /// The error result for a call that is not to be run, or `None` when
    /// it may run.
    pub fn check_call(&self, name: &str, registered: bool, args_is_object: bool, args: &str) -> (r: Option<ToolResult>)
        requires
            self.wf(),
        ensures
            match spec_call_rejection(name@, registered, args_is_object, args@, failures_of(self@.failed, spec_call_key(name@, args@))) {
                None => r is None,
                Some(m) => r matches Some(t) && t.content@ == m && t.is_error,
            },
    {
        if !registered {
            let mut m = "Tool '".to_string();
            push_str(&mut m, name);
            push_str(&mut m, "' is not available. Use one of the registered tools.");
            return Some(ToolResult { content: m, is_error: true });
        }
        if !args_is_object {
            let mut m = "Invalid arguments for tool '".to_string();
            push_str(&mut m, name);
            push_str(&mut m, "': expected a JSON object, got ");
            push_str(&mut m, args);
            return Some(ToolResult { content: m, is_error: true });
        }
        let count = self.failures(name, args);
        if count >= 2 {
            let mut m = "This exact call to '".to_string();
            push_str(&mut m, name);
            push_str(&mut m, "' has already failed ");
            let d = decimal_u64(count as u64);
            push_str(&mut m, d.as_str());
            push_str(&mut m, " times with the same arguments. Try a different approach, different arguments, or tell the user what went wrong.");
            return Some(ToolResult { content: m, is_error: true });
        }
        None
    }

    /// Check a tool call assembled from the model's stream before running
    /// it: its arguments must parse to a JSON object.
    pub fn check_tool_call(&self, call: &AssembledToolCall, registered: bool) -> (r: Option<ToolResult>)
        requires
            self.wf(),
        ensures
            match spec_call_rejection(
                call.name@,
                registered,
                json_object(call.arguments@),
                call.arguments@,
                failures_of(self@.failed, spec_call_key(call.name@, call.arguments@)),
            ) {
                None => r is None,
                Some(m) => r matches Some(t) && t.content@ == m && t.is_error,
            },
    {
        let is_object = is_json_object(call.arguments.as_str());
        self.check_call(call.name.as_str(), registered, is_object, call.arguments.as_str())
    }

    /// Record a call's result: a failure counts, a success clears the
    /// call's count.
    pub fn record_result(&mut self, name: &str, args: &str, is_error: bool)
        requires
            old(self).wf(),
            is_error ==> failures_of(old(self)@.failed, spec_call_key(name@, args@)) < u32::MAX,
        ensures
            final(self).wf(),
            final(self)@.iteration == old(self)@.iteration,
            final(self)@.max_iterations == old(self)@.max_iterations,
            final(self)@.compact_failures == old(self)@.compact_failures,
            is_error ==> key_value(final(self)@.failed, spec_call_key(name@, args@)) == Some(
                (failures_of(old(self)@.failed, spec_call_key(name@, args@)) + 1) as u32),
            !is_error ==> key_value(final(self)@.failed, spec_call_key(name@, args@)) is None,
            forall|k: Seq<char>| k != spec_call_key(name@, args@) ==> #[trigger] key_value(final(self)@.failed, k)
                == key_value(old(self)@.failed, k),
    {
        let key = call_key(name, args);
        if is_error {
            let n = match find_key(&self.failed_call_counts, key.as_str()) {
                Some(i) => self.failed_call_counts[i].1,
                None => 0,
            };
            set_key(&mut self.failed_call_counts, key.as_str(), n + 1);
        } else {
            match find_key(&self.failed_call_counts, key.as_str()) {
                Some(i) => {
                    proof {
                        lemma_key_remove(self.failed_call_counts@, i as int);
                    }
                    self.failed_call_counts.remove(i);
                },
                None => {},
            }
        }
    }
}

/// The result for a tool that plan mode does not allow, or `None`: while
/// plan mode is active only the plan-mode tools and read-only tools run.
pub fn plan_mode_gate(plan_active: bool, name: &str, read_only: bool) -> (r: Option<ToolResult>)
    ensures
        (plan_active && !(name@ == "EnterPlanMode"@ || name@ == "ExitPlanMode"@ || read_only)) ==> (r matches Some(t)
            && t.is_error && t.content@ == "Plan mode is active \u{2014} only observation tools are allowed. Tool '"@ + name@
            + "' has side effects and cannot be used until the plan is approved. Call ExitPlanMode to present your plan for review."@),
        !(plan_active && !(name@ == "EnterPlanMode"@ || name@ == "ExitPlanMode"@ || read_only)) ==> r is None,
{
    if plan_active {
        let allowed = str_eq(name, "EnterPlanMode") || str_eq(name, "ExitPlanMode") || read_only;
        if !allowed {
            let mut m = "Plan mode is active \u{2014} only observation tools are allowed. Tool '".to_string();
            push_str(&mut m, name);
            push_str(&mut m, "' has side effects and cannot be used until the plan is approved. Call ExitPlanMode to present your plan for review.");
            return Some(ToolResult { content: m, is_error: true });
        }
    }
    None
}

/// The result for a call the permission rules deny.
pub fn permission_denied_result(name: &str) -> (r: ToolResult)
    ensures
        r.is_error,
        r.content@ == "Permission denied: tool '"@ + name@ + "' is not allowed by your permission settings."@,
{
    let mut m = "Permission denied: tool '".to_string();
    push_str(&mut m, name);
    push_str(&mut m, "' is not allowed by your permission settings.");
    ToolResult { content: m, is_error: true }
}

/// The result for a call a `PreToolUse` hook blocked.
pub fn hook_blocked_result(name: &str, reason: Option<String>) -> (r: ToolResult)
    ensures
        r.is_error,
        r.content@ == "Hook blocked tool '"@ + name@ + "': "@ + match reason { Some(s) => s@, None => "Blocked by hook"@ },
{
    let reason = match reason {
        Some(s) => s,
        None => "Blocked by hook".to_string(),
    };
    let mut m = "Hook blocked tool '".to_string();
    push_str(&mut m, name);
    push_str(&mut m, "': ");
    push_str(&mut m, reason.as_str());
    ToolResult { content: m, is_error: true }
}

/// The result for a tool that is not registered.
pub fn not_found_result(name: &str) -> (r: ToolResult)
    ensures
        r.is_error,
        r.content@ == "Tool '"@ + name@ + "' not found"@,
{
    let mut m = "Tool '".to_string();
    push_str(&mut m, name);
    push_str(&mut m, "' not found");
    ToolResult { content: m, is_error: true }
}

/// The result for a tool whose execution failed with `error`.
pub fn execution_error_result(error: &str) -> (r: ToolResult)
    ensures
        r.is_error,
        r.content@ == "Tool execution error: "@ + error@,
{
    let mut m = "Tool execution error: ".to_string();
    push_str(&mut m, error);
    ToolResult { content: m, is_error: true }
}

/// The message of the first gate that refuses a tool call, in the order
/// the gates are checked: plan mode, then the permission decision (when a
/// checker is configured), then the `PreToolUse` hooks (when a runner is
/// configured; `Some(reason)` when they blocked), then the lookup of the
/// tool; `None` when the tool is to be run.
pub open spec fn spec_gate_refusal(
    plan_active: bool,
    name: Seq<char>,
    read_only: bool,
    permission: Option<PermissionDecision>,
    hook_block: Option<Option<Seq<char>>>,
    registered: bool,
) -> Option<Seq<char>> {
    if plan_active && !(name == "EnterPlanMode"@ || name == "ExitPlanMode"@ || read_only) {
        Some("Plan mode is active \u{2014} only observation tools are allowed. Tool '"@ + name
            + "' has side effects and cannot be used until the plan is approved. Call ExitPlanMode to present your plan for review."@)
    } else if permission == Some(PermissionDecision::Denied) {
        Some("Permission denied: tool '"@ + name + "' is not allowed by your permission settings."@)
    } else if hook_block is Some {
        Some("Hook blocked tool '"@ + name + "': "@ + match hook_block->0 { Some(s) => s, None => "Blocked by hook"@ })
    } else if !registered {
        Some("Tool '"@ + name + "' not found"@)
    } else {
        None
    }
}

/// The view of a hook block reason.
pub open spec fn block_view(b: Option<Option<String>>) -> Option<Option<Seq<char>>> {
    match b {
        Some(Some(s)) => Some(Some(s@)),
        Some(None) => Some(None),
        None => None,
    }
}

/// The error result of the first gate that refuses a tool call, or `None`
/// when it is to be run. A gate's outcome is only looked at when every
/// earlier gate let the call through, so the caller may leave out (as
/// `None`) the outcomes of gates it did not reach.
pub fn gate_tool_call(
    plan_active: bool,
    name: &str,
    read_only: bool,
    permission: Option<PermissionDecision>,
    hook_block: Option<Option<String>>,
    registered: bool,
) -> (r: Option<ToolResult>)
    ensures
        r matches Some(t) ==> t.is_error,
        spec_gate_refusal(plan_active, name@, read_only, permission, block_view(hook_block), registered)
            == match r { Some(t) => Some(t.content@), None => None },
{
    match plan_mode_gate(plan_active, name, read_only) {
        Some(t) => return Some(t),
        None => {},
    }
    match permission {
        Some(PermissionDecision::Denied) => return Some(permission_denied_result(name)),
        _ => {},
    }
    match hook_block {
        Some(reason) => return Some(hook_blocked_result(name, reason)),
        None => {},
    }
    if !registered {
        return Some(not_found_result(name));
    }
    None
}

/// The positions of the calls to run, split into read-only ones (run
/// together) and the others (run one after another), each in order.
pub open spec fn spec_partition(valid: Seq<usize>, read_only: Seq<bool>, ro: bool) -> Seq<usize>
    decreases valid.len(),
{
    if valid.len() == 0 {
        seq![]
    } else {
        let p = spec_partition(valid.drop_last(), read_only, ro);
        let i = valid.last();
        if (i < read_only.len() && read_only[i as int]) == ro { p.push(i) } else { p }
    }
}

/// Split the calls to run into read-only and writing ones.
pub fn partition_calls(valid: &Vec<usize>, read_only: &Vec<bool>) -> (r: (Vec<usize>, Vec<usize>))
    ensures
        r.0@ == spec_partition(valid@, read_only@, true),
        r.1@ == spec_partition(valid@, read_only@, false),
{
    let mut ro: Vec<usize> = Vec::new();
    let mut rw: Vec<usize> = Vec::new();
    let mut k: usize = 0;
    while k < valid.len()
        invariant
            k <= valid@.len(),
            ro@ == spec_partition(valid@.take(k as int), read_only@, true),
            rw@ == spec_partition(valid@.take(k as int), read_only@, false),
        decreases valid.len() - k,
    {
        assert(valid@.take(k + 1).drop_last() == valid@.take(k as int));
        let i = valid[k];
        if i < read_only.len() && read_only[i] {
            ro.push(i);
        } else {
            rw.push(i);
        }
        k = k + 1;
    }
    assert(valid@.take(valid@.len() as int) == valid@);
    (ro, rw)
}

/// The per-turn context of the system prompt.
#[derive(Debug)]
pub struct PromptContext {
    /// Directory of section overrides, if any (read by the caller).
    pub prompts_dir: Option<String>,
    pub os: String,
    pub shell: String,
    pub cwd: String,
    pub workstream_name: String,
    pub workstream_root: String,
    pub context_files: Vec<ContextFile>,
    pub memories: Vec<String>,
    pub session_context: String,
    pub plugin_prompts: Vec<String>,
}

/// Configuration of the query engine.
#[derive(Debug)]
pub struct QueryEngineConfig {
    pub model: String,
    pub max_iterations: usize,
    /// The system prompt used when there is no prompt context.
    pub system_prompt: String,
    pub max_tokens: Option<u32>,
    /// Where large tool results are kept; none to only truncate them.
    pub data_dir: Option<String>,
    /// The per-turn prompt context; when set, `system_prompt` is not used.
    pub prompt_context: Option<PromptContext>,
}

impl Default for QueryEngineConfig {
    fn default() -> (r: Self)
        ensures
            r.model@.len() == 0,
            r.max_iterations == DEFAULT_MAX_ITERATIONS,
            r.system_prompt@ == DEFAULT_SYSTEM_PROMPT@,
            r.max_tokens is None,
            r.data_dir is None,
            r.prompt_context is None,
    {
        QueryEngineConfig {
            model: String::new(),
            max_iterations: DEFAULT_MAX_ITERATIONS,
            system_prompt: DEFAULT_SYSTEM_PROMPT.to_string(),
            max_tokens: None,
            data_dir: None,
            prompt_context: None,
        }
    }
}

/// A message as sent to the model.
#[derive(Debug, Clone)]
pub struct ChatMessage {
    pub role: String,
    pub content: String,
    pub tool_calls: Vec<ToolUse>,
    pub tool_call_id: Option<String>,
}

/// A message as sent to the model: role, content, tool calls, and the call
/// answered.
pub open spec fn chat_view(m: Message) -> (Seq<char>, Seq<char>, Seq<ToolUse>, Option<Seq<char>>) {
    match m {
        Message::User { content } => ("user"@, content@, seq![], None),
        Message::Assistant { content, tool_uses } => ("assistant"@, content@, tool_uses@, None),
        Message::ToolResult { tool_use_id, content, .. } => ("tool"@, content@, seq![], Some(tool_use_id@)),
        Message::Summary { content } => ("user"@, content@, seq![], None),
    }
}

pub open spec fn chat_message_view(c: ChatMessage) -> (Seq<char>, Seq<char>, Seq<ToolUse>, Option<Seq<char>>) {
    (c.role@, c.content@, c.tool_calls@, crate::plan::opt_view(c.tool_call_id))
}

fn copy_uses(us: &Vec<ToolUse>) -> (r: Vec<ToolUse>)
    ensures
        r@ == us@,
{
    let mut out: Vec<ToolUse> = Vec::new();
    let mut i: usize = 0;
    while i < us.len()
        invariant
            i <= us@.len(),
            out@ == us@.take(i as int),
        decreases us.len() - i,
    {
        out.push(us[i].duplicate());
        assert(us@.take(i + 1) == us@.take(i as int).push(us@[i as int]));
        i = i + 1;
    }
    assert(us@.take(us@.len() as int) == us@);
    out
}

/// The session's messages as sent to the model, in order.
pub fn to_chat_messages(messages: &[Message]) -> (r: Vec<ChatMessage>)
    ensures
        r@.len() == messages@.len(),
        forall|i: int| 0 <= i < r@.len() ==> chat_message_view(#[trigger] r@[i]) == chat_view(messages@[i]),
{
    let mut out: Vec<ChatMessage> = Vec::new();
    let mut i: usize = 0;
    while i < messages.len()
        invariant
            i <= messages@.len(),
            out@.len() == i,
            forall|k: int| 0 <= k < i ==> chat_message_view(#[trigger] out@[k]) == chat_view(messages@[k]),
        decreases messages.len() - i,
    {
        let c = match &messages[i] {
            Message::User { content } => ChatMessage {
                role: "user".to_string(),
                content: content.clone(),
                tool_calls: Vec::new(),
                tool_call_id: None,
            },
            Message::Assistant { content, tool_uses } => ChatMessage {
                role: "assistant".to_string(),
                content: content.clone(),
                tool_calls: copy_uses(tool_uses),
                tool_call_id: None,
            },
            Message::ToolResult { tool_use_id, content, .. } => ChatMessage {
                role: "tool".to_string(),
                content: content.clone(),
                tool_calls: Vec::new(),
                tool_call_id: Some(tool_use_id.clone()),
            },
            Message::Summary { content } => ChatMessage {
                role: "user".to_string(),
                content: content.clone(),
                tool_calls: Vec::new(),
                tool_call_id: None,
            },
        };
        assert(chat_message_view(c) == chat_view(messages@[i as int]));
        out.push(c);
        i = i + 1;
    }
    out
}

/// The builder state after one optional section.
pub open spec fn maybe_section(v: (Seq<SectionView>, u32), add: bool, name: Seq<char>, content: Seq<char>, priority: u8) -> (Seq<SectionView>, u32) {
    if add { with_section(v, name, content, priority) } else { v }
}

/// The sections of a turn's system prompt, in the order they are added:
/// the static sections, environment, workstream, tools, context files,
/// memories, session context and plugin instructions.
pub open spec fn turn_sections(ctx: PromptContext, overrides: Seq<Option<String>>, model: Seq<char>, n_tools: nat, plugin: Seq<Seq<char>>, now: Seq<char>) -> (Seq<SectionView>, u32) {
    let v0 = (static_sections(overrides, 7), DEFAULT_TOKEN_BUDGET);
    let v1 = with_section(v0, "environment"@, environment_text(ctx.os@, ctx.shell@, ctx.cwd@, now, model), 1);
    let v2 = with_section(v1, "workstream"@, workstream_text(ctx.workstream_name@, ctx.workstream_root@), 1);
    let v3 = maybe_section(v2, n_tools > 0, "tools"@, tools_text(n_tools), 2);
    let f = ctx.context_files@;
    let v4 = maybe_section(v3, f.len() > 0, "context_files"@, "# Project Context\n"@ + context_entries(f, f.len() as int), 5);
    let m = ctx.memories@;
    let v5 = maybe_section(v4, m.len() > 0, "memories"@, "# Relevant Memories\n"@ + memory_lines(m, m.len() as int), 6);
    let v6 = maybe_section(v5, ctx.session_context@.len() > 0, "session_context"@, "# Session Context\n"@ + ctx.session_context@, 3);
    maybe_section(v6, plugin.len() > 0, "plugin_prompts"@, "# Plugin Instructions\n"@ + plugin_lines(plugin, plugin.len() as int), 7)
}

/// The plugin instructions of a turn: the context's fragments, then the
/// skill listing when there are user-invocable skills and the listing is
/// not empty.
pub open spec fn turn_plugin_prompts(ctx: PromptContext, skills: Seq<SkillDefinition>) -> Seq<Seq<char>> {
    let base = ctx.plugin_prompts@.map_values(|p: String| p@);
    let listing = spec_skill_listing(skills, 4000, 250);
    if skills.len() > 0 && listing.len() > 0 { base.push(listing) } else { base }
}

/// The system prompt of a turn: built from the prompt context when there
/// is one (dated `now`), else the configured prompt.
pub open spec fn spec_turn_prompt(config: QueryEngineConfig, overrides: Seq<Option<String>>, n_tools: nat, skills: Seq<SkillDefinition>, now: Seq<char>) -> Seq<char> {
    match config.prompt_context {
        Some(ctx) => {
            let v = turn_sections(ctx, overrides, config.model@, n_tools, turn_plugin_prompts(ctx, skills), now);
            assembled(v.0, v.1)
        },
        None => config.system_prompt@,
    }
}

/// The skills can be listed with the listing's limits.
pub open spec fn listable(skills: Seq<SkillDefinition>) -> bool {
    listing_defined(skills, 250, 4000, utf8_len(listing_header()) as int)
}

/// The system prompt of a turn, dated `now`; `overrides` are the contents
/// of the section overrides found in the context's prompts directory, and
/// `skills` the user-invocable skills.
pub fn turn_system_prompt_at(config: &QueryEngineConfig, overrides: &Vec<Option<String>>, tools: &[ToolDefinition], skills: &[SkillDefinition], now: &str) -> (r: String)
    requires
        listable(skills@),
    ensures
        r@ == spec_turn_prompt(*config, overrides@, tools@.len() as nat, skills@, now@),
{
    match &config.prompt_context {
        None => config.system_prompt.clone(),
        Some(ctx) => {
            let mut dynamic: Vec<String> = Vec::new();
            let mut i: usize = 0;
            while i < ctx.plugin_prompts.len()
                invariant
                    i <= ctx.plugin_prompts@.len(),
                    dynamic@.map_values(|p: String| p@) == ctx.plugin_prompts@.take(i as int).map_values(|p: String| p@),
                decreases ctx.plugin_prompts.len() - i,
            {
                let ghost before = dynamic@.map_values(|p: String| p@);
                dynamic.push(ctx.plugin_prompts[i].clone());
                assert(dynamic@.map_values(|p: String| p@) =~= before.push(ctx.plugin_prompts@[i as int]@));
                assert(ctx.plugin_prompts@.take(i + 1).map_values(|p: String| p@) =~= ctx.plugin_prompts@.take(i as int).map_values(|p: String| p@).push(ctx.plugin_prompts@[i as int]@));
                i = i + 1;
            }
            assert(ctx.plugin_prompts@.take(ctx.plugin_prompts@.len() as int) == ctx.plugin_prompts@);
            if skills.len() > 0 {
                let listing = format_skill_listing(skills, 4000, 250);
                if !str_is_empty(listing.as_str()) {
                    let ghost before = dynamic@.map_values(|p: String| p@);
                    dynamic.push(listing);
                    assert(dynamic@.map_values(|p: String| p@) =~= before.push(listing@));
                }
            }
            assert(dynamic@.map_values(|p: String| p@) == turn_plugin_prompts(*ctx, skills@));
            let b = SystemPromptBuilder::new()
                .load_static_sections(overrides)
                .environment_at(ctx.os.as_str(), ctx.shell.as_str(), ctx.cwd.as_str(), config.model.as_str(), now)
                .workstream(ctx.workstream_name.as_str(), ctx.workstream_root.as_str())
                .tools(tools)
                .context_files(ctx.context_files.as_slice())
                .memories(ctx.memories.as_slice())
                .session_context(ctx.session_context.as_str())
                .plugin_prompts(dynamic.as_slice());
            b.build()
        },
    }
}

/// Two recorded failures of the same call (same tool, same arguments)
/// get every later attempt of it refused without running it.
pub proof fn law_repeated_failure_refused(
    before: Seq<(String, u32)>,
    once: Seq<(String, u32)>,
    twice: Seq<(String, u32)>,
    name: Seq<char>,
    args: Seq<char>,
)
    requires
        failures_of(before, spec_call_key(name, args)) < u32::MAX - 1,
        key_value(once, spec_call_key(name, args)) == Some((failures_of(before, spec_call_key(name, args)) + 1) as u32),
        key_value(twice, spec_call_key(name, args)) == Some((failures_of(once, spec_call_key(name, args)) + 1) as u32),
    ensures
        spec_call_rejection(name, true, true, args, failures_of(twice, spec_call_key(name, args))) is Some,
{
}

/// A success of a call clears its failures: the next attempt is run.
pub proof fn law_success_clears_failures(after: Seq<(String, u32)>, name: Seq<char>, args: Seq<char>)
    requires
        key_value(after, spec_call_key(name, args)) is None,
    ensures
        spec_call_rejection(name, true, true, args, failures_of(after, spec_call_key(name, args))) is None,
{
}

/// The rejection, if any, of the call `c` in a loop whose failure counts
/// are `failed`.
pub open spec fn rejection_of(c: (Seq<char>, Seq<char>, Seq<char>), registered: bool, failed: Seq<(String, u32)>) -> Option<Seq<char>> {
    spec_call_rejection(c.1, registered, json_object(c.2), c.2, failures_of(failed, spec_call_key(c.1, c.2)))
}

/// The positions among `calls[..n]` of the calls that are run.
pub open spec fn runnable(
    calls: Seq<(Seq<char>, Seq<char>, Seq<char>)>,
    registered: Seq<bool>,
    failed: Seq<(String, u32)>,
    n: int,
) -> Seq<usize>
    decreases n,
{
    if n <= 0 {
        seq![]
    } else if rejection_of(calls[n - 1], registered[n - 1], failed) is None {
        runnable(calls, registered, failed, n - 1).push((n - 1) as usize)
    } else {
        runnable(calls, registered, failed, n - 1)
    }
}

/// What a turn with tool calls comes to before any tool runs.
pub struct ToolTurnPlan {
    /// The assistant message recording the response, every call included.
    pub message: Message,
    /// For each call, its result when it is refused without running.
    pub results: Vec<Option<ToolResult>>,
    /// The calls to run concurrently: the read-only ones.
    pub read_only: Vec<usize>,
    /// The calls to run one after another.
    pub writes: Vec<usize>,
}

/// The view of the tool uses of a message.
pub open spec fn uses_view(v: Seq<ToolUse>) -> Seq<(Seq<char>, Seq<char>, Seq<char>)> {
    v.map_values(|u: ToolUse| (u.id@, u.name@, u.input@))
}

/// `r` is the plan of a turn whose response is `response`, in a loop whose
/// failure counts are `failed`: the assistant message records the text and
/// every call; each refused call has its error result; the calls that run
/// are split into read-only and writing ones, each in order.
pub open spec fn tool_turn_planned(
    failed: Seq<(String, u32)>,
    response: &AssembledResponse,
    registered: Seq<bool>,
    read_only: Seq<bool>,
    r: ToolTurnPlan,
) -> bool {
    &&& r.message matches Message::Assistant { content, tool_uses } && content@ == response.text@
        && uses_view(tool_uses@) == calls_view(response.tool_calls@)
    &&& r.results@.len() == response.tool_calls@.len()
    &&& forall|i: int| 0 <= i < r.results@.len() ==> match rejection_of(
        calls_view(response.tool_calls@)[i],
        registered[i],
        failed,
    ) {
        None => (#[trigger] r.results@[i]) is None,
        Some(m) => r.results@[i] matches Some(t) && t.content@ == m && t.is_error,
    }
    &&& r.read_only@ == spec_partition(
        runnable(calls_view(response.tool_calls@), registered, failed, registered.len() as int),
        read_only,
        true,
    )
    &&& r.writes@ == spec_partition(
        runnable(calls_view(response.tool_calls@), registered, failed, registered.len() as int),
        read_only,
        false,
    )
}

impl EngineLoop {
    /// Plan a turn in which the model called tools: record the response as
    /// an assistant message with all its calls, refuse the calls that
    /// cannot run (unknown tool, arguments that are no JSON object, a call
    /// that failed twice already), and split the others into read-only and
    /// writing ones. `registered[i]` and `read_only[i]` describe the tool of
    /// call `i`.
    pub fn plan_tool_turn(&self, response: &AssembledResponse, registered: &Vec<bool>, read_only: &Vec<bool>) -> (r: ToolTurnPlan)
        requires
            self.wf(),
            registered@.len() == response.tool_calls@.len(),
        ensures
            tool_turn_planned(self@.failed, response, registered@, read_only@, r),
    {
        let calls = &response.tool_calls;
        let ghost cv = calls_view(calls@);
        let mut results: Vec<Option<ToolResult>> = Vec::new();
        let mut valid: Vec<usize> = Vec::new();
        let mut uses: Vec<ToolUse> = Vec::new();
        let mut i: usize = 0;
        while i < calls.len()
            invariant
                self.wf(),
                cv == calls_view(calls@),
                registered@.len() == calls@.len(),
                i <= calls@.len(),
                results@.len() == i,
                uses_view(uses@) == cv.take(i as int),
                valid@ == runnable(cv, registered@, self@.failed, i as int),
                forall|k: int| 0 <= k < i ==> match rejection_of(cv[k], registered@[k], self@.failed) {
                    None => (#[trigger] results@[k]) is None,
                    Some(m) => results@[k] matches Some(t) && t.content@ == m && t.is_error,
                },
            decreases calls.len() - i,
        {
            let c = &calls[i];
            assert(cv[i as int] == (c.id@, c.name@, c.arguments@));
            let verdict = self.check_tool_call(c, registered[i]);
            match verdict {
                None => valid.push(i),
                Some(_) => {},
            }
            results.push(verdict);
            let ghost before = uses_view(uses@);
            uses.push(ToolUse { id: c.id.clone(), name: c.name.clone(), input: c.arguments.clone() });
            assert(uses_view(uses@) =~= before.push(cv[i as int]));
            assert(cv.take(i + 1) =~= cv.take(i as int).push(cv[i as int]));
            i = i + 1;
        }
        assert(cv.take(calls@.len() as int) =~= cv);
        let (ro, rw) = partition_calls(&valid, read_only);
        ToolTurnPlan {
            message: Message::Assistant { content: response.text.clone(), tool_uses: uses },
            results,
            read_only: ro,
            writes: rw,
        }
    }
}

/// What the loop does with a model response.
pub enum TurnAction {
    /// No tool calls: the response's text is the final answer, recorded as
    /// this assistant message.
    Finish { message: Message, text: String },
    /// Tool calls: run them as planned.
    RunTools(ToolTurnPlan),
}

/// The failure count of the call key `k` after the results of
/// `calls[..n]` were recorded in order, `errs[i]` telling whether call
/// `i` failed: a failure adds one, a success clears the count.
pub open spec fn count_after(
    start: Seq<(String, u32)>,
    calls: Seq<(Seq<char>, Seq<char>, Seq<char>)>,
    errs: Seq<bool>,
    n: int,
    k: Seq<char>,
) -> Option<u32>
    decreases n,
{
    if n <= 0 {
        key_value(start, k)
    } else if spec_call_key(calls[n - 1].1, calls[n - 1].2) == k {
        if errs[n - 1] {
            Some((match count_after(start, calls, errs, n - 1, k) {
                Some(c) => c + 1,
                None => 1,
            }) as u32)
        } else {
            None
        }
    } else {
        count_after(start, calls, errs, n - 1, k)
    }
}

/// Whether each result is an error.
pub open spec fn error_flags(results: Seq<ToolResult>) -> Seq<bool> {
    results.map_values(|t: ToolResult| t.is_error)
}

impl EngineLoop {
    /// Decide what a model response calls for: a response without tool
    /// calls ends the loop with its text; otherwise its calls are planned
    /// as [`EngineLoop::plan_tool_turn`] plans them.
    pub fn after_response(&self, response: &AssembledResponse, registered: &Vec<bool>, read_only: &Vec<bool>) -> (r: TurnAction)
        requires
            self.wf(),
            registered@.len() == response.tool_calls@.len(),
        ensures
            response.tool_calls@.len() == 0 ==> (r matches TurnAction::Finish { message, text } && text@
                == response.text@ && (message matches Message::Assistant { content, tool_uses } && content@
                == response.text@ && tool_uses@.len() == 0)),
            response.tool_calls@.len() > 0 ==> (r matches TurnAction::RunTools(plan) && tool_turn_planned(
                self@.failed,
                response,
                registered@,
                read_only@,
                plan,
            )),
    {
        if response.tool_calls.len() == 0 {
            TurnAction::Finish {
                message: Message::Assistant { content: response.text.clone(), tool_uses: Vec::new() },
                text: response.text.clone(),
            }
        } else {
            TurnAction::RunTools(self.plan_tool_turn(response, registered, read_only))
        }
    }

    /// Close a turn with tool calls: record each call's result in order (a
    /// failure counts against the call, a success clears its count) and
    /// give the tool-result messages to append, in the order of the calls.
    /// `results[i]` is the result of call `i`, refused or run.
    pub fn finish_tool_turn(&mut self, calls: &Vec<AssembledToolCall>, results: &Vec<ToolResult>) -> (msgs: Vec<Message>)
        requires
            old(self).wf(),
            results@.len() == calls@.len(),
            forall|k: Seq<char>| failures_of(old(self)@.failed, k) + calls@.len() < u32::MAX,
        ensures
            final(self).wf(),
            final(self)@.iteration == old(self)@.iteration,
            final(self)@.max_iterations == old(self)@.max_iterations,
            final(self)@.compact_failures == old(self)@.compact_failures,
            forall|k: Seq<char>| #[trigger] key_value(final(self)@.failed, k) == count_after(
                old(self)@.failed,
                calls_view(calls@),
                error_flags(results@),
                calls@.len() as int,
                k,
            ),
            msgs@.len() == calls@.len(),
            forall|i: int| 0 <= i < msgs@.len() ==> (#[trigger] msgs@[i] matches Message::ToolResult {
                tool_use_id,
                content,
                is_error,
            } && tool_use_id@ == calls@[i].id@ && content@ == results@[i].content@ && is_error
                == results@[i].is_error),
    {
        let ghost start = self@.failed;
        let ghost cv = calls_view(calls@);
        let ghost errs = error_flags(results@);
        let mut msgs: Vec<Message> = Vec::new();
        let mut i: usize = 0;
        while i < calls.len()
            invariant
                self.wf(),
                i <= calls@.len(),
                results@.len() == calls@.len(),
                cv == calls_view(calls@),
                errs == error_flags(results@),
                self@.iteration == old(self)@.iteration,
                self@.max_iterations == old(self)@.max_iterations,
                self@.compact_failures == old(self)@.compact_failures,
                forall|k: Seq<char>| failures_of(start, k) + calls@.len() < u32::MAX,
                forall|k: Seq<char>| #[trigger] key_value(self@.failed, k) == count_after(start, cv, errs, i as int, k),
                forall|k: Seq<char>| #[trigger] failures_of(self@.failed, k) <= failures_of(start, k) + i,
                msgs@.len() == i,
                forall|j: int| 0 <= j < i ==> (#[trigger] msgs@[j] matches Message::ToolResult {
                    tool_use_id,
                    content,
                    is_error,
                } && tool_use_id@ == calls@[j].id@ && content@ == results@[j].content@ && is_error
                    == results@[j].is_error),
            decreases calls.len() - i,
        {
            let c = &calls[i];
            let t = &results[i];
            let ghost key = spec_call_key(c.name@, c.arguments@);
            assert(cv[i as int] == (c.id@, c.name@, c.arguments@));
            assert(errs[i as int] == t.is_error);
            assert(failures_of(self@.failed, key) <= failures_of(start, key) + i);
            let ghost before = self@.failed;
            self.record_result(c.name.as_str(), c.arguments.as_str(), t.is_error);
            assert forall|k: Seq<char>| #[trigger] key_value(self@.failed, k) == count_after(start, cv, errs, i + 1, k) by {
                if k != key {
                    assert(key_value(self@.failed, k) == key_value(before, k));
                }
            }
            assert forall|k: Seq<char>| #[trigger] failures_of(self@.failed, k) <= failures_of(start, k) + i + 1 by {
                assert(failures_of(before, k) <= failures_of(start, k) + i);
                if k != key {
                    assert(key_value(self@.failed, k) == key_value(before, k));
                }
            }
            msgs.push(Message::ToolResult { tool_use_id: c.id.clone(), content: t.content.clone(), is_error: t.is_error });
            i = i + 1;
        }
        msgs
    }
}

/// The messages that bring background task notifications into the
/// conversation: one user message each, in order, holding the
/// notification's XML text.
pub fn notification_messages(notifications: &Vec<TaskNotification>) -> (r: Vec<Message>)
    ensures
        r@.len() == notifications@.len(),
        forall|i: int| 0 <= i < r@.len() ==> (#[trigger] r@[i] matches Message::User { content } && content@
            == notification_message(notifications@[i].task_id@, notifications@[i].status@, notifications@[i].summary@)),
{
    let mut out: Vec<Message> = Vec::new();
    let mut i: usize = 0;
    while i < notifications.len()
        invariant
            i <= notifications@.len(),
            out@.len() == i,
            forall|j: int| 0 <= j < i ==> (#[trigger] out@[j] matches Message::User { content } && content@
                == notification_message(notifications@[j].task_id@, notifications@[j].status@, notifications@[j].summary@)),
        decreases notifications.len() - i,
    {
        out.push(Message::User { content: notifications[i].to_message() });
        i = i + 1;
    }
    out
}

/// Retries of a model request that failed with a transient error.
pub const MAX_RETRIES: u32 = 2;

/// Error text (lower-cased) that marks a failure as transient.
pub const TRANSIENT_MARKERS: [&'static str; 9] = [
    "rate",
    "timeout",
    "tool_use_failed",
    "failed to parse",
    "connection",
    "500",
    "502",
    "503",
    "529",
];

/// The transient markers as text.
pub open spec fn transient_markers() -> Seq<Seq<char>> {
    TRANSIENT_MARKERS@.map_values(|m: &str| m@)
}

/// A failure is transient when its lower-cased message holds a marker.
pub open spec fn is_transient(message: Seq<char>) -> bool {
    exists|i: int| 0 <= i < transient_markers().len() && contains(unicode_lower(message), #[trigger] transient_markers()[i])
}

/// What to do after attempt `attempt` (from 0) of a model request failed
/// with `message`: wait the returned milliseconds and retry, when the
/// failure is transient and retries are left; else give up.
pub open spec fn spec_retry_backoff(message: Seq<char>, attempt: u32) -> Option<u64> {
    if is_transient(message) && attempt < MAX_RETRIES {
        Some(((attempt + 1) * 500) as u64)
    } else {
        None
    }
}

/// The wait before retrying a failed model request, or `None` to give up.
pub fn retry_backoff(message: &str, attempt: u32) -> (r: Option<u64>)
    ensures
        r == spec_retry_backoff(message@, attempt),
{
    let lower = to_lowercase(message);
    let mut transient = false;
    let mut i: usize = 0;
    while i < TRANSIENT_MARKERS.len()
        invariant
            i <= TRANSIENT_MARKERS@.len(),
            lower@ == unicode_lower(message@),
            transient == exists|k: int| 0 <= k < i && contains(lower@, #[trigger] transient_markers()[k]),
        decreases TRANSIENT_MARKERS.len() - i,
    {
        if str_contains(lower.as_str(), TRANSIENT_MARKERS[i]) {
            assert(transient_markers()[i as int] == TRANSIENT_MARKERS@[i as int]@);
            transient = true;
        } else {
            assert(transient_markers()[i as int] == TRANSIENT_MARKERS@[i as int]@);
        }
        i = i + 1;
    }
    if transient && attempt < MAX_RETRIES {
        Some(((attempt + 1) * 500) as u64)
    } else {
        None
    }
}

proof fn lemma_used_name_listed(msgs: Seq<Message>, j: int, k: int)
    requires
        0 <= j < msgs.len(),
        msgs[j] is Assistant,
        0 <= k < msgs[j]->Assistant_tool_uses@.len(),
    ensures
        used_names(msgs).contains(msgs[j]->Assistant_tool_uses@[k].name@),
    decreases msgs.len(),
{
    let name = msgs[j]->Assistant_tool_uses@[k].name@;
    let w = msgs.drop_last();
    let tail = match msgs.last() {
        Message::Assistant { tool_uses, .. } => tool_uses@.map_values(|u: ToolUse| u.name@),
        _ => seq![],
    };
    assert(used_names(msgs) == used_names(w) + tail);
    if j == msgs.len() - 1 {
        assert(tail[k] == name);
        assert((used_names(w) + tail)[used_names(w).len() + k] == name);
    } else {
        assert(w[j] == msgs[j]);
        lemma_used_name_listed(w, j, k);
        let i = choose|i: int| 0 <= i < used_names(w).len() && used_names(w)[i] == name;
        assert((used_names(w) + tail)[i] == name);
    }
}

proof fn lemma_offered_kept(tools: Seq<ToolDefinition>, msgs: Seq<Message>, t: int)
    requires
        0 <= t < tools.len(),
        tool_offered(msgs, tools[t].name@),
    ensures
        kept_tools(tools, msgs).contains(tools[t]),
    decreases tools.len(),
{
    let k = kept_tools(tools, msgs);
    if t == tools.len() - 1 {
        assert(k.last() == tools[t]);
        assert(k[k.len() - 1] == tools[t]);
    } else {
        let w = tools.drop_last();
        assert(w[t] == tools[t]);
        lemma_offered_kept(w, msgs, t);
        let r = kept_tools(w, msgs);
        let i = choose|i: int| 0 <= i < r.len() && r[i] == tools[t];
        assert(k[i] == tools[t]);
    }
}

/// A tool the model has already used in the conversation stays offered:
/// when an assistant message called a tool of that name, the tool is among
/// the tools offered for the turn.
pub proof fn law_used_tool_stays_offered(tools: Seq<ToolDefinition>, msgs: Seq<Message>, t: int, j: int, k: int)
    requires
        0 <= t < tools.len(),
        0 <= j < msgs.len(),
        msgs[j] is Assistant,
        0 <= k < msgs[j]->Assistant_tool_uses@.len(),
        msgs[j]->Assistant_tool_uses@[k].name@ == tools[t].name@,
    ensures
        spec_filter_tools(tools, msgs).contains(tools[t]),
{
    if msgs.len() <= 2 {
        assert(spec_filter_tools(tools, msgs)[t] == tools[t]);
    } else {
        lemma_used_name_listed(msgs, j, k);
        assert(tool_offered(msgs, tools[t].name@));
        lemma_offered_kept(tools, msgs, t);
    }
}

} // verus!
