//! Compaction: which messages are summarised, with which prompt, and in
//! what form they are sent to the model.
//!
//! Calling the model and replacing the messages are left to the caller.
use vstd::prelude::*;

use crate::compact_prompt::{
    get_compact_user_summary_message, spec_user_summary_message, strip_analysis, summary_cut_ok,
    framed_prompt, get_compact_prompt, get_partial_compact_prompt, FULL_CLOSING, FULL_TASK, PARTIAL_CLOSING, PARTIAL_TASK};
use crate::conversation::{Message, ToolUse};
use crate::query_engine::ChatMessage;
use crate::text::push_str;
use crate::token_estimator::{message_bytes, messages_tokens, TokenEstimator};

verus! {

/// Messages kept verbatim by default.
pub const DEFAULT_KEEP_RECENT: usize = 6;

/// What a compaction did.
#[derive(Debug)]
pub struct CompactionResult {
    pub messages_summarized: usize,
    pub tokens_before: u32,
    pub tokens_after: u32,
}

/// Compaction settings: how many recent messages are kept verbatim, and
/// the model that writes the summary.
pub struct Compactor {
    pub keep_recent: usize,
    pub model: String,
}

/// An old message as the summarising model sees it: role and content
/// (tool results become user messages, tool calls are dropped).
pub open spec fn compaction_view(m: Message) -> (Seq<char>, Seq<char>) {
    match m {
        Message::User { content } => ("user"@, content@),
        Message::Summary { content } => ("user"@, content@),
        Message::Assistant { content, .. } => ("assistant"@, content@),
        Message::ToolResult { content, .. } => ("user"@, "[Tool result]: "@ + content@),
    }
}

/// The request that summarises `msgs`: the partial prompt when the old
/// part starts with an earlier summary, else the full one; and the old
/// messages (all but the last `keep`), in order. `None` when there are no
/// more than `keep` messages.
pub open spec fn spec_compaction_prompt(msgs: Seq<Message>, keep: int) -> Option<Seq<char>> {
    if msgs.len() <= keep {
        None
    } else if msgs[0] is Summary {
        Some(framed_prompt(PARTIAL_TASK@, PARTIAL_CLOSING@))
    } else {
        Some(framed_prompt(FULL_TASK@, FULL_CLOSING@))
    }
}

impl Compactor {
    pub fn new(model: &str) -> (r: Self)
        ensures
            r.keep_recent == DEFAULT_KEEP_RECENT,
            r.model@ == model@,
    {
        Compactor { keep_recent: DEFAULT_KEEP_RECENT, model: model.to_string() }
    }

    pub fn with_keep_recent(model: &str, keep_recent: usize) -> (r: Self)
        ensures
            r.keep_recent == keep_recent,
            r.model@ == model@,
    {
        Compactor { keep_recent, model: model.to_string() }
    }

    /// Whether a session has more messages than are kept verbatim (the
    /// token threshold is checked by the caller).
    pub fn has_old_messages(&self, messages: &[Message]) -> (b: bool)
        ensures
            b == (messages@.len() > self.keep_recent),
    {
        messages.len() > self.keep_recent
    }

    /// The system prompt and messages of the summarising request, or
    /// `None` when there is nothing old to summarise.
    pub fn compaction_request(&self, messages: &[Message]) -> (r: Option<(String, Vec<ChatMessage>)>)
        ensures
            match spec_compaction_prompt(messages@, self.keep_recent as int) {
                None => r is None,
                Some(p) => r matches Some((prompt, ms)) && prompt@ == p
                    && ms@.len() == messages@.len() - self.keep_recent
                    && forall|i: int| 0 <= i < ms@.len() ==> (#[trigger] ms@[i]).role@ == compaction_view(messages@[i]).0
                        && ms@[i].content@ == compaction_view(messages@[i]).1
                        && ms@[i].tool_calls@.len() == 0 && ms@[i].tool_call_id is None,
            },
    {
        if messages.len() <= self.keep_recent {
            return None;
        }
        let split = messages.len() - self.keep_recent;
        let partial = match &messages[0] {
            Message::Summary { .. } => true,
            _ => false,
        };
        let prompt = if partial { get_partial_compact_prompt() } else { get_compact_prompt() };
        let mut out: Vec<ChatMessage> = Vec::new();
        let mut i: usize = 0;
        while i < split
            invariant
                split <= messages@.len(),
                i <= split,
                out@.len() == i,
                forall|k: int| 0 <= k < i ==> (#[trigger] out@[k]).role@ == compaction_view(messages@[k]).0
                    && out@[k].content@ == compaction_view(messages@[k]).1
                    && out@[k].tool_calls@.len() == 0 && out@[k].tool_call_id is None,
            decreases split - i,
        {
            let (role, content) = match &messages[i] {
                Message::User { content } => ("user", content.clone()),
                Message::Summary { content } => ("user", content.clone()),
                Message::Assistant { content, .. } => ("assistant", content.clone()),
                Message::ToolResult { content, .. } => {
                    let mut c = "[Tool result]: ".to_string();
                    push_str(&mut c, content.as_str());
                    ("user", c)
                },
            };
            out.push(ChatMessage { role: role.to_string(), content, tool_calls: Vec::new(), tool_call_id: None });
            i = i + 1;
        }
        Some((prompt, out))
    }
}

/// The error when the summarising model returned nothing.
pub fn empty_summary_error() -> (r: crate::error::EngineError)
    ensures
        r matches crate::error::EngineError::Tool(m) && m@ == "compaction LLM returned empty response"@,
{
    crate::error::EngineError::Tool("compaction LLM returned empty response".to_string())
}

impl Compactor {
    /// The conversation once the model has summarised its old part: the
    /// summary message (the summary formatted as the continuation message,
    /// noting that recent messages are kept) standing for all but the last
    /// `keep_recent` messages, then those kept verbatim; with the number of
    /// messages summarised. A conversation of no more than `keep_recent`
    /// messages is left as it is.
    pub fn apply_summary(&self, messages: Vec<Message>, raw_summary: &str) -> (r: (Vec<Message>, usize))
        requires
            messages@.len() > self.keep_recent ==> summary_cut_ok(strip_analysis(raw_summary@)),
        ensures
            messages@.len() <= self.keep_recent ==> r.0@ == messages@ && r.1 == 0,
            messages@.len() > self.keep_recent ==> {
                &&& r.1 == messages@.len() - self.keep_recent
                &&& r.0@.len() == self.keep_recent + 1
                &&& r.0@[0] matches Message::Summary { content } && content@ == spec_user_summary_message(
                    raw_summary@,
                    true,
                )
                &&& r.0@.skip(1) == messages@.skip(r.1 as int)
            },
    {
        if messages.len() <= self.keep_recent {
            return (messages, 0);
        }
        let split = messages.len() - self.keep_recent;
        let formatted = get_compact_user_summary_message(raw_summary, true);
        let mut rest = messages;
        let mut kept = rest.split_off(split);
        let mut out: Vec<Message> = Vec::new();
        out.push(Message::Summary { content: formatted });
        out.append(&mut kept);
        assert(out@.skip(1) =~= messages@.skip(split as int));
        (out, split)
    }
}

/// What a compaction did, from the conversation before and after it and
/// the number of messages summarised: the token estimates of both.
pub fn compaction_result(before: &[Message], after: &[Message], summarized: usize) -> (r: CompactionResult)
    requires
        forall|i: int| 0 <= i < before@.len() ==> message_bytes(#[trigger] before@[i]) <= usize::MAX,
        messages_tokens(before@, before@.len() as int) <= u32::MAX,
        forall|i: int| 0 <= i < after@.len() ==> message_bytes(#[trigger] after@[i]) <= usize::MAX,
        messages_tokens(after@, after@.len() as int) <= u32::MAX,
    ensures
        r.messages_summarized == summarized,
        r.tokens_before == messages_tokens(before@, before@.len() as int),
        r.tokens_after == messages_tokens(after@, after@.len() as int),
{
    CompactionResult {
        messages_summarized: summarized,
        tokens_before: TokenEstimator::estimate_messages(before),
        tokens_after: TokenEstimator::estimate_messages(after),
    }
}

} // verus!
