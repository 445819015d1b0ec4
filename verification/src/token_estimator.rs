//! Fast, approximate token estimates: about four bytes per token, good
//! enough for threshold decisions.
use vstd::prelude::*;

use crate::conversation::{Message, ToolDefinition, ToolUse};
use crate::text::{byte_len, utf8_len};

verus! {

/// Token estimation by the four-bytes-per-token rule.
pub struct TokenEstimator;

/// `n` as a `u32`: its low 32 bits.
pub open spec fn low32(n: int) -> int {
    n % 0x1_0000_0000
}

/// `a + b`, or `u32::MAX` when that does not fit.
pub open spec fn sat_add(a: int, b: int) -> int {
    if a + b > u32::MAX { u32::MAX as int } else { a + b }
}

/// The bytes of a message's tool calls: names and argument texts.
pub open spec fn uses_bytes(us: Seq<ToolUse>) -> int
    decreases us.len(),
{
    if us.len() == 0 {
        0
    } else {
        uses_bytes(us.drop_last()) + utf8_len(us.last().name@) + utf8_len(us.last().input@)
    }
}

/// The bytes counted for a message.
pub open spec fn message_bytes(m: Message) -> int {
    match m {
        Message::User { content } => utf8_len(content@) as int,
        Message::Assistant { content, tool_uses } => utf8_len(content@) + uses_bytes(tool_uses@),
        Message::ToolResult { content, .. } => utf8_len(content@) as int,
        Message::Summary { content } => utf8_len(content@) as int,
    }
}

/// The estimate of a message: its bytes (as a `u32`) over four, plus four
/// for its role and structure.
pub open spec fn message_tokens(m: Message) -> int {
    sat_add(low32(message_bytes(m)) / 4, 4)
}

/// The estimate of `ms[..n]`.
pub open spec fn messages_tokens(ms: Seq<Message>, n: int) -> int
    decreases n,
{
    if n <= 0 { 0 } else { messages_tokens(ms, n - 1) + message_tokens(ms[n - 1]) }
}

/// The bytes of `ts[..n]`'s names, descriptions and parameter schemas.
pub open spec fn tools_bytes(ts: Seq<ToolDefinition>, n: int) -> int
    decreases n,
{
    if n <= 0 {
        0
    } else {
        tools_bytes(ts, n - 1) + utf8_len(ts[n - 1].name@) + utf8_len(ts[n - 1].description@) + utf8_len(ts[n - 1].parameters@)
    }
}

proof fn lemma_low32(n: usize)
    ensures
        (n as u32) as int == low32(n as int),
{
    assert((n as u32) as int == (n as int) % 0x1_0000_0000) by (bit_vector);
}

impl TokenEstimator {
    /// Estimate tokens for a single message.
    pub fn estimate_message(msg: &Message) -> (t: u32)
        requires
            message_bytes(*msg) <= usize::MAX,
        ensures
            t == message_tokens(*msg),
    {
        let chars: usize = match msg {
            Message::User { content } => byte_len(content.as_str()),
            Message::Assistant { content, tool_uses } => {
                let mut total = byte_len(content.as_str());
                let mut i: usize = 0;
                while i < tool_uses.len()
                    invariant
                        i <= tool_uses@.len(),
                        total == utf8_len(content@) + uses_bytes(tool_uses@.take(i as int)),
                        utf8_len(content@) + uses_bytes(tool_uses@) <= usize::MAX,
                    decreases tool_uses.len() - i,
                {
                    assert(tool_uses@.take(i + 1).drop_last() == tool_uses@.take(i as int));
                    proof {
                        lemma_uses_bytes_prefix(tool_uses@, i + 1);
                    }
                    total = total + byte_len(tool_uses[i].name.as_str());
                    total = total + byte_len(tool_uses[i].input.as_str());
                    i = i + 1;
                }
                assert(tool_uses@.take(tool_uses@.len() as int) == tool_uses@);
                total
            },
            Message::ToolResult { content, .. } => byte_len(content.as_str()),
            Message::Summary { content } => byte_len(content.as_str()),
        };
        proof {
            lemma_low32(chars);
        }
        (chars as u32 / 4).saturating_add(4)
    }

    /// Estimate tokens for the messages of a session.
    pub fn estimate_messages(messages: &[Message]) -> (t: u32)
        requires
            forall|i: int| 0 <= i < messages@.len() ==> message_bytes(#[trigger] messages@[i]) <= usize::MAX,
            messages_tokens(messages@, messages@.len() as int) <= u32::MAX,
        ensures
            t == messages_tokens(messages@, messages@.len() as int),
    {
        let mut total: u32 = 0;
        let mut i: usize = 0;
        while i < messages.len()
            invariant
                i <= messages@.len(),
                forall|k: int| 0 <= k < messages@.len() ==> message_bytes(#[trigger] messages@[k]) <= usize::MAX,
                messages_tokens(messages@, messages@.len() as int) <= u32::MAX,
                total == messages_tokens(messages@, i as int),
            decreases messages.len() - i,
        {
            proof {
                lemma_messages_tokens_mono(messages@, i + 1, messages@.len() as int);
            }
            total = total + Self::estimate_message(&messages[i]);
            i = i + 1;
        }
        total
    }

    /// Estimate tokens for tool definitions: their bytes (as a `u32`) over
    /// four, plus four per tool.
    pub fn estimate_tools(tools: &[ToolDefinition]) -> (t: u32)
        requires
            tools_bytes(tools@, tools@.len() as int) <= usize::MAX,
            4 * tools@.len() <= u32::MAX,
        ensures
            t == sat_add(low32(tools_bytes(tools@, tools@.len() as int)) / 4, 4 * (tools@.len() as int)),
    {
        let mut chars: usize = 0;
        let mut i: usize = 0;
        while i < tools.len()
            invariant
                i <= tools@.len(),
                chars == tools_bytes(tools@, i as int),
                tools_bytes(tools@, tools@.len() as int) <= usize::MAX,
            decreases tools.len() - i,
        {
            proof {
                lemma_tools_bytes_mono(tools@, i + 1, tools@.len() as int);
            }
            chars = chars + byte_len(tools[i].name.as_str());
            chars = chars + byte_len(tools[i].description.as_str());
            chars = chars + byte_len(tools[i].parameters.as_str());
            i = i + 1;
        }
        proof {
            lemma_low32(chars);
        }
        let n = tools.len() as u32;
        (chars as u32 / 4).saturating_add(n * 4)
    }

    /// Estimate tokens for a system prompt.
    pub fn estimate_system_prompt(prompt: &str) -> (t: u32)
        ensures
            t == sat_add(low32(utf8_len(prompt@) as int) / 4, 4),
    {
        let n = byte_len(prompt);
        proof {
            lemma_low32(n);
        }
        (n as u32 / 4).saturating_add(4)
    }
}

proof fn lemma_uses_bytes_prefix(us: Seq<ToolUse>, n: int)
    requires
        0 <= n <= us.len(),
    ensures
        uses_bytes(us.take(n)) <= uses_bytes(us),
    decreases us.len() - n,
{
    if n < us.len() {
        lemma_uses_bytes_prefix(us, n + 1);
        assert(us.take(n + 1).drop_last() == us.take(n));
    } else {
        assert(us.take(n) == us);
    }
}

proof fn lemma_messages_tokens_mono(ms: Seq<Message>, a: int, b: int)
    requires
        0 <= a <= b,
    ensures
        messages_tokens(ms, a) <= messages_tokens(ms, b),
    decreases b - a,
{
    if a < b {
        lemma_messages_tokens_mono(ms, a, b - 1);
    }
}

proof fn lemma_tools_bytes_mono(ts: Seq<ToolDefinition>, a: int, b: int)
    requires
        0 <= a <= b,
    ensures
        tools_bytes(ts, a) <= tools_bytes(ts, b),
    decreases b - a,
{
    if a < b {
        lemma_tools_bytes_mono(ts, a, b - 1);
    }
}

proof fn lemma_messages_tokens_prefix(ms: Seq<Message>, extra: Seq<Message>, n: int)
    requires
        0 <= n <= ms.len(),
    ensures
        messages_tokens(ms + extra, n) == messages_tokens(ms, n),
    decreases n,
{
    if n > 0 {
        lemma_messages_tokens_prefix(ms, extra, n - 1);
        assert((ms + extra)[n - 1] == ms[n - 1]);
    }
}

proof fn lemma_messages_tokens_shift(a: Seq<Message>, b: Seq<Message>, n: int)
    requires
        0 <= n <= b.len(),
    ensures
        messages_tokens(a + b, a.len() + n) == messages_tokens(a, a.len() as int) + messages_tokens(b, n),
    decreases n,
{
    if n == 0 {
        lemma_messages_tokens_prefix(a, b, a.len() as int);
    } else {
        lemma_messages_tokens_shift(a, b, n - 1);
        assert((a + b)[a.len() + n - 1] == b[n - 1]);
    }
}

/// The estimate of a conversation is the sum of the estimates of its
/// parts: estimating two runs of messages apart and adding gives the
/// estimate of the whole.
pub proof fn law_estimate_additive(a: Seq<Message>, b: Seq<Message>)
    ensures
        messages_tokens(a + b, (a + b).len() as int) == messages_tokens(a, a.len() as int) + messages_tokens(b, b.len() as int),
{
    lemma_messages_tokens_shift(a, b, b.len() as int);
}

} // verus!
