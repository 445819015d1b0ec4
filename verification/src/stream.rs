//! Assembling a model's streamed response: text deltas are joined, and tool
//! calls are cut from the stream at each tool start, at `Done`, and at the
//! end of the stream.
//!
//! Reading the stream is left to the caller, which feeds each chunk in.
use vstd::prelude::*;

use crate::text::{push_str, str_is_empty};

verus! {

/// Token counts a model reports for a turn.
#[derive(Debug, Clone, Copy, PartialEq, Eq, Structural)]
pub struct TokenUsage {
    pub input_tokens: u32,
    pub output_tokens: u32,
}

/// One piece of a streamed response.
#[derive(Debug, Clone)]
pub enum StreamChunk {
    /// More text of the answer.
    TextDelta { text: String },
    /// A tool call begins.
    ToolUseStart { id: String, name: String },
    /// More of the current tool call's JSON arguments.
    ToolUseInputDelta { json: String },
    /// The end of the response, with the turn's usage when reported.
    Done { usage: Option<TokenUsage> },
}

impl StreamChunk {
    /// A copy of the chunk.
    pub fn duplicate(&self) -> (r: Self)
        ensures
            r == *self,
    {
        match self {
            StreamChunk::TextDelta { text } => StreamChunk::TextDelta { text: text.clone() },
            StreamChunk::ToolUseStart { id, name } => StreamChunk::ToolUseStart { id: id.clone(), name: name.clone() },
            StreamChunk::ToolUseInputDelta { json } => StreamChunk::ToolUseInputDelta { json: json.clone() },
            StreamChunk::Done { usage } => StreamChunk::Done { usage: *usage },
        }
    }
}

/// A tool call cut from the stream; its arguments as JSON text.
#[derive(Debug, Clone)]
pub struct AssembledToolCall {
    pub id: String,
    pub name: String,
    pub arguments: String,
}

/// A whole response: the text, the tool calls in order, and the usage.
#[derive(Debug, Clone)]
pub struct AssembledResponse {
    pub text: String,
    pub tool_calls: Vec<AssembledToolCall>,
    pub usage: Option<TokenUsage>,
}

/// A name for what `serde_json` makes of JSON text: the compact text of the
/// value it parses to, or nothing when the text is not JSON.
pub uninterp spec fn json_canonical_text(raw: Seq<char>) -> Option<Seq<char>>;

/// Calls `serde_json::from_str` into a `serde_json::Value` and writes the
/// value back with `Value::to_string`; the result depends on `raw` alone.
#[verifier::external_body]
fn canonical_json(raw: &str) -> (r: Option<String>)
    ensures
        match r {
            Some(t) => json_canonical_text(raw@) == Some(t@),
            None => json_canonical_text(raw@) is None,
        },
{
    serde_json::from_str::<serde_json::Value>(raw).ok().map(|v| v.to_string())
}

/// A name for whether `serde_json` parses `text` to an object.
pub uninterp spec fn json_object(text: Seq<char>) -> bool;

/// Calls `serde_json::from_str` into a `serde_json::Value` and asks
/// `Value::is_object`; text that does not parse is no object. The result
/// depends on `text` alone.
#[verifier::external_body]
pub(crate) fn is_json_object(text: &str) -> (b: bool)
    ensures
        b == json_object(text@),
{
    serde_json::from_str::<serde_json::Value>(text).map(|v| v.is_object()).unwrap_or(false)
}

/// The arguments of a streamed tool call: `{}` when nothing or no JSON was
/// streamed, else the streamed JSON in compact form.
pub open spec fn spec_parse_arguments(raw: Seq<char>) -> Seq<char> {
    if raw.len() == 0 {
        "{}"@
    } else {
        match json_canonical_text(raw) {
            Some(t) => t,
            None => "{}"@,
        }
    }
}

/// The arguments of a streamed tool call.
pub fn parse_arguments(raw: &str) -> (r: String)
    ensures
        r@ == spec_parse_arguments(raw@),
{
    if str_is_empty(raw) {
        return "{}".to_string();
    }
    match canonical_json(raw) {
        Some(t) => t,
        None => "{}".to_string(),
    }
}

/// The state of an assembly: what is final, and the tool call in progress
/// (it counts as open while its name is non-empty).
pub struct StreamView {
    pub text: Seq<char>,
    pub calls: Seq<(Seq<char>, Seq<char>, Seq<char>)>,
    pub usage: Option<TokenUsage>,
    pub cur_id: Seq<char>,
    pub cur_name: Seq<char>,
    pub cur_args: Seq<char>,
}

/// `calls` with the open call, if any, cut off.
pub open spec fn flushed(s: StreamView) -> Seq<(Seq<char>, Seq<char>, Seq<char>)> {
    if s.cur_name.len() > 0 {
        s.calls.push((s.cur_id, s.cur_name, spec_parse_arguments(s.cur_args)))
    } else {
        s.calls
    }
}

/// The state after one more chunk.
pub open spec fn step(s: StreamView, c: StreamChunk) -> StreamView {
    match c {
        StreamChunk::TextDelta { text } => StreamView { text: s.text + text@, ..s },
        StreamChunk::ToolUseStart { id, name } => StreamView {
            calls: flushed(s),
            cur_id: id@,
            cur_name: name@,
            cur_args: seq![],
            ..s
        },
        StreamChunk::ToolUseInputDelta { json } => StreamView { cur_args: s.cur_args + json@, ..s },
        StreamChunk::Done { usage } => StreamView { usage: usage, calls: flushed(s), cur_name: seq![], ..s },
    }
}

/// Joins the chunks of one streamed response.
pub struct StreamAssembler {
    text: String,
    calls: Vec<AssembledToolCall>,
    usage: Option<TokenUsage>,
    cur_id: String,
    cur_name: String,
    cur_args: String,
}

/// The view of assembled tool calls.
pub open spec fn calls_view(v: Seq<AssembledToolCall>) -> Seq<(Seq<char>, Seq<char>, Seq<char>)> {
    v.map_values(|c: AssembledToolCall| (c.id@, c.name@, c.arguments@))
}

impl View for StreamAssembler {
    type V = StreamView;

    closed spec fn view(&self) -> StreamView {
        StreamView {
            text: self.text@,
            calls: calls_view(self.calls@),
            usage: self.usage,
            cur_id: self.cur_id@,
            cur_name: self.cur_name@,
            cur_args: self.cur_args@,
        }
    }
}

impl StreamAssembler {
    /// Nothing streamed yet.
    pub fn new() -> (r: Self)
        ensures
            r@.text.len() == 0,
            r@.calls.len() == 0,
            r@.usage is None,
            r@.cur_id.len() == 0,
            r@.cur_name.len() == 0,
            r@.cur_args.len() == 0,
    {
        StreamAssembler {
            text: String::new(),
            calls: Vec::new(),
            usage: None,
            cur_id: String::new(),
            cur_name: String::new(),
            cur_args: String::new(),
        }
    }

    fn flush(&mut self)
        ensures
            final(self)@ == (StreamView { calls: flushed(old(self)@), ..old(self)@ }),
    {
        if !str_is_empty(self.cur_name.as_str()) {
            let ghost before = calls_view(self.calls@);
            let arguments = parse_arguments(self.cur_args.as_str());
            self.calls.push(AssembledToolCall { id: self.cur_id.clone(), name: self.cur_name.clone(), arguments });
            assert(calls_view(self.calls@) =~= before.push((self@.cur_id, self@.cur_name, spec_parse_arguments(self@.cur_args))));
        }
    }

    /// Take one more chunk.
    pub fn feed(&mut self, chunk: StreamChunk)
        ensures
            final(self)@ == step(old(self)@, chunk),
    {
        match chunk {
            StreamChunk::TextDelta { text } => {
                push_str(&mut self.text, text.as_str());
            },
            StreamChunk::ToolUseStart { id, name } => {
                self.flush();
                self.cur_id = id;
                self.cur_name = name;
                self.cur_args = String::new();
            },
            StreamChunk::ToolUseInputDelta { json } => {
                push_str(&mut self.cur_args, json.as_str());
            },
            StreamChunk::Done { usage } => {
                self.usage = usage;
                self.flush();
                self.cur_name = String::new();
            },
        }
    }

    /// The response, with a call still open at the end cut off too.
    pub fn finish(self) -> (r: AssembledResponse)
        ensures
            r.text@ == self@.text,
            calls_view(r.tool_calls@) == flushed(self@),
            r.usage == self@.usage,
    {
        let mut s = self;
        s.flush();
        AssembledResponse { text: s.text, tool_calls: s.calls, usage: s.usage }
    }
}

/// The state after the chunks `cs`, from `s`.
pub open spec fn steps(s: StreamView, cs: Seq<StreamChunk>) -> StreamView
    decreases cs.len(),
{
    if cs.len() == 0 {
        s
    } else {
        step(steps(s, cs.drop_last()), cs.last())
    }
}

/// Assemble a whole stream: the text joined, the tool calls cut at each
/// start, at `Done`, and at the end.
pub fn assemble(chunks: &Vec<StreamChunk>) -> (r: AssembledResponse)
    ensures
        ({
            let s = steps(
                StreamView { text: seq![], calls: seq![], usage: None, cur_id: seq![], cur_name: seq![], cur_args: seq![] },
                chunks@,
            );
            &&& r.text@ == s.text
            &&& calls_view(r.tool_calls@) == flushed(s)
            &&& r.usage == s.usage
        }),
{
    let mut a = StreamAssembler::new();
    let ghost start = a@;
    assert(start.text =~= seq![] && start.calls =~= seq![] && start.cur_id =~= seq![] && start.cur_name =~= seq![]
        && start.cur_args =~= seq![]);
    assert(start == StreamView { text: seq![], calls: seq![], usage: None, cur_id: seq![], cur_name: seq![], cur_args: seq![] });
    let mut i: usize = 0;
    while i < chunks.len()
        invariant
            i <= chunks@.len(),
            a@ == steps(start, chunks@.take(i as int)),
        decreases chunks.len() - i,
    {
        assert(chunks@.take(i + 1).drop_last() =~= chunks@.take(i as int));
        a.feed(chunks[i].duplicate());
        i = i + 1;
    }
    assert(chunks@.take(chunks@.len() as int) =~= chunks@);
    a.finish()
}

/// The text deltas of `cs`, joined.
pub open spec fn texts_of(cs: Seq<StreamChunk>) -> Seq<char>
    decreases cs.len(),
{
    if cs.len() == 0 {
        seq![]
    } else {
        texts_of(cs.drop_last()) + match cs.last() {
            StreamChunk::TextDelta { text } => text@,
            _ => seq![],
        }
    }
}

/// How many tool calls `cs` starts (with a name).
pub open spec fn starts_of(cs: Seq<StreamChunk>) -> nat
    decreases cs.len(),
{
    if cs.len() == 0 {
        0
    } else {
        starts_of(cs.drop_last()) + match cs.last() {
            StreamChunk::ToolUseStart { name, .. } => if name@.len() > 0 { 1nat } else { 0nat },
            _ => 0nat,
        }
    }
}

proof fn lemma_steps(s: StreamView, cs: Seq<StreamChunk>)
    ensures
        steps(s, cs).text == s.text + texts_of(cs),
        flushed(steps(s, cs)).len() == flushed(s).len() + starts_of(cs),
    decreases cs.len(),
{
    if cs.len() == 0 {
        assert(s.text + texts_of(cs) =~= s.text);
    } else {
        lemma_steps(s, cs.drop_last());
        let prev = steps(s, cs.drop_last());
        assert(s.text + texts_of(cs.drop_last()) + match cs.last() {
            StreamChunk::TextDelta { text } => text@,
            _ => seq![],
        } =~= s.text + texts_of(cs));
        match cs.last() {
            StreamChunk::TextDelta { text } => {},
            StreamChunk::ToolUseStart { id, name } => {},
            StreamChunk::ToolUseInputDelta { json } => {},
            StreamChunk::Done { usage } => {},
        }
    }
}

/// The text of an assembled response is the stream's text deltas joined,
/// and every tool call the stream starts (with a name) is delivered
/// exactly once.
pub proof fn law_stream_delivers_everything(cs: Seq<StreamChunk>)
    ensures
        ({
            let init = StreamView {
                text: seq![],
                calls: seq![],
                usage: None,
                cur_id: seq![],
                cur_name: seq![],
                cur_args: seq![],
            };
            &&& steps(init, cs).text == texts_of(cs)
            &&& flushed(steps(init, cs)).len() == starts_of(cs)
        }),
{
    let init = StreamView { text: seq![], calls: seq![], usage: None, cur_id: seq![], cur_name: seq![], cur_args: seq![] };
    lemma_steps(init, cs);
    assert(init.text + texts_of(cs) =~= texts_of(cs));
}

} // verus!
