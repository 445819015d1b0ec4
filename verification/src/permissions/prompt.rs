//! Modal prompts: what a terminal prompt shows and how it reads the answer,
//! and a scripted prompt for tests.
//!
//! Writing to the terminal and reading the line are left to the caller.
use vstd::prelude::*;

use super::checker::{ModalOption, ModalRequest};
use crate::text::{chars_of, decimal, decimal_string, parse_usize, push_str, spec_parse_usize, trim, trim_string};

verus! {

/// A prompt on the terminal: the request goes to standard error, the
/// selection comes from a line of standard input.
pub struct CliModalPrompt;

impl CliModalPrompt {
    pub fn new() -> (r: Self) {
        CliModalPrompt
    }
}

/// The selection that a typed line stands for: after trimming, `c` or `C`
/// cancels; a number from 1 to `count` picks that option (counted from 0);
/// anything else is no selection.
pub open spec fn spec_selection(line: Seq<char>, count: nat) -> Option<nat> {
    let t = trim(line);
    if t == "c"@ || t == "C"@ {
        None
    } else {
        match spec_parse_usize(t) {
            Some(k) => if 1 <= k && k <= count {
                Some((k - 1) as nat)
            } else {
                None
            },
            None => None,
        }
    }
}

/// Read the selection typed on a line, for a request with `count` options.
pub fn parse_selection(line: &str, count: usize) -> (r: Option<usize>)
    ensures
        match spec_selection(line@, count as nat) {
            Some(k) => r == Some(k as usize),
            None => r is None,
        },
{
    let t = trim_string(line);
    let v = chars_of(t.as_str());
    proof {
        reveal_strlit("c");
        reveal_strlit("C");
    }
    if v.len() == 1 && (v[0] == 'c' || v[0] == 'C') {
        assert(t@ =~= "c"@ || t@ =~= "C"@);
        return None;
    }
    assert(t@ != "c"@ && t@ != "C"@);
    match parse_usize(v.as_slice()) {
        Some(n) => if n >= 1 && n <= count {
            Some(n - 1)
        } else {
            None
        },
        None => None,
    }
}

/// The line of an option: its number (from 1), label, and description.
pub open spec fn option_line(number: nat, o: ModalOption) -> Seq<char> {
    "  "@ + decimal(number) + ". "@ + o.label@ + match o.description {
        Some(d) => "  ("@ + d@ + ")"@,
        None => seq![],
    } + "\n"@
}

/// The lines of `opts[..n]`.
pub open spec fn option_lines(opts: Seq<ModalOption>, n: int) -> Seq<char>
    decreases n,
{
    if n <= 0 {
        seq![]
    } else {
        option_lines(opts, n - 1) + option_line(n as nat, opts[n - 1])
    }
}

/// What the terminal prompt shows for a request: a blank line, the title
/// between rules, the subtitle, the numbered options, and the question.
pub open spec fn spec_render(req: ModalRequest) -> Seq<char> {
    "\n─── "@ + req.title@ + " ───\n"@ + match req.subtitle {
        Some(s) => "  "@ + s@ + "\n"@,
        None => seq![],
    } + "\n"@ + option_lines(req.options@, req.options@.len() as int) + "\n"@ + "  Select [1-"@ + decimal(
        req.options@.len() as nat,
    ) + "] or 'c' to cancel: "@
}

impl CliModalPrompt {
    /// The text the prompt writes for `request`.
    pub fn render(&self, request: &ModalRequest) -> (r: String)
        ensures
            r@ == spec_render(*request),
    {
        let mut out = "\n─── ".to_string();
        push_str(&mut out, request.title.as_str());
        push_str(&mut out, " ───\n");
        match &request.subtitle {
            Some(s) => {
                push_str(&mut out, "  ");
                push_str(&mut out, s.as_str());
                push_str(&mut out, "\n");
            },
            None => {},
        }
        push_str(&mut out, "\n");
        let ghost head = out@;
        let mut i: usize = 0;
        while i < request.options.len()
            invariant
                i <= request.options@.len(),
                out@ == head + option_lines(request.options@, i as int),
            decreases request.options.len() - i,
        {
            let o = &request.options[i];
            push_str(&mut out, "  ");
            let number = decimal_string(i + 1);
            push_str(&mut out, number.as_str());
            push_str(&mut out, ". ");
            push_str(&mut out, o.label.as_str());
            match &o.description {
                Some(d) => {
                    push_str(&mut out, "  (");
                    push_str(&mut out, d.as_str());
                    push_str(&mut out, ")");
                },
                None => {},
            }
            push_str(&mut out, "\n");
            assert(out@ =~= head + option_lines(request.options@, i + 1));
            i = i + 1;
        }
        push_str(&mut out, "\n");
        push_str(&mut out, "  Select [1-");
        let count = decimal_string(request.options.len());
        push_str(&mut out, count.as_str());
        push_str(&mut out, "] or 'c' to cancel: ");
        out
    }
}

/// A scripted prompt: answers with queued responses, front first, then
/// with `default` once the queue is empty.
pub struct MockModalPrompt {
    pub responses: Vec<Option<usize>>,
    pub default: Option<usize>,
}

impl MockModalPrompt {
    /// A prompt that always answers `index`.
    pub fn always(index: Option<usize>) -> (r: Self)
        ensures
            r.responses@.len() == 0,
            r.default == index,
    {
        MockModalPrompt { responses: Vec::new(), default: index }
    }

    /// A prompt that answers `responses` in order, then `default`.
    pub fn with_responses(responses: Vec<Option<usize>>, default: Option<usize>) -> (r: Self)
        ensures
            r.responses == responses,
            r.default == default,
    {
        MockModalPrompt { responses, default }
    }

    /// The next answer: the front of the queue, which it removes, or the
    /// default when the queue is empty.
    pub fn next_response(&mut self) -> (r: Option<usize>)
        ensures
            final(self).default == old(self).default,
            old(self).responses@.len() == 0 ==> r == old(self).default && final(self).responses@.len() == 0,
            old(self).responses@.len() > 0 ==> r == old(self).responses@[0] && final(self).responses@
                == old(self).responses@.drop_first(),
    {
        if self.responses.len() == 0 {
            self.default
        } else {
            self.responses.remove(0)
        }
    }
}

} // verus!
