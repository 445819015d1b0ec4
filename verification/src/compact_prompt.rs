//! Prompts for summarising a conversation when its context runs out, and
//! the cleanup of the summary the model writes.
use vstd::prelude::*;

use crate::text::{
    chars_of, find, find_chars, push_str, string_of, sub_vec, trim, trim_string,
};

verus! {

pub const NO_TOOLS_PREAMBLE: &'static str = "CRITICAL: Respond with TEXT ONLY. Do NOT call any tools.

- Do NOT use any tools. You already have all the context you need in the conversation above.
- Tool calls will be REJECTED and will waste your only turn — you will fail the task.
- Your entire response must be plain text: an <analysis> block followed by a <summary> block.

";

pub const ANALYSIS_INSTRUCTION: &'static str = "Before providing your final summary, wrap your analysis in <analysis> tags to organize your thoughts and ensure you've covered all necessary points. In your analysis process:

1. Chronologically analyze each message and section of the conversation. For each section thoroughly identify:
   - The user's explicit requests and intents
   - Your approach to addressing the user's requests
   - Key decisions, technical concepts and code patterns
   - Specific details like file names, full code snippets, function signatures, file edits
   - Errors encountered and how they were fixed
   - Pay special attention to specific user feedback, especially if the user told you to do something differently.
2. Double-check for technical accuracy and completeness, addressing each required element thoroughly.";

pub const SUMMARY_TEMPLATE: &'static str = "Your summary should include the following sections:

1. Primary Request and Intent: Capture all of the user's explicit requests and intents in detail
2. Key Technical Concepts: List all important technical concepts, technologies, and frameworks discussed.
3. Files and Code Sections: Enumerate specific files and code sections examined, modified, or created. Include full code snippets where applicable and a summary of why each file is important.
4. Errors and Fixes: List all errors encountered and how they were fixed. Include user feedback on errors if any.
5. Problem Solving: Document problems solved and any ongoing troubleshooting efforts.
6. All User Messages: List ALL user messages that are not tool results. These are critical for understanding the user's feedback and changing intent.
7. Pending Tasks: Outline any pending tasks that you have explicitly been asked to work on.
8. Current Work: Describe in detail precisely what was being worked on immediately before this summary request. Include file names and code snippets where applicable.
9. Optional Next Step: List the next step related to the most recent work. Include direct quotes from the most recent conversation showing exactly what task you were working on and where you left off.";

pub const NO_TOOLS_TRAILER: &'static str = "\n\nREMINDER: Do NOT call any tools. Respond with plain text only — an <analysis> block followed by a <summary> block. Tool calls will be rejected and you will fail the task.";

pub const FULL_TASK: &'static str = "Your task is to create a detailed summary of the conversation so far, paying close attention to the user's explicit requests and your previous actions. This summary should be thorough in capturing technical details, code patterns, and architectural decisions that would be essential for continuing development work without losing context.

";

pub const FULL_CLOSING: &'static str = "

Please provide your summary based on the conversation so far, following this structure and ensuring precision and thoroughness in your response.";

pub const PARTIAL_TASK: &'static str = "Your task is to create a detailed summary of the RECENT portion of the conversation — the messages that follow earlier retained context. The earlier messages are being kept intact and do NOT need to be summarized. Focus your summary on what was discussed, learned, and accomplished in the recent messages only.

";

pub const PARTIAL_CLOSING: &'static str = "

Please provide your summary based on the RECENT messages only (after the retained earlier context), following this structure and ensuring precision and thoroughness in your response.";

pub const SECTION_BREAK: &'static str = "

";

/// A prompt built from the shared parts around a task and a closing request.
pub open spec fn framed_prompt(task: Seq<char>, closing: Seq<char>) -> Seq<char> {
    NO_TOOLS_PREAMBLE@ + task + ANALYSIS_INSTRUCTION@ + SECTION_BREAK@ + SUMMARY_TEMPLATE@ + closing
        + NO_TOOLS_TRAILER@
}

fn framed(task: &str, closing: &str) -> (r: String)
    ensures
        r@ == framed_prompt(task@, closing@),
{
    let mut r = NO_TOOLS_PREAMBLE.to_string();
    push_str(&mut r, task);
    push_str(&mut r, ANALYSIS_INSTRUCTION);
    push_str(&mut r, SECTION_BREAK);
    push_str(&mut r, SUMMARY_TEMPLATE);
    push_str(&mut r, closing);
    push_str(&mut r, NO_TOOLS_TRAILER);
    r
}

/// The full compaction prompt (summarise the entire conversation).
pub fn get_compact_prompt() -> (r: String)
    ensures
        r@ == framed_prompt(FULL_TASK@, FULL_CLOSING@),
{
    framed(FULL_TASK, FULL_CLOSING)
}

/// The partial compaction prompt (summarise only the recent messages).
pub fn get_partial_compact_prompt() -> (r: String)
    ensures
        r@ == framed_prompt(PARTIAL_TASK@, PARTIAL_CLOSING@),
{
    framed(PARTIAL_TASK, PARTIAL_CLOSING)
}

/// Drop the `<analysis>` scratchpad: everything from the first
/// `<analysis>` up to the end of the first `</analysis>`.
pub open spec fn strip_analysis(s: Seq<char>) -> Seq<char> {
    match (find(s, "<analysis>"@), find(s, "</analysis>"@)) {
        (Some(a), Some(e)) => s.take(a) + s.skip(e + 11),
        _ => s,
    }
}

/// The `<summary>` part can be cut out: when both tags occur, the closing
/// one does not start before the opening one ends.
pub open spec fn summary_cut_ok(s: Seq<char>) -> bool {
    match (find(s, "<summary>"@), find(s, "</summary>"@)) {
        (Some(a), Some(e)) => a + 9 <= e,
        _ => true,
    }
}

/// Keep only what stands between the first `<summary>` and the first
/// `</summary>`, trimmed, under a `Summary:` heading.
pub open spec fn extract_summary(s: Seq<char>) -> Seq<char> {
    match (find(s, "<summary>"@), find(s, "</summary>"@)) {
        (Some(a), Some(e)) => "Summary:\n"@ + trim(s.subrange(a + 9, e)),
        _ => s,
    }
}

/// Collapse every run of three or more newlines to two: a newline that
/// follows two newlines is dropped.
pub open spec fn squeeze_newlines(s: Seq<char>) -> Seq<char>
    decreases s.len(),
{
    if s.len() == 0 {
        seq![]
    } else {
        let p = squeeze_newlines(s.drop_last());
        let n = s.len();
        if n >= 3 && s[n - 1] == '\n' && s[n - 2] == '\n' && s[n - 3] == '\n' {
            p
        } else {
            p.push(s[n - 1])
        }
    }
}

/// The cleaned summary.
pub open spec fn spec_format_compact_summary(raw: Seq<char>) -> Seq<char> {
    trim(squeeze_newlines(extract_summary(strip_analysis(raw))))
}

proof fn lemma_found(s: Seq<char>, needle: Seq<char>)
    ensures
        find(s, needle) matches Some(k) ==> 0 <= k && k + needle.len() <= s.len(),
{
    crate::text::lemma_find_from(s, needle, 0);
}

fn squeeze(s: &[char]) -> (r: Vec<char>)
    ensures
        r@ == squeeze_newlines(s@),
{
    let mut out: Vec<char> = Vec::new();
    let mut i: usize = 0;
    while i < s.len()
        invariant
            i <= s@.len(),
            out@ == squeeze_newlines(s@.take(i as int)),
        decreases s.len() - i,
    {
        assert(s@.take(i + 1).drop_last() == s@.take(i as int));
        if !(i >= 2 && s[i] == '\n' && s[i - 1] == '\n' && s[i - 2] == '\n') {
            out.push(s[i]);
        }
        i = i + 1;
    }
    assert(s@.take(s@.len() as int) == s@);
    out
}

/// Strip the `<analysis>` scratchpad, keep the `<summary>` content, and
/// collapse runs of blank lines.
pub fn format_compact_summary(raw: &str) -> (r: String)
    requires
        summary_cut_ok(strip_analysis(raw@)),
    ensures
        r@ == spec_format_compact_summary(raw@),
{
    let v = chars_of(raw);
    let open_a: Vec<char> = chars_of("<analysis>");
    let close_a: Vec<char> = chars_of("</analysis>");
    let open_s: Vec<char> = chars_of("<summary>");
    let close_s: Vec<char> = chars_of("</summary>");
    proof {
        reveal_strlit("<analysis>");
        reveal_strlit("</analysis>");
        reveal_strlit("<summary>");
        reveal_strlit("</summary>");
        lemma_found(v@, open_a@);
        lemma_found(v@, close_a@);
        assert(close_a@.len() == 11);
        assert(open_s@.len() == 9);
    }
    let stripped: Vec<char> = match (find_chars(v.as_slice(), open_a.as_slice()), find_chars(v.as_slice(), close_a.as_slice())) {
        (Some(a), Some(e)) => {
            let n = v.len();
            let mut w = sub_vec(v.as_slice(), 0, a);
            let tail = sub_vec(v.as_slice(), e + 11, n);
            let mut t = tail;
            w.append(&mut t);
            proof {
                assert(v@.subrange(0, a as int) == v@.take(a as int));
                assert(v@.subrange(e + 11, v@.len() as int) == v@.skip(e + 11));
            }
            w
        },
        _ => v,
    };
    assert(stripped@ == strip_analysis(raw@));
    proof {
        lemma_found(stripped@, open_s@);
        lemma_found(stripped@, close_s@);
    }
    let extracted: Vec<char> = match (find_chars(stripped.as_slice(), open_s.as_slice()), find_chars(stripped.as_slice(), close_s.as_slice())) {
        (Some(a), Some(e)) => {
            let inner = string_of(sub_vec(stripped.as_slice(), a + 9, e).as_slice());
            let trimmed = trim_string(inner.as_str());
            let mut w: Vec<char> = chars_of("Summary:\n");
            let mut t = chars_of(trimmed.as_str());
            w.append(&mut t);
            w
        },
        _ => stripped,
    };
    assert(extracted@ == extract_summary(strip_analysis(raw@)));
    let squeezed = squeeze(extracted.as_slice());
    let s = string_of(squeezed.as_slice());
    trim_string(s.as_str())
}

/// Wrap a cleaned summary with the framing that continues the
/// conversation.
pub open spec fn spec_user_summary_message(summary: Seq<char>, recent_preserved: bool) -> Seq<char> {
    "This session is being continued from a previous conversation that ran out of context. The summary below covers the earlier portion of the conversation.\n\n"@
        + spec_format_compact_summary(summary) + (if recent_preserved {
        "\n\nRecent messages are preserved verbatim."@
    } else {
        seq![]
    }) + CONTINUE_INSTRUCTION@
}

pub const CONTINUE_INSTRUCTION: &'static str = "\n\nContinue the conversation from where it left off without asking the user any further questions. Resume directly — do not acknowledge the summary, do not recap what was happening, do not preface with \"I'll continue\" or similar. Pick up the last task as if the break never happened.";

/// The message that replaces the summarised part of the conversation.
pub fn get_compact_user_summary_message(summary: &str, recent_preserved: bool) -> (r: String)
    requires
        summary_cut_ok(strip_analysis(summary@)),
    ensures
        r@ == spec_user_summary_message(summary@, recent_preserved),
{
    let formatted = format_compact_summary(summary);
    let mut msg = "This session is being continued from a previous conversation that ran out of context. The summary below covers the earlier portion of the conversation.\n\n".to_string();
    push_str(&mut msg, formatted.as_str());
    if recent_preserved {
        push_str(&mut msg, "\n\nRecent messages are preserved verbatim.");
    }
    push_str(&mut msg, CONTINUE_INSTRUCTION);
    msg
}

} // verus!
