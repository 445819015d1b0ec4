//! Individual prompt-injection detection heuristics.
//!
//! Each function takes the raw inbound text and returns the findings it
//! caught. [`super::detector`] composes them into a verdict.
//!
//! The heuristics are deliberately conservative — false positives on
//! legitimate but unusual content are acceptable because the worst outcome
//! is a `Sanitize` rather than a complete block.
use std::borrow::Cow;

use vstd::prelude::*;

use crate::text::{
    ascii_lower_chars, ascii_lower_seq, chars_of, concat3, contains, contains_chars, decimal,
    decimal_string, is_control, is_ctl, lines, lines_chars, ltrim, ltrim_index, matches_at,
    push_str, starts_with, string_of, sub_vec, trim, trim_string,
};

verus! {

/// Severity tier for a finding.
#[derive(Debug, Clone, Copy, PartialEq, Eq, Structural)]
pub enum Severity {
    /// Strip from the text and continue — control chars, ANSI escapes,
    /// zero-width Unicode.
    Strip,
    /// Wrap the text in quarantine markers so the model treats it as
    /// untrusted data rather than instructions.
    Quarantine,
    /// Block the content from reaching the LLM.
    Block,
}

/// One detection finding.
#[derive(Debug, Clone, PartialEq, Eq)]
pub struct Finding {
    pub severity: Severity,
    pub reason: String,
}

/// A finding as a severity and the text of its reason.
pub open spec fn fview(f: Finding) -> (Severity, Seq<char>) {
    (f.severity, f.reason@)
}

pub open spec fn fviews(s: Seq<Finding>) -> Seq<(Severity, Seq<char>)> {
    s.map_values(|f: Finding| fview(f))
}

impl Finding {
    pub fn block(reason: String) -> (f: Self)
        ensures
            f.severity == Severity::Block,
            f.reason == reason,
    {
        Finding { severity: Severity::Block, reason }
    }

    pub fn strip(reason: String) -> (f: Self)
        ensures
            f.severity == Severity::Strip,
            f.reason == reason,
    {
        Finding { severity: Severity::Strip, reason }
    }

    pub fn quarantine(reason: String) -> (f: Self)
        ensures
            f.severity == Severity::Quarantine,
            f.reason == reason,
    {
        Finding { severity: Severity::Quarantine, reason }
    }
}

fn push_finding(out: &mut Vec<Finding>, f: Finding)
    ensures
        fviews(final(out)@) == fviews(old(out)@).push(fview(f)),
{
    out.push(f);
    assert(fviews(out@) =~= fviews(old(out)@).push(fview(f)));
}

// ---------------------------------------------------------------------------
// Instruction override
// ---------------------------------------------------------------------------

pub const OVERRIDE_PATTERN_COUNT: usize = 15;

pub open spec fn spec_override_pattern(i: int) -> Seq<char> {
    if i == 0 { "ignore previous instructions"@ }
    else if i == 1 { "ignore all previous instructions"@ }
    else if i == 2 { "ignore the above"@ }
    else if i == 3 { "disregard previous"@ }
    else if i == 4 { "disregard all prior"@ }
    else if i == 5 { "forget everything"@ }
    else if i == 6 { "forget your instructions"@ }
    else if i == 7 { "your new instructions are"@ }
    else if i == 8 { "new instructions:"@ }
    else if i == 9 { "from now on, you will"@ }
    else if i == 10 { "from now on you will"@ }
    else if i == 11 { "you are now "@ }
    else if i == 12 { "you must now"@ }
    else if i == 13 { "override your guidelines"@ }
    else { "override system prompt"@ }
}

fn override_pattern(i: usize) -> (s: &'static str)
    requires
        i < OVERRIDE_PATTERN_COUNT,
    ensures
        s@ == spec_override_pattern(i as int),
{
    if i == 0 { "ignore previous instructions" }
    else if i == 1 { "ignore all previous instructions" }
    else if i == 2 { "ignore the above" }
    else if i == 3 { "disregard previous" }
    else if i == 4 { "disregard all prior" }
    else if i == 5 { "forget everything" }
    else if i == 6 { "forget your instructions" }
    else if i == 7 { "your new instructions are" }
    else if i == 8 { "new instructions:" }
    else if i == 9 { "from now on, you will" }
    else if i == 10 { "from now on you will" }
    else if i == 11 { "you are now " }
    else if i == 12 { "you must now" }
    else if i == 13 { "override your guidelines" }
    else { "override system prompt" }
}

pub open spec fn override_reason(p: Seq<char>) -> Seq<char> {
    "instruction-override phrase detected: \""@ + p + "\""@
}

/// Findings for the first `n` override phrases that occur in `lower`.
pub open spec fn override_findings(lower: Seq<char>, n: int) -> Seq<(Severity, Seq<char>)>
    decreases n,
{
    if n <= 0 {
        seq![]
    } else {
        let rest = override_findings(lower, n - 1);
        if contains(lower, spec_override_pattern(n - 1)) {
            rest.push((Severity::Block, override_reason(spec_override_pattern(n - 1))))
        } else {
            rest
        }
    }
}

/// Detect explicit instruction-override phrases, case-insensitively (ASCII):
/// one `Block` finding per phrase that occurs, in the phrase list's order.
pub fn instruction_override(text: &str) -> (r: Vec<Finding>)
    ensures
        fviews(r@) == override_findings(ascii_lower_seq(text@), OVERRIDE_PATTERN_COUNT as int),
{
    let t = chars_of(text);
    let lower = ascii_lower_chars(t.as_slice());
    let mut out: Vec<Finding> = Vec::new();
    let mut i: usize = 0;
    while i < OVERRIDE_PATTERN_COUNT
        invariant
            i <= OVERRIDE_PATTERN_COUNT,
            lower@ == ascii_lower_seq(text@),
            fviews(out@) == override_findings(lower@, i as int),
        decreases OVERRIDE_PATTERN_COUNT - i,
    {
        let pat = override_pattern(i);
        let p = chars_of(pat);
        if contains_chars(lower.as_slice(), p.as_slice()) {
            let reason = concat3("instruction-override phrase detected: \"", pat, "\"");
            push_finding(&mut out, Finding::block(reason));
        }
        i = i + 1;
    }
    out
}

// ---------------------------------------------------------------------------
// Role-tag spoofing
// ---------------------------------------------------------------------------

pub const ROLE_TAG_COUNT: usize = 7;

pub open spec fn spec_role_needle(i: int) -> Seq<char> {
    if i == 0 { "system:"@ }
    else if i == 1 { "assistant:"@ }
    else if i == 2 { "<|system|>"@ }
    else if i == 3 { "<|assistant|>"@ }
    else if i == 4 { "<|im_start|>system"@ }
    else if i == 5 { "[system]"@ }
    else { "### system prompt"@ }
}

pub open spec fn spec_role_label(i: int) -> Seq<char> {
    if i == 0 { "line-start `system:` tag"@ }
    else if i == 1 { "line-start `assistant:` tag"@ }
    else if i == 2 { "ChatML `<|system|>` tag"@ }
    else if i == 3 { "ChatML `<|assistant|>` tag"@ }
    else if i == 4 { "OpenAI-style system role marker"@ }
    else if i == 5 { "bracketed `[system]` tag"@ }
    else { "Markdown SYSTEM PROMPT header"@ }
}

fn role_needle(i: usize) -> (s: &'static str)
    requires
        i < ROLE_TAG_COUNT,
    ensures
        s@ == spec_role_needle(i as int),
{
    if i == 0 { "system:" }
    else if i == 1 { "assistant:" }
    else if i == 2 { "<|system|>" }
    else if i == 3 { "<|assistant|>" }
    else if i == 4 { "<|im_start|>system" }
    else if i == 5 { "[system]" }
    else { "### system prompt" }
}

fn role_label(i: usize) -> (s: &'static str)
    requires
        i < ROLE_TAG_COUNT,
    ensures
        s@ == spec_role_label(i as int),
{
    if i == 0 { "line-start `system:` tag" }
    else if i == 1 { "line-start `assistant:` tag" }
    else if i == 2 { "ChatML `<|system|>` tag" }
    else if i == 3 { "ChatML `<|assistant|>` tag" }
    else if i == 4 { "OpenAI-style system role marker" }
    else if i == 5 { "bracketed `[system]` tag" }
    else { "Markdown SYSTEM PROMPT header" }
}

/// The first role tag, from index `i` on, that `lower` starts with.
pub open spec fn first_role_hit(lower: Seq<char>, i: int) -> Option<int>
    decreases ROLE_TAG_COUNT - i,
{
    if i < 0 || i >= ROLE_TAG_COUNT {
        None
    } else if starts_with(lower, spec_role_needle(i)) {
        Some(i)
    } else {
        first_role_hit(lower, i + 1)
    }
}

pub open spec fn role_reason(k: int) -> Seq<char> {
    "role-tag spoofing: "@ + spec_role_label(k) + " in inbound text"@
}

/// Findings for the first `n` lines: one `Block` finding for each line that,
/// after leading whitespace and ASCII lower-casing, starts with a role tag.
pub open spec fn role_findings(ls: Seq<Seq<char>>, n: int) -> Seq<(Severity, Seq<char>)>
    decreases n,
{
    if n <= 0 {
        seq![]
    } else {
        let rest = role_findings(ls, n - 1);
        match first_role_hit(ascii_lower_seq(ltrim(ls[n - 1])), 0) {
            Some(k) => rest.push((Severity::Block, role_reason(k))),
            None => rest,
        }
    }
}

fn role_hit(lower: &[char]) -> (r: Option<usize>)
    ensures
        r matches Some(k) ==> k < ROLE_TAG_COUNT && first_role_hit(lower@, 0) == Some(k as int),
        r is None ==> first_role_hit(lower@, 0) is None,
{
    let mut k: usize = 0;
    while k < ROLE_TAG_COUNT
        invariant
            k <= ROLE_TAG_COUNT,
            first_role_hit(lower@, 0) == first_role_hit(lower@, k as int),
        decreases ROLE_TAG_COUNT - k,
    {
        let needle = chars_of(role_needle(k));
        if matches_at(lower, needle.as_slice(), 0) {
            return Some(k);
        }
        k = k + 1;
    }
    None
}

/// Detect role-tag spoofing: inbound text lines that start (after
/// indentation) with a system or assistant role tag.
pub fn role_tag_spoofing(text: &str) -> (r: Vec<Finding>)
    ensures
        fviews(r@) == role_findings(lines(text@), lines(text@).len() as int),
{
    let t = chars_of(text);
    let ls = lines_chars(t.as_slice());
    let mut out: Vec<Finding> = Vec::new();
    let mut i: usize = 0;
    while i < ls.len()
        invariant
            i <= ls@.len(),
            t@ == text@,
            ls@.len() == lines(text@).len(),
            forall|k: int| 0 <= k < ls@.len() ==> #[trigger] ls@[k]@ == lines(text@)[k],
            fviews(out@) == role_findings(lines(text@), i as int),
        decreases ls.len() - i,
    {
        let line = &ls[i];
        let a = ltrim_index(line.as_slice(), 0);
        assert(line@.skip(0) == line@);
        let trimmed = sub_vec(line.as_slice(), a, line.len());
        assert(line@.subrange(a as int, line@.len() as int) == line@.skip(a as int));
        let lower = ascii_lower_chars(trimmed.as_slice());
        let hit = role_hit(lower.as_slice());
        match hit {
            Some(k) => {
                let reason = concat3("role-tag spoofing: ", role_label(k), " in inbound text");
                push_finding(&mut out, Finding::block(reason));
            },
            None => {},
        }
        i = i + 1;
    }
    out
}

// ---------------------------------------------------------------------------
// Control characters
// ---------------------------------------------------------------------------

pub open spec fn has_char(s: Seq<char>, c: char) -> bool {
    exists|i: int| 0 <= i < s.len() && s[i] == c
}

/// A control character other than ESC, NUL, newline, tab and carriage return.
pub open spec fn is_other_ctl(c: char) -> bool {
    is_ctl(c) && c != '\x1b' && c != '\0' && c != '\n' && c != '\t' && c != '\r'
}

pub open spec fn has_other_ctl(s: Seq<char>) -> bool {
    exists|i: int| 0 <= i < s.len() && is_other_ctl(s[i])
}

/// Findings for ANSI escapes, NUL bytes and other control characters, in
/// that order, each present at most once.
pub open spec fn control_findings(s: Seq<char>) -> Seq<(Severity, Seq<char>)> {
    let a: Seq<(Severity, Seq<char>)> = if has_char(s, '\x1b') {
        seq![(Severity::Strip, "ANSI escape sequences present"@)]
    } else {
        seq![]
    };
    let b: Seq<(Severity, Seq<char>)> = if has_char(s, '\0') {
        seq![(Severity::Strip, "null bytes present"@)]
    } else {
        seq![]
    };
    let c: Seq<(Severity, Seq<char>)> = if has_other_ctl(s) {
        seq![(Severity::Strip, "non-printable control characters present"@)]
    } else {
        seq![]
    };
    a + b + c
}

/// Detect control characters and ANSI escape sequences; newline, tab and
/// carriage return are ordinary.
pub fn control_chars(text: &str) -> (r: Vec<Finding>)
    ensures
        fviews(r@) == control_findings(text@),
{
    let t = chars_of(text);
    let mut has_ansi = false;
    let mut has_null = false;
    let mut has_other = false;
    let mut i: usize = 0;
    while i < t.len()
        invariant
            i <= t@.len(),
            t@ == text@,
            has_ansi == exists|k: int| 0 <= k < i && t@[k] == '\x1b',
            has_null == exists|k: int| 0 <= k < i && t@[k] == '\0',
            has_other == exists|k: int| 0 <= k < i && is_other_ctl(t@[k]),
        decreases t.len() - i,
    {
        let ch = t[i];
        if ch == '\x1b' {
            has_ansi = true;
        } else if ch == '\0' {
            has_null = true;
        } else if is_control(ch) && ch != '\n' && ch != '\t' && ch != '\r' {
            has_other = true;
        }
        i = i + 1;
    }
    let mut out: Vec<Finding> = Vec::new();
    if has_ansi {
        push_finding(&mut out, Finding::strip("ANSI escape sequences present".to_string()));
    }
    if has_null {
        push_finding(&mut out, Finding::strip("null bytes present".to_string()));
    }
    if has_other {
        push_finding(
            &mut out,
            Finding::strip("non-printable control characters present".to_string()),
        );
    }
    assert(fviews(out@) =~= control_findings(text@));
    out
}

// ---------------------------------------------------------------------------
// Invisible Unicode
// ---------------------------------------------------------------------------

/// Zero-width characters used to hide payloads.
pub open spec fn is_invisible(c: char) -> bool {
    c == '\u{200B}' || c == '\u{200C}' || c == '\u{200D}' || c == '\u{2060}' || c == '\u{FEFF}'
}

fn invisible(c: char) -> (b: bool)
    ensures
        b == is_invisible(c),
{
    c == '\u{200B}' || c == '\u{200C}' || c == '\u{200D}' || c == '\u{2060}' || c == '\u{FEFF}'
}

/// Over the first `n` characters: the length of the run of invisible
/// characters that ends there, and the longest such run.
pub open spec fn invisible_runs(s: Seq<char>, n: int) -> (nat, nat)
    decreases n,
{
    if n <= 0 {
        (0, 0)
    } else {
        let (run, best) = invisible_runs(s, n - 1);
        if is_invisible(s[n - 1]) {
            let r = run + 1;
            (r, if best >= r { best } else { r })
        } else {
            (0, best)
        }
    }
}

/// The longest run of consecutive invisible characters in `s`.
pub open spec fn longest_invisible_run(s: Seq<char>) -> nat {
    invisible_runs(s, s.len() as int).1
}

proof fn lemma_runs_bounded(s: Seq<char>, n: int)
    requires
        0 <= n,
    ensures
        invisible_runs(s, n).0 <= invisible_runs(s, n).1,
        invisible_runs(s, n).1 <= n,
    decreases n,
{
    if n > 0 {
        lemma_runs_bounded(s, n - 1);
    }
}

/// One `Strip` finding stating the longest run of invisible characters,
/// when that run has three or more; none otherwise.
pub open spec fn invisible_findings(s: Seq<char>) -> Seq<(Severity, Seq<char>)> {
    if longest_invisible_run(s) >= 3 {
        seq![
            (
                Severity::Strip,
                decimal(longest_invisible_run(s))
                    + " consecutive zero-width chars (possible hidden payload)"@,
            ),
        ]
    } else {
        seq![]
    }
}

/// Detect zero-width Unicode: a run of three or more consecutive invisible
/// characters gives one `Strip` finding that states the longest run.
pub fn invisible_unicode(text: &str) -> (r: Vec<Finding>)
    ensures
        fviews(r@) == invisible_findings(text@),
{
    let t = chars_of(text);
    let mut run: usize = 0;
    let mut max_run: usize = 0;
    let mut i: usize = 0;
    while i < t.len()
        invariant
            i <= t@.len(),
            t@ == text@,
            (run as nat, max_run as nat) == invisible_runs(t@, i as int),
        decreases t.len() - i,
    {
        proof {
            lemma_runs_bounded(t@, i as int);
        }
        if invisible(t[i]) {
            run = run + 1;
            if max_run < run {
                max_run = run;
            }
        } else {
            run = 0;
        }
        i = i + 1;
    }
    let mut out: Vec<Finding> = Vec::new();
    assert(fviews(out@) =~= Seq::<(Severity, Seq<char>)>::empty());
    if max_run >= 3 {
        let mut reason = decimal_string(max_run);
        push_str(&mut reason, " consecutive zero-width chars (possible hidden payload)");
        push_finding(&mut out, Finding::strip(reason));
        assert(fviews(out@) =~= seq![
            (
                Severity::Strip,
                decimal(longest_invisible_run(text@))
                    + " consecutive zero-width chars (possible hidden payload)"@,
            ),
        ]);
    }
    out
}

// ---------------------------------------------------------------------------
// Jailbreak markers
// ---------------------------------------------------------------------------

pub const JAILBREAK_NEEDLE_COUNT: usize = 8;

pub open spec fn spec_jailbreak_needle(i: int) -> Seq<char> {
    if i == 0 { "do anything now"@ }
    else if i == 1 { " dan "@ }
    else if i == 2 { "developer mode"@ }
    else if i == 3 { "jailbreak"@ }
    else if i == 4 { "no restrictions"@ }
    else if i == 5 { "unfiltered"@ }
    else if i == 6 { "without restrictions"@ }
    else { "without ethical constraints"@ }
}

fn jailbreak_needle(i: usize) -> (s: &'static str)
    requires
        i < JAILBREAK_NEEDLE_COUNT,
    ensures
        s@ == spec_jailbreak_needle(i as int),
{
    if i == 0 { "do anything now" }
    else if i == 1 { " dan " }
    else if i == 2 { "developer mode" }
    else if i == 3 { "jailbreak" }
    else if i == 4 { "no restrictions" }
    else if i == 5 { "unfiltered" }
    else if i == 6 { "without restrictions" }
    else { "without ethical constraints" }
}

pub open spec fn jailbreak_reason(n: Seq<char>) -> Seq<char> {
    "jailbreak marker: \""@ + trim(n) + "\""@
}

/// Findings for the first `n` markers that occur in `padded`.
pub open spec fn jailbreak_findings(padded: Seq<char>, n: int) -> Seq<(Severity, Seq<char>)>
    decreases n,
{
    if n <= 0 {
        seq![]
    } else {
        let rest = jailbreak_findings(padded, n - 1);
        if contains(padded, spec_jailbreak_needle(n - 1)) {
            rest.push((Severity::Quarantine, jailbreak_reason(spec_jailbreak_needle(n - 1))))
        } else {
            rest
        }
    }
}

/// The text searched for markers: ASCII-lower-cased, with a space on each
/// side so that whole words at either end are found.
pub open spec fn jailbreak_haystack(text: Seq<char>) -> Seq<char> {
    seq![' '] + ascii_lower_seq(text) + seq![' ']
}

/// Detect soft jailbreak markers: one `Quarantine` finding per marker that
/// occurs, in the marker list's order.
pub fn jailbreak_markers(text: &str) -> (r: Vec<Finding>)
    ensures
        fviews(r@) == jailbreak_findings(jailbreak_haystack(text@), JAILBREAK_NEEDLE_COUNT as int),
{
    let t = chars_of(text);
    let lower = ascii_lower_chars(t.as_slice());
    let mut padded: Vec<char> = Vec::new();
    padded.push(' ');
    let mut j: usize = 0;
    while j < lower.len()
        invariant
            j <= lower@.len(),
            padded@ == seq![' '] + lower@.take(j as int),
        decreases lower.len() - j,
    {
        padded.push(lower[j]);
        assert(lower@.take(j + 1) == lower@.take(j as int).push(lower@[j as int]));
        j = j + 1;
    }
    padded.push(' ');
    assert(lower@.take(lower@.len() as int) == lower@);
    assert(padded@ =~= jailbreak_haystack(text@));
    let mut out: Vec<Finding> = Vec::new();
    let mut i: usize = 0;
    while i < JAILBREAK_NEEDLE_COUNT
        invariant
            i <= JAILBREAK_NEEDLE_COUNT,
            padded@ == jailbreak_haystack(text@),
            fviews(out@) == jailbreak_findings(padded@, i as int),
        decreases JAILBREAK_NEEDLE_COUNT - i,
    {
        let n = jailbreak_needle(i);
        let nv = chars_of(n);
        if contains_chars(padded.as_slice(), nv.as_slice()) {
            let label = trim_string(n);
            let reason = concat3("jailbreak marker: \"", label.as_str(), "\"");
            push_finding(&mut out, Finding::quarantine(reason));
        }
        i = i + 1;
    }
    out
}

// ---------------------------------------------------------------------------
// Sanitising
// ---------------------------------------------------------------------------

/// Characters that survive stripping: everything but zero-width characters,
/// NUL, ESC and control characters other than newline, carriage return and
/// tab.
pub open spec fn keeps(c: char) -> bool {
    !is_invisible(c) && c != '\0' && c != '\x1b' && (!is_ctl(c) || c == '\n' || c == '\r' || c
        == '\t')
}

fn keep(c: char) -> (b: bool)
    ensures
        b == keeps(c),
{
    !invisible(c) && c != '\0' && c != '\x1b' && (!is_control(c) || c == '\n' || c == '\r' || c
        == '\t')
}

/// The characters of `s` that survive stripping, in order.
pub open spec fn kept(s: Seq<char>) -> Seq<char>
    decreases s.len(),
{
    if s.len() == 0 {
        seq![]
    } else if keeps(s.last()) {
        kept(s.drop_last()).push(s.last())
    } else {
        kept(s.drop_last())
    }
}

/// Text made only of characters that survive stripping is left as it is.
pub proof fn lemma_kept_all(s: Seq<char>)
    requires
        forall|i: int| 0 <= i < s.len() ==> keeps(#[trigger] s[i]),
    ensures
        kept(s) == s,
    decreases s.len(),
{
    if s.len() > 0 {
        lemma_kept_all(s.drop_last());
        assert(kept(s.drop_last()).push(s.last()) =~= s);
    }
}

/// What stripping leaves holds no character that stripping removes.
pub proof fn lemma_kept_keeps(s: Seq<char>)
    ensures
        forall|i: int| 0 <= i < kept(s).len() ==> keeps(#[trigger] kept(s)[i]),
    decreases s.len(),
{
    if s.len() > 0 {
        lemma_kept_keeps(s.drop_last());
        let k = kept(s.drop_last());
        if keeps(s.last()) {
            assert forall|i: int| 0 <= i < kept(s).len() implies keeps(#[trigger] kept(s)[i]) by {
                if i < k.len() {
                    assert(kept(s)[i] == k[i]);
                }
            }
        }
    }
}

/// Strip control and zero-width characters from text. The text comes back
/// borrowed, unchanged, when there is nothing to strip.
pub fn strip_invisible(text: &str) -> (r: Cow<'_, str>)
    ensures
        r@ == kept(text@),
        (r is Borrowed) == (forall|i: int| 0 <= i < text@.len() ==> keeps(#[trigger] text@[i])),
{
    let t = chars_of(text);
    let mut all = true;
    let mut out: Vec<char> = Vec::new();
    let mut i: usize = 0;
    while i < t.len()
        invariant
            i <= t@.len(),
            t@ == text@,
            out@ == kept(t@.take(i as int)),
            all == (forall|k: int| 0 <= k < i ==> keeps(#[trigger] t@[k])),
        decreases t.len() - i,
    {
        let c = t[i];
        let ghost pre = t@.take(i + 1);
        assert(pre.drop_last() == t@.take(i as int));
        assert(pre.last() == c);
        if keep(c) {
            out.push(c);
        } else {
            all = false;
        }
        i = i + 1;
    }
    assert(t@.take(t@.len() as int) == t@);
    if all {
        proof {
            lemma_kept_all(text@);
        }
        Cow::Borrowed(text)
    } else {
        Cow::Owned(string_of(out.as_slice()))
    }
}

pub open spec fn spec_quarantine(text: Seq<char>, context: Seq<char>) -> Seq<char> {
    "<UNTRUSTED-CONTENT source=\""@ + context + "\">\n"@ + text + "\n</UNTRUSTED-CONTENT>"@
}

/// Wrap text in quarantine markers so the model can see the boundary.
pub fn quarantine(text: &str, context: &str) -> (r: String)
    ensures
        r@ == spec_quarantine(text@, context@),
{
    let mut r = concat3("<UNTRUSTED-CONTENT source=\"", context, "\">\n");
    push_str(&mut r, text);
    push_str(&mut r, "\n</UNTRUSTED-CONTENT>");
    r
}

/// Stripping twice strips nothing more than stripping once.
pub proof fn law_strip_idempotent(s: Seq<char>)
    ensures
        kept(kept(s)) == kept(s),
{
    lemma_kept_keeps(s);
    lemma_kept_all(kept(s));
}

} // verus!
