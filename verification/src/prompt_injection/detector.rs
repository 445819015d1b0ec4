//! Compose the individual heuristics into a final [`Verdict`].
//!
//! Decision rule (highest severity wins; the verdict lists the reasons of
//! every finding that fired):
//! - Any `Block` finding → `Block`.
//! - Otherwise, any `Quarantine` finding → `Sanitize` with the
//!   text wrapped in `<UNTRUSTED-CONTENT>` markers.
//! - Otherwise, any `Strip` finding → `Sanitize` with the
//!   offending characters removed.
//! - No findings → `Allow`.
use std::borrow::Cow;

use vstd::prelude::*;

use super::heuristics::{
    control_chars, control_findings, fview, fviews, instruction_override, invisible_findings,
    invisible_unicode, jailbreak_findings, jailbreak_haystack, jailbreak_markers, kept,
    override_findings, override_reason, quarantine, spec_override_pattern, role_findings, role_tag_spoofing, spec_quarantine,
    strip_invisible, Finding, Severity, JAILBREAK_NEEDLE_COUNT, OVERRIDE_PATTERN_COUNT,
};
use super::Verdict;
use crate::permissions::checker::strings_view;
use crate::text::{ascii_lower_seq, contains, lines};

verus! {

/// Every finding of every heuristic on `text`, in heuristic order.
pub open spec fn all_findings(text: Seq<char>) -> Seq<(Severity, Seq<char>)> {
    override_findings(ascii_lower_seq(text), OVERRIDE_PATTERN_COUNT as int) + role_findings(
        lines(text),
        lines(text).len() as int,
    ) + control_findings(text) + invisible_findings(text) + jailbreak_findings(
        jailbreak_haystack(text),
        JAILBREAK_NEEDLE_COUNT as int,
    )
}

pub open spec fn spec_rank(s: Severity) -> nat {
    match s {
        Severity::Strip => 0,
        Severity::Quarantine => 1,
        Severity::Block => 2,
    }
}

/// Some finding has severity `sev`.
pub open spec fn has_severity(fs: Seq<(Severity, Seq<char>)>, sev: Severity) -> bool {
    exists|i: int| 0 <= i < fs.len() && (#[trigger] fs[i]).0 == sev
}

/// The reasons of the findings ranked at least `min`, in order.
pub open spec fn reasons_at_least(fs: Seq<(Severity, Seq<char>)>, min: nat) -> Seq<Seq<char>>
    decreases fs.len(),
{
    if fs.len() == 0 {
        seq![]
    } else if spec_rank(fs.last().0) >= min {
        reasons_at_least(fs.drop_last(), min).push(fs.last().1)
    } else {
        reasons_at_least(fs.drop_last(), min)
    }
}

/// The reasons of every finding, in order.
pub open spec fn all_reasons(fs: Seq<(Severity, Seq<char>)>) -> Seq<Seq<char>> {
    fs.map_values(|f: (Severity, Seq<char>)| f.1)
}

/// Every finding is at least of the lowest rank, so the reasons kept from
/// rank 0 up are all the reasons.
proof fn lemma_reasons_from_lowest(fs: Seq<(Severity, Seq<char>)>)
    ensures
        reasons_at_least(fs, 0) == all_reasons(fs),
    decreases fs.len(),
{
    if fs.len() > 0 {
        lemma_reasons_from_lowest(fs.drop_last());
        assert(all_reasons(fs) =~= all_reasons(fs.drop_last()).push(fs.last().1));
    } else {
        assert(all_reasons(fs) =~= seq![]);
    }
}

/// The verdict on `text` arriving from `context`: the highest severity
/// found decides the kind of verdict, and the verdict lists the reasons of
/// every finding that fired.
pub open spec fn spec_verdict_ok(v: Verdict, text: Seq<char>, context: Seq<char>) -> bool {
    let fs = all_findings(text);
    if has_severity(fs, Severity::Block) {
        v matches Verdict::Block { reasons } && strings_view(reasons@) == all_reasons(fs)
    } else if has_severity(fs, Severity::Quarantine) {
        v matches Verdict::Sanitize { sanitized, reasons } && sanitized@ == spec_quarantine(
            text,
            context,
        ) && strings_view(reasons@) == all_reasons(fs)
    } else if fs.len() > 0 {
        v matches Verdict::Sanitize { sanitized, reasons } && sanitized@ == kept(text)
            && strings_view(reasons@) == all_reasons(fs)
    } else {
        v is Allow
    }
}

pub fn severity_rank(s: &Severity) -> (r: u8)
    ensures
        r as nat == spec_rank(*s),
{
    match s {
        Severity::Strip => 0,
        Severity::Quarantine => 1,
        Severity::Block => 2,
    }
}

/// The reasons of the findings at least as severe as `min`, in order.
pub fn collect_reasons(findings: &[Finding], min: Severity) -> (r: Vec<String>)
    ensures
        strings_view(r@) == reasons_at_least(fviews(findings@), spec_rank(min)),
{
    let mut out: Vec<String> = Vec::new();
    let mut i: usize = 0;
    let ghost fs = fviews(findings@);
    while i < findings.len()
        invariant
            i <= findings@.len(),
            fs == fviews(findings@),
            strings_view(out@) == reasons_at_least(fs.take(i as int), spec_rank(min)),
        decreases findings.len() - i,
    {
        let f = &findings[i];
        assert(fs.take(i + 1).drop_last() == fs.take(i as int));
        assert(fs.take(i + 1).last() == fview(*f));
        if severity_rank(&f.severity) >= severity_rank(&min) {
            out.push(f.reason.clone());
            assert(strings_view(out@) =~= reasons_at_least(fs.take(i + 1), spec_rank(min)));
        }
        i = i + 1;
    }
    assert(fs.take(fs.len() as int) == fs);
    out
}

fn append_findings(out: &mut Vec<Finding>, more: Vec<Finding>)
    ensures
        fviews(final(out)@) == fviews(old(out)@) + fviews(more@),
{
    let mut m = more;
    out.append(&mut m);
    assert(fviews(out@) =~= fviews(old(out)@) + fviews(more@));
}

/// Run every heuristic against `text` and fold the result into a single
/// verdict. The highest severity found decides the verdict;
/// the verdict lists the reasons of every finding that fired, in order.
/// `context` is the inbound source tag; it appears in quarantine wrappers.
pub fn enforce(text: &str, context: &str) -> (v: Verdict)
    ensures
        spec_verdict_ok(v, text@, context@),
{
    let mut findings: Vec<Finding> = Vec::new();
    append_findings(&mut findings, instruction_override(text));
    append_findings(&mut findings, role_tag_spoofing(text));
    append_findings(&mut findings, control_chars(text));
    append_findings(&mut findings, invisible_unicode(text));
    append_findings(&mut findings, jailbreak_markers(text));
    let ghost fs = fviews(findings@);
    assert(fs =~= all_findings(text@));
    let mut has_block = false;
    let mut has_quarantine = false;
    let mut i: usize = 0;
    while i < findings.len()
        invariant
            i <= findings@.len(),
            fs == fviews(findings@),
            has_block == exists|k: int| 0 <= k < i && (#[trigger] fs[k]).0 == Severity::Block,
            has_quarantine == exists|k: int| 0 <= k < i && (#[trigger] fs[k]).0 == Severity::Quarantine,
        decreases findings.len() - i,
    {
        match findings[i].severity {
            Severity::Block => {
                has_block = true;
            },
            Severity::Quarantine => {
                has_quarantine = true;
            },
            Severity::Strip => {},
        }
        assert(fs[i as int].0 == findings@[i as int].severity);
        i = i + 1;
    }
    let reasons = collect_reasons(findings.as_slice(), Severity::Strip);
    proof {
        lemma_reasons_from_lowest(fs);
    }
    if has_block {
        Verdict::Block { reasons }
    } else if has_quarantine {
        Verdict::Sanitize { sanitized: quarantine(text, context), reasons }
    } else if findings.len() > 0 {
        let cleaned = match strip_invisible(text) {
            Cow::Borrowed(b) => b.to_string(),
            Cow::Owned(o) => o,
        };
        Verdict::Sanitize { sanitized: cleaned, reasons }
    } else {
        Verdict::Allow
    }
}

proof fn lemma_override_found(lower: Seq<char>, i: int, n: int)
    requires
        0 <= i < n,
        contains(lower, spec_override_pattern(i)),
    ensures
        override_findings(lower, n).contains((Severity::Block, override_reason(spec_override_pattern(i)))),
    decreases n,
{
    let item = (Severity::Block, override_reason(spec_override_pattern(i)));
    let fs = override_findings(lower, n);
    if n - 1 == i {
        assert(fs.last() == item);
        assert(fs[fs.len() - 1] == item);
    } else {
        lemma_override_found(lower, i, n - 1);
        let rest = override_findings(lower, n - 1);
        let j = choose|j: int| 0 <= j < rest.len() && rest[j] == item;
        assert(fs[j] == item);
    }
}

/// Every instruction-override phrase is caught: when the text, lower-cased
/// (ASCII), contains one of the phrases, the findings hold a blocking
/// finding naming that phrase, and the verdict on the text is `Block`.
pub proof fn law_override_phrase_blocks(text: Seq<char>, context: Seq<char>, i: int, v: Verdict)
    requires
        0 <= i < OVERRIDE_PATTERN_COUNT,
        contains(ascii_lower_seq(text), spec_override_pattern(i)),
    ensures
        all_findings(text).contains((Severity::Block, override_reason(spec_override_pattern(i)))),
        has_severity(all_findings(text), Severity::Block),
        spec_verdict_ok(v, text, context) ==> v is Block,
{
    let lower = ascii_lower_seq(text);
    let item = (Severity::Block, override_reason(spec_override_pattern(i)));
    lemma_override_found(lower, i, OVERRIDE_PATTERN_COUNT as int);
    let a = override_findings(lower, OVERRIDE_PATTERN_COUNT as int);
    let j = choose|j: int| 0 <= j < a.len() && a[j] == item;
    let fs = all_findings(text);
    let b = role_findings(lines(text), lines(text).len() as int);
    let c = control_findings(text);
    let d = invisible_findings(text);
    let e = jailbreak_findings(jailbreak_haystack(text), JAILBREAK_NEEDLE_COUNT as int);
    assert(fs == a + b + c + d + e);
    assert((a + b)[j] == item);
    assert((a + b + c)[j] == item);
    assert((a + b + c + d)[j] == item);
    assert(fs[j] == item);
    assert(fs[j].0 == Severity::Block);
}

} // verus!
