//! Diffs for file tool output: unified diffs with context and hunk headers
//! (computed by `similar`), creation diffs, and change summaries.
use vstd::prelude::*;

use crate::text::{
    chars_of, decimal, decimal_string, lines, lines_chars, push_str, str_eq, string_of, trim,
    trim_string,
};

verus! {

/// Number of context lines shown around each change.
pub const CONTEXT_LINES: usize = 3;

/// How a line fares between the old and the new text.
#[derive(Debug, Clone, Copy, PartialEq, Eq, Structural)]
pub enum LineChange {
    Equal,
    Delete,
    Insert,
}

/// A name for the unified diff text that `similar` renders for `old` and
/// `new` with `context` lines of context and the file headers `a`, `b`.
pub uninterp spec fn unified_text(old: Seq<char>, new: Seq<char>, context: nat, a: Seq<char>, b: Seq<char>) -> Seq<char>;

/// Renders `TextDiff::from_lines(old, new)` as a unified diff with the given
/// context radius and headers. The result depends on the arguments alone
/// (no deadline is set); nothing more of it is stated.
#[verifier::external_body]
fn render_unified(old: &str, new: &str, context: usize, a: &str, b: &str) -> (r: String)
    ensures
        r@ == unified_text(old@, new@, context as nat, a@, b@),
{
    similar::TextDiff::from_lines(old, new).unified_diff().context_radius(context).header(a, b).to_string()
}

/// A name for the line changes that `similar` finds between `old` and
/// `new`, in order.
pub uninterp spec fn line_changes(old: Seq<char>, new: Seq<char>) -> Seq<LineChange>;

/// The tags of `TextDiff::from_lines(old, new).iter_all_changes()`, in
/// order. The result depends on the arguments alone; nothing more of it is
/// stated.
#[verifier::external_body]
fn diff_line_changes(old: &str, new: &str) -> (r: Vec<LineChange>)
    ensures
        r@ == line_changes(old@, new@),
{
    let mut out = Vec::new();
    for change in similar::TextDiff::from_lines(old, new).iter_all_changes() {
        out.push(match change.tag() {
            similar::ChangeTag::Equal => LineChange::Equal,
            similar::ChangeTag::Delete => LineChange::Delete,
            similar::ChangeTag::Insert => LineChange::Insert,
        });
    }
    out
}

/// A rendered diff is kept unless it is blank.
pub open spec fn kept_diff(formatted: Seq<char>) -> Option<Seq<char>> {
    if trim(formatted).len() == 0 {
        None
    } else {
        Some(formatted)
    }
}

/// Keep a rendered diff unless it is blank.
pub fn finish_unified(formatted: String) -> (r: Option<String>)
    ensures
        match kept_diff(formatted@) {
            None => r is None,
            Some(f) => r matches Some(s) && s@ == f,
        },
{
    let t = trim_string(formatted.as_str());
    if crate::text::str_is_empty(t.as_str()) {
        None
    } else {
        Some(formatted)
    }
}

/// A unified diff between `old` and `new` for `path`, with headers `a/path`
/// and `b/path` and three lines of context. `None` if the contents are
/// identical or the diff is blank.
pub fn unified_diff(path: &str, old: &str, new: &str) -> (r: Option<String>)
    ensures
        old@ == new@ ==> r is None,
        old@ != new@ ==> match kept_diff(unified_text(old@, new@, 3, "a/"@ + path@, "b/"@ + path@)) {
            None => r is None,
            Some(f) => r matches Some(s) && s@ == f,
        },
{
    if str_eq(old, new) {
        return None;
    }
    let mut a = "a/".to_string();
    push_str(&mut a, path);
    let mut b = "b/".to_string();
    push_str(&mut b, path);
    let formatted = render_unified(old, new, CONTEXT_LINES, a.as_str(), b.as_str());
    finish_unified(formatted)
}

/// Format a diff as a fenced markdown code block.
pub fn diff_to_markdown(diff: &str) -> (r: String)
    ensures
        r@ == "```diff\n"@ + diff@ + "```"@,
{
    let mut r = "```diff\n".to_string();
    push_str(&mut r, diff);
    push_str(&mut r, "```");
    r
}

/// The added lines of a creation diff, each as `+line\n`.
pub open spec fn plus_lines(ls: Seq<Seq<char>>, n: int) -> Seq<char>
    decreases n,
{
    if n <= 0 {
        seq![]
    } else {
        plus_lines(ls, n - 1) + seq!['+'] + ls[n - 1] + seq!['\n']
    }
}

/// The creation diff of a new file: a header, the first `max_lines` lines
/// marked as added, and a note of how many more there are.
pub open spec fn spec_creation_diff(path: Seq<char>, content: Seq<char>, max_lines: nat) -> Seq<char> {
    let ls = lines(content);
    let total = ls.len();
    let shown = if total < max_lines { total } else { max_lines };
    "--- /dev/null\n+++ b/"@ + path + "\n@@ -0,0 +1,"@ + decimal(total) + " @@\n"@
        + plus_lines(ls, shown as int) + if shown < total {
        "\n... ("@ + decimal((total - shown) as nat) + " more lines)\n"@
    } else {
        seq![]
    }
}

/// A creation diff (all lines added) for a new file, showing the first
/// `max_lines` lines.
pub fn creation_diff(path: &str, content: &str, max_lines: usize) -> (r: String)
    ensures
        r@ == spec_creation_diff(path@, content@, max_lines as nat),
{
    let v = chars_of(content);
    let ls = lines_chars(v.as_slice());
    let ghost l = lines(content@);
    let total = ls.len();
    let shown = if total < max_lines { total } else { max_lines };
    let mut out = "--- /dev/null\n+++ b/".to_string();
    push_str(&mut out, path);
    push_str(&mut out, "\n@@ -0,0 +1,");
    let t = decimal_string(total);
    push_str(&mut out, t.as_str());
    push_str(&mut out, " @@\n");
    let ghost head = out@;
    let mut i: usize = 0;
    while i < shown
        invariant
            i <= shown,
            shown <= total,
            total == ls@.len(),
            ls@.len() == l.len(),
            forall|k: int| 0 <= k < ls@.len() ==> #[trigger] ls@[k]@ == l[k],
            out@ == head + plus_lines(l, i as int),
        decreases shown - i,
    {
        out.push('+');
        let line = string_of(ls[i].as_slice());
        push_str(&mut out, line.as_str());
        out.push('\n');
        i = i + 1;
    }
    if shown < total {
        push_str(&mut out, "\n... (");
        let m = decimal_string(total - shown);
        push_str(&mut out, m.as_str());
        push_str(&mut out, " more lines)\n");
    }
    out
}

/// How many of `cs[..n]` are `tag`.
pub open spec fn count_tag(cs: Seq<LineChange>, tag: LineChange, n: int) -> nat
    decreases n,
{
    if n <= 0 {
        0
    } else {
        count_tag(cs, tag, n - 1) + if cs[n - 1] == tag { 1nat } else { 0nat }
    }
}

/// The summary line for `added` and `removed` line counts.
pub open spec fn change_summary(added: nat, removed: nat) -> Seq<char> {
    if added == 0 && removed == 0 {
        "No changes"@
    } else if removed == 0 {
        decimal(added) + " lines added"@
    } else if added == 0 {
        decimal(removed) + " lines removed"@
    } else {
        decimal(added) + " lines added, "@ + decimal(removed) + " lines removed"@
    }
}

/// Summarise a list of line changes: how many lines were added and removed.
pub fn summarize_changes(changes: &Vec<LineChange>) -> (r: String)
    ensures
        r@ == change_summary(
            count_tag(changes@, LineChange::Insert, changes@.len() as int),
            count_tag(changes@, LineChange::Delete, changes@.len() as int),
        ),
{
    let mut added: usize = 0;
    let mut removed: usize = 0;
    let mut i: usize = 0;
    while i < changes.len()
        invariant
            i <= changes@.len(),
            added == count_tag(changes@, LineChange::Insert, i as int),
            removed == count_tag(changes@, LineChange::Delete, i as int),
            added + removed <= i,
        decreases changes.len() - i,
    {
        match changes[i] {
            LineChange::Insert => {
                added = added + 1;
            },
            LineChange::Delete => {
                removed = removed + 1;
            },
            LineChange::Equal => {},
        }
        i = i + 1;
    }
    if added == 0 && removed == 0 {
        "No changes".to_string()
    } else if removed == 0 {
        let mut r = decimal_string(added);
        push_str(&mut r, " lines added");
        r
    } else if added == 0 {
        let mut r = decimal_string(removed);
        push_str(&mut r, " lines removed");
        r
    } else {
        let mut r = decimal_string(added);
        push_str(&mut r, " lines added, ");
        let d = decimal_string(removed);
        push_str(&mut r, d.as_str());
        push_str(&mut r, " lines removed");
        r
    }
}

/// A summary line: "N lines added, M lines removed".
pub fn diff_summary(old: &str, new: &str) -> (r: String)
    ensures
        ({
            let cs = line_changes(old@, new@);
            r@ == change_summary(
                count_tag(cs, LineChange::Insert, cs.len() as int),
                count_tag(cs, LineChange::Delete, cs.len() as int),
            )
        }),
{
    let changes = diff_line_changes(old, new);
    summarize_changes(&changes)
}

} // verus!
