use arawn_engine::diff::{creation_diff, diff_summary, diff_to_markdown, summarize_changes, unified_diff, LineChange};

#[test]
fn identical_returns_none() {
    assert!(unified_diff("foo.rs", "hello\n", "hello\n").is_none());
}

#[test]
fn simple_edit() {
    let old = "line 1\nline 2\nline 3\n";
    let new = "line 1\nline 2 modified\nline 3\n";
    let diff = unified_diff("foo.rs", old, new).unwrap();
    assert!(diff.contains("--- a/foo.rs"));
    assert!(diff.contains("+++ b/foo.rs"));
    assert!(diff.contains("@@"));
    assert!(diff.contains("-line 2"));
    assert!(diff.contains("+line 2 modified"));
}

#[test]
fn context_collapses_unchanged() {
    let mut old_lines: Vec<String> = (1..=50).map(|i| format!("line {i}")).collect();
    let mut new_lines = old_lines.clone();
    old_lines[4] = "line 5 old".to_string();
    new_lines[4] = "line 5 new".to_string();
    old_lines[44] = "line 45 old".to_string();
    new_lines[44] = "line 45 new".to_string();
    let old = old_lines.join("\n") + "\n";
    let new = new_lines.join("\n") + "\n";
    let diff = unified_diff("big.rs", &old, &new).unwrap();
    let hunk_count = diff.matches("@@").count();
    assert!(hunk_count >= 4, "expected 2+ hunks (4+ @@ markers), got {hunk_count}");
    assert!(diff.lines().count() < 30, "diff should be collapsed, got {} lines", diff.lines().count());
}

#[test]
fn diff_to_markdown_wraps() {
    let diff = "--- a/foo\n+++ b/foo\n@@ -1 +1 @@\n-old\n+new\n";
    let md = diff_to_markdown(diff);
    assert!(md.starts_with("```diff\n"));
    assert!(md.ends_with("```"));
}

#[test]
fn creation_diff_shows_lines() {
    let content = "fn main() {\n    println!(\"hello\");\n}\n";
    let diff = creation_diff("main.rs", content, 100);
    assert!(diff.contains("+++ b/main.rs"));
    assert!(diff.contains("+fn main()"));
}

#[test]
fn creation_diff_truncates() {
    let lines: Vec<String> = (1..=100).map(|i| format!("line {i}")).collect();
    let content = lines.join("\n") + "\n";
    let diff = creation_diff("big.rs", &content, 10);
    assert!(diff.contains("... (90 more lines)"));
}

#[test]
fn summary_counts() {
    let s = diff_summary("a\nb\nc\n", "a\nB\nc\nd\n");
    assert!(s.contains("added"), "got: {s}");
    assert!(s.contains("removed"), "got: {s}");
}

#[test]
fn summary_no_changes() {
    assert_eq!(diff_summary("same\n", "same\n"), "No changes");
}

#[test]
fn creation_diff_exact_text() {
    assert_eq!(creation_diff("a.txt", "x\ny\n", 1), "--- /dev/null\n+++ b/a.txt\n@@ -0,0 +1,2 @@\n+x\n\n... (1 more lines)\n");
}

#[test]
fn summary_of_counted_changes() {
    assert_eq!(summarize_changes(&vec![LineChange::Insert, LineChange::Equal, LineChange::Insert]), "2 lines added");
    assert_eq!(summarize_changes(&vec![LineChange::Delete]), "1 lines removed");
    assert_eq!(summarize_changes(&vec![LineChange::Delete, LineChange::Insert]), "1 lines added, 1 lines removed");
}
