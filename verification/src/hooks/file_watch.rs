//! Which file changes fire `FileChanged` hooks.
//!
//! Watching the files is left to the caller: it collects the paths of a
//! burst of change events and hands them here with the kind of the first.
use vstd::prelude::*;

use super::events::HookInput;
use crate::paths::{path_starts_with, path_view, same_path, spec_path_starts_with};

verus! {

/// The kind of a file change.
#[derive(Debug, Clone, Copy, PartialEq, Eq, Structural)]
pub enum ChangeKind {
    Created,
    Modified,
    Removed,
}

/// The word a hook is given for a change kind.
pub open spec fn change_word(k: ChangeKind) -> Seq<char> {
    match k {
        ChangeKind::Created => "created"@,
        ChangeKind::Modified => "modified"@,
        ChangeKind::Removed => "removed"@,
    }
}

fn change_type(k: ChangeKind) -> (s: &'static str)
    ensures
        s@ == change_word(k),
{
    match k {
        ChangeKind::Created => "created",
        ChangeKind::Modified => "modified",
        ChangeKind::Removed => "removed",
    }
}

/// `p` lies under (or is) one of the watched paths.
pub open spec fn is_watched(watched: Seq<String>, p: Seq<char>) -> bool {
    exists|i: int| 0 <= i < watched.len() && spec_path_starts_with(p, #[trigger] watched[i]@)
}

/// `p` is, as a path, one of `ps`.
pub open spec fn has_same_path(ps: Seq<Seq<char>>, p: Seq<char>) -> bool {
    exists|j: int| 0 <= j < ps.len() && path_view(#[trigger] ps[j]) == path_view(p)
}

/// The watched paths among `changed[..n]`, each path once, in the order of
/// their first change.
pub open spec fn fired_paths(watched: Seq<String>, changed: Seq<String>, n: int) -> Seq<Seq<char>>
    decreases n,
{
    if n <= 0 {
        seq![]
    } else {
        let prev = fired_paths(watched, changed, n - 1);
        let p = changed[n - 1]@;
        if is_watched(watched, p) && !has_same_path(prev, p) {
            prev.push(p)
        } else {
            prev
        }
    }
}

/// The path and change of a `FileChanged` input.
pub open spec fn file_change_view(i: HookInput) -> Option<(Seq<char>, Seq<char>)> {
    match i {
        HookInput::FileChanged { file_path, change_type } => Some((file_path@, change_type@)),
        _ => None,
    }
}

fn watched_by(watched: &Vec<String>, p: &str) -> (b: bool)
    ensures
        b == is_watched(watched@, p@),
{
    let mut i: usize = 0;
    while i < watched.len()
        invariant
            i <= watched@.len(),
            forall|k: int| 0 <= k < i ==> !spec_path_starts_with(p@, #[trigger] watched@[k]@),
        decreases watched.len() - i,
    {
        if path_starts_with(p, watched[i].as_str()) {
            return true;
        }
        i = i + 1;
    }
    false
}

fn seen_before(out: &Vec<HookInput>, paths: Ghost<Seq<Seq<char>>>, p: &str) -> (b: bool)
    requires
        out@.len() == paths@.len(),
        forall|k: int| 0 <= k < out@.len() ==> (file_change_view(#[trigger] out@[k]) matches Some((q, _)) && q == paths@[k]),
    ensures
        b == has_same_path(paths@, p@),
{
    let mut i: usize = 0;
    while i < out.len()
        invariant
            i <= out@.len(),
            out@.len() == paths@.len(),
            forall|k: int| 0 <= k < out@.len() ==> (file_change_view(#[trigger] out@[k]) matches Some((q, _)) && q == paths@[k]),
            forall|k: int| 0 <= k < i ==> path_view(#[trigger] paths@[k]) != path_view(p@),
        decreases out.len() - i,
    {
        match &out[i] {
            HookInput::FileChanged { file_path, .. } => {
                assert(file_change_view(out@[i as int]) matches Some((q, _)) && q == paths@[i as int]);
                if same_path(file_path.as_str(), p) {
                    return true;
                }
            },
            _ => {
                assert(file_change_view(out@[i as int]) is Some);
            },
        }
        i = i + 1;
    }
    false
}

/// The `FileChanged` inputs for a burst of changes of `kind` to the paths
/// `changed`: one for each watched path, in the order of first change.
pub fn file_changed_inputs(watched: &Vec<String>, changed: &Vec<String>, kind: ChangeKind) -> (r: Vec<HookInput>)
    ensures
        r@.len() == fired_paths(watched@, changed@, changed@.len() as int).len(),
        forall|k: int| 0 <= k < r@.len() ==> file_change_view(#[trigger] r@[k]) == Some(
            (fired_paths(watched@, changed@, changed@.len() as int)[k], change_word(kind)),
        ),
{
    let mut out: Vec<HookInput> = Vec::new();
    let ghost mut paths: Seq<Seq<char>> = seq![];
    let word = change_type(kind);
    let mut i: usize = 0;
    while i < changed.len()
        invariant
            i <= changed@.len(),
            word@ == change_word(kind),
            paths == fired_paths(watched@, changed@, i as int),
            out@.len() == paths.len(),
            forall|k: int| 0 <= k < out@.len() ==> file_change_view(#[trigger] out@[k]) == Some((paths[k], change_word(kind))),
        decreases changed.len() - i,
    {
        let p = changed[i].as_str();
        if watched_by(watched, p) && !seen_before(&out, Ghost(paths), p) {
            out.push(HookInput::FileChanged { file_path: p.to_string(), change_type: word.to_string() });
            proof {
                paths = paths.push(p@);
            }
        }
        i = i + 1;
    }
    out
}

} // verus!
