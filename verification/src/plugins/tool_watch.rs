//! Which file events reload tool plugins: the creation, change or removal
//! of a `.arawn_tool` archive.
use vstd::prelude::*;

use crate::hooks::file_watch::ChangeKind;
use crate::paths::{extension, file_name, spec_extension, spec_file_name};
use crate::text::str_eq;

verus! {

/// The extension of tool plugin archives.
pub const TOOL_ARCHIVE_EXTENSION: &'static str = "arawn_tool";

/// `p` names a tool plugin archive.
pub open spec fn is_tool_archive(p: Seq<char>) -> bool {
    spec_file_name(p) matches Some(n) && spec_extension(n) == Some(TOOL_ARCHIVE_EXTENSION@)
}

fn names_archive(p: &str) -> (b: bool)
    ensures
        b == is_tool_archive(p@),
{
    match file_name(p) {
        None => false,
        Some(n) => match extension(n.as_str()) {
            None => false,
            Some(e) => str_eq(e.as_str(), TOOL_ARCHIVE_EXTENSION),
        },
    }
}

/// Whether a file event (`kind` is `None` for events other than creations,
/// changes and removals) concerns a tool plugin archive.
pub fn is_plugin_event(kind: Option<ChangeKind>, paths: &Vec<String>) -> (b: bool)
    ensures
        b == (kind is Some && exists|i: int| 0 <= i < paths@.len() && is_tool_archive(#[trigger] paths@[i]@)),
{
    if kind.is_none() {
        return false;
    }
    let mut i: usize = 0;
    while i < paths.len()
        invariant
            kind is Some,
            i <= paths@.len(),
            forall|k: int| 0 <= k < i ==> !is_tool_archive(#[trigger] paths@[k]@),
        decreases paths.len() - i,
    {
        if names_archive(paths[i].as_str()) {
            return true;
        }
        i = i + 1;
    }
    false
}

} // verus!
