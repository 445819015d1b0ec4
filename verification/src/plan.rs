//! Plan mode: observation-only planning, with the plan kept in a file in
//! the session's working directory until the user approves it.
//!
//! Creating, reading and writing the plan file is left to the caller; this
//! module keeps the state and names the file.
use vstd::prelude::*;

use crate::paths::{join_path, joined_path, path_view, same_path};
use crate::permissions::{PermissionMode, PermissionRule};
use crate::text::{
    chars_of, is_alphanumeric, join_strings, join_with, push_str, split_whitespace, str_eq,
    to_lowercase, unicode_alphanumeric, unicode_lower, ws_words,
};

verus! {

/// State of plan mode within a session.
pub struct PlanModeState {
    active: bool,
    /// The permission mode that was active before entering plan mode.
    pre_plan_mode: Option<PermissionMode>,
    /// Permission rules set aside on entering plan mode, kept for their
    /// restoration.
    stripped_rules: Vec<PermissionRule>,
    /// Path to the current plan file.
    plan_file: Option<String>,
    /// Human-friendly slug for the plan.
    plan_slug: Option<String>,
}

/// Snapshot of plan mode state.
#[derive(Debug, Clone)]
pub struct PlanModeSnapshot {
    pub active: bool,
    pub plan_file: Option<String>,
    pub plan_slug: Option<String>,
}

/// The abstract state: whether active, the mode to restore, the plan file
/// and the slug.
pub struct PlanView {
    pub active: bool,
    pub pre_plan_mode: Option<PermissionMode>,
    pub plan_file: Option<Seq<char>>,
    pub plan_slug: Option<Seq<char>>,
}

pub open spec fn opt_view(o: Option<String>) -> Option<Seq<char>> {
    match o {
        Some(s) => Some(s@),
        None => None,
    }
}

fn dup_opt(o: &Option<String>) -> (r: Option<String>)
    ensures
        opt_view(r) == opt_view(*o),
{
    match o {
        Some(s) => Some(s.clone()),
        None => None,
    }
}

impl View for PlanModeState {
    type V = PlanView;

    closed spec fn view(&self) -> PlanView {
        PlanView {
            active: self.active,
            pre_plan_mode: self.pre_plan_mode,
            plan_file: opt_view(self.plan_file),
            plan_slug: opt_view(self.plan_slug),
        }
    }
}

/// The plan file for a slug in a working directory: `<dir>/<slug>.plan.md`.
pub open spec fn plan_file_path(working_dir: Seq<char>, slug: Seq<char>) -> Seq<char> {
    joined_path(working_dir, slug + ".plan.md"@)
}

/// The first content of a new plan file.
pub open spec fn plan_file_header(slug: Seq<char>) -> Seq<char> {
    "# Plan: "@ + slug + "\n\n"@
}

/// The path of the plan file for `slug` in `working_dir`.
pub fn plan_path(working_dir: &str, slug: &str) -> (r: String)
    ensures
        r@ == plan_file_path(working_dir@, slug@),
{
    let mut name = slug.to_string();
    push_str(&mut name, ".plan.md");
    join_path(working_dir, name.as_str())
}

/// What a new plan file starts with.
pub fn plan_header(slug: &str) -> (r: String)
    ensures
        r@ == plan_file_header(slug@),
{
    let mut r = "# Plan: ".to_string();
    push_str(&mut r, slug);
    push_str(&mut r, "\n\n");
    r
}

impl PlanModeState {
    pub fn new() -> (r: Self)
        ensures
            !r@.active,
            r@.pre_plan_mode is None,
            r@.plan_file is None,
            r@.plan_slug is None,
    {
        PlanModeState {
            active: false,
            pre_plan_mode: None,
            stripped_rules: Vec::new(),
            plan_file: None,
            plan_slug: None,
        }
    }

    /// Whether plan mode is currently active.
    pub fn is_active(&self) -> (b: bool)
        ensures
            b == self@.active,
    {
        self.active
    }

    /// A snapshot of the current state.
    pub fn snapshot(&self) -> (r: PlanModeSnapshot)
        ensures
            r.active == self@.active,
            opt_view(r.plan_file) == self@.plan_file,
            opt_view(r.plan_slug) == self@.plan_slug,
    {
        PlanModeSnapshot {
            active: self.active,
            plan_file: dup_opt(&self.plan_file),
            plan_slug: dup_opt(&self.plan_slug),
        }
    }

    /// Enter plan mode with the plan in `working_dir`, remembering the
    /// current permission mode. Returns the plan file's path; the caller
    /// creates the file (with `plan_header`) if it does not exist.
    pub fn enter(&mut self, current_mode: PermissionMode, slug: &str, working_dir: &str) -> (r: String)
        ensures
            r@ == plan_file_path(working_dir@, slug@),
            final(self)@.active,
            final(self)@.pre_plan_mode == Some(current_mode),
            final(self)@.plan_file == Some(r@),
            final(self)@.plan_slug == Some(slug@),
    {
        let plan_file = plan_path(working_dir, slug);
        self.active = true;
        self.pre_plan_mode = Some(current_mode);
        self.plan_file = Some(plan_file.clone());
        self.plan_slug = Some(slug.to_string());
        plan_file
    }

    /// Exit plan mode. Returns the permission mode to restore, or `None`
    /// (changing nothing) when plan mode is not active.
    pub fn exit(&mut self) -> (r: Option<PermissionMode>)
        ensures
            !old(self)@.active ==> r is None && final(self)@ == old(self)@,
            old(self)@.active ==> r == old(self)@.pre_plan_mode && !final(self)@.active
                && final(self)@.pre_plan_mode is None
                && final(self)@.plan_file == old(self)@.plan_file
                && final(self)@.plan_slug == old(self)@.plan_slug,
    {
        if !self.active {
            return None;
        }
        self.active = false;
        let pre = self.pre_plan_mode;
        self.pre_plan_mode = None;
        pre
    }

    /// The current plan file path, if any.
    pub fn plan_file(&self) -> (r: Option<String>)
        ensures
            opt_view(r) == self@.plan_file,
    {
        dup_opt(&self.plan_file)
    }

    /// Whether `path` is the current plan file (compared as paths).
    pub fn is_plan_file(&self, path: &str) -> (b: bool)
        ensures
            b == (self@.plan_file matches Some(f) && path_view(f) == path_view(path@)),
    {
        match &self.plan_file {
            Some(f) => same_path(f.as_str(), path),
            None => false,
        }
    }
}

/// Words left out of slugs.
pub const STOP_WORDS: [&'static str; 86] = ["the", "a", "an", "is", "are", "was", "were", "be", "been", "being", "have", "has", "had", "do", "does", "did", "will", "would", "could", "should", "may", "might", "shall", "can", "to", "of", "in", "for", "on", "with", "at", "by", "from", "as", "into", "through", "during", "before", "after", "above", "below", "between", "and", "but", "or", "nor", "not", "so", "yet", "both", "either", "neither", "each", "every", "all", "any", "few", "more", "most", "other", "some", "such", "no", "only", "own", "same", "than", "too", "very", "just", "that", "this", "these", "those", "i", "me", "my", "we", "our", "you", "your", "it", "its", "they", "them", "their"];

/// The stop words as text.
pub open spec fn stop_words() -> Seq<Seq<char>> {
    STOP_WORDS@.map_values(|w: &str| w@)
}

/// The characters of a word kept in a slug: alphanumeric ones and `-`.
pub open spec fn slug_chars(w: Seq<char>) -> Seq<char>
    decreases w.len(),
{
    if w.len() == 0 {
        seq![]
    } else if unicode_alphanumeric(w.last()) || w.last() == '-' {
        slug_chars(w.drop_last()).push(w.last())
    } else {
        slug_chars(w.drop_last())
    }
}

/// The slug form of a word: its kept characters, lower-cased.
pub open spec fn slug_word(w: Seq<char>) -> Seq<char> {
    unicode_lower(slug_chars(w))
}

/// The slug forms of `ws` that are neither empty nor stop words, in order.
pub open spec fn slug_candidates(ws: Seq<Seq<char>>) -> Seq<Seq<char>>
    decreases ws.len(),
{
    if ws.len() == 0 {
        seq![]
    } else {
        let p = slug_candidates(ws.drop_last());
        let w = slug_word(ws.last());
        if w.len() > 0 && !stop_words().contains(w) {
            p.push(w)
        } else {
            p
        }
    }
}

/// The first four items of `s`, or all of them when there are fewer.
pub open spec fn first_four(s: Seq<Seq<char>>) -> Seq<Seq<char>> {
    if s.len() <= 4 {
        s
    } else {
        s.take(4)
    }
}

/// The slug of a description: its first four candidate words joined by
/// `-`, or `plan` when there are none.
pub open spec fn spec_generate_slug(description: Seq<char>) -> Seq<char> {
    let ws = first_four(slug_candidates(ws_words(description)));
    if ws.len() == 0 {
        "plan"@
    } else {
        join_with(ws, "-"@)
    }
}

fn kept_chars(w: &str) -> (r: String)
    ensures
        r@ == slug_chars(w@),
{
    let v = chars_of(w);
    let mut r = String::new();
    let mut i: usize = 0;
    while i < v.len()
        invariant
            i <= v@.len(),
            v@ == w@,
            r@ == slug_chars(v@.take(i as int)),
        decreases v.len() - i,
    {
        assert(v@.take(i + 1).drop_last() == v@.take(i as int));
        let c = v[i];
        if is_alphanumeric(c) || c == '-' {
            r.push(c);
        }
        i = i + 1;
    }
    assert(v@.take(v@.len() as int) == v@);
    r
}

fn is_stop_word(w: &str) -> (b: bool)
    ensures
        b == stop_words().contains(w@),
{
    let mut i: usize = 0;
    while i < STOP_WORDS.len()
        invariant
            i <= STOP_WORDS@.len(),
            forall|k: int| 0 <= k < i ==> stop_words()[k] != w@,
        decreases STOP_WORDS.len() - i,
    {
        if str_eq(STOP_WORDS[i], w) {
            assert(stop_words()[i as int] == w@);
            return true;
        }
        i = i + 1;
    }
    false
}

/// A human-friendly slug for a task description: up to four lower-cased
/// words that are not stop words, joined by hyphens.
pub fn generate_slug(description: &str) -> (r: String)
    ensures
        r@ == spec_generate_slug(description@),
{
    let words = split_whitespace(description);
    let ghost ws = words@.map_values(|w: String| w@);
    let mut picked: Vec<String> = Vec::new();
    let mut i: usize = 0;
    assert(ws.take(0) =~= Seq::<Seq<char>>::empty());
    assert(first_four(slug_candidates(ws.take(0))) =~= Seq::<Seq<char>>::empty());
    assert(picked@.map_values(|w: String| w@) =~= Seq::<Seq<char>>::empty());
    while i < words.len()
        invariant
            i <= words@.len(),
            ws == words@.map_values(|w: String| w@),
            picked@.map_values(|w: String| w@) == first_four(slug_candidates(ws.take(i as int))),
        decreases words.len() - i,
    {
        let ghost c = slug_candidates(ws.take(i as int));
        assert(ws.take(i + 1).drop_last() == ws.take(i as int));
        assert(ws.take(i + 1).last() == ws[i as int]);
        let kept = kept_chars(words[i].as_str());
        let w = to_lowercase(kept.as_str());
        assert(w@ == slug_word(ws[i as int]));
        let keep = !crate::text::str_is_empty(w.as_str()) && !is_stop_word(w.as_str());
        proof {
            if w@.len() == 0 {
                assert(crate::text::utf8_len(w@) == 0);
            } else {
                crate::text::lemma_utf8_len_ge_len(w@);
            }
            assert(keep == (w@.len() > 0 && !stop_words().contains(w@)));
            assert(slug_candidates(ws.take(i + 1)) == if keep { c.push(w@) } else { c });
        }
        let ghost pv = picked@.map_values(|w: String| w@);
        assert(pv.len() == picked@.len());
        if picked.len() < 4 && keep {
            assert(c.len() < 4);
            assert(first_four(c) == c);
            picked.push(w);
            proof {
                assert(picked@.map_values(|w: String| w@) =~= pv.push(w@));
                assert(picked@.map_values(|w: String| w@) =~= first_four(slug_candidates(ws.take(i + 1))));
            }
        } else {
            proof {
                if keep {
                    assert(c.len() >= 4);
                    assert(first_four(c.push(w@)) =~= first_four(c));
                }
            }
        }
        i = i + 1;
    }
    assert(ws.take(ws.len() as int) == ws);
    if picked.len() == 0 {
        "plan".to_string()
    } else {
        join_strings(&picked, "-")
    }
}

} // verus!
