//! Matchers that select hooks by a field value (tool name, source,
//! notification type, …) and an optional content pattern.
use vstd::prelude::*;

use crate::glob::glob_matches;
use crate::permissions::rules::{strip_last, strip_last_char};
use crate::text::{
    chars_of, find_char, find_char_from, lemma_find_char_from, split, split_chars, sub_vec,
    trim, trim_bounds,
};

pub use crate::glob::glob_match;

verus! {

/// Matches hook events by a filterable field value and an optional content
/// pattern.
///
/// - `"Bash"` — exact match
/// - `"Bash|Edit"` — pipe-separated alternatives (any match)
/// - `"file_*"` — glob match (`*` = any chars, `?` = single char)
/// - `"Bash(git *)"` — tool name + content pattern
/// - `""` — matches everything
#[derive(Debug, Clone, PartialEq, Eq, Hash)]
pub struct HookMatcher {
    /// The raw matcher string as specified in config.
    pub raw: String,
}

/// Whether `value` matches the name specification `spec`: with a `|` in it,
/// any trimmed alternative matching; without, the whole of `spec` as a glob.
pub open spec fn spec_alternatives(spec: Seq<char>, value: Seq<char>) -> bool {
    if find_char_from(spec, '|', 0) is Some {
        exists|k: int|
            0 <= k < split(spec, '|').len() && glob_matches(#[trigger] trim(split(spec, '|')[k]), value)
    } else {
        glob_matches(spec, value)
    }
}

/// Whether the matcher `raw` selects an event with `field` and `content`.
pub open spec fn spec_hook_matches(raw: Seq<char>, field: Seq<char>, content: Seq<char>) -> bool {
    if raw.len() == 0 {
        true
    } else {
        match find_char_from(raw, '(', 0) {
            Some(p) => spec_alternatives(raw.take(p), field) && glob_matches(
                strip_last_char(raw.skip(p + 1), ')'),
                content,
            ),
            None => spec_alternatives(raw, field),
        }
    }
}

fn alternatives_chars(spec: &[char], value: &[char]) -> (b: bool)
    ensures
        b == spec_alternatives(spec@, value@),
{
    match find_char(spec, '|', 0) {
        Some(_) => {
            assert(find_char_from(spec@, '|', 0) is Some);
            let parts = split_chars(spec, '|');
            let mut k: usize = 0;
            while k < parts.len()
                invariant
                    find_char_from(spec@, '|', 0) is Some,
                    k <= parts@.len(),
                    parts@.len() == split(spec@, '|').len(),
                    forall|m: int| 0 <= m < parts@.len() ==> #[trigger] parts@[m]@ == split(spec@, '|')[m],
                    forall|m: int| 0 <= m < k ==> !glob_matches(#[trigger] trim(split(spec@, '|')[m]), value@),
                decreases parts.len() - k,
            {
                let part = &parts[k];
                let (a, b) = trim_bounds(part.as_slice(), 0, part.len());
                assert(part@.subrange(0, part@.len() as int) == part@);
                let t = sub_vec(part.as_slice(), a, b);
                if crate::glob::glob_match_chars(t.as_slice(), value) {
                    assert(glob_matches(trim(split(spec@, '|')[k as int]), value@));
                    return true;
                }
                k = k + 1;
            }
            false
        },
        None => crate::glob::glob_match_chars(spec, value),
    }
}

impl HookMatcher {
    pub fn new(raw: &str) -> (m: Self)
        ensures
            m.raw@ == raw@,
    {
        HookMatcher { raw: raw.to_string() }
    }

    /// Check if this matcher matches a given field value and content string.
    pub fn matches(&self, field_value: &str, content: &str) -> (b: bool)
        ensures
            b == spec_hook_matches(self.raw@, field_value@, content@),
    {
        let raw = chars_of(self.raw.as_str());
        if raw.len() == 0 {
            return true;
        }
        let value = chars_of(field_value);
        let n = raw.len();
        match find_char(raw.as_slice(), '(', 0) {
            Some(p) => {
                proof {
                    lemma_find_char_from(raw@, '(', 0);
                    assert(find_char_from(raw@, '(', 0) == Some(p as int));
                }
                let name_part = sub_vec(raw.as_slice(), 0, p);
                let inner = sub_vec(raw.as_slice(), p + 1, n);
                let pattern = strip_last(inner.as_slice(), ')');
                assert(raw@.subrange(0, p as int) == raw@.take(p as int));
                assert(raw@.subrange(p + 1, n as int) == raw@.skip(p + 1));
                let name_matches = alternatives_chars(name_part.as_slice(), value.as_slice());
                let c = chars_of(content);
                let content_matches = crate::glob::glob_match_chars(pattern.as_slice(), c.as_slice());
                name_matches && content_matches
            },
            None => alternatives_chars(raw.as_slice(), value.as_slice()),
        }
    }

    /// Check pipe-separated alternatives: `"Bash|Edit|Write"`.
    pub fn matches_alternatives(&self, spec: &str, value: &str) -> (b: bool)
        ensures
            b == spec_alternatives(spec@, value@),
    {
        let s = chars_of(spec);
        let v = chars_of(value);
        alternatives_chars(s.as_slice(), v.as_slice())
    }
}

/// Whitespace around the alternatives of a matcher does not matter: when
/// one `|`-separated alternative, trimmed, is the field value itself (a
/// value without glob characters), the matcher selects the event, whatever
/// the content.
pub proof fn law_alternatives_are_trimmed(raw: Seq<char>, bar: int, k: int, value: Seq<char>, content: Seq<char>)
    requires
        0 <= bar < raw.len(),
        raw[bar] == '|',
        forall|i: int| 0 <= i < raw.len() ==> raw[i] != '(',
        0 <= k < split(raw, '|').len(),
        trim(split(raw, '|')[k]) == value,
        forall|i: int| 0 <= i < value.len() ==> #[trigger] value[i] != '*' && value[i] != '?',
    ensures
        spec_hook_matches(raw, value, content),
{
    lemma_find_char_from(raw, '(', 0);
    lemma_find_char_from(raw, '|', 0);
    assert(find_char_from(raw, '(', 0) is None);
    assert(find_char_from(raw, '|', 0) is Some);
    crate::glob::law_literal_pattern_exact(value, value);
    assert(glob_matches(trim(split(raw, '|')[k]), value));
}

} // verus!
