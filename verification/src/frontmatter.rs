//! Markdown files with a YAML-like frontmatter block between `---` lines:
//! splitting the block from the body, and reading simple `key: value` and
//! list fields out of it.
use vstd::prelude::*;

use crate::text::{
    chars_of, find, find_chars, lemma_find_from, lines, lines_chars, ltrim, ltrim_index,
    matches_at, split, split_chars, starts_with, string_of, sub_string, sub_vec, trim,
    trim_bounds,
};

verus! {

/// The frontmatter and body of `content`: after leading whitespace the text
/// must start with `---`; the frontmatter runs up to the next `\n---`
/// (trimmed), and the body is everything after that delimiter.
pub open spec fn spec_split_frontmatter(content: Seq<char>) -> Option<(Seq<char>, Seq<char>)> {
    let t = ltrim(content);
    if !starts_with(t, "---"@) {
        None
    } else {
        let after = t.skip(3);
        match find(after, "\n---"@) {
            None => None,
            Some(end) => Some((trim(after.take(end)), after.skip(end + 4))),
        }
    }
}

/// Split content into frontmatter and body at `---` delimiters.
pub fn split_frontmatter(content: &str) -> (r: Option<(String, String)>)
    ensures
        r is None <==> spec_split_frontmatter(content@) is None,
        r matches Some((fm, body)) ==> spec_split_frontmatter(content@) == Some((fm@, body@)),
{
    let c = chars_of(content);
    let start = ltrim_index(c.as_slice(), 0);
    assert(c@.skip(0) == c@);
    let t = sub_vec(c.as_slice(), start, c.len());
    assert(t@ == ltrim(content@));
    let dashes = chars_of("---");
    proof {
        reveal_strlit("---");
    }
    if !matches_at(t.as_slice(), dashes.as_slice(), 0) {
        return None;
    }
    let after = sub_vec(t.as_slice(), 3, t.len());
    assert(after@ == t@.skip(3));
    let delim = chars_of("\n---");
    proof {
        reveal_strlit("\n---");
    }
    match find_chars(after.as_slice(), delim.as_slice()) {
        None => None,
        Some(end) => {
            proof {
                lemma_find_from(after@, delim@, 0);
            }
            let (a, b) = trim_bounds(after.as_slice(), 0, end);
            let fm = sub_string(after.as_slice(), a, b);
            let body = sub_string(after.as_slice(), end + 4, after.len());
            assert(after@.subrange(0, end as int) == after@.take(end as int));
            assert(after@.subrange(end + 4, after@.len() as int) == after@.skip(end + 4));
            Some((fm, body))
        },
    }
}

/// `v` without one pair of surrounding quotes (double or single).
pub open spec fn unquote(v: Seq<char>) -> Seq<char> {
    if v.len() >= 2 && v[0] == '"' && v.last() == '"' {
        v.subrange(1, v.len() - 1)
    } else if v.len() >= 2 && v[0] == '\'' && v.last() == '\'' {
        v.subrange(1, v.len() - 1)
    } else {
        v
    }
}

/// The value of `key` on one frontmatter line, if the line is
/// `key: value` (whitespace around each part allowed).
pub open spec fn line_field(line: Seq<char>, key: Seq<char>) -> Option<Seq<char>> {
    let l = trim(line);
    if starts_with(l, key) {
        let rest = ltrim(l.skip(key.len() as int));
        if rest.len() > 0 && rest[0] == ':' {
            Some(trim(rest.skip(1)))
        } else {
            None
        }
    } else {
        None
    }
}

/// The (unquoted) value of the first line from `i` on that sets `key`.
pub open spec fn field_from(ls: Seq<Seq<char>>, key: Seq<char>, i: int) -> Option<Seq<char>>
    decreases ls.len() - i,
{
    if i < 0 || i >= ls.len() {
        None
    } else {
        match line_field(ls[i], key) {
            Some(v) => Some(unquote(v)),
            None => field_from(ls, key, i + 1),
        }
    }
}

pub open spec fn spec_extract_field(frontmatter: Seq<char>, key: Seq<char>) -> Option<Seq<char>> {
    field_from(lines(frontmatter), key, 0)
}

/// The raw value of `key` on a line.
fn line_value(line: &[char], key: &[char]) -> (r: Option<Vec<char>>)
    ensures
        r matches Some(v) ==> line_field(line@, key@) == Some(v@),
        r is None ==> line_field(line@, key@) is None,
{
    let (a, b) = trim_bounds(line, 0, line.len());
    assert(line@.subrange(0, line@.len() as int) == line@);
    let l = sub_vec(line, a, b);
    if !matches_at(l.as_slice(), key, 0) {
        return None;
    }
    let k = key.len();
    let r0 = ltrim_index(l.as_slice(), k);
    if r0 < l.len() && l[r0] == ':' {
        let (c, d) = trim_bounds(l.as_slice(), r0 + 1, l.len());
        assert(l@.skip(r0 as int).skip(1) == l@.subrange(r0 + 1, l@.len() as int));
        Some(sub_vec(l.as_slice(), c, d))
    } else {
        None
    }
}

fn unquote_chars(v: &[char]) -> (r: Vec<char>)
    ensures
        r@ == unquote(v@),
{
    let n = v.len();
    if n >= 2 && ((v[0] == '"' && v[n - 1] == '"') || (v[0] == '\'' && v[n - 1] == '\'')) {
        sub_vec(v, 1, n - 1)
    } else {
        let r = sub_vec(v, 0, n);
        assert(v@.subrange(0, n as int) == v@);
        r
    }
}

/// Extract a simple `key: value` field from frontmatter: the value of the
/// first line that sets `key`, trimmed and without surrounding quotes.
pub fn extract_field(frontmatter: &str, key: &str) -> (r: Option<String>)
    ensures
        r is None <==> spec_extract_field(frontmatter@, key@) is None,
        r matches Some(v) ==> spec_extract_field(frontmatter@, key@) == Some(v@),
{
    let f = chars_of(frontmatter);
    let k = chars_of(key);
    let ls = lines_chars(f.as_slice());
    let mut i: usize = 0;
    while i < ls.len()
        invariant
            i <= ls@.len(),
            k@ == key@,
            ls@.len() == lines(frontmatter@).len(),
            forall|m: int| 0 <= m < ls@.len() ==> #[trigger] ls@[m]@ == lines(frontmatter@)[m],
            spec_extract_field(frontmatter@, key@) == field_from(lines(frontmatter@), key@, i as int),
        decreases ls.len() - i,
    {
        match line_value(ls[i].as_slice(), k.as_slice()) {
            Some(v) => {
                let u = unquote_chars(v.as_slice());
                return Some(string_of(u.as_slice()));
            },
            None => {},
        }
        i = i + 1;
    }
    None
}

/// Drop every leading `c`.
pub open spec fn lstrip_char(s: Seq<char>, c: char) -> Seq<char>
    decreases s.len(),
{
    if s.len() > 0 && s[0] == c {
        lstrip_char(s.drop_first(), c)
    } else {
        s
    }
}

/// Drop every trailing `c`.
pub open spec fn rstrip_char(s: Seq<char>, c: char) -> Seq<char>
    decreases s.len(),
{
    if s.len() > 0 && s.last() == c {
        rstrip_char(s.drop_last(), c)
    } else {
        s
    }
}

/// Drop every leading and trailing `c` (what `str::trim_matches(c)` does).
pub open spec fn trim_char(s: Seq<char>, c: char) -> Seq<char> {
    rstrip_char(lstrip_char(s, c), c)
}

fn trim_char_chars(s: &[char], c: char) -> (r: Vec<char>)
    ensures
        r@ == trim_char(s@, c),
{
    let n = s.len();
    let mut i: usize = 0;
    assert(s@.subrange(0, n as int) == s@);
    while i < n && s[i] == c
        invariant
            i <= n,
            n == s@.len(),
            lstrip_char(s@, c) == lstrip_char(s@.subrange(i as int, n as int), c),
        decreases n - i,
    {
        assert(s@.subrange(i as int, n as int).drop_first() == s@.subrange(i + 1, n as int));
        i = i + 1;
    }
    assert(s@.subrange(0, n as int) == s@);
    let mut j: usize = n;
    while j > i && s[j - 1] == c
        invariant
            i <= j <= n,
            n == s@.len(),
            trim_char(s@, c) == rstrip_char(s@.subrange(i as int, j as int), c),
        decreases j,
    {
        assert(s@.subrange(i as int, j as int).drop_last() == s@.subrange(i as int, j - 1));
        j = j - 1;
    }
    sub_vec(s, i, j)
}

/// A list item: trimmed, then without surrounding runs of `"` and then of `'`.
pub open spec fn list_item(s: Seq<char>) -> Seq<char> {
    trim_char(trim_char(trim(s), '"'), '\'')
}

fn list_item_chars(s: &[char]) -> (r: Vec<char>)
    ensures
        r@ == list_item(s@),
{
    let (a, b) = trim_bounds(s, 0, s.len());
    assert(s@.subrange(0, s@.len() as int) == s@);
    let t = sub_vec(s, a, b);
    let u = trim_char_chars(t.as_slice(), '"');
    trim_char_chars(u.as_slice(), '\'')
}

/// The non-empty items of a comma-separated inline list.
pub open spec fn inline_items(ps: Seq<Seq<char>>) -> Seq<Seq<char>>
    decreases ps.len(),
{
    if ps.len() == 0 {
        seq![]
    } else {
        let rest = inline_items(ps.drop_last());
        let it = list_item(ps.last());
        if it.len() > 0 {
            rest.push(it)
        } else {
            rest
        }
    }
}

/// The items of the run of `- item` lines starting at line `j`.
pub open spec fn dash_items(ls: Seq<Seq<char>>, j: int) -> Seq<Seq<char>>
    decreases ls.len() - j,
{
    if j < 0 || j >= ls.len() {
        seq![]
    } else {
        let t = trim(ls[j]);
        if t.len() > 0 && t[0] == '-' {
            seq![list_item(t.skip(1))] + dash_items(ls, j + 1)
        } else {
            seq![]
        }
    }
}

/// The list value of `key`, scanning from line `i`: an inline `[a, b]`
/// array, a run of `- item` lines after an empty value, or a single value.
pub open spec fn list_field_from(ls: Seq<Seq<char>>, key: Seq<char>, i: int) -> Option<Seq<Seq<char>>>
    decreases ls.len() - i,
{
    if i < 0 || i >= ls.len() {
        None
    } else {
        match line_field(ls[i], key) {
            Some(v) => if v.len() >= 2 && v[0] == '[' && v.last() == ']' {
                Some(inline_items(split(v.subrange(1, v.len() - 1), ',')))
            } else if v.len() == 0 {
                if dash_items(ls, i + 1).len() > 0 {
                    Some(dash_items(ls, i + 1))
                } else {
                    list_field_from(ls, key, i + 1)
                }
            } else {
                Some(seq![v])
            },
            None => list_field_from(ls, key, i + 1),
        }
    }
}

pub open spec fn strings_of(v: Seq<String>) -> Seq<Seq<char>> {
    v.map_values(|s: String| s@)
}

pub open spec fn spec_extract_list_field(frontmatter: Seq<char>, key: Seq<char>) -> Option<Seq<Seq<char>>> {
    list_field_from(lines(frontmatter), key, 0)
}

fn inline_list(v: &[char]) -> (r: Vec<String>)
    requires
        v@.len() >= 2,
    ensures
        strings_of(r@) == inline_items(split(v@.subrange(1, v@.len() - 1), ',')),
{
    let inner = sub_vec(v, 1, v.len() - 1);
    let parts = split_chars(inner.as_slice(), ',');
    let ghost ps = split(inner@, ',');
    let mut out: Vec<String> = Vec::new();
    let mut i: usize = 0;
    while i < parts.len()
        invariant
            i <= parts@.len(),
            ps == split(inner@, ','),
            parts@.len() == ps.len(),
            forall|m: int| 0 <= m < parts@.len() ==> #[trigger] parts@[m]@ == ps[m],
            strings_of(out@) == inline_items(ps.take(i as int)),
        decreases parts.len() - i,
    {
        let it = list_item_chars(parts[i].as_slice());
        assert(ps.take(i + 1).drop_last() == ps.take(i as int));
        assert(ps.take(i + 1).last() == ps[i as int]);
        if it.len() > 0 {
            out.push(string_of(it.as_slice()));
            assert(strings_of(out@) =~= inline_items(ps.take(i + 1)));
        }
        i = i + 1;
    }
    assert(ps.take(ps.len() as int) == ps);
    out
}

fn collect_dash_items(ls: &Vec<Vec<char>>, j: usize) -> (r: Vec<String>)
    requires
        j <= ls@.len(),
    ensures
        strings_of(r@) == dash_items(
            ls@.map_values(|l: Vec<char>| l@),
            j as int,
        ),
{
    let ghost lv = ls@.map_values(|l: Vec<char>| l@);
    let mut out: Vec<String> = Vec::new();
    let mut k = j;
    while k < ls.len()
        invariant
            j <= k <= ls@.len(),
            lv == ls@.map_values(|l: Vec<char>| l@),
            strings_of(out@) + dash_items(lv, k as int) == dash_items(lv, j as int),
        decreases ls.len() - k,
    {
        let line = &ls[k];
        let (a, b) = trim_bounds(line.as_slice(), 0, line.len());
        assert(line@.subrange(0, line@.len() as int) == line@);
        assert(lv[k as int] == line@);
        if a < b && line[a] == '-' {
            let rest = sub_vec(line.as_slice(), a + 1, b);
            assert(line@.subrange(a as int, b as int).skip(1) == rest@);
            let it = list_item_chars(rest.as_slice());
            let ghost before = strings_of(out@);
            out.push(string_of(it.as_slice()));
            assert(strings_of(out@) =~= before.push(it@));
            assert(dash_items(lv, k as int) == seq![it@] + dash_items(lv, k + 1));
            assert(before + dash_items(lv, k as int) =~= before.push(it@) + dash_items(lv, k + 1));
            k = k + 1;
        } else {
            assert(dash_items(lv, k as int) == Seq::<Seq<char>>::empty());
            assert(strings_of(out@) + dash_items(lv, k as int) =~= strings_of(out@));
            return out;
        }
    }
    assert(dash_items(lv, k as int) == Seq::<Seq<char>>::empty());
    assert(strings_of(out@) + dash_items(lv, k as int) =~= strings_of(out@));
    out
}

/// Extract a list field (either inline `[a, b]` or multi-line `- a\n- b`).
pub fn extract_list_field(frontmatter: &str, key: &str) -> (r: Option<Vec<String>>)
    ensures
        r is None <==> spec_extract_list_field(frontmatter@, key@) is None,
        r matches Some(v) ==> spec_extract_list_field(frontmatter@, key@) == Some(strings_of(v@)),
{
    let f = chars_of(frontmatter);
    let k = chars_of(key);
    let ls = lines_chars(f.as_slice());
    let ghost lv = ls@.map_values(|l: Vec<char>| l@);
    assert(lv =~= lines(frontmatter@));
    let mut i: usize = 0;
    while i < ls.len()
        invariant
            i <= ls@.len(),
            k@ == key@,
            lv == ls@.map_values(|l: Vec<char>| l@),
            lv == lines(frontmatter@),
            spec_extract_list_field(frontmatter@, key@) == list_field_from(lv, key@, i as int),
        decreases ls.len() - i,
    {
        assert(lv[i as int] == ls@[i as int]@);
        match line_value(ls[i].as_slice(), k.as_slice()) {
            Some(v) => {
                let n = v.len();
                if n >= 2 && v[0] == '[' && v[n - 1] == ']' {
                    return Some(inline_list(v.as_slice()));
                }
                if n == 0 {
                    let items = collect_dash_items(&ls, i + 1);
                    if items.len() > 0 {
                        return Some(items);
                    }
                } else {
                    let mut one: Vec<String> = Vec::new();
                    one.push(string_of(v.as_slice()));
                    assert(strings_of(one@) =~= seq![v@]);
                    return Some(one);
                }
            },
            None => {},
        }
        i = i + 1;
    }
    None
}

/// The non-empty trimmed pieces of a comma-separated list.
pub open spec fn comma_items(ps: Seq<Seq<char>>) -> Seq<Seq<char>>
    decreases ps.len(),
{
    if ps.len() == 0 {
        seq![]
    } else {
        let rest = comma_items(ps.drop_last());
        let it = trim(ps.last());
        if it.len() > 0 {
            rest.push(it)
        } else {
            rest
        }
    }
}

/// `"*"` stays a single wildcard item; anything else is split at commas,
/// trimmed, and empty pieces dropped.
pub open spec fn spec_parse_list(s: Seq<char>) -> Seq<Seq<char>> {
    if s == "*"@ {
        seq!["*"@]
    } else {
        comma_items(split(s, ','))
    }
}

pub fn parse_list(s: &str) -> (r: Vec<String>)
    ensures
        strings_of(r@) == spec_parse_list(s@),
{
    let c = chars_of(s);
    proof {
        reveal_strlit("*");
    }
    if c.len() == 1 && c[0] == '*' {
        let mut one: Vec<String> = Vec::new();
        one.push("*".to_string());
        assert(c@ =~= "*"@);
        assert(strings_of(one@) =~= seq!["*"@]);
        return one;
    }
    assert(c@ != "*"@) by {
        if c@ == "*"@ {
            assert(c@.len() == 1 && c@[0] == '*');
        }
    }
    let parts = split_chars(c.as_slice(), ',');
    let ghost ps = split(c@, ',');
    let mut out: Vec<String> = Vec::new();
    let mut i: usize = 0;
    while i < parts.len()
        invariant
            i <= parts@.len(),
            ps == split(c@, ','),
            parts@.len() == ps.len(),
            forall|m: int| 0 <= m < parts@.len() ==> #[trigger] parts@[m]@ == ps[m],
            strings_of(out@) == comma_items(ps.take(i as int)),
        decreases parts.len() - i,
    {
        let part = &parts[i];
        let (a, b) = trim_bounds(part.as_slice(), 0, part.len());
        assert(part@.subrange(0, part@.len() as int) == part@);
        assert(ps.take(i + 1).drop_last() == ps.take(i as int));
        assert(ps.take(i + 1).last() == ps[i as int]);
        if a < b {
            out.push(sub_string(part.as_slice(), a, b));
            assert(strings_of(out@) =~= comma_items(ps.take(i + 1)));
        }
        i = i + 1;
    }
    assert(ps.take(ps.len() as int) == ps);
    out
}

/// A value in a pair of quotes, single or double, loses them.
pub proof fn law_quotes_removed(v: Seq<char>)
    ensures
        unquote(seq!['\''] + v + seq!['\'']) == v,
        unquote(seq!['"'] + v + seq!['"']) == v,
{
    let a = seq!['\''] + v + seq!['\''];
    let b = seq!['"'] + v + seq!['"'];
    assert(a[0] == '\'' && a.last() == '\'');
    assert(a.subrange(1, a.len() - 1) =~= v);
    assert(b[0] == '"' && b.last() == '"');
    assert(b.subrange(1, b.len() - 1) =~= v);
}

} // verus!
