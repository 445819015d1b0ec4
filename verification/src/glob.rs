//! Glob matching with `*` (any run of characters, possibly empty) and `?`
//! (exactly one character). Every other character matches itself,
//! case-sensitively. There is no escaping, no `**` and no braces.
use vstd::prelude::*;

use crate::text::chars_of;

verus! {

/// Whether pattern character `pc` matches text character `tc` on its own
/// (that is, `pc` is not a `*`).
pub open spec fn lit_match(pc: char, tc: char) -> bool {
    pc == '?' || pc == tc
}

/// Whether the pattern suffix `p[i..]` matches the text suffix `t[j..]`.
pub open spec fn glob_from(p: Seq<char>, t: Seq<char>, i: int, j: int) -> bool
    decreases (p.len() - i) + (t.len() - j),
{
    if i < 0 || j < 0 || i > p.len() || j > t.len() {
        false
    } else if i == p.len() {
        j == t.len()
    } else if p[i] == '*' {
        glob_from(p, t, i + 1, j) || (j < t.len() && glob_from(p, t, i, j + 1))
    } else {
        j < t.len() && lit_match(p[i], t[j]) && glob_from(p, t, i + 1, j + 1)
    }
}

/// Whether the whole pattern `p` matches the whole text `t`.
pub open spec fn glob_matches(p: Seq<char>, t: Seq<char>) -> bool {
    glob_from(p, t, 0, 0)
}

/// `p[a..a+len]` holds no `*`.
pub open spec fn no_star(p: Seq<char>, a: int, len: int) -> bool {
    forall|m: int| 0 <= m < len ==> #[trigger] p[a + m] != '*'
}

/// `p[a..a+len]` matches `t[c..c+len]` character by character.
pub open spec fn seg_match(p: Seq<char>, t: Seq<char>, a: int, c: int, len: int) -> bool {
    forall|m: int| 0 <= m < len ==> lit_match(#[trigger] p[a + m], t[c + m])
}

proof fn lemma_seg_forward(p: Seq<char>, t: Seq<char>, a: int, c: int, len: int)
    requires
        0 <= a,
        0 <= c,
        0 <= len,
        a + len <= p.len(),
        c + len <= t.len(),
        no_star(p, a, len),
        seg_match(p, t, a, c, len),
    ensures
        glob_from(p, t, a, c) == glob_from(p, t, a + len, c + len),
    decreases len,
{
    if len > 0 {
        assert(p[a + 0] != '*');
        assert(lit_match(p[a + 0], t[c + 0]));
        assert(no_star(p, a + 1, len - 1)) by {
            assert forall|m: int| 0 <= m < len - 1 implies #[trigger] p[a + 1 + m] != '*' by {
                assert(p[a + (m + 1)] != '*');
            }
        }
        assert(seg_match(p, t, a + 1, c + 1, len - 1)) by {
            assert forall|m: int| 0 <= m < len - 1 implies lit_match(
                #[trigger] p[a + 1 + m],
                t[c + 1 + m],
            ) by {
                assert(lit_match(p[a + (m + 1)], t[c + (m + 1)]));
            }
        }
        lemma_seg_forward(p, t, a + 1, c + 1, len - 1);
    }
}

proof fn lemma_seg_needs(p: Seq<char>, t: Seq<char>, a: int, k: int, len: int)
    requires
        0 <= a,
        0 <= k,
        0 <= len,
        a + len <= p.len(),
        no_star(p, a, len),
        glob_from(p, t, a, k),
    ensures
        k + len <= t.len(),
        seg_match(p, t, a, k, len),
        glob_from(p, t, a + len, k + len),
    decreases len,
{
    if len > 0 {
        assert(p[a + 0] != '*');
        assert(no_star(p, a + 1, len - 1)) by {
            assert forall|m: int| 0 <= m < len - 1 implies #[trigger] p[a + 1 + m] != '*' by {
                assert(p[a + (m + 1)] != '*');
            }
        }
        lemma_seg_needs(p, t, a + 1, k + 1, len - 1);
        assert forall|m: int| 0 <= m < len implies lit_match(#[trigger] p[a + m], t[k + m]) by {
            if m > 0 {
                assert(lit_match(p[a + 1 + (m - 1)], t[k + 1 + (m - 1)]));
            }
        }
    }
}

proof fn lemma_star_mono(p: Seq<char>, t: Seq<char>, i: int, j: int, j2: int)
    requires
        0 <= i < p.len(),
        p[i] == '*',
        0 <= j <= j2 <= t.len(),
        glob_from(p, t, i, j2),
    ensures
        glob_from(p, t, i, j),
    decreases j2 - j,
{
    if j < j2 {
        lemma_star_mono(p, t, i, j + 1, j2);
    }
}

proof fn lemma_star_witness(p: Seq<char>, t: Seq<char>, i: int, j: int) -> (k: int)
    requires
        0 <= i < p.len(),
        p[i] == '*',
        0 <= j <= t.len(),
        glob_from(p, t, i, j),
    ensures
        j <= k <= t.len(),
        glob_from(p, t, i + 1, k),
    decreases t.len() - j,
{
    if glob_from(p, t, i + 1, j) {
        j
    } else {
        lemma_star_witness(p, t, i, j + 1)
    }
}

/// With the last `*` at `s` tried from text position `st`, and the literal
/// segment after it matched up to `(pi, ti)`, matching from the star is the
/// same as matching from `(pi, ti)` when `p[pi]` is a star or the text is used up.
proof fn lemma_star_to_star(p: Seq<char>, t: Seq<char>, s: int, st: int, pi: int, ti: int)
    requires
        0 <= s < p.len(),
        p[s] == '*',
        s + 1 <= pi <= p.len(),
        0 <= st <= ti <= t.len(),
        pi - (s + 1) == ti - st,
        no_star(p, s + 1, pi - (s + 1)),
        seg_match(p, t, s + 1, st, pi - (s + 1)),
        (pi < p.len() && p[pi] == '*') || ti == t.len(),
    ensures
        glob_from(p, t, s, st) == glob_from(p, t, pi, ti),
{
    let len = pi - (s + 1);
    lemma_seg_forward(p, t, s + 1, st, len);
    if glob_from(p, t, s, st) {
        let k = lemma_star_witness(p, t, s, st);
        lemma_seg_needs(p, t, s + 1, k, len);
        if pi < p.len() && p[pi] == '*' {
            lemma_star_mono(p, t, pi, ti, k + len);
        } else {
            assert(k == st);
        }
    }
}

/// Matching on character slices; the loop keeps only the most recent `*`
/// for backtracking.
pub fn glob_match_chars(pat: &[char], txt: &[char]) -> (r: bool)
    ensures
        r == glob_matches(pat@, txt@),
{
    let ghost p = pat@;
    let ghost t = txt@;
    let plen = pat.len();
    let tlen = txt.len();
    let mut pi: usize = 0;
    let mut ti: usize = 0;
    let mut has_star = false;
    let mut star_pi: usize = 0;
    let mut star_ti: usize = 0;

    while ti < tlen
        invariant
            plen == p.len(),
            tlen == t.len(),
            p == pat@,
            t == txt@,
            pi <= plen,
            ti <= tlen,
            !has_star ==> (glob_matches(p, t) == glob_from(p, t, pi as int, ti as int)),
            has_star ==> {
                &&& star_pi < plen
                &&& p[star_pi as int] == '*'
                &&& star_pi + 1 <= pi
                &&& star_ti <= ti
                &&& pi - (star_pi + 1) == ti - star_ti
                &&& no_star(p, star_pi + 1, pi - (star_pi + 1))
                &&& seg_match(p, t, star_pi + 1, star_ti as int, pi - (star_pi + 1))
                &&& glob_matches(p, t) == glob_from(p, t, star_pi as int, star_ti as int)
            },
        decreases
            (if has_star { tlen - star_ti } else { tlen + 1 }),
            tlen - ti,
            plen - pi,
    {
        if pi < plen && pat[pi] == '*' {
            proof {
                if has_star {
                    lemma_star_to_star(p, t, star_pi as int, star_ti as int, pi as int, ti as int);
                }
            }
            has_star = true;
            star_pi = pi;
            star_ti = ti;
            pi = pi + 1;
            assert(no_star(p, star_pi + 1, 0));
            assert(seg_match(p, t, star_pi + 1, star_ti as int, 0));
        } else if pi < plen && (pat[pi] == '?' || pat[pi] == txt[ti]) {
            proof {
                if has_star {
                    assert(no_star(p, star_pi + 1, pi + 1 - (star_pi + 1))) by {
                        assert forall|m: int| 0 <= m < pi + 1 - (star_pi + 1) implies #[trigger] p[star_pi + 1 + m] != '*' by {
                            if m < pi - (star_pi + 1) {
                                assert(p[star_pi + 1 + m] != '*');
                            }
                        }
                    }
                    assert(seg_match(p, t, star_pi + 1, star_ti as int, pi + 1 - (star_pi + 1))) by {
                        assert forall|m: int| 0 <= m < pi + 1 - (star_pi + 1) implies lit_match(
                            #[trigger] p[star_pi + 1 + m],
                            t[star_ti + m],
                        ) by {
                            if m < pi - (star_pi + 1) {
                                assert(lit_match(p[star_pi + 1 + m], t[star_ti + m]));
                            }
                        }
                    }
                }
            }
            pi = pi + 1;
            ti = ti + 1;
        } else if has_star {
            proof {
                let len = pi - (star_pi + 1);
                lemma_seg_forward(p, t, star_pi + 1, star_ti as int, len);
                assert(!glob_from(p, t, pi as int, ti as int));
                assert(!glob_from(p, t, star_pi + 1, star_ti as int));
            }
            pi = star_pi + 1;
            star_ti = star_ti + 1;
            ti = star_ti;
            assert(no_star(p, star_pi + 1, 0));
            assert(seg_match(p, t, star_pi + 1, star_ti as int, 0));
        } else {
            return false;
        }
    }

    proof {
        if has_star {
            lemma_star_to_star(p, t, star_pi as int, star_ti as int, pi as int, ti as int);
        }
    }

    while pi < plen && pat[pi] == '*'
        invariant
            plen == p.len(),
            tlen == t.len(),
            p == pat@,
            t == txt@,
            pi <= plen,
            ti == tlen,
            glob_matches(p, t) == glob_from(p, t, pi as int, ti as int),
        decreases plen - pi,
    {
        pi = pi + 1;
    }

    pi == plen
}

/// Glob-match `text` against `pattern`: `*` matches any run of characters
/// (including none), `?` exactly one, and every other character itself.
pub fn glob_match(pattern: &str, text: &str) -> (r: bool)
    ensures
        r == glob_matches(pattern@, text@),
{
    let pat = chars_of(pattern);
    let txt = chars_of(text);
    glob_match_chars(pat.as_slice(), txt.as_slice())
}

proof fn lemma_star_suffix(t: Seq<char>, j: int)
    requires
        0 <= j <= t.len(),
    ensures
        glob_from(seq!['*'], t, 0, j),
    decreases t.len() - j,
{
    let p = seq!['*'];
    assert(p.len() == 1 && p[0] == '*');
    if j < t.len() {
        lemma_star_suffix(t, j + 1);
    } else {
        assert(glob_from(p, t, 1, j));
    }
}

/// The pattern `*` matches every text, the empty one included.
pub proof fn law_star_matches_all(t: Seq<char>)
    ensures
        glob_matches(seq!['*'], t),
{
    lemma_star_suffix(t, 0);
}

proof fn lemma_literal_from(p: Seq<char>, t: Seq<char>, i: int, j: int)
    requires
        0 <= i <= p.len(),
        0 <= j <= t.len(),
        forall|k: int| 0 <= k < p.len() ==> #[trigger] p[k] != '*' && p[k] != '?',
    ensures
        glob_from(p, t, i, j) <==> p.skip(i) == t.skip(j),
    decreases p.len() - i,
{
    if i == p.len() {
        if j < t.len() {
            assert(t.skip(j).len() > 0);
        } else {
            assert(p.skip(i) =~= t.skip(j));
        }
    } else {
        assert(p[i] != '*' && p[i] != '?');
        assert(p.skip(i) =~= seq![p[i]] + p.skip(i + 1));
        if j < t.len() {
            lemma_literal_from(p, t, i + 1, j + 1);
            assert(t.skip(j) =~= seq![t[j]] + t.skip(j + 1));
            if p.skip(i) == t.skip(j) {
                assert(p.skip(i)[0] == t.skip(j)[0]);
                assert(p.skip(i + 1) =~= p.skip(i).drop_first());
                assert(t.skip(j + 1) =~= t.skip(j).drop_first());
            }
        } else {
            assert(p.skip(i).len() > 0);
        }
    }
}

/// A pattern without `*` or `?` matches exactly the text equal to it.
pub proof fn law_literal_pattern_exact(p: Seq<char>, t: Seq<char>)
    requires
        forall|k: int| 0 <= k < p.len() ==> #[trigger] p[k] != '*' && p[k] != '?',
    ensures
        glob_matches(p, t) <==> p == t,
{
    lemma_literal_from(p, t, 0, 0);
    assert(p.skip(0) =~= p);
    assert(t.skip(0) =~= t);
}

} // verus!
