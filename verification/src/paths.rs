//! Unix path text: joining, and comparison by components.
use vstd::prelude::*;

use crate::text::{chars_eq, chars_of, push_str, split, split_chars};

verus! {

/// The pieces between separators that name something: neither empty nor `.`.
pub open spec fn normal_parts(ps: Seq<Seq<char>>) -> Seq<Seq<char>>
    decreases ps.len(),
{
    if ps.len() == 0 {
        seq![]
    } else {
        let p = normal_parts(ps.drop_last());
        let w = ps.last();
        if w.len() == 0 || w == seq!['.'] {
            p
        } else {
            p.push(w)
        }
    }
}

/// What `Path` equality compares: whether the path is absolute, whether a
/// relative path starts with `.`, and the remaining components. Repeated
/// separators, a trailing separator and inner `.` components make no
/// difference.
pub open spec fn path_view(s: Seq<char>) -> (bool, bool, Seq<Seq<char>>) {
    let ps = split(s, '/');
    let root = s.len() > 0 && s[0] == '/';
    let cur = !root && ps.len() > 0 && ps[0] == seq!['.'];
    (root, cur, normal_parts(ps))
}

fn parts_of(s: &str) -> (r: (bool, bool, Vec<Vec<char>>))
    ensures
        r.0 == path_view(s@).0,
        r.1 == path_view(s@).1,
        r.2@.len() == path_view(s@).2.len(),
        forall|k: int| 0 <= k < r.2@.len() ==> #[trigger] r.2@[k]@ == path_view(s@).2[k],
{
    let v = chars_of(s);
    let ps = split_chars(v.as_slice(), '/');
    let ghost sp = split(s@, '/');
    let root = v.len() > 0 && v[0] == '/';
    let dot: Vec<char> = vec!['.'];
    let cur = !root && ps.len() > 0 && chars_eq(ps[0].as_slice(), dot.as_slice());
    let mut out: Vec<Vec<char>> = Vec::new();
    let mut i: usize = 0;
    while i < ps.len()
        invariant
            i <= ps@.len(),
            ps@.len() == sp.len(),
            forall|k: int| 0 <= k < ps@.len() ==> #[trigger] ps@[k]@ == sp[k],
            dot@ == seq!['.'],
            out@.len() == normal_parts(sp.take(i as int)).len(),
            forall|k: int| 0 <= k < out@.len() ==> #[trigger] out@[k]@ == normal_parts(sp.take(i as int))[k],
        decreases ps.len() - i,
    {
        assert(sp.take(i + 1).drop_last() == sp.take(i as int));
        assert(sp.take(i + 1).last() == ps@[i as int]@);
        let w = &ps[i];
        if !(w.len() == 0 || chars_eq(w.as_slice(), dot.as_slice())) {
            out.push(w.clone());
        }
        i = i + 1;
    }
    assert(sp.take(sp.len() as int) == sp);
    (root, cur, out)
}

/// Whether two paths are equal as `Path`s (component by component).
pub fn same_path(a: &str, b: &str) -> (r: bool)
    ensures
        r == (path_view(a@) == path_view(b@)),
{
    let (ra, ca, pa) = parts_of(a);
    let (rb, cb, pb) = parts_of(b);
    if ra != rb || ca != cb || pa.len() != pb.len() {
        return false;
    }
    let mut i: usize = 0;
    while i < pa.len()
        invariant
            i <= pa@.len(),
            pa@.len() == pb@.len(),
            pa@.len() == path_view(a@).2.len(),
            pb@.len() == path_view(b@).2.len(),
            forall|k: int| 0 <= k < pa@.len() ==> #[trigger] pa@[k]@ == path_view(a@).2[k],
            forall|k: int| 0 <= k < pb@.len() ==> #[trigger] pb@[k]@ == path_view(b@).2[k],
            forall|k: int| 0 <= k < i ==> path_view(a@).2[k] == path_view(b@).2[k],
        decreases pa.len() - i,
    {
        if !chars_eq(pa[i].as_slice(), pb[i].as_slice()) {
            return false;
        }
        i = i + 1;
    }
    assert(path_view(a@).2 =~= path_view(b@).2);
    true
}

/// `base` with `rel` pushed onto it (`PathBuf::join`): an absolute `rel`
/// replaces `base`; otherwise a separator goes between them unless `base`
/// is empty or already ends with one.
pub open spec fn joined_path(base: Seq<char>, rel: Seq<char>) -> Seq<char> {
    if rel.len() > 0 && rel[0] == '/' {
        rel
    } else if base.len() == 0 || base.last() == '/' {
        base + rel
    } else {
        base + seq!['/'] + rel
    }
}

/// Join two paths.
pub fn join_path(base: &str, rel: &str) -> (r: String)
    ensures
        r@ == joined_path(base@, rel@),
{
    let rv = chars_of(rel);
    let bv = chars_of(base);
    if rv.len() > 0 && rv[0] == '/' {
        return rel.to_string();
    }
    let mut r = base.to_string();
    if !(bv.len() == 0 || bv[bv.len() - 1] == '/') {
        r.push('/');
    }
    push_str(&mut r, rel);
    r
}

/// The components of a path, as `Path::components` yields them: `/` for
/// the root, `.` for a leading current directory of a relative path, then
/// the named parts.
pub open spec fn path_components(s: Seq<char>) -> Seq<Seq<char>> {
    let v = path_view(s);
    (if v.0 { seq![seq!['/']] } else { seq![] }) + (if v.1 { seq![seq!['.']] } else { seq![] }) + v.2
}

/// `path` starts with `base`, component by component.
pub open spec fn spec_path_starts_with(path: Seq<char>, base: Seq<char>) -> bool {
    let a = path_components(path);
    let b = path_components(base);
    b.len() <= a.len() && a.take(b.len() as int) == b
}

fn components_of(s: &str) -> (r: Vec<Vec<char>>)
    ensures
        r@.len() == path_components(s@).len(),
        forall|k: int| 0 <= k < r@.len() ==> #[trigger] r@[k]@ == path_components(s@)[k],
{
    let (root, cur, parts) = parts_of(s);
    let ghost v = path_view(s@);
    let mut out: Vec<Vec<char>> = Vec::new();
    let ghost h0 = out@.map_values(|x: Vec<char>| x@);
    assert(h0 =~= Seq::<Seq<char>>::empty());
    if root {
        let mut r: Vec<char> = Vec::new();
        r.push('/');
        out.push(r);
        assert(out@.map_values(|x: Vec<char>| x@) =~= h0.push(seq!['/']));
    }
    let ghost h1 = out@.map_values(|x: Vec<char>| x@);
    if cur {
        let mut d: Vec<char> = Vec::new();
        d.push('.');
        out.push(d);
        assert(out@.map_values(|x: Vec<char>| x@) =~= h1.push(seq!['.']));
    }
    let ghost head = out@.map_values(|x: Vec<char>| x@);
    assert(head =~= (if v.0 { seq![seq!['/']] } else { seq![] }) + (if v.1 { seq![seq!['.']] } else { seq![] }));
    let mut i: usize = 0;
    while i < parts.len()
        invariant
            i <= parts@.len(),
            parts@.len() == v.2.len(),
            forall|k: int| 0 <= k < parts@.len() ==> #[trigger] parts@[k]@ == v.2[k],
            out@.map_values(|x: Vec<char>| x@) == head + v.2.take(i as int),
        decreases parts.len() - i,
    {
        let ghost before = out@.map_values(|x: Vec<char>| x@);
        out.push(parts[i].clone());
        assert(out@.map_values(|x: Vec<char>| x@) =~= before.push(v.2[i as int]));
        assert(v.2.take(i + 1) =~= v.2.take(i as int).push(v.2[i as int]));
        i = i + 1;
    }
    assert(v.2.take(v.2.len() as int) == v.2);
    assert(out@.map_values(|x: Vec<char>| x@) =~= path_components(s@));
    proof {
        assert forall|k: int| 0 <= k < out@.len() implies #[trigger] out@[k]@ == path_components(s@)[k] by {
            assert(out@.map_values(|x: Vec<char>| x@)[k] == out@[k]@);
        }
    }
    out
}

/// Whether `path` starts with `base` (`Path::starts_with`).
pub fn path_starts_with(path: &str, base: &str) -> (r: bool)
    ensures
        r == spec_path_starts_with(path@, base@),
{
    let a = components_of(path);
    let b = components_of(base);
    let ghost ca = path_components(path@);
    let ghost cb = path_components(base@);
    if b.len() > a.len() {
        return false;
    }
    let mut i: usize = 0;
    while i < b.len()
        invariant
            i <= b@.len(),
            ca == path_components(path@),
            cb == path_components(base@),
            b@.len() <= a@.len(),
            a@.len() == ca.len(),
            b@.len() == cb.len(),
            forall|k: int| 0 <= k < a@.len() ==> #[trigger] a@[k]@ == ca[k],
            forall|k: int| 0 <= k < b@.len() ==> #[trigger] b@[k]@ == cb[k],
            forall|k: int| 0 <= k < i ==> ca[k] == cb[k],
        decreases b.len() - i,
    {
        if !chars_eq(a[i].as_slice(), b[i].as_slice()) {
            assert(ca[i as int] != cb[i as int]);
            assert(ca.take(cb.len() as int)[i as int] == ca[i as int]);
            assert(ca.take(cb.len() as int) != cb);
            return false;
        }
        i = i + 1;
    }
    assert(ca.take(cb.len() as int) =~= cb);
    true
}

/// The components left after resolving `.` and `..` without touching the
/// file system: `..` drops the last component kept so far (the root
/// too), `.` is dropped.
pub open spec fn resolved_components(cs: Seq<Seq<char>>) -> Seq<Seq<char>>
    decreases cs.len(),
{
    if cs.len() == 0 {
        seq![]
    } else {
        let p = resolved_components(cs.drop_last());
        let c = cs.last();
        if c == seq!['.', '.'] {
            if p.len() > 0 { p.drop_last() } else { p }
        } else if c == seq!['.'] {
            p
        } else {
            p.push(c)
        }
    }
}

/// The path made of components: the root, then the parts separated by `/`.
pub open spec fn path_of_components(cs: Seq<Seq<char>>) -> Seq<char>
    decreases cs.len(),
{
    if cs.len() == 0 {
        seq![]
    } else {
        let p = path_of_components(cs.drop_last());
        joined_path(p, cs.last())
    }
}

/// Resolve `.` and `..` in a path without touching the file system.
pub fn normalize_components(path: &str) -> (r: String)
    ensures
        r@ == path_of_components(resolved_components(path_components(path@))),
{
    let cs = components_of(path);
    let ghost all = path_components(path@);
    let mut kept: Vec<Vec<char>> = Vec::new();
    let dotdot: Vec<char> = vec!['.', '.'];
    let dot: Vec<char> = vec!['.'];
    let mut i: usize = 0;
    while i < cs.len()
        invariant
            i <= cs@.len(),
            cs@.len() == all.len(),
            forall|k: int| 0 <= k < cs@.len() ==> #[trigger] cs@[k]@ == all[k],
            dotdot@ == seq!['.', '.'],
            dot@ == seq!['.'],
            kept@.map_values(|x: Vec<char>| x@) == resolved_components(all.take(i as int)),
        decreases cs.len() - i,
    {
        assert(all.take(i + 1).drop_last() == all.take(i as int));
        assert(all.take(i + 1).last() == cs@[i as int]@);
        let ghost before = kept@.map_values(|x: Vec<char>| x@);
        if chars_eq(cs[i].as_slice(), dotdot.as_slice()) {
            if kept.len() > 0 {
                let k = kept.len() - 1;
                kept.remove(k);
                assert(kept@.map_values(|x: Vec<char>| x@) =~= before.drop_last());
            }
        } else if chars_eq(cs[i].as_slice(), dot.as_slice()) {
        } else {
            kept.push(cs[i].clone());
            assert(kept@.map_values(|x: Vec<char>| x@) =~= before.push(all[i as int]));
        }
        i = i + 1;
    }
    assert(all.take(all.len() as int) == all);
    let ghost ks = kept@.map_values(|x: Vec<char>| x@);
    let mut out = String::new();
    let mut j: usize = 0;
    assert(ks.take(0) =~= Seq::<Seq<char>>::empty());
    while j < kept.len()
        invariant
            j <= kept@.len(),
            ks == kept@.map_values(|x: Vec<char>| x@),
            out@ == path_of_components(ks.take(j as int)),
        decreases kept.len() - j,
    {
        assert(ks.take(j + 1).drop_last() == ks.take(j as int));
        assert(ks.take(j + 1).last() == kept@[j as int]@);
        let piece = crate::text::string_of(kept[j].as_slice());
        out = join_path(out.as_str(), piece.as_str());
        j = j + 1;
    }
    assert(ks.take(ks.len() as int) == ks);
    out
}

/// What `Path::file_name` gives: the last component, unless there is none
/// or it is `..`.
pub open spec fn spec_file_name(s: Seq<char>) -> Option<Seq<char>> {
    let ps = path_view(s).2;
    if ps.len() > 0 && ps.last() != seq!['.', '.'] {
        Some(ps.last())
    } else {
        None
    }
}

/// The last component of a path, as `Path::file_name` finds it.
pub fn file_name(path: &str) -> (r: Option<String>)
    ensures
        match spec_file_name(path@) {
            Some(n) => r matches Some(t) && t@ == n,
            None => r is None,
        },
{
    let (_, _, parts) = parts_of(path);
    let n = parts.len();
    if n == 0 {
        return None;
    }
    let dots: Vec<char> = vec!['.', '.'];
    if chars_eq(parts[n - 1].as_slice(), dots.as_slice()) {
        assert(dots@ =~= seq!['.', '.']);
        None
    } else {
        assert(dots@ =~= seq!['.', '.']);
        let mut out = String::new();
        let last = &parts[n - 1];
        let mut i: usize = 0;
        while i < last.len()
            invariant
                i <= last@.len(),
                out@ == last@.take(i as int),
            decreases last.len() - i,
        {
            out.push(last[i]);
            assert(last@.take(i + 1) == last@.take(i as int).push(last@[i as int]));
            i = i + 1;
        }
        assert(last@.take(last@.len() as int) == last@);
        Some(out)
    }
}

/// The position of the last `.` in `name[..n]`.
pub open spec fn last_dot(name: Seq<char>, n: int) -> Option<int>
    decreases n,
{
    if n <= 0 {
        None
    } else if name[n - 1] == '.' {
        Some(n - 1)
    } else {
        last_dot(name, n - 1)
    }
}

/// What `Path::extension` gives for a file name: the text after its last
/// `.`, unless there is no `.` or the only one starts the name.
pub open spec fn spec_extension(name: Seq<char>) -> Option<Seq<char>> {
    match last_dot(name, name.len() as int) {
        Some(k) => if k == 0 { None } else { Some(name.skip(k + 1)) },
        None => None,
    }
}

/// The extension of a file name.
pub fn extension(name: &str) -> (r: Option<String>)
    ensures
        match spec_extension(name@) {
            Some(e) => r matches Some(t) && t@ == e,
            None => r is None,
        },
{
    let v = chars_of(name);
    let mut k: usize = v.len();
    while k > 0 && v[k - 1] != '.'
        invariant
            k <= v@.len(),
            v@ == name@,
            last_dot(v@, v@.len() as int) == last_dot(v@, k as int),
        decreases k,
    {
        k = k - 1;
    }
    if k == 0 || k == 1 {
        None
    } else {
        let mut out = String::new();
        let mut i: usize = k;
        while i < v.len()
            invariant
                k <= i <= v@.len(),
                out@ == v@.subrange(k as int, i as int),
            decreases v.len() - i,
        {
            out.push(v[i]);
            assert(v@.subrange(k as int, i + 1) == v@.subrange(k as int, i as int).push(v@[i as int]));
            i = i + 1;
        }
        assert(v@.subrange(k as int, v@.len() as int) == v@.skip(k as int));
        Some(out)
    }
}

} // verus!
