//! Lists of `(name, value)` entries used as maps keyed by name, where no
//! two entries share a name.
use vstd::prelude::*;

use crate::text::str_eq;

verus! {

/// No two entries share a name.
pub open spec fn unique_keys<V>(entries: Seq<(String, V)>) -> bool {
    forall|i: int, j: int| 0 <= i < j < entries.len() ==> entries[i].0@ != entries[j].0@
}

/// The position of the entry named `key`.
pub open spec fn key_index<V>(entries: Seq<(String, V)>, key: Seq<char>) -> Option<int> {
    if exists|i: int| 0 <= i < entries.len() && entries[i].0@ == key {
        Some(choose|i: int| 0 <= i < entries.len() && entries[i].0@ == key)
    } else {
        None
    }
}

/// The value of the entry named `key`.
pub open spec fn key_value<V>(entries: Seq<(String, V)>, key: Seq<char>) -> Option<V> {
    match key_index(entries, key) {
        Some(i) => Some(entries[i].1),
        None => None,
    }
}

/// The names of the entries, in order.
pub open spec fn key_names<V>(entries: Seq<(String, V)>) -> Seq<Seq<char>> {
    entries.map_values(|e: (String, V)| e.0@)
}

pub proof fn lemma_key_index_unique<V>(entries: Seq<(String, V)>, key: Seq<char>, k: int)
    requires
        unique_keys(entries),
        0 <= k < entries.len(),
        entries[k].0@ == key,
    ensures
        key_index(entries, key) == Some(k),
{
}

/// Replacing the value at an entry's position, or appending a new entry,
/// keeps names unique and changes only that name's value.
pub proof fn lemma_key_update<V>(entries: Seq<(String, V)>, i: int, e: (String, V))
    requires
        unique_keys(entries),
        0 <= i < entries.len(),
        entries[i].0@ == e.0@,
    ensures
        unique_keys(entries.update(i, e)),
        forall|k: Seq<char>| #![trigger key_value(entries.update(i, e), k)]
            key_value(entries.update(i, e), k) == if k == e.0@ { Some(e.1) } else { key_value(entries, k) },
{
    let u = entries.update(i, e);
    assert forall|k: Seq<char>| #![trigger key_value(u, k)]
        key_value(u, k) == if k == e.0@ { Some(e.1) } else { key_value(entries, k) } by {
        if k == e.0@ {
            lemma_key_index_unique(u, k, i);
        } else if key_index(entries, k) is Some {
            let j = key_index(entries, k)->0;
            lemma_key_index_unique(u, k, j);
        } else {
            if key_index(u, k) is Some {
                let j = key_index(u, k)->0;
                assert(entries[j].0@ == k);
            }
        }
    }
}

pub proof fn lemma_key_push<V>(entries: Seq<(String, V)>, e: (String, V))
    requires
        unique_keys(entries),
        key_index(entries, e.0@) is None,
    ensures
        unique_keys(entries.push(e)),
        forall|k: Seq<char>| #![trigger key_value(entries.push(e), k)]
            key_value(entries.push(e), k) == if k == e.0@ { Some(e.1) } else { key_value(entries, k) },
{
    let u = entries.push(e);
    assert forall|a: int, b: int| 0 <= a < b < u.len() implies u[a].0@ != u[b].0@ by {
        if b == entries.len() {
            assert(entries[a].0@ != e.0@);
        }
    }
    assert forall|k: Seq<char>| #![trigger key_value(u, k)]
        key_value(u, k) == if k == e.0@ { Some(e.1) } else { key_value(entries, k) } by {
        if k == e.0@ {
            lemma_key_index_unique(u, k, entries.len() as int);
        } else if key_index(entries, k) is Some {
            let j = key_index(entries, k)->0;
            lemma_key_index_unique(u, k, j);
        } else {
            if key_index(u, k) is Some {
                let j = key_index(u, k)->0;
                assert(entries[j].0@ == k);
            }
        }
    }
}

pub proof fn lemma_key_remove<V>(entries: Seq<(String, V)>, i: int)
    requires
        unique_keys(entries),
        0 <= i < entries.len(),
    ensures
        unique_keys(entries.remove(i)),
        forall|k: Seq<char>| #![trigger key_value(entries.remove(i), k)]
            key_value(entries.remove(i), k) == if k == entries[i].0@ { None } else { key_value(entries, k) },
{
    let u = entries.remove(i);
    assert forall|a: int, b: int| 0 <= a < b < u.len() implies u[a].0@ != u[b].0@ by {
        let a0 = if a < i { a } else { a + 1 };
        let b0 = if b < i { b } else { b + 1 };
        assert(u[a] == entries[a0]);
        assert(u[b] == entries[b0]);
    }
    assert forall|k: Seq<char>| #![trigger key_value(u, k)]
        key_value(u, k) == if k == entries[i].0@ { None } else { key_value(entries, k) } by {
        if key_index(u, k) is Some {
            let j = key_index(u, k)->0;
            let j0 = if j < i { j } else { j + 1 };
            assert(u[j] == entries[j0]);
            lemma_key_index_unique(entries, k, j0);
        } else if k != entries[i].0@ && key_index(entries, k) is Some {
            let j0 = key_index(entries, k)->0;
            let j = if j0 < i { j0 } else { j0 - 1 };
            assert(u[j] == entries[j0]);
        }
    }
}

/// The position of the entry named `key`.
pub fn find_key<V>(entries: &Vec<(String, V)>, key: &str) -> (r: Option<usize>)
    requires
        unique_keys(entries@),
    ensures
        r matches Some(i) ==> i < entries@.len() && key_index(entries@, key@) == Some(i as int),
        r is None ==> key_index(entries@, key@) is None,
{
    let mut i: usize = 0;
    while i < entries.len()
        invariant
            unique_keys(entries@),
            i <= entries@.len(),
            forall|j: int| 0 <= j < i ==> entries@[j].0@ != key@,
        decreases entries.len() - i,
    {
        if str_eq(entries[i].0.as_str(), key) {
            proof {
                lemma_key_index_unique(entries@, key@, i as int);
            }
            return Some(i);
        }
        i = i + 1;
    }
    None
}

/// Insert or replace the entry named `key`.
pub fn set_key<V>(entries: &mut Vec<(String, V)>, key: &str, value: V)
    requires
        unique_keys(old(entries)@),
    ensures
        unique_keys(final(entries)@),
        forall|k: Seq<char>| #![trigger key_value(final(entries)@, k)]
            key_value(final(entries)@, k) == if k == key@ { Some(value) } else { key_value(old(entries)@, k) },
        key_index(old(entries)@, key@) is None ==> final(entries)@ == old(entries)@.push((final(entries)@.last().0, value)),
{
    match find_key(entries, key) {
        Some(i) => {
            let name = entries[i].0.clone();
            let ghost e = (name, value);
            proof {
                lemma_key_update(entries@, i as int, e);
            }
            entries.set(i, (name, value));
        },
        None => {
            let name = key.to_string();
            let ghost e = (name, value);
            proof {
                lemma_key_push(entries@, e);
            }
            entries.push((name, value));
        },
    }
}

/// The names of the entries, in order.
pub fn names_of<V>(entries: &Vec<(String, V)>) -> (r: Vec<String>)
    ensures
        r@.map_values(|s: String| s@) == key_names(entries@),
{
    let mut out: Vec<String> = Vec::new();
    let mut i: usize = 0;
    while i < entries.len()
        invariant
            i <= entries@.len(),
            out@.map_values(|s: String| s@) == key_names(entries@.take(i as int)),
        decreases entries.len() - i,
    {
        out.push(entries[i].0.clone());
        assert(key_names(entries@.take(i + 1)) =~= key_names(entries@.take(i as int)).push(entries@[i as int].0@));
        assert(out@.map_values(|s: String| s@) =~= key_names(entries@.take(i + 1)));
        i = i + 1;
    }
    assert(entries@.take(entries@.len() as int) == entries@);
    out
}

} // verus!
