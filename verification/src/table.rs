//! Small tables of key-value pairs, in first-seen key order, read as maps.
use vstd::prelude::*;
use vstd::string::StringSliceAdditionalSpecFns;

use crate::modes::guid::TrackGuid;

verus! {

/// Whether key `k` has an entry.
pub open spec fn has_entry<K, V>(m: Seq<(K, V)>, k: K) -> bool {
    exists|j: int| 0 <= j < m.len() && #[trigger] m[j].0 == k
}

/// Where the entry of `k` stands (meaningful only when it has one).
pub open spec fn entry_pos<K, V>(m: Seq<(K, V)>, k: K) -> int {
    choose|j: int| 0 <= j < m.len() && #[trigger] m[j].0 == k
}

/// Whether no key has two entries.
pub open spec fn unique_keys<K, V>(m: Seq<(K, V)>) -> bool {
    forall|i: int, j: int| 0 <= i < j < m.len() ==> #[trigger] m[i].0 != #[trigger] m[j].0
}

/// The table after `k` is set to `v`, keys in first-seen order.
pub open spec fn assoc_insert<K, V>(m: Seq<(K, V)>, k: K, v: V) -> Seq<(K, V)> {
    if has_entry(m, k) {
        m.update(entry_pos(m, k), (k, v))
    } else {
        m.push((k, v))
    }
}

/// The value of `k`, if it has an entry.
pub open spec fn lookup<K, V>(m: Seq<(K, V)>, k: K) -> Option<V> {
    if has_entry(m, k) {
        Some(m[entry_pos(m, k)].1)
    } else {
        None
    }
}

/// Setting a key keeps keys unique, and adds that key to the keys with an entry.
pub proof fn lemma_assoc_insert_unique<K, V>(m: Seq<(K, V)>, k: K, v: V)
    requires
        unique_keys(m),
    ensures
        unique_keys(assoc_insert(m, k, v)),
        forall|x: K| #[trigger] has_entry(assoc_insert(m, k, v), x) <==> (has_entry(m, x) || x == k),
{
    let r = assoc_insert(m, k, v);
    if has_entry(m, k) {
        let p = entry_pos(m, k);
        assert forall|x: K| #[trigger] has_entry(r, x) <==> (has_entry(m, x) || x == k) by {
            if has_entry(m, x) {
                let j = choose|j: int| 0 <= j < m.len() && #[trigger] m[j].0 == x;
                assert(r[j].0 == x);
            }
            if has_entry(r, x) {
                let j = choose|j: int| 0 <= j < r.len() && #[trigger] r[j].0 == x;
                assert(m[j].0 == x);
            }
        }
    } else {
        assert forall|x: K| #[trigger] has_entry(r, x) <==> (has_entry(m, x) || x == k) by {
            if has_entry(m, x) {
                let j = choose|j: int| 0 <= j < m.len() && #[trigger] m[j].0 == x;
                assert(r[j].0 == x);
            }
            if x == k {
                assert(r[m.len() as int].0 == x);
            }
            if has_entry(r, x) {
                let j = choose|j: int| 0 <= j < r.len() && #[trigger] r[j].0 == x;
                if j < m.len() {
                    assert(m[j].0 == x);
                }
            }
        }
        assert forall|i: int, j: int| 0 <= i < j < r.len() implies #[trigger] r[i].0 != #[trigger] r[j].0 by {
            if j == m.len() {
                assert(r[i] == m[i]);
            }
        }
    }
}

/// Whether `a` and `b` hold the same characters.
pub fn same_str(a: &str, b: &str) -> (r: bool)
    ensures
        r == (a@ == b@),
{
    let x = a.as_bytes();
    let y = b.as_bytes();
    proof {
        vstd::utf8::encode_utf8_decode_utf8(a@);
        vstd::utf8::encode_utf8_decode_utf8(b@);
    }
    if x.len() != y.len() {
        return false;
    }
    let mut i: usize = 0;
    while i < x.len()
        invariant
            0 <= i <= x.len(),
            x.len() == y.len(),
            x@ == a.spec_bytes(),
            y@ == b.spec_bytes(),
            forall|q: int| 0 <= q < i ==> x@[q] == y@[q],
        decreases x.len() - i,
    {
        if x[i] != y[i] {
            return false;
        }
        i = i + 1;
    }
    assert(x@ =~= y@);
    true
}

/// After `k` is set to `v`, `k` reads `v` and every other key reads what it read before.
pub proof fn lemma_lookup_assoc_insert<K, V>(m: Seq<(K, V)>, k: K, v: V)
    requires
        unique_keys(m),
    ensures
        lookup(assoc_insert(m, k, v), k) == Some(v),
        forall|x: K| x != k ==> #[trigger] lookup(assoc_insert(m, k, v), x) == lookup(m, x),
{
    let r = assoc_insert(m, k, v);
    lemma_assoc_insert_unique(m, k, v);
    assert(has_entry(r, k));
    let pk = entry_pos(r, k);
    if has_entry(m, k) {
        let p = entry_pos(m, k);
        assert(r[p].0 == k);
        if pk != p {
            if pk < p {
                assert(r[pk].0 != r[p].0);
            } else {
                assert(r[p].0 != r[pk].0);
            }
        }
    } else {
        let n = m.len() as int;
        assert(r[n].0 == k);
        if pk != n {
            assert(r[pk].0 != r[n].0);
        }
    }
    assert forall|x: K| x != k implies #[trigger] lookup(r, x) == lookup(m, x) by {
        if has_entry(m, x) {
            let p = entry_pos(m, x);
            assert(r[p] == m[p]);
            assert(has_entry(r, x));
            let q = entry_pos(r, x);
            if q != p {
                if q < p {
                    assert(r[q].0 != r[p].0);
                } else {
                    assert(r[p].0 != r[q].0);
                }
            }
        } else {
            if has_entry(r, x) {
                let q = entry_pos(r, x);
                if q < m.len() {
                    assert(r[q] == m[q]);
                }
            }
        }
    }
}

/// Find the entry of `k` in a table whose keys are unique.
pub fn find_u8<V>(m: &Vec<(u8, V)>, k: u8) -> (r: Option<usize>)
    requires
        unique_keys(m@),
    ensures
        r is Some <==> has_entry(m@, k),
        r matches Some(j) ==> j as int == entry_pos(m@, k) && j < m@.len(),
{
    let mut j: usize = 0;
    while j < m.len()
        invariant
            0 <= j <= m.len(),
            unique_keys(m@),
            forall|q: int| 0 <= q < j ==> m@[q].0 != k,
        decreases m.len() - j,
    {
        if m[j].0 == k {
            proof {
                let p = entry_pos(m@, k);
                assert(m@[j as int].0 == k);
                if p != j {
                    if p < j {
                        assert(m@[p].0 != m@[j as int].0);
                    } else {
                        assert(m@[j as int].0 != m@[p].0);
                    }
                }
            }
            return Some(j);
        }
        j = j + 1;
    }
    None
}

/// Find the entry of `k` in a table whose keys are unique.
pub fn find_i32<V>(m: &Vec<(i32, V)>, k: i32) -> (r: Option<usize>)
    requires
        unique_keys(m@),
    ensures
        r is Some <==> has_entry(m@, k),
        r matches Some(j) ==> j as int == entry_pos(m@, k) && j < m@.len(),
{
    let mut j: usize = 0;
    while j < m.len()
        invariant
            0 <= j <= m.len(),
            unique_keys(m@),
            forall|q: int| 0 <= q < j ==> m@[q].0 != k,
        decreases m.len() - j,
    {
        if m[j].0 == k {
            proof {
                let p = entry_pos(m@, k);
                assert(m@[j as int].0 == k);
                if p != j {
                    if p < j {
                        assert(m@[p].0 != m@[j as int].0);
                    } else {
                        assert(m@[j as int].0 != m@[p].0);
                    }
                }
            }
            return Some(j);
        }
        j = j + 1;
    }
    None
}

/// Set `k` to `v` in a table whose keys are unique.
pub fn insert_u8<V>(m: &mut Vec<(u8, V)>, k: u8, v: V)
    requires
        unique_keys(old(m)@),
    ensures
        final(m)@ == assoc_insert(old(m)@, k, v),
        unique_keys(final(m)@),
{
    proof {
        lemma_assoc_insert_unique(m@, k, v);
    }
    match find_u8(m, k) {
        Some(j) => {
            m.set(j, (k, v));
        },
        None => {
            m.push((k, v));
        },
    }
}

/// Find the entry of track `k` in a table whose keys are unique.
pub fn find_guid<V>(m: &Vec<(TrackGuid, V)>, k: TrackGuid) -> (r: Option<usize>)
    requires
        unique_keys(m@),
    ensures
        r is Some <==> has_entry(m@, k),
        r matches Some(j) ==> j as int == entry_pos(m@, k) && j < m@.len(),
{
    let mut j: usize = 0;
    while j < m.len()
        invariant
            0 <= j <= m.len(),
            unique_keys(m@),
            forall|q: int| 0 <= q < j ==> m@[q].0 != k,
        decreases m.len() - j,
    {
        if m[j].0 == k {
            proof {
                let p = entry_pos(m@, k);
                assert(m@[j as int].0 == k);
                if p != j {
                    if p < j {
                        assert(m@[p].0 != m@[j as int].0);
                    } else {
                        assert(m@[j as int].0 != m@[p].0);
                    }
                }
            }
            return Some(j);
        }
        j = j + 1;
    }
    None
}

/// Set track `k` to `v` in a table whose keys are unique.
pub fn insert_guid<V>(m: &mut Vec<(TrackGuid, V)>, k: TrackGuid, v: V)
    requires
        unique_keys(old(m)@),
    ensures
        final(m)@ == assoc_insert(old(m)@, k, v),
        unique_keys(final(m)@),
{
    proof {
        lemma_assoc_insert_unique(m@, k, v);
    }
    match find_guid(m, k) {
        Some(j) => {
            m.set(j, (k, v));
        },
        None => {
            m.push((k, v));
        },
    }
}

} // verus!
