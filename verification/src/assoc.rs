//! Association vectors: finite maps stored as vectors of key/value pairs
//! with pairwise-distinct keys, viewed as mathematical `Map`s.
//!
//! Every sub-table of the dispatch index is one of these, so the whole index
//! is verified down to its representation with no trusted code.

use vstd::prelude::*;

verus! {

/// Executable equality that coincides with mathematical equality of values.
pub trait KeyEq: Sized {
    fn key_eq(&self, other: &Self) -> (r: bool)
        ensures
            r <==> (*self == *other),
    ;
}

impl<A: KeyEq, B: KeyEq> KeyEq for (A, B) {
    fn key_eq(&self, other: &Self) -> (r: bool)
        ensures
            r <==> (*self == *other),
    {
        self.0.key_eq(&other.0) && self.1.key_eq(&other.1)
    }
}

/// Whether some pair in `s` carries the key `k`.
pub open spec fn has_key<K, V>(s: Seq<(K, V)>, k: K) -> bool {
    exists|i: int| 0 <= i < s.len() && s[i].0 == k
}

/// The value stored beside `k`; meaningful only when `has_key(s, k)` and the
/// keys of `s` are pairwise distinct.
pub open spec fn value_of<K, V>(s: Seq<(K, V)>, k: K) -> V {
    s[choose|i: int| 0 <= i < s.len() && s[i].0 == k].1
}

/// The keys of `s` are pairwise distinct.
pub open spec fn unique_keys<K, V>(s: Seq<(K, V)>) -> bool {
    forall|i: int, j: int| 0 <= i < j < s.len() ==> (#[trigger] s[i]).0 != (#[trigger] s[j]).0
}

/// The finite map an association vector stands for.
pub open spec fn map_of<K, V>(s: Seq<(K, V)>) -> Map<K, V> {
    Map::new(|k: K| has_key(s, k), |k: K| value_of(s, k))
}

/// The pair at any position of a duplicate-free association vector is in its map.
pub proof fn lemma_entry<K, V>(s: Seq<(K, V)>, i: int)
    requires
        unique_keys(s),
        0 <= i < s.len(),
    ensures
        has_key(s, s[i].0),
        map_of(s).dom().contains(s[i].0),
        map_of(s)[s[i].0] == s[i].1,
{
    assert(has_key(s, s[i].0));
    let j = choose|j: int| 0 <= j < s.len() && s[j].0 == s[i].0;
    assert(j == i);
}

/// Every key of the map is carried by exactly one position, and that position
/// holds the map's value.
pub proof fn index_of_key<K, V>(s: Seq<(K, V)>, k: K) -> (i: int)
    requires
        unique_keys(s),
        has_key(s, k),
    ensures
        0 <= i < s.len(),
        s[i].0 == k,
        s[i].1 == map_of(s)[k],
        map_of(s).dom().contains(k),
{
    let i = choose|i: int| 0 <= i < s.len() && s[i].0 == k;
    i
}

/// The empty vector stands for the empty map.
pub proof fn lemma_empty<K, V>()
    ensures
        unique_keys(Seq::<(K, V)>::empty()),
        map_of(Seq::<(K, V)>::empty()) == Map::<K, V>::empty(),
{
    assert(map_of(Seq::<(K, V)>::empty()) =~= Map::<K, V>::empty());
}

/// Appending a fresh key inserts it into the map.
pub proof fn lemma_push<K, V>(s: Seq<(K, V)>, k: K, v: V)
    requires
        unique_keys(s),
        !has_key(s, k),
    ensures
        unique_keys(s.push((k, v))),
        map_of(s.push((k, v))) == map_of(s).insert(k, v),
{
    let t = s.push((k, v));
    assert(t[s.len() as int] == (k, v));
    assert forall|i: int, j: int| 0 <= i < j < t.len() implies (#[trigger] t[i]).0 != (
    #[trigger] t[j]).0 by {
        if j < s.len() {
            assert(t[i] == s[i] && t[j] == s[j]);
        } else {
            assert(t[i] == s[i]);
            if t[i].0 == k {
                assert(has_key(s, k));
            }
        }
    }
    assert forall|k2: K| #[trigger] has_key(t, k2) implies k2 == k || has_key(s, k2) by {
        let i = choose|i: int| 0 <= i < t.len() && t[i].0 == k2;
        if i < s.len() {
            assert(s[i] == t[i]);
            assert(has_key(s, k2));
        }
    }
    assert forall|k2: K| #[trigger] has_key(s, k2) implies has_key(t, k2) by {
        let i = choose|i: int| 0 <= i < s.len() && s[i].0 == k2;
        assert(t[i] == s[i]);
    }
    assert forall|k2: K| has_key(t, k2) implies #[trigger] map_of(t)[k2] == map_of(s).insert(
        k,
        v,
    )[k2] by {
        let i = index_of_key(t, k2);
        if k2 == k {
            assert(i == s.len() as int);
        } else {
            assert(t[i] == s[i]);
            lemma_entry(s, i);
        }
    }
    assert(map_of(t) =~= map_of(s).insert(k, v));
}

/// Removing the position that carries a key removes it from the map.
pub proof fn lemma_remove_at<K, V>(s: Seq<(K, V)>, i: int)
    requires
        unique_keys(s),
        0 <= i < s.len(),
    ensures
        unique_keys(s.remove(i)),
        map_of(s.remove(i)) == map_of(s).remove(s[i].0),
{
    let t = s.remove(i);
    let k = s[i].0;
    assert forall|p: int, q: int| 0 <= p < q < t.len() implies (#[trigger] t[p]).0 != (
    #[trigger] t[q]).0 by {
        let p0: int = if p < i {
            p
        } else {
            p + 1
        };
        let q0: int = if q < i {
            q
        } else {
            q + 1
        };
        assert(t[p] == s[p0] && t[q] == s[q0]);
    }
    assert forall|k2: K| #[trigger] has_key(t, k2) implies has_key(s, k2) && k2 != k by {
        let j = choose|j: int| 0 <= j < t.len() && t[j].0 == k2;
        let j0: int = if j < i {
            j
        } else {
            j + 1
        };
        assert(t[j] == s[j0]);
        assert(has_key(s, k2));
    }
    assert forall|k2: K| has_key(s, k2) && k2 != k implies #[trigger] has_key(t, k2) by {
        let j = index_of_key(s, k2);
        let j1: int = if j < i {
            j
        } else {
            j - 1
        };
        assert(t[j1] == s[j]);
    }
    assert forall|k2: K| has_key(t, k2) implies #[trigger] map_of(t)[k2] == map_of(s)[k2] by {
        let j = index_of_key(t, k2);
        let j0: int = if j < i {
            j
        } else {
            j + 1
        };
        assert(t[j] == s[j0]);
        lemma_entry(s, j0);
    }
    assert(map_of(t) =~= map_of(s).remove(k));
}

/// Linear lookup in a duplicate-free association vector.
pub fn vec_map_get<K: KeyEq + Copy, V: Copy>(m: &Vec<(K, V)>, k: &K) -> (r: Option<V>)
    requires
        unique_keys(m@),
    ensures
        match r {
            Some(v) => map_of(m@).dom().contains(*k) && v == map_of(m@)[*k],
            None => !map_of(m@).dom().contains(*k),
        },
{
    let n = m.len();
    let mut i: usize = 0;
    while i < n
        invariant
            n == m@.len(),
            i <= n,
            unique_keys(m@),
            forall|j: int| 0 <= j < i ==> (#[trigger] m@[j]).0 != *k,
        decreases n - i,
    {
        let (ki, vi) = m[i];
        if ki.key_eq(k) {
            proof {
                lemma_entry(m@, i as int);
            }
            return Some(vi);
        }
        i = i + 1;
    }
    proof {
        if has_key(m@, *k) {
            let j = choose|j: int| 0 <= j < m@.len() && m@[j].0 == *k;
            assert(m@[j].0 != *k);
        }
    }
    None
}

/// Insert a key known to be absent.
pub fn vec_map_insert<K: KeyEq + Copy, V: Copy>(m: &mut Vec<(K, V)>, k: K, v: V)
    requires
        unique_keys(old(m)@),
        !map_of(old(m)@).dom().contains(k),
    ensures
        unique_keys(final(m)@),
        map_of(final(m)@) == map_of(old(m)@).insert(k, v),
{
    proof {
        lemma_push(m@, k, v);
    }
    m.push((k, v));
}

/// Remove a key known to be present.
pub fn vec_map_remove<K: KeyEq + Copy, V: Copy>(m: &mut Vec<(K, V)>, k: &K)
    requires
        unique_keys(old(m)@),
        map_of(old(m)@).dom().contains(*k),
    ensures
        unique_keys(final(m)@),
        map_of(final(m)@) == map_of(old(m)@).remove(*k),
{
    let n = m.len();
    let mut i: usize = 0;
    while i < n
        invariant
            n == m@.len(),
            i <= n,
            m@ == old(m)@,
            unique_keys(m@),
            map_of(m@).dom().contains(*k),
            forall|j: int| 0 <= j < i ==> (#[trigger] m@[j]).0 != *k,
        decreases n - i,
    {
        let (ki, _vi) = m[i];
        if ki.key_eq(k) {
            proof {
                lemma_remove_at(m@, i as int);
            }
            let _ = m.remove(i);
            return ;
        }
        i = i + 1;
    }
    proof {
        let j = index_of_key(m@, *k);
        assert(m@[j].0 != *k);
    }
}

} // verus!
