//! A map kept as a list of distinct keys with their values, seen as a `Map`.
use vstd::prelude::*;

use crate::text::str_eq;

verus! {

/// Keys that can be compared by their mathematical value.
pub trait MapKey: View + Sized {
    /// Whether the two keys are equal.
    fn same_key(&self, other: &Self) -> (r: bool)
        ensures
            r == (self@ == other@),
    ;

    /// A copy of the key.
    fn copy_key(&self) -> (r: Self)
        ensures
            r@ == self@,
    ;
}

impl MapKey for String {
    fn same_key(&self, other: &Self) -> (r: bool) {
        str_eq(self.as_str(), other.as_str())
    }

    fn copy_key(&self) -> (r: Self) {
        self.clone()
    }
}

impl MapKey for u64 {
    fn same_key(&self, other: &Self) -> (r: bool) {
        *self == *other
    }

    fn copy_key(&self) -> (r: Self) {
        *self
    }
}

impl MapKey for (String, String) {
    fn same_key(&self, other: &Self) -> (r: bool) {
        str_eq(self.0.as_str(), other.0.as_str()) && str_eq(self.1.as_str(), other.1.as_str())
    }

    fn copy_key(&self) -> (r: Self) {
        (self.0.clone(), self.1.clone())
    }
}

/// A finite map from keys to values, stored as entries with distinct keys.
pub struct AssocMap<K: MapKey, V> {
    entries: Vec<(K, V)>,
}

/// Whether the keys of `s` are pairwise distinct.
pub open spec fn distinct_keys<K: View, V>(s: Seq<(K, V)>) -> bool {
    forall|i: int, j: int|
        0 <= i < s.len() && 0 <= j < s.len() && i != j ==> #[trigger] s[i].0@ != #[trigger] s[j].0@
}

/// Whether some entry of `s` has key `k`.
pub open spec fn seq_has_key<K: View, V>(s: Seq<(K, V)>, k: K::V) -> bool {
    exists|i: int| 0 <= i < s.len() && #[trigger] s[i].0@ == k
}

/// The position of the entry with key `k` in `s`.
pub open spec fn seq_key_index<K: View, V>(s: Seq<(K, V)>, k: K::V) -> int {
    choose|i: int| 0 <= i < s.len() && #[trigger] s[i].0@ == k
}

/// The map that the entries `s` denote.
pub open spec fn seq_to_map<K: View, V>(s: Seq<(K, V)>) -> Map<K::V, V> {
    Map::new(|k: K::V| seq_has_key(s, k), |k: K::V| s[seq_key_index(s, k)].1)
}

proof fn lemma_index_unique<K: View, V>(s: Seq<(K, V)>, i: int)
    requires
        distinct_keys(s),
        0 <= i < s.len(),
    ensures
        seq_has_key(s, s[i].0@),
        seq_key_index(s, s[i].0@) == i,
        seq_to_map(s).contains_key(s[i].0@),
        seq_to_map(s)[s[i].0@] == s[i].1,
{
    let k = s[i].0@;
    assert(seq_has_key(s, k));
    let j = seq_key_index(s, k);
    assert(s[j].0@ == k);
}

impl<K: MapKey, V> View for AssocMap<K, V> {
    type V = Map<K::V, V>;

    closed spec fn view(&self) -> Map<K::V, V> {
        seq_to_map(self.entries@)
    }
}

impl<K: MapKey, V> AssocMap<K, V> {
    /// The invariant: no key occurs twice.
    pub closed spec fn wf(&self) -> bool {
        distinct_keys(self.entries@)
    }

    /// The entries in their stored order.
    pub closed spec fn entries(&self) -> Seq<(K, V)> {
        self.entries@
    }

    /// Each stored entry is a key of the map, with its value.
    pub proof fn lemma_entry(&self, i: int)
        requires
            self.wf(),
            0 <= i < self.entries().len(),
        ensures
            self@.contains_key(self.entries()[i].0@),
            self@[self.entries()[i].0@] == self.entries()[i].1,
    {
        lemma_index_unique(self.entries@, i);
    }

    /// Each key of the map is stored in some entry.
    pub proof fn lemma_key(&self, k: K::V) -> (i: int)
        requires
            self.wf(),
            self@.contains_key(k),
        ensures
            0 <= i < self.entries().len(),
            self.entries()[i].0@ == k,
            self@[k] == self.entries()[i].1,
    {
        let i = seq_key_index(self.entries@, k);
        lemma_index_unique(self.entries@, i);
        i
    }

    /// Distinct positions hold distinct keys.
    pub proof fn lemma_distinct(&self, i: int, j: int)
        requires
            self.wf(),
            0 <= i < self.entries().len(),
            0 <= j < self.entries().len(),
            i != j,
        ensures
            self.entries()[i].0@ != self.entries()[j].0@,
    {
    }

    /// An empty map.
    pub fn new() -> (r: Self)
        ensures
            r.wf(),
            r@ == Map::<K::V, V>::empty(),
            r.entries().len() == 0,
    {
        let r = AssocMap { entries: Vec::new() };
        assert(r@ =~= Map::<K::V, V>::empty());
        r
    }

    /// The number of entries.
    pub fn len(&self) -> (r: usize)
        requires
            self.wf(),
        ensures
            r == self.entries().len(),
            r == self@.dom().len(),
    {
        proof {
            self.lemma_len();
        }
        self.entries.len()
    }

    /// The number of entries is the size of the map's domain.
    pub proof fn lemma_len(&self)
        requires
            self.wf(),
        ensures
            self@.dom().finite(),
            self@.dom().len() == self.entries().len(),
        decreases self.entries().len(),
    {
        let s = self.entries@;
        let keys = Seq::new(s.len(), |i: int| s[i].0@);
        assert forall|i: int, j: int| 0 <= i < keys.len() && 0 <= j < keys.len() && i != j implies keys[i] != keys[j] by {
            assert(s[i].0@ != s[j].0@);
        }
        keys.unique_seq_to_set();
        assert(self@.dom() =~= keys.to_set()) by {
            assert forall|k: K::V| self@.dom().contains(k) implies keys.to_set().contains(k) by {
                let i = seq_key_index(s, k);
                assert(keys[i] == k);
            }
            assert forall|k: K::V| keys.to_set().contains(k) implies self@.dom().contains(k) by {
                let i = choose|i: int| 0 <= i < keys.len() && keys[i] == k;
                assert(s[i].0@ == k);
            }
        }
    }

    /// The entry at position `i`.
    pub fn entry(&self, i: usize) -> (r: &(K, V))
        requires
            i < self.entries().len(),
        ensures
            *r == self.entries()[i as int],
    {
        &self.entries[i]
    }

    /// The value of the entry at position `i`, to be changed in place; its key and the
    /// other entries stay.
    pub fn value_mut(&mut self, i: usize) -> (r: &mut V)
        requires
            i < old(self).entries().len(),
        ensures
            *r == old(self).entries()[i as int].1,
            final(self).entries() == old(self).entries().update(
                i as int,
                (old(self).entries()[i as int].0, *final(r)),
            ),
    {
        &mut self.entries[i].1
    }

    /// Changing the value of one entry keeps the map well formed and changes only that
    /// key's value.
    pub proof fn lemma_value_updated(before: Self, after: Self, i: int, v: V)
        requires
            before.wf(),
            0 <= i < before.entries().len(),
            after.entries() == before.entries().update(i, (before.entries()[i].0, v)),
        ensures
            after.wf(),
            after@ == before@.insert(before.entries()[i].0@, v),
    {
        let s = before.entries@;
        let t = after.entries@;
        assert forall|a: int, b: int|
            0 <= a < t.len() && 0 <= b < t.len() && a != b implies #[trigger] t[a].0@
            != #[trigger] t[b].0@ by {
            assert(t[a].0@ == s[a].0@);
            assert(t[b].0@ == s[b].0@);
        }
        lemma_index_unique(s, i);
        assert forall|k: K::V| #[trigger] after@.contains_key(k) == before@.insert(
            s[i].0@,
            v,
        ).contains_key(k) by {
            if seq_has_key(t, k) {
                let j = choose|j: int| 0 <= j < t.len() && #[trigger] t[j].0@ == k;
                assert(s[j].0@ == k);
            }
            if seq_has_key(s, k) {
                let j = choose|j: int| 0 <= j < s.len() && #[trigger] s[j].0@ == k;
                assert(t[j].0@ == k);
            }
            if k == s[i].0@ {
                assert(t[i].0@ == k);
            }
        }
        assert forall|k: K::V| #[trigger] after@.contains_key(k) implies after@[k]
            == before@.insert(s[i].0@, v)[k] by {
            let j = choose|j: int| 0 <= j < t.len() && #[trigger] t[j].0@ == k;
            lemma_index_unique(t, j);
            if j != i {
                assert(s[j].0@ == k);
                lemma_index_unique(s, j);
            }
        }
        assert(after@ =~= before@.insert(s[i].0@, v));
    }

    /// Position of the entry with key `k`, if any.
    pub fn index_of(&self, k: &K) -> (r: Option<usize>)
        requires
            self.wf(),
        ensures
            match r {
                Some(i) => i < self.entries().len() && self.entries()[i as int].0@ == k@,
                None => !self@.contains_key(k@),
            },
    {
        let mut i: usize = 0;
        while i < self.entries.len()
            invariant
                i <= self.entries@.len(),
                forall|j: int| 0 <= j < i ==> (#[trigger] self.entries@[j]).0@ != k@,
            decreases self.entries@.len() - i,
        {
            if self.entries[i].0.same_key(k) {
                return Some(i);
            }
            i = i + 1;
        }
        None
    }

    /// Whether `k` has a value.
    pub fn contains_key(&self, k: &K) -> (r: bool)
        requires
            self.wf(),
        ensures
            r == self@.contains_key(k@),
    {
        match self.index_of(k) {
            Some(i) => {
                proof {
                    lemma_index_unique(self.entries@, i as int);
                }
                true
            },
            None => false,
        }
    }

    /// The value stored under `k`, if any.
    pub fn get(&self, k: &K) -> (r: Option<&V>)
        requires
            self.wf(),
        ensures
            match r {
                Some(v) => self@.contains_key(k@) && *v == self@[k@],
                None => !self@.contains_key(k@),
            },
    {
        match self.index_of(k) {
            Some(i) => {
                proof {
                    lemma_index_unique(self.entries@, i as int);
                }
                Some(&self.entries[i].1)
            },
            None => None,
        }
    }

    /// Stores `v` under `k`, replacing any value that was there.
    pub fn insert(&mut self, k: K, v: V)
        requires
            old(self).wf(),
        ensures
            final(self).wf(),
            final(self)@ == old(self)@.insert(k@, v),
    {
        let ghost old_s = self.entries@;
        let ghost kv = k@;
        match self.index_of(&k) {
            Some(i) => {
                self.entries.set(i, (k, v));
                let ghost s = self.entries@;
                assert(s == old_s.update(i as int, s[i as int]));
                assert(distinct_keys(s)) by {
                    assert forall|a: int, b: int|
                        0 <= a < s.len() && 0 <= b < s.len() && a != b implies #[trigger] s[a].0@
                        != #[trigger] s[b].0@ by {
                        if a != i && b != i {
                            assert(old_s[a].0@ != old_s[b].0@);
                        } else if a == i {
                            assert(old_s[i as int].0@ != old_s[b].0@);
                        } else {
                            assert(old_s[a].0@ != old_s[i as int].0@);
                        }
                    }
                }
                assert(self@ =~= old(self)@.insert(kv, v)) by {
                    assert forall|q: K::V| #[trigger] self@.contains_key(q) == old(self)@.insert(
                        kv,
                        v,
                    ).contains_key(q) by {
                        if seq_has_key(s, q) {
                            let j = seq_key_index(s, q);
                            if j != i {
                                assert(old_s[j].0@ == q);
                            }
                        }
                        if seq_has_key(old_s, q) {
                            let j = seq_key_index(old_s, q);
                            assert(s[j].0@ == q);
                        }
                    }
                    assert forall|q: K::V| #[trigger] self@.contains_key(q) implies self@[q]
                        == old(self)@.insert(kv, v)[q] by {
                        let j = seq_key_index(s, q);
                        lemma_index_unique(s, j);
                        if j != i {
                            lemma_index_unique(old_s, j);
                        }
                    }
                }
            },
            None => {
                self.entries.push((k, v));
                let ghost s = self.entries@;
                let ghost n = old_s.len() as int;
                assert(distinct_keys(s)) by {
                    assert forall|a: int, b: int|
                        0 <= a < s.len() && 0 <= b < s.len() && a != b implies #[trigger] s[a].0@
                        != #[trigger] s[b].0@ by {
                        if a != n && b != n {
                            assert(old_s[a].0@ != old_s[b].0@);
                        } else if a == n {
                            assert(old_s[b].0@ == s[b].0@);
                            if s[b].0@ == kv {
                                assert(seq_has_key(old_s, kv));
                            }
                        } else {
                            assert(old_s[a].0@ == s[a].0@);
                            if s[a].0@ == kv {
                                assert(seq_has_key(old_s, kv));
                            }
                        }
                    }
                }
                assert(self@ =~= old(self)@.insert(kv, v)) by {
                    assert forall|q: K::V| #[trigger] self@.contains_key(q) == old(self)@.insert(
                        kv,
                        v,
                    ).contains_key(q) by {
                        if seq_has_key(s, q) {
                            let j = seq_key_index(s, q);
                            if j != n {
                                assert(old_s[j].0@ == q);
                            }
                        }
                        if seq_has_key(old_s, q) {
                            let j = seq_key_index(old_s, q);
                            assert(s[j].0@ == q);
                        }
                        if q == kv {
                            assert(s[n].0@ == q);
                        }
                    }
                    assert forall|q: K::V| #[trigger] self@.contains_key(q) implies self@[q]
                        == old(self)@.insert(kv, v)[q] by {
                        let j = seq_key_index(s, q);
                        lemma_index_unique(s, j);
                        if j != n {
                            lemma_index_unique(old_s, j);
                        }
                    }
                }
            },
        }
    }

    /// Removes the value stored under `k`, returning it.
    pub fn remove(&mut self, k: &K) -> (r: Option<V>)
        requires
            old(self).wf(),
        ensures
            final(self).wf(),
            final(self)@ == old(self)@.remove(k@),
            r is None ==> *final(self) == *old(self),
            match r {
                Some(v) => old(self)@.contains_key(k@) && v == old(self)@[k@],
                None => !old(self)@.contains_key(k@),
            },
    {
        let ghost old_s = self.entries@;
        let ghost kv = k@;
        match self.index_of(k) {
            Some(i) => {
                proof {
                    lemma_index_unique(old_s, i as int);
                }
                let (_, v) = self.entries.remove(i);
                let ghost s = self.entries@;
                assert(s =~= old_s.remove(i as int));
                assert(forall|a: int| 0 <= a < s.len() ==> #[trigger] s[a] == old_s[if a < i {
                    a
                } else {
                    a + 1
                }]);
                assert(distinct_keys(s)) by {
                    assert forall|a: int, b: int|
                        0 <= a < s.len() && 0 <= b < s.len() && a != b implies #[trigger] s[a].0@
                        != #[trigger] s[b].0@ by {
                        let a2 = if a < i {
                            a
                        } else {
                            a + 1
                        };
                        let b2 = if b < i {
                            b
                        } else {
                            b + 1
                        };
                        assert(old_s[a2].0@ != old_s[b2].0@);
                    }
                }
                assert(self@ =~= old(self)@.remove(kv)) by {
                    assert forall|q: K::V| #[trigger] self@.contains_key(q) == old(self)@.remove(
                        kv,
                    ).contains_key(q) by {
                        if seq_has_key(s, q) {
                            let j = seq_key_index(s, q);
                            let j2 = if j < i {
                                j
                            } else {
                                j + 1
                            };
                            assert(old_s[j2].0@ == q);
                            assert(old_s[i as int].0@ != old_s[j2].0@);
                        }
                        if seq_has_key(old_s, q) && q != kv {
                            let j = seq_key_index(old_s, q);
                            assert(j != i);
                            let j1 = if j < i {
                                j
                            } else {
                                j - 1
                            };
                            assert(s[j1].0@ == q);
                        }
                    }
                    assert forall|q: K::V| #[trigger] self@.contains_key(q) implies self@[q]
                        == old(self)@.remove(kv)[q] by {
                        let j = seq_key_index(s, q);
                        lemma_index_unique(s, j);
                        let j2 = if j < i {
                            j
                        } else {
                            j + 1
                        };
                        lemma_index_unique(old_s, j2);
                    }
                }
                Some(v)
            },
            None => {
                assert(self@ =~= old(self)@.remove(kv));
                None
            },
        }
    }
}


/// The map built by inserting, for each entry of `s` in order, the key `kf(e)` with the
/// value `vf(e)`; a later entry replaces an earlier one with the same key.
pub open spec fn fold_entries<K, V, K2, V2>(
    s: Seq<(K, V)>,
    kf: spec_fn((K, V)) -> K2,
    vf: spec_fn((K, V)) -> V2,
) -> Map<K2, V2>
    decreases s.len(),
{
    if s.len() == 0 {
        Map::empty()
    } else {
        fold_entries(s.drop_last(), kf, vf).insert(kf(s.last()), vf(s.last()))
    }
}

/// Whether `kf` gives distinct keys to distinct entries of `s`.
pub open spec fn keys_distinct_under<K, V, K2>(s: Seq<(K, V)>, kf: spec_fn((K, V)) -> K2) -> bool {
    forall|i: int, j: int|
        0 <= i < s.len() && 0 <= j < s.len() && i != j ==> kf(#[trigger] s[i]) != kf(
            #[trigger] s[j],
        )
}

/// When no two entries get the same key, the fold holds each entry's key with its value,
/// and nothing else.
pub proof fn lemma_fold_injective<K, V, K2, V2>(
    s: Seq<(K, V)>,
    kf: spec_fn((K, V)) -> K2,
    vf: spec_fn((K, V)) -> V2,
)
    requires
        keys_distinct_under(s, kf),
    ensures
        forall|i: int|
            0 <= i < s.len() ==> #[trigger] fold_entries(s, kf, vf).contains_key(kf(s[i]))
                && fold_entries(s, kf, vf)[kf(s[i])] == vf(s[i]),
        forall|k: K2|
            #[trigger] fold_entries(s, kf, vf).contains_key(k) ==> exists|i: int|
                0 <= i < s.len() && kf(s[i]) == k,
    decreases s.len(),
{
    if s.len() > 0 {
        let p = s.drop_last();
        assert(keys_distinct_under(p, kf)) by {
            assert forall|i: int, j: int|
                0 <= i < p.len() && 0 <= j < p.len() && i != j implies kf(#[trigger] p[i]) != kf(
                #[trigger] p[j],
            ) by {
                assert(p[i] == s[i] && p[j] == s[j]);
            }
        }
        lemma_fold_injective(p, kf, vf);
        let m = fold_entries(s, kf, vf);
        let last = s[s.len() - 1];
        assert(s.last() == last);
        assert(m == fold_entries(p, kf, vf).insert(kf(last), vf(last)));
        assert forall|i: int| 0 <= i < s.len() implies #[trigger] m.contains_key(kf(s[i])) && m[kf(
            s[i],
        )] == vf(s[i]) by {
            if i < s.len() - 1 {
                assert(p[i] == s[i]);
                assert(kf(s[i]) != kf(s[s.len() - 1]));
            }
        }
        assert forall|k: K2| #[trigger] m.contains_key(k) implies exists|i: int|
            0 <= i < s.len() && kf(s[i]) == k by {
            if k != kf(last) {
                assert(fold_entries(p, kf, vf).contains_key(k));
                let i = choose|i: int| 0 <= i < p.len() && kf(p[i]) == k;
                assert(s[i] == p[i]);
            } else {
                assert(kf(s[s.len() - 1]) == k);
            }
        }
    }
}

impl<K: MapKey, V> AssocMap<K, V> {
    /// Each key of the map is in exactly one entry, so each entry's key and value are
    /// found in the map, and every key of the map is some entry's.
    pub proof fn lemma_entries_view(&self)
        requires
            self.wf(),
        ensures
            forall|i: int|
                0 <= i < self.entries().len() ==> #[trigger] self@.contains_key(
                    self.entries()[i].0@,
                ) && self@[self.entries()[i].0@] == self.entries()[i].1,
            forall|k: K::V| #[trigger]
                self@.contains_key(k) ==> exists|i: int|
                    0 <= i < self.entries().len() && self.entries()[i].0@ == k,
            forall|i: int, j: int|
                0 <= i < self.entries().len() && 0 <= j < self.entries().len() && i != j
                    ==> #[trigger] self.entries()[i].0@ != #[trigger] self.entries()[j].0@,
    {
        assert forall|i: int| 0 <= i < self.entries().len() implies #[trigger] self@.contains_key(
            self.entries()[i].0@,
        ) && self@[self.entries()[i].0@] == self.entries()[i].1 by {
            self.lemma_entry(i);
        }
        assert forall|k: K::V| #[trigger] self@.contains_key(k) implies exists|i: int|
            0 <= i < self.entries().len() && self.entries()[i].0@ == k by {
            let i = self.lemma_key(k);
        }
    }
}

} // verus!
