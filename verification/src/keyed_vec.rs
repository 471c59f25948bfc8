//! A map held as a vector of key/value pairs with distinct keys.
use vstd::prelude::*;

use crate::principal::Principal;

verus! {

/// Keys that can be compared by their view.
pub trait MapKey: View + Sized {
    fn key_eq(&self, other: &Self) -> (r: bool)
        ensures
            r == (self@ == other@);
}

impl View for Principal {
    type V = Principal;

    open spec fn view(&self) -> Principal {
        *self
    }
}

impl MapKey for Principal {
    fn key_eq(&self, other: &Self) -> (r: bool) {
        self.same_as(other)
    }
}

impl MapKey for String {
    fn key_eq(&self, other: &Self) -> (r: bool) {
        *self == *other
    }
}

/// A finite map from key views to values, stored as pairs in a vector.
/// No two pairs have keys with the same view.
pub struct KeyedVec<K: MapKey, V> {
    entries: Vec<(K, V)>,
}

impl<K: MapKey, V> KeyedVec<K, V> {
    /// No two stored pairs have keys with the same view.
    #[verifier::type_invariant]
    pub closed spec fn keys_distinct(self) -> bool {
        forall|i: int, j: int|
            0 <= i < self.entries@.len() && 0 <= j < self.entries@.len() && i != j
                ==> #[trigger] self.entries@[i].0@ != #[trigger] self.entries@[j].0@
    }

    /// The pairs in the order they are stored.
    pub closed spec fn pairs(self) -> Seq<(K, V)> {
        self.entries@
    }

    /// Whether some pair holds the key `k`.
    pub open spec fn has(self, k: K::V) -> bool {
        exists|i: int| 0 <= i < self.pairs().len() && #[trigger] self.pairs()[i].0@ == k
    }

    /// The position of the pair that holds `k`.
    pub open spec fn index_of(self, k: K::V) -> int {
        choose|i: int| 0 <= i < self.pairs().len() && #[trigger] self.pairs()[i].0@ == k
    }

    /// The map that the pairs stand for.
    pub open spec fn map(self) -> Map<K::V, V> {
        Map::new(|k: K::V| self.has(k), |k: K::V| self.pairs()[self.index_of(k)].1)
    }

    /// The distinct-keys property, for callers.
    pub proof fn lemma_distinct(&self)
        requires
            self.keys_distinct(),
        ensures
            forall|i: int, j: int|
                0 <= i < self.pairs().len() && 0 <= j < self.pairs().len() && i != j
                    ==> #[trigger] self.pairs()[i].0@ != #[trigger] self.pairs()[j].0@,
    {
    }

    /// Every stored pair is in the map.
    pub proof fn lemma_pair_in_map(&self, i: int)
        requires
            self.keys_distinct(),
            0 <= i < self.pairs().len(),
        ensures
            self.map().contains_key(self.pairs()[i].0@),
            self.map()[self.pairs()[i].0@] == self.pairs()[i].1,
            self.index_of(self.pairs()[i].0@) == i,
    {
        let k = self.pairs()[i].0@;
        assert(self.has(k));
        let j = self.index_of(k);
        assert(self.pairs()[j].0@ == k);
    }

    /// The number of pairs is the number of keys.
    pub proof fn lemma_len(&self)
        requires
            self.keys_distinct(),
        ensures
            self.map().dom().finite(),
            self.map().dom().len() == self.pairs().len(),
        decreases self.pairs().len(),
    {
        lemma_len_of_pairs(self.pairs());
        assert(self.map().dom() =~= keys_of(self.pairs()));
    }

    pub fn new() -> (m: Self)
        ensures
            m.map() == Map::<K::V, V>::empty(),
            m.pairs().len() == 0,
    {
        let m = KeyedVec { entries: Vec::new() };
        assert(m.map() =~= Map::<K::V, V>::empty());
        m
    }

    pub fn len(&self) -> (n: usize)
        ensures
            n == self.pairs().len(),
            n == self.map().dom().len(),
    {
        proof {
            use_type_invariant(self);
            self.lemma_len();
        }
        self.entries.len()
    }

    /// The stored pairs.
    pub fn as_pairs(&self) -> (s: &Vec<(K, V)>)
        ensures
            s@ == self.pairs(),
    {
        &self.entries
    }

    /// The position of the pair holding `k`, if any.
    pub fn find(&self, k: &K) -> (r: Option<usize>)
        ensures
            match r {
                Some(i) => i < self.pairs().len() && self.pairs()[i as int].0@ == k@
                    && self.has(k@) && self.index_of(k@) == i,
                None => !self.has(k@) && !self.map().contains_key(k@),
            },
    {
        proof {
            use_type_invariant(self);
        }
        let mut i: usize = 0;
        while i < self.entries.len()
            invariant
                self.keys_distinct(),
                i <= self.entries@.len(),
                forall|j: int| 0 <= j < i ==> self.entries@[j].0@ != k@,
            decreases self.entries@.len() - i,
        {
            if self.entries[i].0.key_eq(k) {
                proof {
                    self.lemma_pair_in_map(i as int);
                }
                return Some(i);
            }
            i = i + 1;
        }
        None
    }

    pub fn contains_key(&self, k: &K) -> (r: bool)
        ensures
            r == self.map().contains_key(k@),
    {
        self.find(k).is_some()
    }

    pub fn get(&self, k: &K) -> (r: Option<&V>)
        ensures
            match r {
                Some(v) => self.map().contains_key(k@) && *v == self.map()[k@],
                None => !self.map().contains_key(k@),
            },
    {
        proof {
            use_type_invariant(self);
        }
        match self.find(k) {
            Some(i) => {
                proof {
                    self.lemma_pair_in_map(i as int);
                }
                Some(&self.entries[i].1)
            },
            None => None,
        }
    }

    /// Sets the value of `k`, replacing the pair that holds it or adding one.
    pub fn insert(&mut self, k: K, v: V)
        ensures
            final(self).map() == old(self).map().insert(k@, v),
    {
        proof {
            use_type_invariant(&*self);
        }
        let ghost kv = k@;
        let ghost old_self = *self;
        match self.find(&k) {
            Some(i) => {
                let mut entries: Vec<(K, V)> = Vec::new();
                std::mem::swap(&mut entries, &mut self.entries);
                entries.set(i, (k, v));
                proof {
                    assert forall|a: int, b: int|
                        0 <= a < entries@.len() && 0 <= b < entries@.len() && a != b
                            implies #[trigger] entries@[a].0@ != #[trigger] entries@[b].0@ by {
                        if a != i && b != i {
                            assert(old_self.pairs()[a].0@ != old_self.pairs()[b].0@);
                        } else if a == i {
                            assert(old_self.pairs()[b].0@ != kv);
                        } else {
                            assert(old_self.pairs()[a].0@ != kv);
                        }
                    }
                }
                self.entries = entries;
                proof {
                    assert forall|key: K::V| old_self.map().insert(kv, v).contains_key(key) implies self.has(key) by {
                        if key == kv {
                            assert(self.pairs()[i as int].0@ == kv);
                        } else {
                            let j = old_self.index_of(key);
                            assert(self.pairs()[j].0@ == key);
                        }
                    }
                    assert forall|key: K::V| self.has(key) implies old_self.map().insert(kv, v).contains_key(key) by {
                        let j = self.index_of(key);
                        if j != i {
                            assert(old_self.pairs()[j].0@ == key);
                        }
                    }
                    assert forall|key: K::V| #[trigger] self.has(key) implies
                        self.pairs()[self.index_of(key)].1 == old_self.map().insert(kv, v)[key] by {
                        let j = self.index_of(key);
                        if key == kv {
                            assert(self.pairs()[i as int].0@ == kv);
                        } else {
                            old_self.lemma_pair_in_map(j);
                        }
                    }
                    assert(self.map() =~= old_self.map().insert(kv, v));
                }
            },
            None => {
                let mut entries: Vec<(K, V)> = Vec::new();
                std::mem::swap(&mut entries, &mut self.entries);
                entries.push((k, v));
                proof {
                    let n: int = old_self.pairs().len() as int;
                    assert forall|a: int, b: int|
                        0 <= a < entries@.len() && 0 <= b < entries@.len() && a != b
                            implies #[trigger] entries@[a].0@ != #[trigger] entries@[b].0@ by {
                        if a != n && b != n {
                            assert(old_self.pairs()[a].0@ != old_self.pairs()[b].0@);
                        } else if a == n {
                            assert(old_self.pairs()[b].0@ != kv);
                        } else {
                            assert(old_self.pairs()[a].0@ != kv);
                        }
                    }
                }
                self.entries = entries;
                proof {
                    let n: int = old_self.pairs().len() as int;
                    assert forall|key: K::V| old_self.map().insert(kv, v).contains_key(key) implies self.has(key) by {
                        if key == kv {
                            assert(self.pairs()[n].0@ == kv);
                        } else {
                            let j = old_self.index_of(key);
                            assert(self.pairs()[j].0@ == key);
                        }
                    }
                    assert forall|key: K::V| self.has(key) implies old_self.map().insert(kv, v).contains_key(key) by {
                        let j = self.index_of(key);
                        if j != n {
                            assert(old_self.pairs()[j].0@ == key);
                        }
                    }
                    assert forall|key: K::V| #[trigger] self.has(key) implies
                        self.pairs()[self.index_of(key)].1 == old_self.map().insert(kv, v)[key] by {
                        let j = self.index_of(key);
                        if key == kv {
                            assert(self.pairs()[n].0@ == kv);
                        } else {
                            old_self.lemma_pair_in_map(j);
                        }
                    }
                    assert(self.map() =~= old_self.map().insert(kv, v));
                }
            },
        }
    }

    /// Takes out the pair that holds `k` and gives back its value.
    pub fn remove(&mut self, k: &K) -> (r: Option<V>)
        ensures
            final(self).map() == old(self).map().remove(k@),
            match r {
                Some(v) => old(self).map().contains_key(k@) && v == old(self).map()[k@],
                None => !old(self).map().contains_key(k@),
            },
    {
        proof {
            use_type_invariant(&*self);
        }
        let ghost old_self = *self;
        match self.find(k) {
            Some(i) => {
                proof {
                    old_self.lemma_pair_in_map(i as int);
                }
                let mut entries: Vec<(K, V)> = Vec::new();
                std::mem::swap(&mut entries, &mut self.entries);
                let (_, v) = entries.remove(i);
                proof {
                    assert forall|a: int, b: int|
                        0 <= a < entries@.len() && 0 <= b < entries@.len() && a != b
                            implies #[trigger] entries@[a].0@ != #[trigger] entries@[b].0@ by {
                        let a2 = if a < i { a } else { a + 1 };
                        let b2 = if b < i { b } else { b + 1 };
                        assert(old_self.pairs()[a2].0@ != old_self.pairs()[b2].0@);
                    }
                }
                self.entries = entries;
                proof {
                    let kv = k@;
                    assert forall|key: K::V| old_self.map().remove(kv).contains_key(key) implies self.has(key) by {
                        let j = old_self.index_of(key);
                        if j < i {
                            assert(self.pairs()[j].0@ == key);
                        } else {
                            assert(self.pairs()[j - 1].0@ == key);
                        }
                    }
                    assert forall|key: K::V| self.has(key) implies old_self.map().remove(kv).contains_key(key) by {
                        let j = self.index_of(key);
                        if j < i {
                            assert(old_self.pairs()[j].0@ == key);
                        } else {
                            assert(old_self.pairs()[j + 1].0@ == key);
                        }
                    }
                    assert forall|key: K::V| #[trigger] self.has(key) implies
                        self.pairs()[self.index_of(key)].1 == old_self.map().remove(kv)[key] by {
                        let j = self.index_of(key);
                        if j < i {
                            old_self.lemma_pair_in_map(j);
                        } else {
                            old_self.lemma_pair_in_map(j + 1);
                        }
                    }
                    assert(self.map() =~= old_self.map().remove(kv));
                }
                Some(v)
            },
            None => {
                assert(self.map() =~= old_self.map().remove(k@));
                None
            },
        }
    }
}

/// The set of key views in `s`.
pub open spec fn keys_of<K: View, V>(s: Seq<(K, V)>) -> Set<K::V> {
    Set::new(|k: K::V| exists|i: int| 0 <= i < s.len() && #[trigger] s[i].0@ == k)
}

/// Pairs with distinct keys have as many keys as pairs.
pub proof fn lemma_len_of_pairs<K: View, V>(s: Seq<(K, V)>)
    requires
        forall|i: int, j: int|
            0 <= i < s.len() && 0 <= j < s.len() && i != j ==> #[trigger] s[i].0@ != #[trigger] s[j].0@,
    ensures
        keys_of(s).finite(),
        keys_of(s).len() == s.len(),
    decreases s.len(),
{
    if s.len() == 0 {
        assert(keys_of(s) =~= Set::<K::V>::empty());
    } else {
        let t = s.drop_last();
        lemma_len_of_pairs(t);
        let k = s.last().0@;
        assert forall|key: K::V| #[trigger] keys_of(s).contains(key) implies keys_of(t).insert(k).contains(key) by {
            let i = choose|i: int| 0 <= i < s.len() && #[trigger] s[i].0@ == key;
            if i < t.len() {
                assert(t[i].0@ == key);
            }
        }
        assert forall|key: K::V| #[trigger] keys_of(t).insert(k).contains(key) implies keys_of(s).contains(key) by {
            if key == k {
                assert(s[s.len() - 1].0@ == key);
            } else {
                let i = choose|i: int| 0 <= i < t.len() && #[trigger] t[i].0@ == key;
                assert(s[i].0@ == key);
            }
        }
        assert(keys_of(s) =~= keys_of(t).insert(k));
        assert(!keys_of(t).contains(k)) by {
            if keys_of(t).contains(k) {
                let i = choose|i: int| 0 <= i < t.len() && #[trigger] t[i].0@ == k;
                assert(s[i].0@ == t[i].0@);
                assert(s[i].0@ == s[s.len() - 1].0@);
            }
        }
    }
}

} // verus!
