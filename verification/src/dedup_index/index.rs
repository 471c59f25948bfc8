//! The index itself: video hashes in string order, each with its videos.
use vstd::prelude::*;

use crate::dedup_index::order::{lemma_lex_lt_irreflexive, lemma_lex_lt_transitive, lemma_text_lt_total, text_less, text_lt};

verus! {

/// The videos that have one hash: each video's id and when it was indexed
/// (nanoseconds since the Unix epoch).
#[derive(Debug)]
pub struct Videos {
    entries: Vec<(String, u64)>,
}

impl View for Videos {
    type V = Seq<(String, u64)>;

    closed spec fn view(&self) -> Seq<(String, u64)> {
        self.entries@
    }
}

impl Videos {
    /// The single video `video_id`, indexed at `timestamp`.
    pub fn single(video_id: String, timestamp: u64) -> (v: Videos)
        ensures
            v@ == seq![(video_id, timestamp)],
    {
        let mut entries: Vec<(String, u64)> = Vec::new();
        entries.push((video_id, timestamp));
        Videos { entries }
    }

    /// The given videos, in the given order.
    pub fn from_entries(entries: Vec<(String, u64)>) -> (v: Videos)
        ensures
            v@ == entries@,
    {
        Videos { entries }
    }

    /// The videos, by id and indexing time.
    pub fn as_slice(&self) -> (s: &[(String, u64)])
        ensures
            s@ == self@,
    {
        self.entries.as_slice()
    }

    /// A copy.
    pub fn duplicate(&self) -> (r: Videos)
        ensures
            r@ == self@,
    {
        let mut entries: Vec<(String, u64)> = Vec::new();
        let mut i: usize = 0;
        while i < self.entries.len()
            invariant
                i <= self.entries@.len(),
                entries@ == self.entries@.take(i as int),
            decreases self.entries@.len() - i,
        {
            let (id, t) = &self.entries[i];
            entries.push((id.clone(), *t));
            i = i + 1;
            assert(entries@ =~= self.entries@.take(i as int));
        }
        assert(self.entries@.take(i as int) =~= self.entries@);
        Videos { entries }
    }
}

/// Whether the keys of `s` are in strictly increasing string order.
pub open spec fn keys_ascending(s: Seq<(String, Videos)>) -> bool {
    forall|i: int, j: int| 0 <= i < j < s.len() ==> text_lt(#[trigger] s[i].0@, #[trigger] s[j].0@)
}

/// A map from video hashes to videos, kept in string order of the hashes.
pub struct HashIndex {
    entries: Vec<(String, Videos)>,
}

impl HashIndex {
    #[verifier::type_invariant]
    pub closed spec fn is_ordered(self) -> bool {
        keys_ascending(self.entries@)
    }

    /// The entries, in string order of their hashes.
    pub closed spec fn pairs(self) -> Seq<(String, Videos)> {
        self.entries@
    }

    /// Whether some entry has the hash `k`.
    pub open spec fn has(self, k: Seq<char>) -> bool {
        exists|i: int| 0 <= i < self.pairs().len() && #[trigger] self.pairs()[i].0@ == k
    }

    /// The position of the entry with hash `k`.
    pub open spec fn index_of(self, k: Seq<char>) -> int {
        choose|i: int| 0 <= i < self.pairs().len() && #[trigger] self.pairs()[i].0@ == k
    }

    /// The map that the entries stand for.
    pub open spec fn map(self) -> Map<Seq<char>, Videos> {
        Map::new(|k: Seq<char>| self.has(k), |k: Seq<char>| self.pairs()[self.index_of(k)].1)
    }

    /// The entries are in strictly increasing order of their hashes.
    pub proof fn lemma_ordered(&self)
        requires
            self.is_ordered(),
        ensures
            keys_ascending(self.pairs()),
    {
    }

    /// The entry at `i` is the map's entry for its hash.
    proof fn lemma_entry_in_map(&self, i: int)
        requires
            self.is_ordered(),
            0 <= i < self.pairs().len(),
        ensures
            self.map().contains_key(self.pairs()[i].0@),
            self.map()[self.pairs()[i].0@] == self.pairs()[i].1,
            self.index_of(self.pairs()[i].0@) == i,
    {
        let k = self.pairs()[i].0@;
        assert(self.has(k));
        let j = self.index_of(k);
        assert(self.pairs()[j].0@ == k);
        if j != i {
            lemma_lex_lt_irreflexive(vstd::utf8::encode_utf8(k));
            if j < i {
                assert(text_lt(self.pairs()[j].0@, self.pairs()[i].0@));
            } else {
                assert(text_lt(self.pairs()[i].0@, self.pairs()[j].0@));
            }
        }
    }

    /// An empty index.
    pub fn new() -> (m: HashIndex)
        ensures
            m.map() == Map::<Seq<char>, Videos>::empty(),
            m.pairs().len() == 0,
    {
        let m = HashIndex { entries: Vec::new() };
        assert(m.map() =~= Map::<Seq<char>, Videos>::empty());
        m
    }

    /// The number of hashes.
    pub fn len(&self) -> (n: usize)
        ensures
            n == self.pairs().len(),
    {
        self.entries.len()
    }

    /// Whether the index has the hash `k`.
    pub fn contains_key(&self, k: &String) -> (r: bool)
        ensures
            r == self.map().contains_key(k@),
    {
        let mut i: usize = 0;
        while i < self.entries.len()
            invariant
                i <= self.entries@.len(),
                forall|j: int| 0 <= j < i ==> self.entries@[j].0@ != k@,
            decreases self.entries@.len() - i,
        {
            if self.entries[i].0 == *k {
                assert(self.pairs()[i as int].0@ == k@);
                assert(self.has(k@));
                return true;
            }
            i = i + 1;
        }
        false
    }

    /// Sets the videos of hash `k`, replacing any it had.
    pub fn insert(&mut self, k: String, v: Videos)
        ensures
            final(self).map() == old(self).map().insert(k@, v),
    {
        proof {
            use_type_invariant(&*self);
        }
        let ghost old_self = *self;
        let ghost kv = k@;
        let mut j: usize = 0;
        while j < self.entries.len()
            invariant
                *self == old_self,
                k@ == kv,
                keys_ascending(self.entries@),
                j <= self.entries@.len(),
                forall|a: int| 0 <= a < j ==> text_lt(#[trigger] self.entries@[a].0@, kv),
            ensures
                *self == old_self,
                j <= self.entries@.len(),
                forall|a: int| 0 <= a < j ==> text_lt(#[trigger] self.entries@[a].0@, kv),
                j < self.entries@.len() ==> !text_lt(self.entries@[j as int].0@, kv),
            decreases self.entries@.len() - j,
        {
            if !text_less(&self.entries[j].0, &k) {
                break;
            }
            j = j + 1;
        }
        let mut entries: Vec<(String, Videos)> = Vec::new();
        std::mem::swap(&mut entries, &mut self.entries);
        if j < entries.len() && entries[j].0 == k {
            entries.set(j, (k, v));
            proof {
                assert forall|a: int, b: int| 0 <= a < b < entries@.len() implies
                    text_lt(#[trigger] entries@[a].0@, #[trigger] entries@[b].0@) by {
                    assert(text_lt(old_self.pairs()[a].0@, old_self.pairs()[b].0@));
                }
            }
            self.entries = entries;
            proof {
                self.lemma_map_after_update(old_self, j as int, kv, v);
            }
        } else {
            proof {
                assert forall|b: int| j <= b < entries@.len() implies text_lt(kv, #[trigger] entries@[b].0@) by {
                    let e = entries@[j as int].0@;
                    assert(!text_lt(e, kv));
                    assert(e != kv);
                    lemma_text_lt_total(e, kv);
                    if b > j {
                        assert(text_lt(e, entries@[b].0@));
                        lemma_lex_lt_transitive(vstd::utf8::encode_utf8(kv), vstd::utf8::encode_utf8(e),
                            vstd::utf8::encode_utf8(entries@[b].0@));
                    }
                }
            }
            entries.insert(j, (k, v));
            proof {
                assert forall|a: int, b: int| 0 <= a < b < entries@.len() implies
                    text_lt(#[trigger] entries@[a].0@, #[trigger] entries@[b].0@) by {
                    if b < j {
                        assert(text_lt(old_self.pairs()[a].0@, old_self.pairs()[b].0@));
                    } else if b == j {
                    } else if a < j {
                        assert(text_lt(old_self.pairs()[a].0@, kv));
                        assert(text_lt(kv, old_self.pairs()[b - 1].0@));
                        lemma_lex_lt_transitive(vstd::utf8::encode_utf8(old_self.pairs()[a].0@), vstd::utf8::encode_utf8(kv),
                            vstd::utf8::encode_utf8(old_self.pairs()[b - 1].0@));
                    } else if a == j {
                    } else {
                        assert(text_lt(old_self.pairs()[a - 1].0@, old_self.pairs()[b - 1].0@));
                    }
                }
            }
            self.entries = entries;
            proof {
                self.lemma_map_after_insert(old_self, j as int, kv, v);
            }
        }
    }

    /// The map after the entry at `j` (which had hash `k`) got new videos.
    proof fn lemma_map_after_update(&self, old_self: HashIndex, j: int, k: Seq<char>, v: Videos)
        requires
            self.is_ordered(),
            old_self.is_ordered(),
            0 <= j < old_self.pairs().len(),
            old_self.pairs()[j].0@ == k,
            self.pairs() == old_self.pairs().update(j, (self.pairs()[j].0, v)),
            self.pairs()[j].0@ == k,
        ensures
            self.map() == old_self.map().insert(k, v),
    {
        assert forall|key: Seq<char>| #[trigger] old_self.map().insert(k, v).contains_key(key) == self.has(key) by {
            if key == k {
                assert(self.pairs()[j].0@ == k);
            } else if old_self.has(key) {
                let i = old_self.index_of(key);
                assert(self.pairs()[i].0@ == key);
            }
            if self.has(key) && key != k {
                let i = self.index_of(key);
                assert(old_self.pairs()[i].0@ == key);
            }
        }
        assert forall|key: Seq<char>| #[trigger] self.has(key) implies
            self.pairs()[self.index_of(key)].1 == old_self.map().insert(k, v)[key] by {
            let i = self.index_of(key);
            self.lemma_entry_in_map(i);
            if key != k {
                old_self.lemma_entry_in_map(i);
            } else {
                self.lemma_entry_in_map(j);
            }
        }
        assert(self.map() =~= old_self.map().insert(k, v));
    }

    /// The map after an entry with the new hash `k` went in at `j`.
    proof fn lemma_map_after_insert(&self, old_self: HashIndex, j: int, k: Seq<char>, v: Videos)
        requires
            self.is_ordered(),
            old_self.is_ordered(),
            0 <= j <= old_self.pairs().len(),
            self.pairs() == old_self.pairs().insert(j, (self.pairs()[j].0, v)),
            self.pairs()[j].0@ == k,
        ensures
            self.map() == old_self.map().insert(k, v),
    {
        assert forall|key: Seq<char>| #[trigger] old_self.map().insert(k, v).contains_key(key) == self.has(key) by {
            if key == k {
                assert(self.pairs()[j].0@ == k);
            } else if old_self.has(key) {
                let i = old_self.index_of(key);
                if i < j {
                    assert(self.pairs()[i].0@ == key);
                } else {
                    assert(self.pairs()[i + 1].0@ == key);
                }
            }
            if self.has(key) && key != k {
                let i = self.index_of(key);
                if i < j {
                    assert(old_self.pairs()[i].0@ == key);
                } else {
                    assert(i != j);
                    assert(old_self.pairs()[i - 1].0@ == key);
                }
            }
        }
        assert forall|key: Seq<char>| #[trigger] self.has(key) implies
            self.pairs()[self.index_of(key)].1 == old_self.map().insert(k, v)[key] by {
            let i = self.index_of(key);
            self.lemma_entry_in_map(i);
            if key != k {
                if i < j {
                    old_self.lemma_entry_in_map(i);
                } else {
                    assert(i != j);
                    old_self.lemma_entry_in_map(i - 1);
                }
            } else {
                self.lemma_entry_in_map(j);
            }
        }
        assert(self.map() =~= old_self.map().insert(k, v));
    }

    /// Copies of the entries from position `start` on, at most `count` of them.
    pub fn slice(&self, start: usize, count: usize) -> (r: Vec<(String, Videos)>)
        ensures
            r@.len() == (if start >= self.pairs().len() { 0 } else if count < self.pairs().len() - start { count as int } else { self.pairs().len() - start }),
            forall|i: int| 0 <= i < r@.len() ==> (#[trigger] r@[i]).0 == self.pairs()[start + i].0
                && r@[i].1@ == self.pairs()[start + i].1@,
    {
        let mut out: Vec<(String, Videos)> = Vec::new();
        let mut i: usize = start;
        while i < self.entries.len() && i - start < count
            invariant
                start <= i,
                i <= self.entries@.len() || i == start,
                i - start <= count,
                out@.len() == i - start,
                forall|a: int| 0 <= a < out@.len() ==> (#[trigger] out@[a]).0 == self.entries@[start + a].0
                    && out@[a].1@ == self.entries@[start + a].1@,
            decreases self.entries@.len() - i,
        {
            let (hash, videos) = &self.entries[i];
            out.push((hash.clone(), videos.duplicate()));
            i = i + 1;
        }
        out
    }
}

} // verus!
