//! A set of principals kept in ascending principal order, as a `BTreeSet`
//! walks them.
use vstd::prelude::*;

use crate::principal::{
    Principal, lemma_principal_lt_irreflexive, lemma_principal_lt_total,
    lemma_principal_lt_transitive, principal_lt,
};

verus! {

/// Whether `s` is in strictly ascending principal order.
pub open spec fn ascending(s: Seq<Principal>) -> bool {
    forall|i: int, j: int| 0 <= i < j < s.len() ==> principal_lt(#[trigger] s[i], #[trigger] s[j])
}

/// The number of leading elements of `s` that come before `c`.
pub open spec fn count_below(s: Seq<Principal>, c: Principal) -> nat
    decreases s.len(),
{
    if s.len() == 0 {
        0
    } else if principal_lt(s[0], c) {
        1 + count_below(s.drop_first(), c)
    } else {
        0
    }
}

/// In an ascending sequence, the elements before position `count_below`
/// come before `c` and the others do not.
pub proof fn lemma_count_below(s: Seq<Principal>, c: Principal)
    requires
        ascending(s),
    ensures
        count_below(s, c) <= s.len(),
        forall|i: int| 0 <= i < count_below(s, c) ==> principal_lt(#[trigger] s[i], c),
        forall|i: int| count_below(s, c) <= i < s.len() ==> !principal_lt(#[trigger] s[i], c),
    decreases s.len(),
{
    if s.len() > 0 {
        let t = s.drop_first();
        assert(ascending(t)) by {
            assert forall|i: int, j: int| 0 <= i < j < t.len() implies principal_lt(#[trigger] t[i], #[trigger] t[j]) by {
                assert(t[i] == s[i + 1] && t[j] == s[j + 1]);
            }
        }
        lemma_count_below(t, c);
        if principal_lt(s[0], c) {
            assert forall|i: int| 0 <= i < count_below(s, c) implies principal_lt(#[trigger] s[i], c) by {
                if i > 0 {
                    assert(s[i] == t[i - 1]);
                }
            }
            assert forall|i: int| count_below(s, c) <= i < s.len() implies !principal_lt(#[trigger] s[i], c) by {
                assert(s[i] == t[i - 1]);
            }
        } else {
            assert forall|i: int| 0 <= i < s.len() implies !principal_lt(#[trigger] s[i], c) by {
                if i > 0 && principal_lt(s[i], c) {
                    lemma_principal_lt_transitive(s[0], s[i], c);
                }
            }
        }
    }
}

/// Principals in ascending order, each once.
pub struct PrincipalSet {
    items: Vec<Principal>,
}

impl PrincipalSet {
    #[verifier::type_invariant]
    pub closed spec fn is_ascending(self) -> bool {
        ascending(self.items@)
    }

    /// The members in ascending order.
    pub closed spec fn seq(self) -> Seq<Principal> {
        self.items@
    }

    /// The members.
    pub open spec fn set(self) -> Set<Principal> {
        self.seq().to_set()
    }

    pub proof fn lemma_ascending(&self)
        requires
            self.is_ascending(),
        ensures
            ascending(self.seq()),
    {
    }

    pub fn new() -> (s: PrincipalSet)
        ensures
            s.seq() == Seq::<Principal>::empty(),
    {
        PrincipalSet { items: Vec::new() }
    }

    /// The number of members.
    pub fn len(&self) -> (n: usize)
        ensures
            n == self.seq().len(),
    {
        self.items.len()
    }

    /// The members in ascending order.
    pub fn as_vec(&self) -> (v: &Vec<Principal>)
        ensures
            v@ == self.seq(),
            ascending(v@),
    {
        proof {
            use_type_invariant(self);
        }
        &self.items
    }

    /// The number of members that come before `c`.
    pub fn position(&self, c: &Principal) -> (n: usize)
        ensures
            n == count_below(self.seq(), *c),
            n <= self.seq().len(),
            forall|i: int| 0 <= i < n ==> principal_lt(#[trigger] self.seq()[i], *c),
            forall|i: int| n <= i < self.seq().len() ==> !principal_lt(#[trigger] self.seq()[i], *c),
    {
        proof {
            use_type_invariant(self);
            lemma_count_below(self.items@, *c);
        }
        let mut i: usize = 0;
        while i < self.items.len()
            invariant
                i <= self.items@.len(),
                i <= count_below(self.items@, *c),
                count_below(self.items@, *c) <= self.items@.len(),
                forall|j: int| 0 <= j < count_below(self.items@, *c) ==> principal_lt(#[trigger] self.items@[j], *c),
                forall|j: int| count_below(self.items@, *c) <= j < self.items@.len() ==> !principal_lt(#[trigger] self.items@[j], *c),
            decreases self.items@.len() - i,
        {
            if !self.items[i].less_than(c) {
                return i;
            }
            i = i + 1;
        }
        i
    }

    /// Whether `p` is a member.
    pub fn contains(&self, p: &Principal) -> (r: bool)
        ensures
            r == self.set().contains(*p),
            r == self.seq().contains(*p),
    {
        proof {
            use_type_invariant(self);
        }
        let n = self.position(p);
        if n < self.items.len() && self.items[n].same_as(p) {
            true
        } else {
            proof {
                if self.items@.contains(*p) {
                    let k = choose|k: int| 0 <= k < self.items@.len() && self.items@[k] == *p;
                    lemma_principal_lt_irreflexive(*p);
                    if k > n as int {
                        assert(principal_lt(self.items@[n as int], self.items@[k]));
                        lemma_principal_lt_total(self.items@[n as int], *p);
                    }
                }
            }
            false
        }
    }

    /// Adds `p`; whether it was new.
    pub fn insert(&mut self, p: Principal) -> (added: bool)
        ensures
            added == !old(self).set().contains(p),
            final(self).set() == old(self).set().insert(p),
    {
        proof {
            use_type_invariant(&*self);
        }
        let ghost old_items = self.items@;
        if self.contains(&p) {
            return false;
        }
        let n = self.position(&p);
        let mut items: Vec<Principal> = Vec::new();
        std::mem::swap(&mut items, &mut self.items);
        items.insert(n, p);
        proof {
            assert forall|i: int, j: int| 0 <= i < j < items@.len() implies principal_lt(#[trigger] items@[i], #[trigger] items@[j]) by {
                if j < n {
                    assert(items@[i] == old_items[i] && items@[j] == old_items[j]);
                } else if j == n {
                    assert(items@[i] == old_items[i]);
                } else if i == n {
                    assert(items@[j] == old_items[j - 1]);
                    assert(!principal_lt(old_items[j - 1], p));
                    assert(old_items[j - 1] != p);
                    lemma_principal_lt_total(old_items[j - 1], p);
                } else if i < n {
                    assert(items@[i] == old_items[i] && items@[j] == old_items[j - 1]);
                } else {
                    assert(items@[i] == old_items[i - 1] && items@[j] == old_items[j - 1]);
                }
            }
            assert(items@ == old_items.insert(n as int, p));
            assert(items@.to_set() =~= old_items.to_set().insert(p)) by {
                assert forall|x: Principal| items@.to_set().contains(x) implies old_items.to_set().insert(p).contains(x) by {
                    let k = choose|k: int| 0 <= k < items@.len() && items@[k] == x;
                    if k < n {
                        assert(old_items[k] == x);
                    } else if k > n {
                        assert(old_items[k - 1] == x);
                    }
                }
                assert forall|x: Principal| old_items.to_set().insert(p).contains(x) implies items@.to_set().contains(x) by {
                    if x == p {
                        assert(items@[n as int] == p);
                    } else {
                        let k = choose|k: int| 0 <= k < old_items.len() && old_items[k] == x;
                        if k < n {
                            assert(items@[k] == x);
                        } else {
                            assert(items@[k + 1] == x);
                        }
                    }
                }
            }
        }
        self.items = items;
        true
    }

    /// Removes `p`; whether it was a member.
    pub fn remove(&mut self, p: &Principal) -> (removed: bool)
        ensures
            removed == old(self).set().contains(*p),
            final(self).set() == old(self).set().remove(*p),
    {
        proof {
            use_type_invariant(&*self);
        }
        let ghost old_items = self.items@;
        if !self.contains(p) {
            assert(old_items.to_set() =~= old_items.to_set().remove(*p));
            return false;
        }
        let n = self.position(p);
        proof {
            let k = choose|k: int| 0 <= k < old_items.len() && old_items[k] == *p;
            lemma_principal_lt_irreflexive(*p);
            if k < n {
                assert(principal_lt(old_items[k], *p));
            }
            if k > n {
                assert(principal_lt(old_items[n as int], old_items[k]));
                lemma_principal_lt_total(old_items[n as int], *p);
                if old_items[n as int] != *p {
                    assert(principal_lt(*p, old_items[n as int]));
                    lemma_principal_lt_transitive(*p, old_items[n as int], *p);
                }
            }
        }
        let mut items: Vec<Principal> = Vec::new();
        std::mem::swap(&mut items, &mut self.items);
        items.remove(n);
        proof {
            assert forall|i: int, j: int| 0 <= i < j < items@.len() implies principal_lt(#[trigger] items@[i], #[trigger] items@[j]) by {
                let i2 = if i < n { i } else { i + 1 };
                let j2 = if j < n { j } else { j + 1 };
                assert(items@[i] == old_items[i2] && items@[j] == old_items[j2]);
            }
            assert(items@.to_set() =~= old_items.to_set().remove(*p)) by {
                assert forall|x: Principal| items@.to_set().contains(x) implies old_items.to_set().remove(*p).contains(x) by {
                    let k = choose|k: int| 0 <= k < items@.len() && items@[k] == x;
                    let k2 = if k < n { k } else { k + 1 };
                    assert(old_items[k2] == x);
                    if x == *p {
                        lemma_principal_lt_irreflexive(x);
                        if k2 < n {
                            assert(principal_lt(old_items[k2], old_items[n as int]));
                        } else {
                            assert(principal_lt(old_items[n as int], old_items[k2]));
                        }
                    }
                }
                assert forall|x: Principal| old_items.to_set().remove(*p).contains(x) implies items@.to_set().contains(x) by {
                    let k = choose|k: int| 0 <= k < old_items.len() && old_items[k] == x;
                    if k < n {
                        assert(items@[k] == x);
                    } else {
                        assert(k != n);
                        assert(items@[k - 1] == x);
                    }
                }
            }
        }
        self.items = items;
        true
    }

    /// A copy.
    pub fn duplicate(&self) -> (r: PrincipalSet)
        ensures
            r.seq() == self.seq(),
    {
        proof {
            use_type_invariant(self);
        }
        let mut items: Vec<Principal> = Vec::new();
        let mut i: usize = 0;
        while i < self.items.len()
            invariant
                i <= self.items@.len(),
                items@ == self.items@.take(i as int),
                ascending(self.items@),
            decreases self.items@.len() - i,
        {
            items.push(self.items[i]);
            i = i + 1;
            assert(items@ =~= self.items@.take(i as int));
        }
        assert(items@ =~= self.items@);
        PrincipalSet { items }
    }

    /// Up to `limit` members from `start` on (from the first when `start` is
    /// none), in ascending order, and the member after them, if any.
    pub fn page(&self, start: Option<Principal>, limit: u64) -> (r: (Vec<Principal>, Option<Principal>))
        ensures
            r.0@ == page_items(self.seq(), start, limit as int),
            r.1 == page_next(self.seq(), start, limit as int),
    {
        let from = match start {
            Some(c) => self.position(&c),
            None => 0,
        };
        let n = self.items.len();
        let end = if (limit as u128) < ((n - from) as u128) { from + (limit as usize) } else { n };
        let mut v: Vec<Principal> = Vec::new();
        let mut i = from;
        while i < end
            invariant
                from <= i <= end,
                end <= n,
                n == self.items@.len(),
                v@ == self.items@.subrange(from as int, i as int),
            decreases end - i,
        {
            v.push(self.items[i]);
            i = i + 1;
            assert(v@ =~= self.items@.subrange(from as int, i as int));
        }
        let next = if end < n { Some(self.items[end]) } else { None };
        (v, next)
    }
}

/// Where a page starts: after the members that come before `start`.
pub open spec fn page_from(s: Seq<Principal>, start: Option<Principal>) -> int {
    match start {
        Some(c) => count_below(s, c) as int,
        None => 0,
    }
}

/// The members on a page.
pub open spec fn page_items(s: Seq<Principal>, start: Option<Principal>, limit: int) -> Seq<Principal> {
    let from = page_from(s, start);
    let end = if limit < s.len() - from { from + limit } else { s.len() as int };
    s.subrange(from, end)
}

/// The member after a page, if any.
pub open spec fn page_next(s: Seq<Principal>, start: Option<Principal>, limit: int) -> Option<Principal> {
    let from = page_from(s, start);
    if limit < s.len() - from { Some(s[from + limit]) } else { None }
}

/// The members that following pages of `limit` members from `start` lists,
/// taking each page's next member as the following page's start, for at
/// most `steps` further pages.
pub open spec fn walk(s: Seq<Principal>, start: Option<Principal>, limit: int, steps: nat) -> Seq<Principal>
    decreases steps,
{
    let page = page_items(s, start, limit);
    if steps == 0 {
        page
    } else {
        match page_next(s, start, limit) {
            Some(n) => page + walk(s, Some(n), limit, (steps - 1) as nat),
            None => page,
        }
    }
}

/// In an ascending sequence, a page that starts at a member starts at its
/// position.
pub proof fn lemma_page_from_member(s: Seq<Principal>, k: int)
    requires
        ascending(s),
        0 <= k < s.len(),
    ensures
        page_from(s, Some(s[k])) == k,
{
    lemma_count_below(s, s[k]);
    let c = count_below(s, s[k]) as int;
    lemma_principal_lt_irreflexive(s[k]);
    if c < k {
        assert(principal_lt(s[c], s[k]));
    } else if c > k {
        assert(principal_lt(s[k], s[k]));
    }
}

/// Following the pages from any start lists the members from that start
/// to the end, each once, in order.
pub proof fn lemma_walk(s: Seq<Principal>, start: Option<Principal>, limit: int, steps: nat)
    requires
        ascending(s),
        limit >= 1,
        steps >= s.len() - page_from(s, start),
    ensures
        0 <= page_from(s, start) <= s.len(),
        walk(s, start, limit, steps) == s.skip(page_from(s, start)),
    decreases steps,
{
    let f = page_from(s, start);
    match start {
        Some(c) => lemma_count_below(s, c),
        None => {},
    }
    if limit < s.len() - f {
        let n = s[f + limit];
        lemma_page_from_member(s, f + limit);
        lemma_walk(s, Some(n), limit, (steps - 1) as nat);
        assert(s.subrange(f, f + limit) + s.skip(f + limit) =~= s.skip(f));
    } else {
        assert(s.subrange(f, s.len() as int) =~= s.skip(f));
    }
}

/// A member of an ascending sequence comes after the first member unless it
/// is the first member.
proof fn lemma_first_is_least(a: Seq<Principal>, x: Principal)
    requires
        ascending(a),
        a.len() > 0,
        a.contains(x),
    ensures
        x == a[0] || principal_lt(a[0], x),
{
    let i = choose|i: int| 0 <= i < a.len() && a[i] == x;
    if i > 0 {
        assert(principal_lt(a[0], a[i]));
    }
}

/// The rest of an ascending sequence is ascending and holds the other members.
proof fn lemma_rest(a: Seq<Principal>)
    requires
        ascending(a),
        a.len() > 0,
    ensures
        ascending(a.drop_first()),
        a.drop_first().to_set() == a.to_set().remove(a[0]),
{
    let t = a.drop_first();
    assert forall|i: int, j: int| 0 <= i < j < t.len() implies principal_lt(#[trigger] t[i], #[trigger] t[j]) by {
        assert(t[i] == a[i + 1] && t[j] == a[j + 1]);
    }
    assert forall|x: Principal| t.to_set().contains(x) == a.to_set().remove(a[0]).contains(x) by {
        if t.to_set().contains(x) {
            let i = choose|i: int| 0 <= i < t.len() && t[i] == x;
            assert(a[i + 1] == x);
            assert(principal_lt(a[0], a[i + 1]));
            lemma_principal_lt_irreflexive(a[0]);
        }
        if a.to_set().remove(a[0]).contains(x) {
            let i = choose|i: int| 0 <= i < a.len() && a[i] == x;
            assert(i != 0);
            assert(t[i - 1] == x);
        }
    }
    assert(t.to_set() =~= a.to_set().remove(a[0]));
}

/// Two ascending sequences with the same members are the same sequence.
pub proof fn lemma_same_members_same_seq(a: Seq<Principal>, b: Seq<Principal>)
    requires
        ascending(a),
        ascending(b),
        a.to_set() == b.to_set(),
    ensures
        a == b,
    decreases a.len(),
{
    if a.len() == 0 {
        if b.len() > 0 {
            assert(b.to_set().contains(b[0]));
        }
        assert(a =~= b);
    } else {
        assert(a.to_set().contains(a[0]));
        if b.len() == 0 {
            assert(b.to_set().contains(a[0]));
            assert(false);
        }
        assert(b.to_set().contains(b[0]));
        assert(b.contains(a[0]));
        assert(a.contains(b[0]));
        lemma_first_is_least(b, a[0]);
        lemma_first_is_least(a, b[0]);
        if a[0] != b[0] {
            lemma_principal_lt_transitive(a[0], b[0], a[0]);
            lemma_principal_lt_irreflexive(a[0]);
        }
        lemma_rest(a);
        lemma_rest(b);
        lemma_same_members_same_seq(a.drop_first(), b.drop_first());
        assert(a =~= seq![a[0]] + a.drop_first());
        assert(b =~= seq![b[0]] + b.drop_first());
    }
}

} // verus!
