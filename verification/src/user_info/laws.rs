//! Properties of the follow relation that hold across calls.
use vstd::prelude::*;

use crate::principal::Principal;
use crate::principal_set::{ascending, lemma_same_members_same_seq, lemma_walk, walk, PrincipalSet};
use crate::user_info::canister::{followed, is_new_account, same_but_followers, same_but_following, session_for, unfollowed};
use crate::user_info::types::{SessionType, UserInfo};

verus! {

/// Whether the two sides of the follow relation agree: among the accounts,
/// `a` lists `b` among those it follows exactly when `b` lists `a` among its
/// followers.
pub open spec fn follows_consistent(users: Map<Principal, UserInfo>) -> bool {
    forall|a: Principal, b: Principal|
        users.contains_key(a) && users.contains_key(b) ==>
            (#[trigger] users[a].following.set().contains(b) <==> #[trigger] users[b].followers.set().contains(a))
}

/// Following someone keeps the two sides of the follow relation in
/// agreement.
pub proof fn law_follow_keeps_follows_consistent(
    before: Map<Principal, UserInfo>,
    after: Map<Principal, UserInfo>,
    follower: Principal,
    target: Principal,
)
    requires
        follows_consistent(before),
        follower != target,
        before.contains_key(follower),
        before.contains_key(target),
        followed(before, after, follower, target),
    ensures
        follows_consistent(after),
{
    assert forall|a: Principal, b: Principal| after.contains_key(a) && after.contains_key(b) implies
        (#[trigger] after[a].following.set().contains(b) <==> #[trigger] after[b].followers.set().contains(a)) by {
        assert(before.contains_key(a) && before.contains_key(b));
        assert(before[a].following.set().contains(b) <==> before[b].followers.set().contains(a));
    }
}

/// Unfollowing someone keeps the two sides of the follow relation in
/// agreement.
pub proof fn law_unfollow_keeps_follows_consistent(
    before: Map<Principal, UserInfo>,
    after: Map<Principal, UserInfo>,
    follower: Principal,
    target: Principal,
)
    requires
        follows_consistent(before),
        follower != target,
        before.contains_key(follower),
        before.contains_key(target),
        unfollowed(before, after, follower, target),
    ensures
        follows_consistent(after),
{
    assert forall|a: Principal, b: Principal| after.contains_key(a) && after.contains_key(b) implies
        (#[trigger] after[a].following.set().contains(b) <==> #[trigger] after[b].followers.set().contains(a)) by {
        assert(before.contains_key(a) && before.contains_key(b));
        assert(before[a].following.set().contains(b) <==> before[b].followers.set().contains(a));
    }
}

/// Unfollowing undoes following: from a state whose follow relation agrees
/// on both sides, where `follower` does not follow `target`, following and
/// then unfollowing gives back the same accounts with the same records: the
/// follower follows the same users in the same order, the target is followed
/// by the same users in the same order, and everything else is untouched.
pub proof fn law_unfollow_undoes_follow(
    s0: Map<Principal, UserInfo>,
    s1: Map<Principal, UserInfo>,
    s2: Map<Principal, UserInfo>,
    follower: Principal,
    target: Principal,
)
    requires
        follower != target,
        s0.contains_key(follower),
        s0.contains_key(target),
        follows_consistent(s0),
        !s0[follower].following.set().contains(target),
        followed(s0, s1, follower, target),
        unfollowed(s1, s2, follower, target),
        ascending(s0[follower].following.seq()),
        ascending(s2[follower].following.seq()),
        ascending(s0[target].followers.seq()),
        ascending(s2[target].followers.seq()),
    ensures
        s2.dom() == s0.dom(),
        forall|p: Principal| p != follower && p != target && #[trigger] s0.contains_key(p) ==> s2[p] == s0[p],
        same_but_following(s0[follower], s2[follower]),
        s2[follower].following.seq() == s0[follower].following.seq(),
        same_but_followers(s0[target], s2[target]),
        s2[target].followers.seq() == s0[target].followers.seq(),
        !s2[follower].following.set().contains(target),
{
    assert(!s0[target].followers.set().contains(follower));
    assert(s2.dom() =~= s0.dom());
    assert(s2[follower].following.set() =~= s0[follower].following.set());
    assert(s2[target].followers.set() =~= s0[target].followers.set());
    lemma_same_members_same_seq(s2[follower].following.seq(), s0[follower].following.seq());
    lemma_same_members_same_seq(s2[target].followers.seq(), s0[target].followers.seq());
}

/// Paging through a user's followers (or the users it follows) from the
/// first page, each time starting at the cursor the last page gave, lists
/// every one of them exactly once, in principal order.
pub proof fn law_following_cursors_visits_each_once(set: PrincipalSet, limit: int)
    requires
        set.is_ascending(),
        limit >= 1,
    ensures
        walk(set.seq(), None, limit, set.seq().len()) == set.seq(),
        ascending(set.seq()),
{
    set.lemma_ascending();
    lemma_walk(set.seq(), None, limit, set.seq().len());
    assert(set.seq().skip(0) =~= set.seq());
}

/// An account registered new takes its session from how it registered: a
/// registered session when authenticated, an anonymous one when not, so that
/// reading the session back gives the one registered.
pub proof fn law_registration_session_follows_authentication(u: UserInfo, p: Principal, authenticated: bool, now: u64)
    requires
        is_new_account(u, p, session_for(authenticated), false, now),
    ensures
        authenticated ==> u.session_type == SessionType::RegisteredSession,
        !authenticated ==> u.session_type == SessionType::AnonymousSession,
        u.profile.principal_id == Some(p),
        u.last_access_time == now,
{
}


} // verus!
