//! The user-info canister's requests that combine several steps or check
//! who asks. The caller and whether it is an administrator come from the
//! platform.
use vstd::prelude::*;

use crate::principal::Principal;
use crate::principal_set::{page_items, page_next};
use crate::text::literal;
use crate::user_info::canister::{bots_of, follower_item_for, limit_message, not_found, CanisterData, MAX_FOLLOWS_PER_PAGE};
use crate::user_info::types::{FollowersResponse, FollowingResponse};

verus! {

/// Whether the pictures are asked for: no answer means no.
pub open spec fn pics_wanted(include_profile_pics: Option<bool>) -> bool {
    match include_profile_pics {
        Some(b) => b,
        None => false,
    }
}

/// A page of the user's followers as `caller` sees them, with how many
/// followers the user has and the follower after the page.
pub fn get_followers(
    data: &CanisterData,
    caller: Principal,
    user: Principal,
    start: Option<Principal>,
    limit: u64,
    include_profile_pics: Option<bool>,
) -> (r: Result<FollowersResponse, String>)
    ensures
        limit > MAX_FOLLOWS_PER_PAGE ==> (r matches Err(e) && e@ == limit_message()),
        limit <= MAX_FOLLOWS_PER_PAGE && !data.users().contains_key(user) ==> (r matches Err(e) && e@ == "User not found"@),
        limit <= MAX_FOLLOWS_PER_PAGE && data.users().contains_key(user) ==> (r matches Ok(resp) && {
            let s = data.users()[user].followers.seq();
            let page = page_items(s, start, limit as int);
            &&& resp.total_count == s.len()
            &&& resp.next_cursor == page_next(s, start, limit as int)
            &&& resp.followers@.len() == page.len()
            &&& forall|i: int| 0 <= i < page.len() ==> follower_item_for(
                data.users(), caller, page[i], pics_wanted(include_profile_pics), #[trigger] resp.followers@[i])
        }),
{
    let include_pics = match include_profile_pics {
        Some(b) => b,
        None => false,
    };
    let (follower_principals, next_cursor) = match data.get_followers_paginated(user, start, limit) {
        Ok(page) => page,
        Err(e) => return Err(e),
    };
    let total_count = match data.get_followers_count(user) {
        Ok(n) => n,
        Err(e) => return Err(e),
    };
    let followers = match data.build_follower_items(caller, follower_principals, include_pics) {
        Ok(items) => items,
        Err(e) => return Err(e),
    };
    Ok(FollowersResponse { followers, total_count, next_cursor })
}

/// A page of the users the user follows as `caller` sees them, with how many
/// the user follows and the one after the page.
pub fn get_following(
    data: &CanisterData,
    caller: Principal,
    user: Principal,
    start: Option<Principal>,
    limit: u64,
    include_profile_pics: Option<bool>,
) -> (r: Result<FollowingResponse, String>)
    ensures
        limit > MAX_FOLLOWS_PER_PAGE ==> (r matches Err(e) && e@ == limit_message()),
        limit <= MAX_FOLLOWS_PER_PAGE && !data.users().contains_key(user) ==> (r matches Err(e) && e@ == "User not found"@),
        limit <= MAX_FOLLOWS_PER_PAGE && data.users().contains_key(user) ==> (r matches Ok(resp) && {
            let s = data.users()[user].following.seq();
            let page = page_items(s, start, limit as int);
            &&& resp.total_count == s.len()
            &&& resp.next_cursor == page_next(s, start, limit as int)
            &&& resp.following@.len() == page.len()
            &&& forall|i: int| 0 <= i < page.len() ==> follower_item_for(
                data.users(), caller, page[i], pics_wanted(include_profile_pics), #[trigger] resp.following@[i])
        }),
{
    let include_pics = match include_profile_pics {
        Some(b) => b,
        None => false,
    };
    let (following_principals, next_cursor) = match data.get_following_paginated(user, start, limit) {
        Ok(page) => page,
        Err(e) => return Err(e),
    };
    let total_count = match data.get_following_count(user) {
        Ok(n) => n,
        Err(e) => return Err(e),
    };
    let following = match data.build_following_items(caller, following_principals, include_pics) {
        Ok(items) => items,
        Err(e) => return Err(e),
    };
    Ok(FollowingResponse { following, total_count, next_cursor })
}

/// Deletes an account (and the bots of a person) for the account itself or
/// for an administrator; anyone else is refused.
pub fn delete_user_info(data: &mut CanisterData, caller: Principal, caller_is_admin: bool, user_principal: Principal) -> (r: Result<(), String>)
    ensures
        !(caller_is_admin || caller == user_principal) ==> (r matches Err(e) && e@ == "Unauthorized"@)
            && final(data).users() == old(data).users(),
        (caller_is_admin || caller == user_principal) ==> {
            let bots = if old(data).users().contains_key(user_principal) { bots_of(old(data).users()[user_principal]) } else { Seq::empty() };
            let without_bots = old(data).users().remove_keys(bots.to_set());
            &&& final(data).users() == without_bots.remove(user_principal)
            &&& (r is Ok <==> without_bots.contains_key(user_principal))
            &&& (r is Err ==> not_found(r))
        },
        final(data).version == old(data).version,
{
    if caller_is_admin || caller.same_as(&user_principal) {
        data.delete_user_info(user_principal)
    } else {
        Err(literal("Unauthorized"))
    }
}

} // verus!
