//! The values the user-info canister stores and answers with.
use vstd::prelude::*;

use crate::principal::Principal;
use crate::principal_set::PrincipalSet;

verus! {

/// Counters shown on a profile.
#[derive(Clone, Copy, Debug, PartialEq, Eq, Structural)]
pub struct ProfileStats {
    pub hot_bets_received: u64,
    pub not_bets_received: u64,
}

impl Default for ProfileStats {
    fn default() -> (s: Self)
        ensures
            s == (ProfileStats { hot_bets_received: 0, not_bets_received: 0 }),
    {
        ProfileStats { hot_bets_received: 0, not_bets_received: 0 }
    }
}

/// Who referred a user.
#[derive(Clone, Copy, Debug)]
pub struct ReferrerDetails {
    pub profile_owner: Principal,
    pub user_canister_id: Principal,
}

/// The content-safety findings on a profile picture.
#[derive(Clone, Debug)]
pub struct NSFWInfo {
    pub is_nsfw: bool,
    pub nsfw_ec: String,
    pub nsfw_gore: String,
    pub csam_detected: bool,
}

impl NSFWInfo {
    /// A copy.
    pub fn duplicate(&self) -> (r: NSFWInfo)
        ensures
            r == *self,
    {
        NSFWInfo {
            is_nsfw: self.is_nsfw,
            nsfw_ec: self.nsfw_ec.clone(),
            nsfw_gore: self.nsfw_gore.clone(),
            csam_detected: self.csam_detected,
        }
    }
}

impl Default for NSFWInfo {
    /// Safe: nothing found.
    fn default() -> (r: Self)
        ensures
            !r.is_nsfw,
            r.nsfw_ec@ == Seq::<char>::empty(),
            r.nsfw_gore@ == Seq::<char>::empty(),
            !r.csam_detected,
    {
        NSFWInfo { is_nsfw: false, nsfw_ec: String::new(), nsfw_gore: String::new(), csam_detected: false }
    }
}

/// A profile picture and what was found in it.
#[derive(Clone, Debug)]
pub struct ProfilePictureData {
    pub url: String,
    pub nsfw_info: NSFWInfo,
}

impl ProfilePictureData {
    /// A copy.
    pub fn duplicate(&self) -> (r: ProfilePictureData)
        ensures
            r == *self,
    {
        ProfilePictureData { url: self.url.clone(), nsfw_info: self.nsfw_info.duplicate() }
    }
}

/// The credits of a Pro subscription.
#[derive(Clone, Copy, Debug, PartialEq, Eq, Structural)]
pub struct ProSubscription {
    pub free_video_credits_left: u32,
    pub total_video_credits_alloted: u32,
}

/// A user's plan.
#[derive(Clone, Copy, Debug, PartialEq, Eq, Structural)]
pub enum SubscriptionPlan {
    Free,
    Pro(ProSubscription),
}

/// Whether the user has registered.
#[derive(Clone, Copy, Debug, PartialEq, Eq, Structural)]
pub enum SessionType {
    AnonymousSession,
    RegisteredSession,
}

/// A user's public profile.
#[derive(Clone, Debug)]
pub struct UserProfile {
    pub principal_id: Option<Principal>,
    pub profile_stats: ProfileStats,
    pub referrer_details: Option<ReferrerDetails>,
    pub bio: Option<String>,
    pub website_url: Option<String>,
    pub subscription_plan: SubscriptionPlan,
    pub profile_picture: Option<ProfilePictureData>,
    pub is_ai_influencer: bool,
}

/// A person, who may own bots, or a bot.
#[derive(Clone, Debug)]
pub enum UserKind {
    User { bots: Vec<Principal> },
    Bot,
}

/// Everything the canister keeps for one account. Times are nanoseconds
/// since the epoch.
pub struct UserInfo {
    pub profile: UserProfile,
    pub session_type: SessionType,
    pub last_access_time: u64,
    pub followers: PrincipalSet,
    pub following: PrincipalSet,
    pub kind: UserKind,
}

/// The fields of a profile that a user may change; those left out stay.
#[derive(Clone, Debug)]
pub struct ProfileUpdateDetails {
    pub bio: Option<String>,
    pub website_url: Option<String>,
    pub profile_picture_url: Option<String>,
}

/// Like `ProfileUpdateDetails`, with the whole picture record.
#[derive(Clone, Debug)]
pub struct ProfileUpdateDetailsV2 {
    pub bio: Option<String>,
    pub website_url: Option<String>,
    pub profile_picture: Option<ProfilePictureData>,
}

/// A profile as shown to clients, third form.
#[derive(Clone, Debug)]
pub struct UserProfileDetailsForFrontendV3 {
    pub principal_id: Principal,
    pub profile_stats: ProfileStats,
    pub profile_picture_url: Option<String>,
}

/// A profile as shown to clients, fourth form.
#[derive(Clone, Debug)]
pub struct UserProfileDetailsForFrontendV4 {
    pub principal_id: Principal,
    pub profile_stats: ProfileStats,
    pub profile_picture_url: Option<String>,
    pub bio: Option<String>,
    pub website_url: Option<String>,
    pub followers_count: u64,
    pub following_count: u64,
    pub caller_follows_user: Option<bool>,
    pub user_follows_caller: Option<bool>,
}

/// A profile as shown to clients, fifth form.
#[derive(Clone, Debug)]
pub struct UserProfileDetailsForFrontendV5 {
    pub principal_id: Principal,
    pub bio: Option<String>,
    pub website_url: Option<String>,
    pub followers_count: u64,
    pub following_count: u64,
    pub caller_follows_user: Option<bool>,
    pub user_follows_caller: Option<bool>,
    pub subscription_plan: SubscriptionPlan,
    pub profile_picture_url: Option<String>,
}

/// A profile as shown to clients, sixth form.
#[derive(Clone, Debug)]
pub struct UserProfileDetailsForFrontendV6 {
    pub principal_id: Principal,
    pub profile_picture: Option<ProfilePictureData>,
    pub bio: Option<String>,
    pub website_url: Option<String>,
    pub followers_count: u64,
    pub following_count: u64,
    pub caller_follows_user: Option<bool>,
    pub user_follows_caller: Option<bool>,
    pub subscription_plan: SubscriptionPlan,
    pub is_ai_influencer: bool,
}

/// A profile as shown to clients, seventh form: the sixth with the user's bots.
#[derive(Clone, Debug)]
pub struct UserProfileDetailsForFrontendV7 {
    pub principal_id: Principal,
    pub profile_picture: Option<ProfilePictureData>,
    pub bio: Option<String>,
    pub website_url: Option<String>,
    pub followers_count: u64,
    pub following_count: u64,
    pub caller_follows_user: Option<bool>,
    pub user_follows_caller: Option<bool>,
    pub subscription_plan: SubscriptionPlan,
    pub is_ai_influencer: bool,
    pub bots: Vec<Principal>,
}

/// One entry of a follower or following list.
#[derive(Clone, Debug)]
pub struct FollowerItem {
    pub principal_id: Principal,
    pub caller_follows: bool,
    pub profile_picture_url: Option<String>,
}

/// A page of followers.
#[derive(Clone, Debug)]
pub struct FollowersResponse {
    pub followers: Vec<FollowerItem>,
    pub total_count: u64,
    pub next_cursor: Option<Principal>,
}

/// A page of followed users.
#[derive(Clone, Debug)]
pub struct FollowingResponse {
    pub following: Vec<FollowerItem>,
    pub total_count: u64,
    pub next_cursor: Option<Principal>,
}

} // verus!
