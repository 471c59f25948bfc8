//! The user-info canister's state and its rules.
use vstd::prelude::*;

use crate::keyed_vec::KeyedVec;
use crate::principal::{Principal, is_anonymous};
use crate::principal_set::{PrincipalSet, page_items, page_next};
use crate::text::literal;
use crate::user_info::types::{
    FollowerItem, NSFWInfo, ProfilePictureData, ProfileStats, ProfileUpdateDetails,
    ProfileUpdateDetailsV2, SessionType, SubscriptionPlan, UserInfo, UserKind, UserProfile,
    UserProfileDetailsForFrontendV3, UserProfileDetailsForFrontendV4,
    UserProfileDetailsForFrontendV5, UserProfileDetailsForFrontendV6,
    UserProfileDetailsForFrontendV7,
};

verus! {

/// The most followers or followed users on one page.
pub const MAX_FOLLOWS_PER_PAGE: u64 = 100;

/// A copy of an optional string.
pub fn copy_opt_string(s: &Option<String>) -> (r: Option<String>)
    ensures
        r == *s,
{
    match s {
        Some(x) => Some(x.clone()),
        None => None,
    }
}

/// A copy of an optional picture.
pub fn copy_opt_picture(p: &Option<ProfilePictureData>) -> (r: Option<ProfilePictureData>)
    ensures
        r == *p,
{
    match p {
        Some(x) => Some(x.duplicate()),
        None => None,
    }
}

/// A copy of a list of principals.
pub fn copy_principals(v: &Vec<Principal>) -> (r: Vec<Principal>)
    ensures
        r@ == v@,
{
    let mut r: Vec<Principal> = Vec::new();
    let mut i: usize = 0;
    while i < v.len()
        invariant
            i <= v@.len(),
            r@ == v@.take(i as int),
        decreases v@.len() - i,
    {
        r.push(v[i]);
        i = i + 1;
        assert(r@ =~= v@.take(i as int));
    }
    assert(v@.take(v@.len() as int) =~= v@);
    r
}

/// Whether `u` is the record of a new account of `p` at `now`: an empty
/// profile on the Free plan, no follows, and the given session and kind.
pub open spec fn is_new_account(u: UserInfo, p: Principal, session: SessionType, bot: bool, now: u64) -> bool {
    &&& u.profile.principal_id == Some(p)
    &&& u.profile.profile_stats == (ProfileStats { hot_bets_received: 0, not_bets_received: 0 })
    &&& u.profile.referrer_details is None
    &&& u.profile.bio is None
    &&& u.profile.website_url is None
    &&& u.profile.subscription_plan == SubscriptionPlan::Free
    &&& u.profile.profile_picture is None
    &&& !u.profile.is_ai_influencer
    &&& u.session_type == session
    &&& u.last_access_time == now
    &&& u.followers.seq() == Seq::<Principal>::empty()
    &&& u.following.seq() == Seq::<Principal>::empty()
    &&& if bot { u.kind is Bot } else { u.kind matches UserKind::User { bots } && bots@ == Seq::<Principal>::empty() }
}

impl UserInfo {
    fn fresh(p: Principal, session: SessionType, bot: bool, now: u64) -> (u: UserInfo)
        ensures
            is_new_account(u, p, session, bot, now),
    {
        UserInfo {
            profile: UserProfile {
                principal_id: Some(p),
                profile_stats: ProfileStats::default(),
                referrer_details: None,
                bio: None,
                website_url: None,
                subscription_plan: SubscriptionPlan::Free,
                profile_picture: None,
                is_ai_influencer: false,
            },
            session_type: session,
            last_access_time: now,
            followers: PrincipalSet::new(),
            following: PrincipalSet::new(),
            kind: if bot { UserKind::Bot } else { UserKind::User { bots: Vec::new() } },
        }
    }

    /// A new anonymous account at `now`.
    pub fn new(user_principal: Principal, now: u64) -> (u: UserInfo)
        ensures
            is_new_account(u, user_principal, SessionType::AnonymousSession, false, now),
    {
        Self::fresh(user_principal, SessionType::AnonymousSession, false, now)
    }

    /// A new registered account at `now`.
    pub fn authenticated(user_principal: Principal, now: u64) -> (u: UserInfo)
        ensures
            is_new_account(u, user_principal, SessionType::RegisteredSession, false, now),
    {
        Self::fresh(user_principal, SessionType::RegisteredSession, false, now)
    }

    /// A new bot account at `now`.
    pub fn bot(bot_principal: Principal, now: u64) -> (u: UserInfo)
        ensures
            is_new_account(u, bot_principal, SessionType::RegisteredSession, true, now),
    {
        Self::fresh(bot_principal, SessionType::RegisteredSession, true, now)
    }
}

/// The session of a new account registered with this flag.
pub open spec fn session_for(authenticated: bool) -> SessionType {
    if authenticated { SessionType::RegisteredSession } else { SessionType::AnonymousSession }
}

/// The bots an account owns (none for a bot).
pub open spec fn bots_of(u: UserInfo) -> Seq<Principal> {
    match u.kind {
        UserKind::User { bots } => bots@,
        UserKind::Bot => Seq::empty(),
    }
}

/// Whether `b` is `a` with only its followers changed.
pub open spec fn same_but_followers(a: UserInfo, b: UserInfo) -> bool {
    &&& b.profile == a.profile
    &&& b.session_type == a.session_type
    &&& b.last_access_time == a.last_access_time
    &&& b.following == a.following
    &&& b.kind == a.kind
}

/// Whether `b` is `a` with only the set it follows changed.
pub open spec fn same_but_following(a: UserInfo, b: UserInfo) -> bool {
    &&& b.profile == a.profile
    &&& b.session_type == a.session_type
    &&& b.last_access_time == a.last_access_time
    &&& b.followers == a.followers
    &&& b.kind == a.kind
}

/// Whether `b` is `a` with only its profile changed.
pub open spec fn same_but_profile(a: UserInfo, b: UserInfo) -> bool {
    &&& b.session_type == a.session_type
    &&& b.last_access_time == a.last_access_time
    &&& b.followers == a.followers
    &&& b.following == a.following
    &&& b.kind == a.kind
}

/// How the caller and the user are related, as the profile answers put it:
/// `Some(true)` when the relation holds, `None` when the caller is the user,
/// else `Some(false)`.
pub open spec fn relation(holds: bool, caller: Principal, user: Principal) -> Option<bool> {
    if holds { Some(true) } else if caller == user { None } else { Some(false) }
}

/// The URL of an optional picture.
pub open spec fn picture_url(p: Option<ProfilePictureData>) -> Option<String> {
    match p {
        Some(pic) => Some(pic.url),
        None => None,
    }
}

/// The state of the user-info canister.
pub struct CanisterData {
    pub version: String,
    pub user_infos: KeyedVec<Principal, UserInfo>,
}

impl CanisterData {
    /// The accounts.
    pub open spec fn users(self) -> Map<Principal, UserInfo> {
        self.user_infos.map()
    }

    fn url_of(p: &Option<ProfilePictureData>) -> (r: Option<String>)
        ensures
            r == picture_url(*p),
    {
        match p {
            Some(pic) => Some(pic.url.clone()),
            None => None,
        }
    }

    /// Registers a new anonymous account; an existing one is left as it is.
    pub fn register_new_user(&mut self, user_principal: Principal, now: u64) -> (r: Result<(), String>)
        ensures
            r is Ok,
            old(self).users().contains_key(user_principal) ==> final(self).users() == old(self).users(),
            !old(self).users().contains_key(user_principal) ==> {
                &&& final(self).users().contains_key(user_principal)
                &&& final(self).users() == old(self).users().insert(user_principal, final(self).users()[user_principal])
                &&& is_new_account(final(self).users()[user_principal], user_principal, SessionType::AnonymousSession, false, now)
            },
            final(self).version == old(self).version,
    {
        if self.user_infos.contains_key(&user_principal) {
            return Ok(());
        }
        self.user_infos.insert(user_principal, UserInfo::new(user_principal, now));
        Ok(())
    }

    /// Registers a new account, registered or anonymous as `authenticated`
    /// says; an existing one is left as it is.
    pub fn register_authenticated_user(&mut self, user_principal: Principal, authenticated: bool, now: u64) -> (r: Result<(), String>)
        ensures
            r is Ok,
            old(self).users().contains_key(user_principal) ==> final(self).users() == old(self).users(),
            !old(self).users().contains_key(user_principal) ==> {
                &&& final(self).users().contains_key(user_principal)
                &&& final(self).users() == old(self).users().insert(user_principal, final(self).users()[user_principal])
                &&& is_new_account(final(self).users()[user_principal], user_principal, session_for(authenticated), false, now)
                &&& authenticated ==> final(self).users()[user_principal].session_type == SessionType::RegisteredSession
                &&& !authenticated ==> final(self).users()[user_principal].session_type == SessionType::AnonymousSession
            },
            final(self).version == old(self).version,
    {
        if self.user_infos.contains_key(&user_principal) {
            return Ok(());
        }
        let info = if authenticated {
            UserInfo::authenticated(user_principal, now)
        } else {
            UserInfo::new(user_principal, now)
        };
        self.user_infos.insert(user_principal, info);
        Ok(())
    }

    /// Registers an account, or, with `bot_principal`, a bot owned by the
    /// (existing, non-bot) user. An existing account or bot is left as it is.
    pub fn register_authenticated_user_v2(
        &mut self,
        user_principal: Principal,
        authenticated: bool,
        bot_principal: Option<Principal>,
        now: u64,
    ) -> (r: Result<(), String>)
        ensures
            final(self).version == old(self).version,
            bot_principal is None ==> {
                &&& r is Ok
                &&& old(self).users().contains_key(user_principal) ==> final(self).users() == old(self).users()
                &&& !old(self).users().contains_key(user_principal) ==> {
                    &&& final(self).users().contains_key(user_principal)
                    &&& final(self).users() == old(self).users().insert(user_principal, final(self).users()[user_principal])
                    &&& is_new_account(final(self).users()[user_principal], user_principal, session_for(authenticated), false, now)
                    &&& authenticated ==> final(self).users()[user_principal].session_type == SessionType::RegisteredSession
                    &&& !authenticated ==> final(self).users()[user_principal].session_type == SessionType::AnonymousSession
                }
            },
            bot_principal matches Some(bot) ==> {
                let owner = old(self).users()[user_principal];
                if old(self).users().contains_key(bot) {
                    r is Ok && final(self).users() == old(self).users()
                } else if !old(self).users().contains_key(user_principal) {
                    (r matches Err(e) && e@ == "Owner not found"@) && final(self).users() == old(self).users()
                } else if owner.kind is Bot {
                    (r matches Err(e) && e@ == "Bots cannot own other bots"@) && final(self).users() == old(self).users()
                } else {
                    &&& r is Ok
                    &&& final(self).users().contains_key(bot)
                    &&& final(self).users().contains_key(user_principal)
                    &&& final(self).users() == old(self).users()
                        .insert(bot, final(self).users()[bot])
                        .insert(user_principal, final(self).users()[user_principal])
                    &&& is_new_account(final(self).users()[bot], bot, SessionType::RegisteredSession, true, now)
                    &&& final(self).users()[user_principal].profile == owner.profile
                    &&& final(self).users()[user_principal].session_type == owner.session_type
                    &&& final(self).users()[user_principal].last_access_time == owner.last_access_time
                    &&& final(self).users()[user_principal].followers == owner.followers
                    &&& final(self).users()[user_principal].following == owner.following
                    &&& bots_of(final(self).users()[user_principal]) == bots_of(owner).push(bot)
                    &&& final(self).users()[user_principal].kind is User
                }
            },
    {
        match bot_principal {
            Some(bot) => {
                if self.user_infos.contains_key(&bot) {
                    return Ok(());
                }
                let ghost old_map = self.users();
                let mut user_info = match self.user_infos.remove(&user_principal) {
                    Some(u) => u,
                    None => {
                        proof {
                            assert(self.users() =~= old_map);
                        }
                        return Err(literal("Owner not found"));
                    },
                };
                let ghost owner = user_info;
                match user_info.kind {
                    UserKind::Bot => {
                        self.user_infos.insert(user_principal, user_info);
                        proof {
                            assert(self.users() =~= old_map);
                        }
                        Err(literal("Bots cannot own other bots"))
                    },
                    UserKind::User { bots } => {
                        let mut bots = bots;
                        self.user_infos.insert(bot, UserInfo::bot(bot, now));
                        bots.push(bot);
                        let updated = UserInfo { kind: UserKind::User { bots }, ..user_info };
                        self.user_infos.insert(user_principal, updated);
                        proof {
                            assert(bot != user_principal);
                            assert(self.users() =~= old_map.insert(bot, self.users()[bot]).insert(user_principal, self.users()[user_principal]));
                        }
                        Ok(())
                    },
                }
            },
            None => {
                if self.user_infos.contains_key(&user_principal) {
                    return Ok(());
                }
                let info = if authenticated {
                    UserInfo::authenticated(user_principal, now)
                } else {
                    UserInfo::new(user_principal, now)
                };
                self.user_infos.insert(user_principal, info);
                Ok(())
            },
        }
    }

    /// The user's session type.
    pub fn get_session_type_for_user(&self, user_principal: Principal) -> (r: Result<SessionType, String>)
        ensures
            self.users().contains_key(user_principal) ==> r == Ok::<SessionType, String>(self.users()[user_principal].session_type),
            !self.users().contains_key(user_principal) ==> (r matches Err(e) && e@ == "User not found"@),
    {
        match self.user_infos.get(&user_principal) {
            Some(u) => Ok(u.session_type),
            None => Err(literal("User not found")),
        }
    }

    /// The user's profile in the third form.
    pub fn get_profile_details_for_user(&self, user_principal: Principal) -> (r: Result<UserProfileDetailsForFrontendV3, String>)
        ensures
            !self.users().contains_key(user_principal) ==> (r matches Err(e) && e@ == "User not found"@),
            self.users().contains_key(user_principal) ==> (r matches Ok(d) && {
                let u = self.users()[user_principal];
                &&& d.principal_id == user_principal
                &&& d.profile_stats == u.profile.profile_stats
                &&& d.profile_picture_url == picture_url(u.profile.profile_picture)
            }),
    {
        match self.user_infos.get(&user_principal) {
            Some(u) => Ok(UserProfileDetailsForFrontendV3 {
                principal_id: user_principal,
                profile_stats: u.profile.profile_stats,
                profile_picture_url: Self::url_of(&u.profile.profile_picture),
            }),
            None => Err(literal("User not found")),
        }
    }

    fn relation_of(holds: bool, caller: &Principal, user: &Principal) -> (r: Option<bool>)
        ensures
            r == relation(holds, *caller, *user),
    {
        if holds {
            Some(true)
        } else if caller.same_as(user) {
            None
        } else {
            Some(false)
        }
    }

    /// The user's profile in the fifth form, as `caller_principal` sees it.
    pub fn get_profile_details_for_user_v5(&self, user_principal: Principal, caller_principal: Principal) -> (r: Result<UserProfileDetailsForFrontendV5, String>)
        ensures
            !self.users().contains_key(user_principal) ==> (r matches Err(e) && e@ == "User not found"@),
            self.users().contains_key(user_principal) ==> (r matches Ok(d) && {
                let u = self.users()[user_principal];
                &&& d.principal_id == user_principal
                &&& d.bio == u.profile.bio
                &&& d.website_url == u.profile.website_url
                &&& d.followers_count == u.followers.seq().len()
                &&& d.following_count == u.following.seq().len()
                &&& d.caller_follows_user == relation(u.followers.set().contains(caller_principal), caller_principal, user_principal)
                &&& d.user_follows_caller == relation(u.following.set().contains(caller_principal), caller_principal, user_principal)
                &&& d.subscription_plan == u.profile.subscription_plan
                &&& d.profile_picture_url == picture_url(u.profile.profile_picture)
            }),
    {
        match self.user_infos.get(&user_principal) {
            Some(u) => Ok(UserProfileDetailsForFrontendV5 {
                principal_id: user_principal,
                bio: copy_opt_string(&u.profile.bio),
                website_url: copy_opt_string(&u.profile.website_url),
                followers_count: u.followers.len() as u64,
                following_count: u.following.len() as u64,
                caller_follows_user: Self::relation_of(u.followers.contains(&caller_principal), &caller_principal, &user_principal),
                user_follows_caller: Self::relation_of(u.following.contains(&caller_principal), &caller_principal, &user_principal),
                subscription_plan: u.profile.subscription_plan,
                profile_picture_url: Self::url_of(&u.profile.profile_picture),
            }),
            None => Err(literal("User not found")),
        }
    }

    /// The user's profile in the sixth form, as `caller_principal` sees it.
    pub fn get_profile_details_for_user_v6(&self, user_principal: Principal, caller_principal: Principal) -> (r: Result<UserProfileDetailsForFrontendV6, String>)
        ensures
            !self.users().contains_key(user_principal) ==> (r matches Err(e) && e@ == "User not found"@),
            self.users().contains_key(user_principal) ==> (r matches Ok(d) && {
                let u = self.users()[user_principal];
                &&& d.principal_id == user_principal
                &&& d.profile_picture == u.profile.profile_picture
                &&& d.bio == u.profile.bio
                &&& d.website_url == u.profile.website_url
                &&& d.followers_count == u.followers.seq().len()
                &&& d.following_count == u.following.seq().len()
                &&& d.caller_follows_user == relation(u.followers.set().contains(caller_principal), caller_principal, user_principal)
                &&& d.user_follows_caller == relation(u.following.set().contains(caller_principal), caller_principal, user_principal)
                &&& d.subscription_plan == u.profile.subscription_plan
                &&& d.is_ai_influencer == u.profile.is_ai_influencer
            }),
    {
        match self.user_infos.get(&user_principal) {
            Some(u) => Ok(UserProfileDetailsForFrontendV6 {
                principal_id: user_principal,
                profile_picture: copy_opt_picture(&u.profile.profile_picture),
                bio: copy_opt_string(&u.profile.bio),
                website_url: copy_opt_string(&u.profile.website_url),
                followers_count: u.followers.len() as u64,
                following_count: u.following.len() as u64,
                caller_follows_user: Self::relation_of(u.followers.contains(&caller_principal), &caller_principal, &user_principal),
                user_follows_caller: Self::relation_of(u.following.contains(&caller_principal), &caller_principal, &user_principal),
                subscription_plan: u.profile.subscription_plan,
                is_ai_influencer: u.profile.is_ai_influencer,
            }),
            None => Err(literal("User not found")),
        }
    }

    /// The user's profile in the seventh form, as `caller_principal` sees it.
    pub fn get_profile_details_for_user_v7(&self, user_principal: Principal, caller_principal: Principal) -> (r: Result<UserProfileDetailsForFrontendV7, String>)
        ensures
            !self.users().contains_key(user_principal) ==> (r matches Err(e) && e@ == "User not found"@),
            self.users().contains_key(user_principal) ==> (r matches Ok(d) && {
                let u = self.users()[user_principal];
                &&& d.principal_id == user_principal
                &&& d.profile_picture == u.profile.profile_picture
                &&& d.bio == u.profile.bio
                &&& d.website_url == u.profile.website_url
                &&& d.followers_count == u.followers.seq().len()
                &&& d.following_count == u.following.seq().len()
                &&& d.caller_follows_user == relation(u.followers.set().contains(caller_principal), caller_principal, user_principal)
                &&& d.user_follows_caller == relation(u.following.set().contains(caller_principal), caller_principal, user_principal)
                &&& d.subscription_plan == u.profile.subscription_plan
                &&& d.is_ai_influencer == u.profile.is_ai_influencer
                &&& d.bots@ == bots_of(u)
            }),
    {
        match self.user_infos.get(&user_principal) {
            Some(u) => Ok(UserProfileDetailsForFrontendV7 {
                principal_id: user_principal,
                profile_picture: copy_opt_picture(&u.profile.profile_picture),
                bio: copy_opt_string(&u.profile.bio),
                website_url: copy_opt_string(&u.profile.website_url),
                followers_count: u.followers.len() as u64,
                following_count: u.following.len() as u64,
                caller_follows_user: Self::relation_of(u.followers.contains(&caller_principal), &caller_principal, &user_principal),
                user_follows_caller: Self::relation_of(u.following.contains(&caller_principal), &caller_principal, &user_principal),
                subscription_plan: u.profile.subscription_plan,
                is_ai_influencer: u.profile.is_ai_influencer,
                bots: match &u.kind {
                    UserKind::User { bots } => copy_principals(bots),
                    UserKind::Bot => Vec::new(),
                },
            }),
            None => Err(literal("User not found")),
        }
    }

    /// The user's profile in the fourth form, as `caller_principal` sees it:
    /// no follow relations for the user looking at itself.
    pub fn get_profile_details_v4(&self, caller_principal: Principal, user_principal: Principal) -> (r: Result<UserProfileDetailsForFrontendV4, String>)
        ensures
            !self.users().contains_key(user_principal) ==> (r matches Err(e) && e@ == "User not found"@),
            self.users().contains_key(user_principal) ==> (r matches Ok(d) && {
                let u = self.users()[user_principal];
                &&& d.principal_id == user_principal
                &&& d.profile_stats == u.profile.profile_stats
                &&& d.profile_picture_url == picture_url(u.profile.profile_picture)
                &&& d.bio == u.profile.bio
                &&& d.website_url == u.profile.website_url
                &&& d.followers_count == u.followers.seq().len()
                &&& d.following_count == u.following.seq().len()
                &&& d.caller_follows_user == (if caller_principal == user_principal { None } else { Some(u.followers.set().contains(caller_principal)) })
                &&& d.user_follows_caller == (if caller_principal == user_principal { None } else { Some(u.following.set().contains(caller_principal)) })
            }),
    {
        match self.user_infos.get(&user_principal) {
            Some(u) => {
                let (caller_follows_user, user_follows_caller) = if caller_principal.same_as(&user_principal) {
                    (None, None)
                } else {
                    (Some(u.followers.contains(&caller_principal)), Some(u.following.contains(&caller_principal)))
                };
                Ok(UserProfileDetailsForFrontendV4 {
                    principal_id: user_principal,
                    profile_stats: u.profile.profile_stats,
                    profile_picture_url: Self::url_of(&u.profile.profile_picture),
                    bio: copy_opt_string(&u.profile.bio),
                    website_url: copy_opt_string(&u.profile.website_url),
                    followers_count: u.followers.len() as u64,
                    following_count: u.following.len() as u64,
                    caller_follows_user,
                    user_follows_caller,
                })
            },
            None => Err(literal("User not found")),
        }
    }
}


/// The answer to a request about a missing account.
pub open spec fn not_found(r: Result<(), String>) -> bool {
    r matches Err(e) && e@ == "User not found"@
}

impl CanisterData {
    /// Takes the user's record out; `None` leaves the map as it was.
    fn take_user(&mut self, user: &Principal) -> (r: Option<UserInfo>)
        ensures
            final(self).version == old(self).version,
            match r {
                Some(u) => old(self).users().contains_key(*user) && u == old(self).users()[*user]
                    && final(self).users() == old(self).users().remove(*user),
                None => !old(self).users().contains_key(*user) && final(self).users() == old(self).users(),
            },
    {
        let r = self.user_infos.remove(user);
        proof {
            if r is None {
                assert(self.users() =~= old(self).users());
            }
        }
        r
    }

    /// Puts back a record taken out unchanged.
    fn put_back(&mut self, user: Principal, info: UserInfo, Ghost(map): Ghost<Map<Principal, UserInfo>>)
        requires
            map.contains_key(user),
            info == map[user],
            old(self).users() == map.remove(user),
        ensures
            final(self).users() == map,
            final(self).version == old(self).version,
    {
        self.user_infos.insert(user, info);
        assert(self.users() =~= map);
    }

    /// Stamps the user's last access with `now`.
    pub fn update_last_access_time_for_user(&mut self, user_principal: Principal, now: u64) -> (r: Result<(), String>)
        ensures
            final(self).version == old(self).version,
            !old(self).users().contains_key(user_principal) ==> not_found(r) && final(self).users() == old(self).users(),
            old(self).users().contains_key(user_principal) ==> r is Ok && final(self).users() == old(self).users().insert(
                user_principal,
                UserInfo { last_access_time: now, ..old(self).users()[user_principal] },
            ),
    {
        match self.take_user(&user_principal) {
            Some(u) => {
                self.user_infos.insert(user_principal, UserInfo { last_access_time: now, ..u });
                proof {
                    assert(self.users() =~= old(self).users().insert(user_principal, UserInfo { last_access_time: now, ..u }));
                }
                Ok(())
            },
            None => Err(literal("User not found")),
        }
    }

    /// Sets the session type of an anonymous user; other sessions stay.
    pub fn update_session_type_for_user(&mut self, user_principal: Principal, session_type: SessionType) -> (r: Result<(), String>)
        ensures
            final(self).version == old(self).version,
            !old(self).users().contains_key(user_principal) ==> not_found(r) && final(self).users() == old(self).users(),
            old(self).users().contains_key(user_principal) ==> {
                &&& r is Ok
                &&& old(self).users()[user_principal].session_type == SessionType::AnonymousSession ==>
                    final(self).users() == old(self).users().insert(
                        user_principal,
                        UserInfo { session_type, ..old(self).users()[user_principal] },
                    )
                &&& old(self).users()[user_principal].session_type != SessionType::AnonymousSession ==>
                    final(self).users() == old(self).users()
            },
    {
        let ghost old_map = self.users();
        match self.take_user(&user_principal) {
            Some(u) => {
                match u.session_type {
                    SessionType::AnonymousSession => {
                        self.user_infos.insert(user_principal, UserInfo { session_type, ..u });
                        proof {
                            assert(self.users() =~= old_map.insert(user_principal, UserInfo { session_type, ..u }));
                        }
                    },
                    _ => {
                        self.put_back(user_principal, u, Ghost(old_map));
                    },
                }
                Ok(())
            },
            None => Err(literal("User not found")),
        }
    }

    /// Deletes the user and, for a person, every bot it owns.
    pub fn delete_user_info(&mut self, user_principal: Principal) -> (r: Result<(), String>)
        ensures
            final(self).version == old(self).version,
            ({
                let bots = if old(self).users().contains_key(user_principal) { bots_of(old(self).users()[user_principal]) } else { Seq::empty() };
                let without_bots = old(self).users().remove_keys(bots.to_set());
                &&& final(self).users() == without_bots.remove(user_principal)
                &&& (r is Ok <==> without_bots.contains_key(user_principal))
                &&& (r is Err ==> not_found(r))
            }),
    {
        let ghost old_map = self.users();
        let bots_to_delete: Vec<Principal> = match self.user_infos.get(&user_principal) {
            Some(info) => match &info.kind {
                UserKind::User { bots } => copy_principals(bots),
                UserKind::Bot => Vec::new(),
            },
            None => Vec::new(),
        };
        let ghost bots = bots_to_delete@;
        assert(bots == (if old_map.contains_key(user_principal) { bots_of(old_map[user_principal]) } else { Seq::<Principal>::empty() }));
        let mut i: usize = 0;
        while i < bots_to_delete.len()
            invariant
                bots == bots_to_delete@,
                i <= bots.len(),
                self.users() == old_map.remove_keys(bots.take(i as int).to_set()),
                self.version == old(self).version,
            decreases bots.len() - i,
        {
            self.user_infos.remove(&bots_to_delete[i]);
            proof {
                assert(bots.take(i + 1).to_set() =~= bots.take(i as int).to_set().insert(bots[i as int])) by {
                    assert forall|x: Principal| bots.take(i + 1).to_set().contains(x) implies bots.take(i as int).to_set().insert(bots[i as int]).contains(x) by {
                        let k = choose|k: int| 0 <= k < bots.take(i + 1).len() && #[trigger] bots.take(i + 1)[k] == x;
                        if k < i {
                            assert(bots.take(i as int)[k] == x);
                        }
                    }
                    assert forall|x: Principal| bots.take(i as int).to_set().insert(bots[i as int]).contains(x) implies bots.take(i + 1).to_set().contains(x) by {
                        if x == bots[i as int] {
                            assert(bots.take(i + 1)[i as int] == x);
                        } else {
                            let k = choose|k: int| 0 <= k < bots.take(i as int).len() && #[trigger] bots.take(i as int)[k] == x;
                            assert(bots.take(i + 1)[k] == x);
                        }
                    }
                }
                assert(self.users() =~= old_map.remove_keys(bots.take(i + 1).to_set()));
            }
            i = i + 1;
        }
        assert(bots.take(bots.len() as int) =~= bots);
        let ghost without_bots = self.users();
        match self.user_infos.remove(&user_principal) {
            Some(_) => Ok(()),
            None => {
                assert(self.users() =~= without_bots.remove(user_principal));
                Err(literal("User not found"))
            },
        }
    }

    /// Deletes a bot at its owner's request.
    pub fn delete_bot_account(&mut self, bot_principal: Principal, caller: Principal) -> (r: Result<(), String>)
        ensures
            final(self).version == old(self).version,
            !old(self).users().contains_key(bot_principal) ==> (r matches Err(e) && e@ == "Bot not found"@)
                && final(self).users() == old(self).users(),
            old(self).users().contains_key(bot_principal) && !old(self).users().contains_key(caller) ==>
                (r matches Err(e) && e@ == "Caller not found"@) && final(self).users() == old(self).users(),
            old(self).users().contains_key(bot_principal) && old(self).users().contains_key(caller) ==> {
                let c = old(self).users()[caller];
                if c.kind is Bot {
                    (r matches Err(e) && e@ == "Bots cannot own other bots"@) && final(self).users() == old(self).users()
                } else if !bots_of(c).contains(bot_principal) {
                    (r matches Err(e) && e@ == "Not authorized - only owner can delete bot"@) && final(self).users() == old(self).users()
                } else {
                    &&& r is Ok
                    &&& caller == bot_principal ==> final(self).users() == old(self).users().remove(bot_principal)
                    &&& caller != bot_principal ==> {
                        &&& final(self).users().contains_key(caller)
                        &&& final(self).users() == old(self).users().insert(caller, final(self).users()[caller]).remove(bot_principal)
                        &&& same_but_kind(c, final(self).users()[caller])
                        &&& bots_of(final(self).users()[caller]) == bots_of(c).filter(|b: Principal| b != bot_principal)
                        &&& final(self).users()[caller].kind is User
                    }
                }
            },
    {
        if !self.user_infos.contains_key(&bot_principal) {
            return Err(literal("Bot not found"));
        }
        let ghost old_map = self.users();
        let caller_info = match self.take_user(&caller) {
            Some(u) => u,
            None => return Err(literal("Caller not found")),
        };
        match caller_info.kind {
            UserKind::User { bots } => {
                let mut found = false;
                let mut kept: Vec<Principal> = Vec::new();
                let mut i: usize = 0;
                while i < bots.len()
                    invariant
                        i <= bots@.len(),
                        found == bots@.take(i as int).contains(bot_principal),
                        kept@ == bots@.take(i as int).filter(|b: Principal| b != bot_principal),
                    decreases bots@.len() - i,
                {
                    proof {
                        assert(bots@.take(i + 1).drop_last() =~= bots@.take(i as int));
                        reveal_with_fuel(Seq::filter, 1);
                    }
                    if bots[i].same_as(&bot_principal) {
                        found = true;
                    } else {
                        kept.push(bots[i]);
                    }
                    i = i + 1;
                    proof {
                        assert forall|x: Principal| bots@.take(i as int).contains(x) <==> (bots@.take(i - 1).contains(x) || x == bots@[i - 1]) by {
                            if bots@.take(i as int).contains(x) {
                                let k = choose|k: int| 0 <= k < i && #[trigger] bots@.take(i as int)[k] == x;
                                if k < i - 1 {
                                    assert(bots@.take(i - 1)[k] == x);
                                }
                            }
                            if bots@.take(i - 1).contains(x) {
                                let k = choose|k: int| 0 <= k < i - 1 && #[trigger] bots@.take(i - 1)[k] == x;
                                assert(bots@.take(i as int)[k] == x);
                            }
                            if x == bots@[i - 1] {
                                assert(bots@.take(i as int)[i - 1] == x);
                            }
                        }
                    }
                }
                assert(bots@.take(bots@.len() as int) =~= bots@);
                if !found {
                    let restored = UserInfo { kind: UserKind::User { bots }, ..caller_info };
                    self.put_back(caller, restored, Ghost(old_map));
                    return Err(literal("Not authorized - only owner can delete bot"));
                }
                let updated = UserInfo { kind: UserKind::User { bots: kept }, ..caller_info };
                self.user_infos.insert(caller, updated);
                self.user_infos.remove(&bot_principal);
                proof {
                    if caller != bot_principal {
                        assert(self.users() =~= old_map.insert(caller, self.users()[caller]).remove(bot_principal));
                    } else {
                        assert(self.users() =~= old_map.remove(bot_principal));
                    }
                }
                Ok(())
            },
            UserKind::Bot => {
                self.put_back(caller, caller_info, Ghost(old_map));
                Err(literal("Bots cannot own other bots"))
            },
        }
    }

    /// The bots the owner has (none for a bot or an unknown account).
    pub fn get_bots_by_owner(&self, owner: Principal) -> (r: Vec<Principal>)
        ensures
            r@ == (if self.users().contains_key(owner) { bots_of(self.users()[owner]) } else { Seq::empty() }),
    {
        match self.user_infos.get(&owner) {
            Some(info) => match &info.kind {
                UserKind::User { bots } => copy_principals(bots),
                UserKind::Bot => Vec::new(),
            },
            None => Vec::new(),
        }
    }
}

/// Whether `b` is `a` with only its kind changed.
pub open spec fn same_but_kind(a: UserInfo, b: UserInfo) -> bool {
    &&& b.profile == a.profile
    &&& b.session_type == a.session_type
    &&& b.last_access_time == a.last_access_time
    &&& b.followers == a.followers
    &&& b.following == a.following
}


/// The message for a page larger than allowed.
pub open spec fn limit_message() -> Seq<char> {
    "Limit exceeds maximum of 100"@
}

/// What a profile update of `details` makes of `p`: each given field
/// replaced; a new picture URL keeps the picture's findings, or gets safe
/// ones when there was no picture.
pub open spec fn profile_updated(p: UserProfile, details: ProfileUpdateDetails, q: UserProfile) -> bool {
    &&& q.bio == (if details.bio is Some { details.bio } else { p.bio })
    &&& q.website_url == (if details.website_url is Some { details.website_url } else { p.website_url })
    &&& match details.profile_picture_url {
        Some(url) => q.profile_picture matches Some(pic) && pic.url == url && match p.profile_picture {
            Some(old_pic) => pic.nsfw_info == old_pic.nsfw_info,
            None => !pic.nsfw_info.is_nsfw && pic.nsfw_info.nsfw_ec@ == Seq::<char>::empty()
                && pic.nsfw_info.nsfw_gore@ == Seq::<char>::empty() && !pic.nsfw_info.csam_detected,
        },
        None => q.profile_picture == p.profile_picture,
    }
    &&& q.principal_id == p.principal_id
    &&& q.profile_stats == p.profile_stats
    &&& q.referrer_details == p.referrer_details
    &&& q.subscription_plan == p.subscription_plan
    &&& q.is_ai_influencer == p.is_ai_influencer
}

/// The list entry for `p` as the caller sees it.
pub open spec fn follower_item_for(users: Map<Principal, UserInfo>, caller: Principal, p: Principal, include_pics: bool, item: FollowerItem) -> bool {
    &&& item.principal_id == p
    &&& item.caller_follows == (!is_anonymous(caller) && users.contains_key(caller)
        && users[caller].following.set().contains(p))
    &&& item.profile_picture_url == (if include_pics && users.contains_key(p) {
        picture_url(users[p].profile.profile_picture)
    } else {
        None
    })
}

/// Whether `after` is `before` once `follower` has started following
/// `target`: the one's following set and the other's followers set gain
/// each other, and nothing else changes.
pub open spec fn followed(before: Map<Principal, UserInfo>, after: Map<Principal, UserInfo>, follower: Principal, target: Principal) -> bool {
    let f = after[follower];
    let t = after[target];
    &&& after.contains_key(follower) && after.contains_key(target)
    &&& after == before.insert(follower, f).insert(target, t)
    &&& same_but_following(before[follower], f)
    &&& f.following.set() == before[follower].following.set().insert(target)
    &&& same_but_followers(before[target], t)
    &&& t.followers.set() == before[target].followers.set().insert(follower)
}

/// Whether `after` is `before` once `follower` has stopped following
/// `target`: the one's following set and the other's followers set lose
/// each other, and nothing else changes.
pub open spec fn unfollowed(before: Map<Principal, UserInfo>, after: Map<Principal, UserInfo>, follower: Principal, target: Principal) -> bool {
    let f = after[follower];
    let t = after[target];
    &&& after.contains_key(follower) && after.contains_key(target)
    &&& after == before.insert(follower, f).insert(target, t)
    &&& same_but_following(before[follower], f)
    &&& f.following.set() == before[follower].following.set().remove(target)
    &&& same_but_followers(before[target], t)
    &&& t.followers.set() == before[target].followers.set().remove(follower)
}

impl CanisterData {
    /// `follower` starts following `target`.
    pub fn follow_user(&mut self, follower: Principal, target: Principal) -> (r: Result<(), String>)
        ensures
            final(self).version == old(self).version,
            follower == target ==> (r matches Err(e) && e@ == "Cannot follow yourself"@) && final(self).users() == old(self).users(),
            follower != target && !old(self).users().contains_key(follower) ==>
                (r matches Err(e) && e@ == "Follower not found"@) && final(self).users() == old(self).users(),
            follower != target && old(self).users().contains_key(follower) && !old(self).users().contains_key(target) ==>
                (r matches Err(e) && e@ == "Target user not found"@) && final(self).users() == old(self).users(),
            follower != target && old(self).users().contains_key(follower) && old(self).users().contains_key(target)
                && old(self).users()[follower].following.set().contains(target) ==>
                (r matches Err(e) && e@ == "Already following this user"@) && final(self).users() == old(self).users(),
            follower != target && old(self).users().contains_key(follower) && old(self).users().contains_key(target)
                && !old(self).users()[follower].following.set().contains(target) ==>
                r is Ok && followed(old(self).users(), final(self).users(), follower, target),
    {
        if follower.same_as(&target) {
            return Err(literal("Cannot follow yourself"));
        }
        let ghost old_map = self.users();
        let mut follower_info = match self.take_user(&follower) {
            Some(u) => u,
            None => return Err(literal("Follower not found")),
        };
        let mut target_info = match self.take_user(&target) {
            Some(u) => u,
            None => {
                self.put_back(follower, follower_info, Ghost(old_map));
                return Err(literal("Target user not found"));
            },
        };
        if follower_info.following.contains(&target) {
            self.user_infos.insert(target, target_info);
            self.user_infos.insert(follower, follower_info);
            proof {
                assert(self.users() =~= old_map);
            }
            return Err(literal("Already following this user"));
        }
        let mut following = PrincipalSet::new();
        std::mem::swap(&mut following, &mut follower_info.following);
        following.insert(target);
        let f = UserInfo { following, ..follower_info };
        let mut followers = PrincipalSet::new();
        std::mem::swap(&mut followers, &mut target_info.followers);
        followers.insert(follower);
        let t = UserInfo { followers, ..target_info };
        self.user_infos.insert(follower, f);
        self.user_infos.insert(target, t);
        proof {
            assert(self.users() =~= old_map.insert(follower, f).insert(target, t));
        }
        Ok(())
    }

    /// `follower` stops following `target`.
    pub fn unfollow_user(&mut self, follower: Principal, target: Principal) -> (r: Result<(), String>)
        ensures
            final(self).version == old(self).version,
            follower == target ==> (r matches Err(e) && e@ == "Cannot unfollow yourself"@) && final(self).users() == old(self).users(),
            follower != target && !old(self).users().contains_key(follower) ==>
                (r matches Err(e) && e@ == "Follower not found"@) && final(self).users() == old(self).users(),
            follower != target && old(self).users().contains_key(follower) && !old(self).users().contains_key(target) ==>
                (r matches Err(e) && e@ == "Target user not found"@) && final(self).users() == old(self).users(),
            follower != target && old(self).users().contains_key(follower) && old(self).users().contains_key(target)
                && !old(self).users()[follower].following.set().contains(target) ==>
                (r matches Err(e) && e@ == "Not following this user"@) && final(self).users() == old(self).users(),
            follower != target && old(self).users().contains_key(follower) && old(self).users().contains_key(target)
                && old(self).users()[follower].following.set().contains(target) ==>
                r is Ok && unfollowed(old(self).users(), final(self).users(), follower, target),
    {
        if follower.same_as(&target) {
            return Err(literal("Cannot unfollow yourself"));
        }
        let ghost old_map = self.users();
        let mut follower_info = match self.take_user(&follower) {
            Some(u) => u,
            None => return Err(literal("Follower not found")),
        };
        let mut target_info = match self.take_user(&target) {
            Some(u) => u,
            None => {
                self.put_back(follower, follower_info, Ghost(old_map));
                return Err(literal("Target user not found"));
            },
        };
        if !follower_info.following.contains(&target) {
            self.user_infos.insert(target, target_info);
            self.user_infos.insert(follower, follower_info);
            proof {
                assert(self.users() =~= old_map);
            }
            return Err(literal("Not following this user"));
        }
        let mut following = PrincipalSet::new();
        std::mem::swap(&mut following, &mut follower_info.following);
        following.remove(&target);
        let f = UserInfo { following, ..follower_info };
        let mut followers = PrincipalSet::new();
        std::mem::swap(&mut followers, &mut target_info.followers);
        followers.remove(&follower);
        let t = UserInfo { followers, ..target_info };
        self.user_infos.insert(follower, f);
        self.user_infos.insert(target, t);
        proof {
            assert(self.users() =~= old_map.insert(follower, f).insert(target, t));
        }
        Ok(())
    }

    /// A page of the user's followers in principal order, from `start` on,
    /// and the follower after the page.
    pub fn get_followers_paginated(&self, user_principal: Principal, start: Option<Principal>, limit: u64)
        -> (r: Result<(Vec<Principal>, Option<Principal>), String>)
        ensures
            limit > MAX_FOLLOWS_PER_PAGE ==> (r matches Err(e) && e@ == limit_message()),
            limit <= MAX_FOLLOWS_PER_PAGE && !self.users().contains_key(user_principal) ==> (r matches Err(e) && e@ == "User not found"@),
            limit <= MAX_FOLLOWS_PER_PAGE && self.users().contains_key(user_principal) ==> (r matches Ok(page) && {
                let s = self.users()[user_principal].followers.seq();
                &&& page.0@ == page_items(s, start, limit as int)
                &&& page.1 == page_next(s, start, limit as int)
            }),
    {
        if limit > MAX_FOLLOWS_PER_PAGE {
            return Err(literal("Limit exceeds maximum of 100"));
        }
        match self.user_infos.get(&user_principal) {
            Some(u) => Ok(u.followers.page(start, limit)),
            None => Err(literal("User not found")),
        }
    }

    /// A page of the users the user follows, in principal order.
    pub fn get_following_paginated(&self, user_principal: Principal, start: Option<Principal>, limit: u64)
        -> (r: Result<(Vec<Principal>, Option<Principal>), String>)
        ensures
            limit > MAX_FOLLOWS_PER_PAGE ==> (r matches Err(e) && e@ == limit_message()),
            limit <= MAX_FOLLOWS_PER_PAGE && !self.users().contains_key(user_principal) ==> (r matches Err(e) && e@ == "User not found"@),
            limit <= MAX_FOLLOWS_PER_PAGE && self.users().contains_key(user_principal) ==> (r matches Ok(page) && {
                let s = self.users()[user_principal].following.seq();
                &&& page.0@ == page_items(s, start, limit as int)
                &&& page.1 == page_next(s, start, limit as int)
            }),
    {
        if limit > MAX_FOLLOWS_PER_PAGE {
            return Err(literal("Limit exceeds maximum of 100"));
        }
        match self.user_infos.get(&user_principal) {
            Some(u) => Ok(u.following.page(start, limit)),
            None => Err(literal("User not found")),
        }
    }

    /// How many followers the user has.
    pub fn get_followers_count(&self, user_principal: Principal) -> (r: Result<u64, String>)
        ensures
            self.users().contains_key(user_principal) ==> r == Ok::<u64, String>(self.users()[user_principal].followers.seq().len() as u64),
            self.users().contains_key(user_principal) ==> self.users()[user_principal].followers.seq().len() <= u64::MAX,
            !self.users().contains_key(user_principal) ==> (r matches Err(e) && e@ == "User not found"@),
    {
        match self.user_infos.get(&user_principal) {
            Some(u) => Ok(u.followers.len() as u64),
            None => Err(literal("User not found")),
        }
    }

    /// How many users the user follows.
    pub fn get_following_count(&self, user_principal: Principal) -> (r: Result<u64, String>)
        ensures
            self.users().contains_key(user_principal) ==> r == Ok::<u64, String>(self.users()[user_principal].following.seq().len() as u64),
            self.users().contains_key(user_principal) ==> self.users()[user_principal].following.seq().len() <= u64::MAX,
            !self.users().contains_key(user_principal) ==> (r matches Err(e) && e@ == "User not found"@),
    {
        match self.user_infos.get(&user_principal) {
            Some(u) => Ok(u.following.len() as u64),
            None => Err(literal("User not found")),
        }
    }

    /// Replaces the given fields of the user's profile.
    pub fn update_profile_details(&mut self, user_principal: Principal, details: ProfileUpdateDetails) -> (r: Result<(), String>)
        ensures
            final(self).version == old(self).version,
            !old(self).users().contains_key(user_principal) ==> not_found(r) && final(self).users() == old(self).users(),
            old(self).users().contains_key(user_principal) ==> {
                &&& r is Ok
                &&& final(self).users().contains_key(user_principal)
                &&& final(self).users() == old(self).users().insert(user_principal, final(self).users()[user_principal])
                &&& same_but_profile(old(self).users()[user_principal], final(self).users()[user_principal])
                &&& profile_updated(old(self).users()[user_principal].profile, details, final(self).users()[user_principal].profile)
            },
    {
        let ghost d = details;
        let mut u = match self.take_user(&user_principal) {
            Some(u) => u,
            None => return Err(literal("User not found")),
        };
        let ghost before = u;
        let ProfileUpdateDetails { bio, website_url, profile_picture_url } = details;
        if bio.is_some() {
            u.profile.bio = bio;
        }
        if website_url.is_some() {
            u.profile.website_url = website_url;
        }
        match profile_picture_url {
            Some(url) => {
                let nsfw_info = match &u.profile.profile_picture {
                    Some(p) => p.nsfw_info.duplicate(),
                    None => NSFWInfo::default(),
                };
                u.profile.profile_picture = Some(ProfilePictureData { url, nsfw_info });
            },
            None => {},
        }
        self.user_infos.insert(user_principal, u);
        proof {
            assert(self.users() =~= old(self).users().insert(user_principal, u));
        }
        Ok(())
    }

    /// Replaces the given fields of the user's profile, the picture whole.
    pub fn update_profile_details_v2(&mut self, user_principal: Principal, details: ProfileUpdateDetailsV2) -> (r: Result<(), String>)
        ensures
            final(self).version == old(self).version,
            !old(self).users().contains_key(user_principal) ==> not_found(r) && final(self).users() == old(self).users(),
            old(self).users().contains_key(user_principal) ==> {
                let p = old(self).users()[user_principal].profile;
                &&& r is Ok
                &&& final(self).users() == old(self).users().insert(user_principal, UserInfo {
                    profile: UserProfile {
                        bio: if details.bio is Some { details.bio } else { p.bio },
                        website_url: if details.website_url is Some { details.website_url } else { p.website_url },
                        profile_picture: if details.profile_picture is Some { details.profile_picture } else { p.profile_picture },
                        ..p
                    },
                    ..old(self).users()[user_principal]
                })
            },
    {
        let mut u = match self.take_user(&user_principal) {
            Some(u) => u,
            None => return Err(literal("User not found")),
        };
        let ProfileUpdateDetailsV2 { bio, website_url, profile_picture } = details;
        if bio.is_some() {
            u.profile.bio = bio;
        }
        if website_url.is_some() {
            u.profile.website_url = website_url;
        }
        if profile_picture.is_some() {
            u.profile.profile_picture = profile_picture;
        }
        self.user_infos.insert(user_principal, u);
        proof {
            assert(self.users() =~= old(self).users().insert(user_principal, u));
        }
        Ok(())
    }

    /// Sets the findings on the user's profile picture.
    pub fn update_profile_picture_nsfw_info(&mut self, user_principal: Principal, nsfw_info: NSFWInfo) -> (r: Result<(), String>)
        ensures
            final(self).version == old(self).version,
            !old(self).users().contains_key(user_principal) ==> not_found(r) && final(self).users() == old(self).users(),
            old(self).users().contains_key(user_principal) ==> {
                let u = old(self).users()[user_principal];
                match u.profile.profile_picture {
                    None => (r matches Err(e) && e@ == "User has no profile picture set"@) && final(self).users() == old(self).users(),
                    Some(pic) => r is Ok && final(self).users() == old(self).users().insert(user_principal, UserInfo {
                        profile: UserProfile {
                            profile_picture: Some(ProfilePictureData { url: pic.url, nsfw_info }),
                            ..u.profile
                        },
                        ..u
                    }),
                }
            },
    {
        let ghost old_map = self.users();
        let u = match self.take_user(&user_principal) {
            Some(u) => u,
            None => return Err(literal("User not found")),
        };
        match u.profile.profile_picture {
            Some(pic) => {
                let profile = UserProfile {
                    profile_picture: Some(ProfilePictureData { url: pic.url, nsfw_info }),
                    ..u.profile
                };
                let updated = UserInfo { profile, ..u };
                self.user_infos.insert(user_principal, updated);
                proof {
                    assert(self.users() =~= old_map.insert(user_principal, updated));
                }
                Ok(())
            },
            None => {
                let restored = UserInfo { profile: UserProfile { profile_picture: None, ..u.profile }, ..u };
                self.put_back(user_principal, restored, Ghost(old_map));
                Err(literal("User has no profile picture set"))
            },
        }
    }

    /// Sets whether the user is an AI influencer.
    pub fn update_profile_ai_influencer_status(&mut self, user_principal: Principal, is_ai_influencer: bool) -> (r: Result<(), String>)
        ensures
            final(self).version == old(self).version,
            !old(self).users().contains_key(user_principal) ==> not_found(r) && final(self).users() == old(self).users(),
            old(self).users().contains_key(user_principal) ==> r is Ok && final(self).users() == old(self).users().insert(
                user_principal,
                UserInfo {
                    profile: UserProfile { is_ai_influencer, ..old(self).users()[user_principal].profile },
                    ..old(self).users()[user_principal]
                },
            ),
    {
        let u = match self.take_user(&user_principal) {
            Some(u) => u,
            None => return Err(literal("User not found")),
        };
        let updated = UserInfo { profile: UserProfile { is_ai_influencer, ..u.profile }, ..u };
        self.user_infos.insert(user_principal, updated);
        proof {
            assert(self.users() =~= old(self).users().insert(user_principal, updated));
        }
        Ok(())
    }

    /// The list entries for `principals`, as `caller_principal` sees them:
    /// whether the caller follows each one and, if asked for, its picture URL.
    pub fn build_follower_items(&self, caller_principal: Principal, follower_principals: Vec<Principal>, include_profile_pics: bool)
        -> (r: Result<Vec<FollowerItem>, String>)
        ensures
            r matches Ok(items) && items@.len() == follower_principals@.len()
                && forall|i: int| 0 <= i < items@.len() ==> follower_item_for(
                    self.users(), caller_principal, follower_principals@[i], include_profile_pics, #[trigger] items@[i]),
    {
        Ok(self.items_for(caller_principal, &follower_principals, include_profile_pics))
    }

    /// The list entries for `principals`, as `caller_principal` sees them.
    pub fn build_following_items(&self, caller_principal: Principal, following_principals: Vec<Principal>, include_profile_pics: bool)
        -> (r: Result<Vec<FollowerItem>, String>)
        ensures
            r matches Ok(items) && items@.len() == following_principals@.len()
                && forall|i: int| 0 <= i < items@.len() ==> follower_item_for(
                    self.users(), caller_principal, following_principals@[i], include_profile_pics, #[trigger] items@[i]),
    {
        Ok(self.items_for(caller_principal, &following_principals, include_profile_pics))
    }

    fn items_for(&self, caller: Principal, principals: &Vec<Principal>, include_pics: bool) -> (items: Vec<FollowerItem>)
        ensures
            items@.len() == principals@.len(),
            forall|i: int| 0 <= i < items@.len() ==> follower_item_for(
                self.users(), caller, principals@[i], include_pics, #[trigger] items@[i]),
    {
        let caller_is_anonymous = caller.is_anonymous();
        let mut items: Vec<FollowerItem> = Vec::new();
        let mut i: usize = 0;
        while i < principals.len()
            invariant
                i <= principals@.len(),
                items@.len() == i,
                caller_is_anonymous == is_anonymous(caller),
                forall|j: int| 0 <= j < i ==> follower_item_for(
                    self.users(), caller, principals@[j], include_pics, #[trigger] items@[j]),
            decreases principals@.len() - i,
        {
            let p = principals[i];
            let caller_follows = if !caller_is_anonymous {
                match self.user_infos.get(&caller) {
                    Some(info) => info.following.contains(&p),
                    None => false,
                }
            } else {
                false
            };
            let profile_picture_url = if include_pics {
                match self.user_infos.get(&p) {
                    Some(info) => Self::url_of(&info.profile.profile_picture),
                    None => None,
                }
            } else {
                None
            };
            items.push(FollowerItem { principal_id: p, caller_follows, profile_picture_url });
            i = i + 1;
        }
        items
    }

    /// Puts the user on the given plan.
    pub fn change_subscription_plan(&mut self, user_principal: Principal, new_plan: SubscriptionPlan) -> (r: Result<(), String>)
        ensures
            final(self).version == old(self).version,
            !old(self).users().contains_key(user_principal) ==> not_found(r) && final(self).users() == old(self).users(),
            old(self).users().contains_key(user_principal) ==> r is Ok && final(self).users() == old(self).users().insert(
                user_principal,
                UserInfo {
                    profile: UserProfile { subscription_plan: new_plan, ..old(self).users()[user_principal].profile },
                    ..old(self).users()[user_principal]
                },
            ),
    {
        let u = match self.take_user(&user_principal) {
            Some(u) => u,
            None => return Err(literal("User not found")),
        };
        let updated = UserInfo { profile: UserProfile { subscription_plan: new_plan, ..u.profile }, ..u };
        self.user_infos.insert(user_principal, updated);
        proof {
            assert(self.users() =~= old(self).users().insert(user_principal, updated));
        }
        Ok(())
    }

    /// Takes free video credits from a Pro user.
    pub fn remove_pro_plan_free_video_credits(&mut self, user_principal: Principal, credits_to_remove: u32) -> (r: Result<(), String>)
        ensures
            final(self).version == old(self).version,
            !old(self).users().contains_key(user_principal) ==> not_found(r) && final(self).users() == old(self).users(),
            old(self).users().contains_key(user_principal) ==> {
                let u = old(self).users()[user_principal];
                match u.profile.subscription_plan {
                    SubscriptionPlan::Free => (r matches Err(e) && e@ == "User is on Free plan"@) && final(self).users() == old(self).users(),
                    SubscriptionPlan::Pro(pro) => if pro.free_video_credits_left < credits_to_remove {
                        (r matches Err(e) && e@ == "Not enough free video credits"@) && final(self).users() == old(self).users()
                    } else {
                        r is Ok && final(self).users() == old(self).users().insert(user_principal, UserInfo {
                            profile: UserProfile {
                                subscription_plan: SubscriptionPlan::Pro(crate::user_info::types::ProSubscription {
                                    free_video_credits_left: (pro.free_video_credits_left - credits_to_remove) as u32,
                                    ..pro
                                }),
                                ..u.profile
                            },
                            ..u
                        })
                    },
                }
            },
    {
        let ghost old_map = self.users();
        let u = match self.take_user(&user_principal) {
            Some(u) => u,
            None => return Err(literal("User not found")),
        };
        match u.profile.subscription_plan {
            SubscriptionPlan::Pro(pro) => {
                if pro.free_video_credits_left < credits_to_remove {
                    self.put_back(user_principal, u, Ghost(old_map));
                    return Err(literal("Not enough free video credits"));
                }
                let plan = SubscriptionPlan::Pro(crate::user_info::types::ProSubscription {
                    free_video_credits_left: pro.free_video_credits_left - credits_to_remove,
                    ..pro
                });
                let updated = UserInfo { profile: UserProfile { subscription_plan: plan, ..u.profile }, ..u };
                self.user_infos.insert(user_principal, updated);
                proof {
                    assert(self.users() =~= old_map.insert(user_principal, updated));
                }
                Ok(())
            },
            SubscriptionPlan::Free => {
                self.put_back(user_principal, u, Ghost(old_map));
                Err(literal("User is on Free plan"))
            },
        }
    }

    /// Gives free video credits to a Pro user.
    pub fn add_pro_plan_free_video_credits(&mut self, user_principal: Principal, credits_to_add: u32) -> (r: Result<(), String>)
        ensures
            final(self).version == old(self).version,
            !old(self).users().contains_key(user_principal) ==> not_found(r) && final(self).users() == old(self).users(),
            old(self).users().contains_key(user_principal) ==> {
                let u = old(self).users()[user_principal];
                match u.profile.subscription_plan {
                    SubscriptionPlan::Free => (r matches Err(e) && e@ == "User is on Free plan"@) && final(self).users() == old(self).users(),
                    SubscriptionPlan::Pro(pro) => if pro.free_video_credits_left + credits_to_add > u32::MAX {
                        (r matches Err(e) && e@ == "Overflow when adding free credits"@) && final(self).users() == old(self).users()
                    } else {
                        r is Ok && final(self).users() == old(self).users().insert(user_principal, UserInfo {
                            profile: UserProfile {
                                subscription_plan: SubscriptionPlan::Pro(crate::user_info::types::ProSubscription {
                                    free_video_credits_left: (pro.free_video_credits_left + credits_to_add) as u32,
                                    ..pro
                                }),
                                ..u.profile
                            },
                            ..u
                        })
                    },
                }
            },
    {
        let ghost old_map = self.users();
        let u = match self.take_user(&user_principal) {
            Some(u) => u,
            None => return Err(literal("User not found")),
        };
        match u.profile.subscription_plan {
            SubscriptionPlan::Pro(pro) => {
                match pro.free_video_credits_left.checked_add(credits_to_add) {
                    Some(new_credits) => {
                        let plan = SubscriptionPlan::Pro(crate::user_info::types::ProSubscription {
                            free_video_credits_left: new_credits,
                            ..pro
                        });
                        let updated = UserInfo { profile: UserProfile { subscription_plan: plan, ..u.profile }, ..u };
                        self.user_infos.insert(user_principal, updated);
                        proof {
                            assert(self.users() =~= old_map.insert(user_principal, updated));
                        }
                        Ok(())
                    },
                    None => {
                        self.put_back(user_principal, u, Ghost(old_map));
                        Err(literal("Overflow when adding free credits"))
                    },
                }
            },
            SubscriptionPlan::Free => {
                self.put_back(user_principal, u, Ghost(old_map));
                Err(literal("User is on Free plan"))
            },
        }
    }
}

impl Default for CanisterData {
    /// No accounts, at version "v1.0.0".
    fn default() -> (d: CanisterData)
        ensures
            d.users() == Map::<Principal, UserInfo>::empty(),
            d.version@ == "v1.0.0"@,
    {
        CanisterData { version: literal("v1.0.0"), user_infos: KeyedVec::new() }
    }
}

} // verus!
