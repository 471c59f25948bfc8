use hot_or_not_backend::principal::Principal;
use hot_or_not_backend::user_info::api::{delete_user_info, get_followers, get_following};
use hot_or_not_backend::user_info::canister::CanisterData;
use hot_or_not_backend::user_info::types::{
    NSFWInfo, ProSubscription, ProfileUpdateDetails, SessionType, SubscriptionPlan,
};

fn p(n: u8) -> Principal {
    Principal::from_slice(&[n, n, n])
}

fn data_with(users: &[Principal]) -> CanisterData {
    let mut data = CanisterData::default();
    for u in users {
        data.register_authenticated_user(*u, true, 7).unwrap();
    }
    data
}

#[test]
fn registration_makes_a_fresh_account_once() {
    let mut data = CanisterData::default();
    data.register_new_user(p(1), 10).unwrap();
    assert_eq!(data.get_session_type_for_user(p(1)), Ok(SessionType::AnonymousSession));
    // Registering again keeps the account as it was.
    data.register_authenticated_user(p(1), true, 20).unwrap();
    assert_eq!(data.get_session_type_for_user(p(1)), Ok(SessionType::AnonymousSession));
    data.update_session_type_for_user(p(1), SessionType::RegisteredSession).unwrap();
    assert_eq!(data.get_session_type_for_user(p(1)), Ok(SessionType::RegisteredSession));
    assert_eq!(data.get_session_type_for_user(p(2)).unwrap_err(), "User not found");
}

#[test]
fn bots_belong_to_their_owner() {
    let mut data = data_with(&[p(1)]);
    data.register_authenticated_user_v2(p(1), true, Some(p(2)), 5).unwrap();
    assert_eq!(data.get_bots_by_owner(p(1)), vec![p(2)]);
    // A bot cannot own a bot, and an unknown owner is refused.
    assert_eq!(data.register_authenticated_user_v2(p(2), true, Some(p(3)), 5).unwrap_err(), "Bots cannot own other bots");
    assert_eq!(data.register_authenticated_user_v2(p(9), true, Some(p(4)), 5).unwrap_err(), "Owner not found");
    // Only the owner may delete the bot.
    data.register_authenticated_user(p(5), true, 5).unwrap();
    assert!(data.delete_bot_account(p(2), p(5)).is_err());
    assert_eq!(data.delete_bot_account(p(2), p(1)), Ok(()));
    assert!(data.get_bots_by_owner(p(1)).is_empty());
    assert_eq!(data.get_session_type_for_user(p(2)).unwrap_err(), "User not found");
}

#[test]
fn deleting_a_person_deletes_its_bots() {
    let mut data = data_with(&[p(1)]);
    data.register_authenticated_user_v2(p(1), true, Some(p(2)), 5).unwrap();
    assert_eq!(delete_user_info(&mut data, p(3), false, p(1)).unwrap_err(), "Unauthorized");
    assert_eq!(delete_user_info(&mut data, p(1), false, p(1)), Ok(()));
    assert!(data.get_session_type_for_user(p(1)).is_err());
    assert!(data.get_session_type_for_user(p(2)).is_err());
    assert_eq!(delete_user_info(&mut data, p(3), true, p(1)).unwrap_err(), "User not found");
}

#[test]
fn follow_then_unfollow_restores_the_follow_sets() {
    let mut data = data_with(&[p(1), p(2), p(3)]);
    assert_eq!(data.follow_user(p(1), p(1)).unwrap_err(), "Cannot follow yourself");
    assert_eq!(data.follow_user(p(1), p(9)).unwrap_err(), "Target user not found");
    assert_eq!(data.follow_user(p(9), p(1)).unwrap_err(), "Follower not found");
    data.follow_user(p(1), p(2)).unwrap();
    assert_eq!(data.follow_user(p(1), p(2)).unwrap_err(), "Already following this user");
    assert_eq!(data.get_followers_count(p(2)), Ok(1));
    assert_eq!(data.get_following_count(p(1)), Ok(1));
    data.unfollow_user(p(1), p(2)).unwrap();
    assert_eq!(data.get_followers_count(p(2)), Ok(0));
    assert_eq!(data.get_following_count(p(1)), Ok(0));
    assert_eq!(data.unfollow_user(p(1), p(2)).unwrap_err(), "Not following this user");
}

#[test]
fn follower_pages_are_in_principal_order() {
    let mut data = data_with(&[p(1), p(2), p(3), p(4)]);
    data.follow_user(p(4), p(1)).unwrap();
    data.follow_user(p(2), p(1)).unwrap();
    data.follow_user(p(3), p(1)).unwrap();
    data.follow_user(p(2), p(3)).unwrap();
    let (page, next) = data.get_followers_paginated(p(1), None, 2).unwrap();
    assert_eq!(page, vec![p(2), p(3)]);
    assert_eq!(next, Some(p(4)));
    let (page, next) = data.get_followers_paginated(p(1), next, 2).unwrap();
    assert_eq!(page, vec![p(4)]);
    assert_eq!(next, None);
    assert_eq!(data.get_followers_paginated(p(1), None, 101).unwrap_err(), "Limit exceeds maximum of 100");

    // Seen by p(2), who follows p(3) but not p(4).
    let resp = get_followers(&data, p(2), p(1), None, 10, None).unwrap();
    assert_eq!(resp.total_count, 3);
    assert_eq!(resp.next_cursor, None);
    let follows: Vec<bool> = resp.followers.iter().map(|i| i.caller_follows).collect();
    assert_eq!(follows, vec![false, true, false]);
    assert!(resp.followers.iter().all(|i| i.profile_picture_url.is_none()));

    let resp = get_following(&data, p(2), p(2), None, 10, Some(true)).unwrap();
    assert_eq!(resp.total_count, 2);
    assert_eq!(resp.following.len(), 2);
    assert!(get_following(&data, p(2), p(9), None, 10, None).is_err());
}

#[test]
fn profile_updates_keep_what_is_left_out() {
    let mut data = data_with(&[p(1)]);
    let details = ProfileUpdateDetails {
        bio: Some("hello".to_string()),
        website_url: None,
        profile_picture_url: Some("https://pic".to_string()),
    };
    data.update_profile_details(p(1), details).unwrap();
    let v6 = data.get_profile_details_for_user_v6(p(1), p(1)).unwrap();
    assert_eq!(v6.bio, Some("hello".to_string()));
    assert_eq!(v6.website_url, None);
    let pic = v6.profile_picture.unwrap();
    assert_eq!(pic.url, "https://pic");
    assert!(!pic.nsfw_info.is_nsfw);
    // A picture's findings can then be set.
    let info = NSFWInfo { is_nsfw: true, nsfw_ec: "x".to_string(), nsfw_gore: "y".to_string(), csam_detected: false };
    data.update_profile_picture_nsfw_info(p(1), info).unwrap();
    let v7 = data.get_profile_details_for_user_v7(p(1), p(2)).unwrap();
    assert!(v7.profile_picture.unwrap().nsfw_info.is_nsfw);
    assert_eq!(v7.caller_follows_user, Some(false));
    // Without a picture there is nothing to mark.
    let mut other = data_with(&[p(2)]);
    let info = NSFWInfo { is_nsfw: true, nsfw_ec: String::new(), nsfw_gore: String::new(), csam_detected: false };
    assert_eq!(other.update_profile_picture_nsfw_info(p(2), info).unwrap_err(), "User has no profile picture set");
}

#[test]
fn relation_is_none_for_oneself() {
    let mut data = data_with(&[p(1), p(2)]);
    data.follow_user(p(2), p(1)).unwrap();
    let own = data.get_profile_details_v4(p(1), p(1)).unwrap();
    assert_eq!(own.caller_follows_user, None);
    assert_eq!(own.user_follows_caller, None);
    let seen = data.get_profile_details_for_user_v5(p(1), p(2)).unwrap();
    assert_eq!(seen.caller_follows_user, Some(true));
    assert_eq!(seen.user_follows_caller, Some(false));
    assert_eq!(seen.followers_count, 1);
}

#[test]
fn pro_credits_are_added_and_removed_with_checks() {
    let mut data = data_with(&[p(1)]);
    assert_eq!(data.add_pro_plan_free_video_credits(p(1), 5).unwrap_err(), "User is on Free plan");
    let plan = SubscriptionPlan::Pro(ProSubscription { free_video_credits_left: 3, total_video_credits_alloted: 10 });
    data.change_subscription_plan(p(1), plan).unwrap();
    data.add_pro_plan_free_video_credits(p(1), 2).unwrap();
    data.remove_pro_plan_free_video_credits(p(1), 4).unwrap();
    let v5 = data.get_profile_details_for_user_v5(p(1), p(1)).unwrap();
    assert_eq!(
        v5.subscription_plan,
        SubscriptionPlan::Pro(ProSubscription { free_video_credits_left: 1, total_video_credits_alloted: 10 })
    );
    assert_eq!(data.remove_pro_plan_free_video_credits(p(1), 2).unwrap_err(), "Not enough free video credits");
    assert_eq!(data.add_pro_plan_free_video_credits(p(1), u32::MAX).unwrap_err(), "Overflow when adding free credits");
    assert_eq!(data.change_subscription_plan(p(9), SubscriptionPlan::Free).unwrap_err(), "User not found");
}

#[test]
fn ai_influencer_flag_and_access_time() {
    let mut data = data_with(&[p(1)]);
    data.update_profile_ai_influencer_status(p(1), true).unwrap();
    assert!(data.get_profile_details_for_user_v6(p(1), p(1)).unwrap().is_ai_influencer);
    assert_eq!(data.update_last_access_time_for_user(p(1), 99), Ok(()));
    assert!(data.update_last_access_time_for_user(p(2), 99).is_err());
}
