use hot_or_not_backend::daily_missions::mission_utils::{
    add_pending_reward, calculate_hours_until_next_day, generate_reward_id, get_day_from_timestamp,
    should_reset_daily_counter, update_ai_video_count, update_login_streak, update_referral_count,
};
use hot_or_not_backend::daily_missions::model::{
    GameStreak, GenerateAiVideoCount, LoginStreak, PendingReward, ReferralCount, ReferredUser, RewardType,
    UserDailyMissions, AI_VIDEO_GENERATION_REWARD, AI_VIDEO_TARGET, LOGIN_STREAK_REWARD, LOGIN_STREAK_TARGET,
    REFERRAL_TARGET,
};
use hot_or_not_backend::daily_missions::progress_utils::{
    build_mission_progress, calculate_total_pending_rewards, count_pending_rewards_by_type,
    find_pending_reward_by_id, get_latest_reward_timestamp, has_claimable_rewards, remove_pending_reward_by_id,
    validate_mission_progress,
};
use hot_or_not_backend::daily_missions::time_utils::{
    can_claim_reward, days_between, format_duration_hours, is_same_day, is_yesterday,
};
use hot_or_not_backend::principal::Principal;

const NANOS_PER_SECOND: u64 = 1_000_000_000;

/// The instant one million seconds after the epoch.
fn create_test_time() -> u64 {
    1_000_000 * NANOS_PER_SECOND
}

/// The start of the given day after the epoch.
fn day_time(days: u64) -> u64 {
    days * 24 * 60 * 60 * NANOS_PER_SECOND
}

fn secs(s: u64) -> u64 {
    s * NANOS_PER_SECOND
}

#[test]
fn test_update_ai_video_count_function() {
    let mut ai_video_count = GenerateAiVideoCount::default();
    let now = create_test_time();

    let (success, message) = update_ai_video_count(&mut ai_video_count, now);
    assert!(success);
    assert_eq!(ai_video_count.videos_generated_total, 1);
    assert!(!ai_video_count.completed);
    assert!(message.contains("AI videos generated: 1/3"));

    let (success, _) = update_ai_video_count(&mut ai_video_count, now);
    assert!(success);
    assert_eq!(ai_video_count.videos_generated_total, 2);
    assert!(!ai_video_count.completed);

    let (success, message) = update_ai_video_count(&mut ai_video_count, now);
    assert!(success);
    assert_eq!(ai_video_count.videos_generated_total, 3);
    assert!(ai_video_count.completed);
    assert!(message.contains("Mission Complete!"));

    let (success, message) = update_ai_video_count(&mut ai_video_count, now);
    assert!(!success);
    assert!(message.contains("already completed"));
    assert!(message.contains("No more rewards available"));
}

#[test]
fn test_update_referral_count_function() {
    let mut referral_count = ReferralCount::default();
    let now = create_test_time();
    let user1 = Principal::from_slice(&[1, 2, 3, 4]);
    let user2 = Principal::from_slice(&[2, 3, 4, 5]);
    let user3 = Principal::from_slice(&[3, 4, 5, 6]);

    let (success, message) = update_referral_count(&mut referral_count, user1, now);
    assert!(success);
    assert_eq!(referral_count.referrals_made_total, 1);
    assert!(!referral_count.completed);
    assert!(message.contains("Referrals made: 1/3"));
    assert_eq!(referral_count.referred_users.len(), 1);

    let (success, message) = update_referral_count(&mut referral_count, user1, now);
    assert!(!success);
    assert!(message.contains("already referred"));
    assert_eq!(referral_count.referrals_made_total, 1);
    assert_eq!(referral_count.referred_users.len(), 1);

    let (success, _) = update_referral_count(&mut referral_count, user2, now);
    assert!(success);
    assert_eq!(referral_count.referrals_made_total, 2);
    assert!(!referral_count.completed);
    assert_eq!(referral_count.referred_users.len(), 2);

    let (success, message) = update_referral_count(&mut referral_count, user3, now);
    assert!(success);
    assert_eq!(referral_count.referrals_made_total, 3);
    assert!(referral_count.completed);
    assert!(message.contains("Mission Complete!"));
    assert_eq!(referral_count.referred_users.len(), 3);

    let user4 = Principal::from_slice(&[4, 5, 6, 7]);
    let (success, message) = update_referral_count(&mut referral_count, user4, now);
    assert!(!success);
    assert!(message.contains("already completed"));
    assert!(message.contains("No more rewards available"));
    assert_eq!(referral_count.referrals_made_total, 3);
    assert_eq!(referral_count.referred_users.len(), 3);
}

#[test]
fn test_ai_video_count_tracks_total_correctly() {
    let mut ai_video_count = GenerateAiVideoCount::default();
    let now = create_test_time();

    assert_eq!(ai_video_count.videos_generated_total, 0);
    assert_eq!(ai_video_count.total_videos_generated, 0);

    update_ai_video_count(&mut ai_video_count, now);
    assert_eq!(ai_video_count.videos_generated_total, 1);
    assert_eq!(ai_video_count.total_videos_generated, 1);

    update_ai_video_count(&mut ai_video_count, now);
    assert_eq!(ai_video_count.videos_generated_total, 2);
    assert_eq!(ai_video_count.total_videos_generated, 2);

    update_ai_video_count(&mut ai_video_count, now);
    assert_eq!(ai_video_count.videos_generated_total, 3);
    assert_eq!(ai_video_count.total_videos_generated, 3);
    assert!(ai_video_count.completed);
}

#[test]
fn test_referral_count_tracks_total_correctly() {
    let mut referral_count = ReferralCount::default();
    let now = create_test_time();
    let user1 = Principal::from_slice(&[1, 2, 3, 4]);
    let user2 = Principal::from_slice(&[2, 3, 4, 5]);
    let user3 = Principal::from_slice(&[3, 4, 5, 6]);

    assert_eq!(referral_count.referrals_made_total, 0);
    assert_eq!(referral_count.total_referrals_made, 0);

    update_referral_count(&mut referral_count, user1, now);
    assert_eq!(referral_count.referrals_made_total, 1);
    assert_eq!(referral_count.total_referrals_made, 1);

    update_referral_count(&mut referral_count, user2, now);
    assert_eq!(referral_count.referrals_made_total, 2);
    assert_eq!(referral_count.total_referrals_made, 2);

    update_referral_count(&mut referral_count, user3, now);
    assert_eq!(referral_count.referrals_made_total, 3);
    assert_eq!(referral_count.total_referrals_made, 3);
    assert!(referral_count.completed);
}

#[test]
fn test_referral_users_list_management() {
    let mut referral_count = ReferralCount::default();
    let now = create_test_time();
    let user1 = Principal::from_slice(&[1, 2, 3, 4]);
    let user2 = Principal::from_slice(&[2, 3, 4, 5]);

    assert!(referral_count.referred_users.is_empty());

    update_referral_count(&mut referral_count, user1, now);
    assert_eq!(referral_count.referred_users.len(), 1);
    assert_eq!(referral_count.referred_users[0].principal_id, user1);
    assert_eq!(referral_count.referred_users[0].referred_at, now);
    assert!(referral_count.referred_users[0].is_active);

    update_referral_count(&mut referral_count, user2, now);
    assert_eq!(referral_count.referred_users.len(), 2);
    assert_eq!(referral_count.referred_users[1].principal_id, user2);
    assert_eq!(referral_count.referred_users[1].referred_at, now);
    assert!(referral_count.referred_users[1].is_active);

    let initial_len = referral_count.referred_users.len();
    let (success, _) = update_referral_count(&mut referral_count, user1, now);
    assert!(!success);
    assert_eq!(referral_count.referred_users.len(), initial_len);
}

#[test]
fn test_mission_completion_states() {
    let mut ai_video_count = GenerateAiVideoCount::default();
    let mut referral_count = ReferralCount::default();
    let now = create_test_time();

    assert!(!ai_video_count.completed);
    assert!(!referral_count.completed);

    for _ in 0..3 {
        update_ai_video_count(&mut ai_video_count, now);
    }
    assert!(ai_video_count.completed);

    let users = [
        Principal::from_slice(&[1, 2, 3, 4]),
        Principal::from_slice(&[2, 3, 4, 5]),
        Principal::from_slice(&[3, 4, 5, 6]),
    ];
    for user in users.iter() {
        update_referral_count(&mut referral_count, *user, now);
    }
    assert!(referral_count.completed);

    let (success, _) = update_ai_video_count(&mut ai_video_count, now);
    assert!(!success);

    let user4 = Principal::from_slice(&[4, 5, 6, 7]);
    let (success, _) = update_referral_count(&mut referral_count, user4, now);
    assert!(!success);
}

#[test]
fn test_pending_rewards_generation() {
    let mut missions = UserDailyMissions::default();
    let user = Principal::from_slice(&[1, 2, 3, 4]);
    let now = create_test_time();

    assert!(missions.pending_rewards.is_empty());

    add_pending_reward(&mut missions, &user, RewardType::LoginStreak, LOGIN_STREAK_REWARD, 7, now);

    assert_eq!(missions.pending_rewards.len(), 1);
    assert_eq!(missions.pending_rewards[0].reward_type, RewardType::LoginStreak);
    assert_eq!(missions.pending_rewards[0].amount, LOGIN_STREAK_REWARD);
    assert_eq!(missions.pending_rewards[0].mission_day, 7);
    assert_eq!(missions.pending_rewards[0].earned_at, now);

    add_pending_reward(&mut missions, &user, RewardType::AiVideoGeneration, AI_VIDEO_GENERATION_REWARD, 1, now);

    assert_eq!(missions.pending_rewards.len(), 2);
    assert_eq!(missions.pending_rewards[1].reward_type, RewardType::AiVideoGeneration);
    assert_eq!(missions.pending_rewards[1].amount, AI_VIDEO_GENERATION_REWARD);
}

#[test]
fn test_reward_id_generation() {
    let user = Principal::from_slice(&[1, 2, 3, 4]);
    let now = create_test_time();

    let id1 = generate_reward_id(&user, &RewardType::LoginStreak, now);
    let id2 = generate_reward_id(&user, &RewardType::GameCompletion, now);

    assert_ne!(id1, id2);
    assert!(id1.contains("LoginStreak"));
    assert!(id2.contains("GameCompletion"));
}

#[test]
fn test_ai_video_mission_default_state() {
    let ai_video_count = GenerateAiVideoCount::default();

    assert_eq!(ai_video_count.videos_generated_total, 0);
    assert_eq!(ai_video_count.target_videos, AI_VIDEO_TARGET);
    assert_eq!(ai_video_count.completed, false);
    assert_eq!(ai_video_count.reward_claimed, false);
    assert_eq!(ai_video_count.total_videos_generated, 0);
}

#[test]
fn test_referral_mission_default_state() {
    let referral_count = ReferralCount::default();

    assert_eq!(referral_count.referrals_made_total, 0);
    assert_eq!(referral_count.target_referrals, REFERRAL_TARGET);
    assert_eq!(referral_count.completed, false);
    assert_eq!(referral_count.reward_claimed, false);
    assert_eq!(referral_count.total_referrals_made, 0);
    assert!(referral_count.referred_users.is_empty());
}

#[test]
fn test_ai_video_mission_progress_tracking() {
    let mut ai_video_count = GenerateAiVideoCount::default();

    assert!(!ai_video_count.completed);

    ai_video_count.videos_generated_total += 1;
    ai_video_count.total_videos_generated += 1;
    assert!(!ai_video_count.completed);
    assert_eq!(ai_video_count.videos_generated_total, 1);

    ai_video_count.videos_generated_total += 1;
    ai_video_count.total_videos_generated += 1;
    assert!(!ai_video_count.completed);
    assert_eq!(ai_video_count.videos_generated_total, 2);

    ai_video_count.videos_generated_total += 1;
    ai_video_count.total_videos_generated += 1;
    if ai_video_count.videos_generated_total >= ai_video_count.target_videos {
        ai_video_count.completed = true;
    }

    assert!(ai_video_count.completed);
    assert_eq!(ai_video_count.videos_generated_total, 3);
    assert_eq!(ai_video_count.total_videos_generated, 3);
}

#[test]
fn test_referral_mission_progress_tracking() {
    let mut referral_count = ReferralCount::default();
    let now = create_test_time();
    let user1 = Principal::from_slice(&[1, 2, 3, 4]);
    let user2 = Principal::from_slice(&[2, 3, 4, 5]);
    let user3 = Principal::from_slice(&[3, 4, 5, 6]);

    assert!(!referral_count.completed);

    referral_count.referrals_made_total += 1;
    referral_count.total_referrals_made += 1;
    referral_count.referred_users.push(ReferredUser { principal_id: user1, referred_at: now, is_active: true });
    assert!(!referral_count.completed);
    assert_eq!(referral_count.referrals_made_total, 1);

    referral_count.referrals_made_total += 1;
    referral_count.total_referrals_made += 1;
    referral_count.referred_users.push(ReferredUser { principal_id: user2, referred_at: now, is_active: true });
    assert!(!referral_count.completed);
    assert_eq!(referral_count.referrals_made_total, 2);

    referral_count.referrals_made_total += 1;
    referral_count.total_referrals_made += 1;
    referral_count.referred_users.push(ReferredUser { principal_id: user3, referred_at: now, is_active: true });
    if referral_count.referrals_made_total >= referral_count.target_referrals {
        referral_count.completed = true;
    }

    assert!(referral_count.completed);
    assert_eq!(referral_count.referrals_made_total, 3);
    assert_eq!(referral_count.total_referrals_made, 3);
    assert_eq!(referral_count.referred_users.len(), 3);
}

#[test]
fn test_ai_video_mission_reward_claiming() {
    let mut ai_video_count = GenerateAiVideoCount::default();

    ai_video_count.videos_generated_total = AI_VIDEO_TARGET;
    ai_video_count.total_videos_generated = AI_VIDEO_TARGET;
    ai_video_count.completed = true;

    assert!(ai_video_count.completed);
    assert!(!ai_video_count.reward_claimed);

    ai_video_count.reward_claimed = true;

    assert!(ai_video_count.reward_claimed);
}

#[test]
fn test_referral_mission_reward_claiming() {
    let mut referral_count = ReferralCount::default();

    referral_count.referrals_made_total = REFERRAL_TARGET;
    referral_count.total_referrals_made = REFERRAL_TARGET;
    referral_count.completed = true;

    assert!(referral_count.completed);
    assert!(!referral_count.reward_claimed);

    referral_count.reward_claimed = true;

    assert!(referral_count.reward_claimed);
}

#[test]
fn test_ai_video_mission_no_reset_after_completion() {
    let mut ai_video_count = GenerateAiVideoCount::default();

    ai_video_count.videos_generated_total = AI_VIDEO_TARGET;
    ai_video_count.completed = true;
    ai_video_count.reward_claimed = true;

    assert!(ai_video_count.completed);
    assert!(ai_video_count.reward_claimed);
    assert_eq!(ai_video_count.videos_generated_total, AI_VIDEO_TARGET);
}

#[test]
fn test_referral_mission_no_reset_after_completion() {
    let mut referral_count = ReferralCount::default();
    let now = create_test_time();
    let user1 = Principal::from_slice(&[1, 2, 3, 4]);

    referral_count.referrals_made_total = REFERRAL_TARGET;
    referral_count.completed = true;
    referral_count.reward_claimed = true;
    referral_count.referred_users.push(ReferredUser { principal_id: user1, referred_at: now, is_active: true });

    assert!(referral_count.completed);
    assert!(referral_count.reward_claimed);
    assert_eq!(referral_count.referrals_made_total, REFERRAL_TARGET);
    assert_eq!(referral_count.referred_users.len(), 1);
}

#[test]
fn test_user_daily_missions_integration() {
    let mut missions = UserDailyMissions::default();
    let now = create_test_time();

    assert!(!missions.ai_video_count.completed);
    assert!(!missions.referral_count.completed);

    missions.ai_video_count.videos_generated_total = AI_VIDEO_TARGET;
    missions.ai_video_count.completed = true;
    missions.ai_video_count.reward_claimed = true;
    missions.last_updated = now;

    assert!(missions.ai_video_count.completed);
    assert!(!missions.referral_count.completed);

    missions.referral_count.referrals_made_total = REFERRAL_TARGET;
    missions.referral_count.completed = true;
    missions.referral_count.reward_claimed = true;

    assert!(missions.ai_video_count.completed);
    assert!(missions.referral_count.completed);
}

#[test]
fn test_duplicate_referral_prevention() {
    let mut referral_count = ReferralCount::default();
    let now = create_test_time();
    let user1 = Principal::from_slice(&[1, 2, 3, 4]);

    referral_count.referred_users.push(ReferredUser { principal_id: user1, referred_at: now, is_active: true });

    let already_referred = referral_count.referred_users.iter().any(|u| u.principal_id == user1);

    assert!(already_referred);
}

#[test]
fn test_mission_completion_thresholds() {
    let mut ai_video_count = GenerateAiVideoCount::default();

    ai_video_count.videos_generated_total = AI_VIDEO_TARGET - 1;
    assert!(!ai_video_count.completed);

    ai_video_count.videos_generated_total = AI_VIDEO_TARGET;
    if ai_video_count.videos_generated_total >= ai_video_count.target_videos {
        ai_video_count.completed = true;
    }
    assert!(ai_video_count.completed);

    let mut referral_count = ReferralCount::default();

    referral_count.referrals_made_total = REFERRAL_TARGET - 1;
    assert!(!referral_count.completed);

    referral_count.referrals_made_total = REFERRAL_TARGET;
    if referral_count.referrals_made_total >= referral_count.target_referrals {
        referral_count.completed = true;
    }
    assert!(referral_count.completed);
}

#[test]
fn test_referred_user_structure() {
    let now = create_test_time();
    let user1 = Principal::from_slice(&[1, 2, 3, 4]);

    let referred_user = ReferredUser { principal_id: user1, referred_at: now, is_active: true };

    assert_eq!(referred_user.principal_id, user1);
    assert_eq!(referred_user.referred_at, now);
    assert!(referred_user.is_active);
}

#[test]
fn test_mission_state_transitions() {
    let mut ai_video_count = GenerateAiVideoCount::default();

    assert!(!ai_video_count.completed);
    assert!(!ai_video_count.reward_claimed);

    ai_video_count.videos_generated_total = AI_VIDEO_TARGET;
    ai_video_count.completed = true;
    assert!(ai_video_count.completed);
    assert!(!ai_video_count.reward_claimed);

    ai_video_count.reward_claimed = true;
    assert!(ai_video_count.completed);
    assert!(ai_video_count.reward_claimed);

    let mut referral_count = ReferralCount::default();

    assert!(!referral_count.completed);
    assert!(!referral_count.reward_claimed);

    referral_count.referrals_made_total = REFERRAL_TARGET;
    referral_count.completed = true;
    assert!(referral_count.completed);
    assert!(!referral_count.reward_claimed);

    referral_count.reward_claimed = true;
    assert!(referral_count.completed);
    assert!(referral_count.reward_claimed);
}

#[test]
fn test_update_login_streak_first_login() {
    let mut streak = LoginStreak::default();
    let now = day_time(1);

    let (success, message) = update_login_streak(&mut streak, now);

    assert!(success);
    assert_eq!(streak.current_streak, 1);
    assert_eq!(streak.max_streak, 1);
    assert!(message.contains("Login streak updated to 1 days"));
}

#[test]
fn test_update_login_streak_consecutive_days() {
    let mut streak = LoginStreak {
        current_streak: 1,
        max_streak: 1,
        last_login_date: Some(day_time(1)),
        streak_start_date: Some(day_time(1)),
        claimed_rewards: vec![],
        can_claim_today: false,
    };
    let now = day_time(2);

    let (success, message) = update_login_streak(&mut streak, now);

    assert!(success);
    assert_eq!(streak.current_streak, 2);
    assert_eq!(streak.max_streak, 2);
    assert!(message.contains("Login streak updated to 2 days"));
}

#[test]
fn test_update_login_streak_same_day() {
    let day1 = day_time(1);
    let mut streak = LoginStreak {
        current_streak: 1,
        max_streak: 1,
        last_login_date: Some(day1),
        streak_start_date: Some(day1),
        claimed_rewards: vec![],
        can_claim_today: false,
    };
    let now = day1 + secs(3600);

    let (success, message) = update_login_streak(&mut streak, now);

    assert!(!success);
    assert_eq!(streak.current_streak, 1);
    assert_eq!(message, "Already logged in today");
}

#[test]
fn test_update_login_streak_broken() {
    let mut streak = LoginStreak {
        current_streak: 5,
        max_streak: 5,
        last_login_date: Some(day_time(1)),
        streak_start_date: Some(day_time(1)),
        claimed_rewards: vec![],
        can_claim_today: false,
    };
    let now = day_time(5);

    let (success, message) = update_login_streak(&mut streak, now);

    assert!(success);
    assert_eq!(streak.current_streak, 1);
    assert_eq!(streak.max_streak, 5);
    assert!(message.contains("Login streak updated to 1 days"));
}

#[test]
fn test_update_ai_video_count_completion() {
    let mut count = GenerateAiVideoCount {
        videos_generated_total: 2,
        total_videos_generated: 2,
        target_videos: 3,
        completed: false,
        reward_claimed: false,
    };
    let now = day_time(1);

    let (success, message) = update_ai_video_count(&mut count, now);

    assert!(success);
    assert_eq!(count.videos_generated_total, 3);
    assert_eq!(count.total_videos_generated, 3);
    assert!(count.completed);
    assert!(message.contains("Mission Complete!"));
}

#[test]
fn test_update_ai_video_count_already_completed() {
    let mut count = GenerateAiVideoCount {
        videos_generated_total: 3,
        total_videos_generated: 3,
        target_videos: 3,
        completed: true,
        reward_claimed: false,
    };
    let now = day_time(1);

    let (success, message) = update_ai_video_count(&mut count, now);

    assert!(!success);
    assert!(message.contains("already completed"));
    assert_eq!(count.videos_generated_total, 3);
}

#[test]
fn test_get_day_from_timestamp() {
    let epoch = 0u64;
    let day1 = epoch + secs(24 * 60 * 60);
    let day2 = epoch + secs(2 * 24 * 60 * 60);

    assert_eq!(get_day_from_timestamp(epoch), 0);
    assert_eq!(get_day_from_timestamp(day1), 1);
    assert_eq!(get_day_from_timestamp(day2), 2);
}

#[test]
fn test_should_reset_daily_counter() {
    let day1 = day_time(1);
    let day2 = day_time(2);

    assert!(should_reset_daily_counter(&None, day1));
    assert!(!should_reset_daily_counter(&Some(day1), day1));
    assert!(should_reset_daily_counter(&Some(day1), day2));
}

#[test]
fn test_calculate_hours_until_next_day() {
    let start_of_day = day_time(1);
    let hours = calculate_hours_until_next_day(start_of_day);
    assert_eq!(hours, 24);

    let mid_day = start_of_day + secs(12 * 60 * 60);
    let hours = calculate_hours_until_next_day(mid_day);
    assert_eq!(hours, 12);
}

#[test]
fn test_is_same_day() {
    let base_time = secs(24 * 60 * 60);
    let same_day = base_time + secs(3600);
    let different_day = base_time + secs(24 * 60 * 60);

    assert!(is_same_day(base_time, same_day));
    assert!(!is_same_day(base_time, different_day));
}

#[test]
fn test_is_yesterday() {
    let today = secs(2 * 24 * 60 * 60);
    let yesterday = secs(24 * 60 * 60);
    let two_days_ago = 0u64;

    assert!(is_yesterday(yesterday, today));
    assert!(!is_yesterday(two_days_ago, today));
}

#[test]
fn test_days_between() {
    let start = 0u64;
    let end = secs(3 * 24 * 60 * 60);

    assert_eq!(days_between(start, end), 3);
    assert_eq!(days_between(end, start), 0);
}

#[test]
fn test_can_claim_reward() {
    assert!(can_claim_reward(10, 5, false));
    assert!(!can_claim_reward(3, 5, false));
    assert!(!can_claim_reward(10, 5, true));
}

#[test]
fn test_format_duration_hours() {
    assert_eq!(format_duration_hours(0), "Now");
    assert_eq!(format_duration_hours(1), "1 hour");
    assert_eq!(format_duration_hours(5), "5 hours");
    assert_eq!(format_duration_hours(24), "1 day");
    assert_eq!(format_duration_hours(25), "1 days 1 hours");
    assert_eq!(format_duration_hours(48), "2 days");
}

/// The missions used by the progress tests.
fn create_test_missions() -> UserDailyMissions {
    UserDailyMissions {
        login_streak: LoginStreak {
            current_streak: 5,
            max_streak: 10,
            last_login_date: Some(day_time(1)),
            streak_start_date: Some(day_time(1)),
            claimed_rewards: vec![],
            can_claim_today: true,
        },
        game_streak: GameStreak {
            games_played_today: 3,
            target_games: 5,
            claimed_today: false,
            last_reset_date: Some(day_time(1)),
            total_games_completed: 0,
        },
        ai_video_count: GenerateAiVideoCount {
            videos_generated_total: 2,
            total_videos_generated: 2,
            target_videos: 3,
            completed: false,
            reward_claimed: false,
        },
        referral_count: ReferralCount {
            referrals_made_total: 1,
            total_referrals_made: 1,
            target_referrals: 3,
            completed: false,
            reward_claimed: false,
            referred_users: vec![ReferredUser {
                principal_id: Principal::from_slice(&[1, 2, 3, 4]),
                referred_at: day_time(1),
                is_active: true,
            }],
        },
        last_updated: day_time(1),
        pending_rewards: vec![],
    }
}

fn reward(id: &str, reward_type: RewardType, amount: u64, day: u64, mission_day: u32) -> PendingReward {
    PendingReward { id: id.to_string(), reward_type, amount, earned_at: day_time(day), mission_day }
}

#[test]
fn test_build_mission_progress() {
    let missions = create_test_missions();
    let now = day_time(2);

    let progress = build_mission_progress(&missions, now);

    assert_eq!(progress.login_streak.current_day, 5);
    assert_eq!(progress.login_streak.target_day, LOGIN_STREAK_TARGET);
    assert_eq!(progress.game_progress.current_count, 3);
    assert_eq!(progress.game_progress.target_count, 5);
    assert_eq!(progress.ai_video_progress.current_count, 2);
    assert_eq!(progress.ai_video_progress.target_count, 3);
    assert_eq!(progress.referral_progress.current_count, 1);
    assert_eq!(progress.referral_progress.target_count, 3);
}

#[test]
fn test_calculate_total_pending_rewards() {
    let pending_rewards = vec![
        reward("test1", RewardType::LoginStreak, 100, 1, 1),
        reward("test2", RewardType::GameCompletion, 200, 1, 1),
    ];

    let total = calculate_total_pending_rewards(&pending_rewards);
    assert_eq!(total, 300);
}

#[test]
fn test_find_pending_reward_by_id() {
    let pending_rewards = vec![reward("test1", RewardType::LoginStreak, 100, 1, 1)];

    let found = find_pending_reward_by_id(&pending_rewards, "test1");
    assert!(found.is_some());
    assert_eq!(found.unwrap().amount, 100);

    let not_found = find_pending_reward_by_id(&pending_rewards, "test2");
    assert!(not_found.is_none());
}

#[test]
fn test_remove_pending_reward_by_id() {
    let mut pending_rewards = vec![
        reward("test1", RewardType::LoginStreak, 100, 1, 1),
        reward("test2", RewardType::GameCompletion, 200, 1, 1),
    ];

    let removed = remove_pending_reward_by_id(&mut pending_rewards, "test1");
    assert!(removed.is_some());
    assert_eq!(removed.unwrap().amount, 100);
    assert_eq!(pending_rewards.len(), 1);
    assert_eq!(pending_rewards[0].id, "test2");

    let not_found = remove_pending_reward_by_id(&mut pending_rewards, "test3");
    assert!(not_found.is_none());
    assert_eq!(pending_rewards.len(), 1);
}

#[test]
fn test_has_claimable_rewards() {
    let mut missions = create_test_missions();
    let now = day_time(2);

    missions.login_streak.can_claim_today = true;
    missions.login_streak.current_streak = LOGIN_STREAK_TARGET;
    assert!(has_claimable_rewards(&missions, now));

    missions.login_streak.can_claim_today = false;
    missions.login_streak.current_streak = 1;
    assert!(!has_claimable_rewards(&missions, now));
}

#[test]
fn test_count_pending_rewards_by_type() {
    let pending_rewards = vec![
        reward("test1", RewardType::LoginStreak, 100, 1, 1),
        reward("test2", RewardType::LoginStreak, 100, 2, 2),
        reward("test3", RewardType::GameCompletion, 200, 1, 1),
    ];

    assert_eq!(count_pending_rewards_by_type(&pending_rewards, &RewardType::LoginStreak), 2);
    assert_eq!(count_pending_rewards_by_type(&pending_rewards, &RewardType::GameCompletion), 1);
    assert_eq!(count_pending_rewards_by_type(&pending_rewards, &RewardType::AiVideoGeneration), 0);
}

#[test]
fn test_validate_mission_progress() {
    let mut missions = create_test_missions();

    assert!(validate_mission_progress(&missions).is_ok());

    missions.login_streak.current_streak = 15;
    missions.login_streak.max_streak = 10;
    assert!(validate_mission_progress(&missions).is_err());

    missions.login_streak.current_streak = 5;
    missions.login_streak.max_streak = 10;
    missions.ai_video_count.videos_generated_total = 5;
    missions.ai_video_count.total_videos_generated = 3;
    assert!(validate_mission_progress(&missions).is_err());
}

#[test]
fn test_get_latest_reward_timestamp() {
    let pending_rewards = vec![
        reward("test1", RewardType::LoginStreak, 100, 1, 1),
        reward("test2", RewardType::LoginStreak, 100, 3, 3),
        reward("test3", RewardType::GameCompletion, 200, 2, 1),
    ];

    assert_eq!(get_latest_reward_timestamp(&pending_rewards, &RewardType::LoginStreak), Some(day_time(3)));
    assert_eq!(get_latest_reward_timestamp(&pending_rewards, &RewardType::GameCompletion), Some(day_time(2)));
    assert_eq!(get_latest_reward_timestamp(&pending_rewards, &RewardType::AiVideoGeneration), None);
}
