use hot_or_not_backend::daily_missions::canister::CanisterData;
use hot_or_not_backend::daily_missions::model::{
    ClaimRewardRequest, MissionType, MissionUpdateData, RewardType, UpdateMissionRequest, AI_VIDEO_GENERATION_REWARD,
    DAILY_LOGIN_REWARD,
};
use hot_or_not_backend::principal::Principal;

const DAY: u64 = 86_400_000_000_000;

fn ai_video(id: &str) -> UpdateMissionRequest {
    UpdateMissionRequest {
        mission_type: MissionType::GenerateAiVideos,
        data: MissionUpdateData::AiVideoGenerated { video_id: id.to_string() },
    }
}

#[test]
fn a_login_earns_a_reward_that_can_be_claimed_once() {
    let mut data = CanisterData::default();
    let user = Principal::from_slice(&[1, 2, 3]);
    let login = UpdateMissionRequest { mission_type: MissionType::LoginStreak, data: MissionUpdateData::LoginEvent };
    let r = data.update_mission(user, login, 10 * DAY);
    assert!(r.success);
    assert_eq!(r.message, "Login streak updated to 1 days");
    let progress = r.new_progress.unwrap();
    assert!(progress.login_streak.can_claim);
    assert_eq!(progress.pending_rewards.len(), 1);
    let reward = progress.pending_rewards[0].clone();
    assert_eq!(reward.reward_type, RewardType::LoginStreak);
    assert_eq!(reward.amount, DAILY_LOGIN_REWARD);

    let claim = data.claim_reward(user, ClaimRewardRequest { reward_id: reward.id.clone() }, 10 * DAY + 1);
    assert!(claim.success);
    assert_eq!(claim.reward_amount, Some(DAILY_LOGIN_REWARD));
    let again = data.claim_reward(user, ClaimRewardRequest { reward_id: reward.id }, 10 * DAY + 2);
    assert!(!again.success);
    assert_eq!(again.message, "Reward not found or already claimed");
    assert!(data.get_user_missions(&user).login_streak.claimed_rewards.len() == 1);
}

#[test]
fn wrong_data_for_a_mission_changes_nothing() {
    let mut data = CanisterData::default();
    let user = Principal::from_slice(&[7]);
    let r = data.update_mission(user, UpdateMissionRequest { mission_type: MissionType::PlayGames, data: MissionUpdateData::LoginEvent }, DAY);
    assert!(!r.success);
    assert_eq!(r.message, "Invalid data for game mission");
    assert!(r.new_progress.is_none());
    assert!(!data.user_exists(&user));
}

#[test]
fn completing_ai_videos_earns_one_reward() {
    let mut data = CanisterData::default();
    let user = Principal::from_slice(&[4, 4]);
    for i in 0..3 {
        let r = data.update_mission(user, ai_video(&format!("v{}", i)), DAY);
        assert!(r.success);
    }
    let r = data.update_mission(user, ai_video("v3"), DAY);
    assert!(!r.success);
    let progress = data.get_current_mission_progress(&user, DAY);
    assert!(progress.ai_video_progress.completed);
    let ai_rewards: Vec<_> = progress
        .pending_rewards
        .iter()
        .filter(|p| p.reward_type == RewardType::AiVideoGeneration)
        .collect();
    assert_eq!(ai_rewards.len(), 1);
    assert_eq!(ai_rewards[0].amount, AI_VIDEO_GENERATION_REWARD);
}
