//! The state that the daily-missions canister keeps for each user.
use vstd::prelude::*;

use crate::principal::Principal;

verus! {

/// Reward for each day of the login streak, in YRAL tokens.
pub const DAILY_LOGIN_REWARD: u64 = 5;
/// The reward shown for the login streak: a day's login reward.
pub const LOGIN_STREAK_REWARD: u64 = DAILY_LOGIN_REWARD;
/// Bonus for completing the login streak.
pub const LOGIN_STREAK_COMPLETION_BONUS: u64 = 30;
/// Reward for the daily games target.
pub const GAME_COMPLETION_REWARD: u64 = 10;
/// Reward for the AI video mission.
pub const AI_VIDEO_GENERATION_REWARD: u64 = 30;
/// Reward for the referral mission.
pub const REFERRAL_REWARD: u64 = 15;

/// Days of logins in a row that complete the streak.
pub const LOGIN_STREAK_TARGET: u32 = 7;
/// Games a day that complete the games mission.
pub const GAME_TARGET: u32 = 10;
/// AI videos that complete the AI video mission.
pub const AI_VIDEO_TARGET: u32 = 3;
/// Referrals that complete the referral mission.
pub const REFERRAL_TARGET: u32 = 3;

/// The kinds of reward a mission can earn.
#[derive(Clone, Copy, Debug, PartialEq, Eq, Structural)]
pub enum RewardType {
    LoginStreak,
    LoginStreakBonus,
    GameCompletion,
    AiVideoGeneration,
    Referral,
}

/// A reward that the user has claimed. Times are nanoseconds since the Unix epoch.
#[derive(Clone, Copy, Debug)]
pub struct ClaimedReward {
    pub reward_type: RewardType,
    pub amount: u64,
    pub claimed_at: u64,
    pub day: u32,
}

/// A reward that the user has earned and not yet claimed.
#[derive(Clone, Debug)]
pub struct PendingReward {
    pub id: String,
    pub reward_type: RewardType,
    pub amount: u64,
    pub earned_at: u64,
    pub mission_day: u32,
}

/// A user whom this user referred.
#[derive(Clone, Copy, Debug)]
pub struct ReferredUser {
    pub principal_id: Principal,
    pub referred_at: u64,
    pub is_active: bool,
}

/// Progress of the login streak.
#[derive(Clone, Debug)]
pub struct LoginStreak {
    pub current_streak: u32,
    pub max_streak: u32,
    pub last_login_date: Option<u64>,
    pub streak_start_date: Option<u64>,
    pub claimed_rewards: Vec<ClaimedReward>,
    /// Whether the streak's reward may be claimed today.
    pub can_claim_today: bool,
}

/// Progress of today's games.
#[derive(Clone, Copy, Debug)]
pub struct GameStreak {
    pub games_played_today: u32,
    pub target_games: u32,
    pub last_reset_date: Option<u64>,
    pub claimed_today: bool,
    pub total_games_completed: u32,
}

/// Progress of the AI video mission.
#[derive(Clone, Copy, Debug)]
pub struct GenerateAiVideoCount {
    pub videos_generated_total: u32,
    pub target_videos: u32,
    pub completed: bool,
    pub reward_claimed: bool,
    pub total_videos_generated: u32,
}

/// Progress of the referral mission.
#[derive(Clone, Debug)]
pub struct ReferralCount {
    pub referrals_made_total: u32,
    pub target_referrals: u32,
    pub completed: bool,
    pub reward_claimed: bool,
    pub total_referrals_made: u32,
    pub referred_users: Vec<ReferredUser>,
}

/// Everything the canister keeps for one user.
#[derive(Clone, Debug)]
pub struct UserDailyMissions {
    pub login_streak: LoginStreak,
    pub game_streak: GameStreak,
    pub ai_video_count: GenerateAiVideoCount,
    pub referral_count: ReferralCount,
    pub last_updated: u64,
    pub pending_rewards: Vec<PendingReward>,
}

/// Progress of the login streak, as shown to clients.
#[derive(Clone, Copy, Debug)]
pub struct LoginStreakProgress {
    pub current_day: u32,
    pub target_day: u32,
    pub can_claim: bool,
    pub reward_amount: u64,
    pub next_reset_in_hours: u32,
}

/// Progress of today's games, as shown to clients.
#[derive(Clone, Copy, Debug)]
pub struct GameProgress {
    pub current_count: u32,
    pub target_count: u32,
    pub can_claim: bool,
    pub reward_amount: u64,
    pub hours_remaining: u32,
}

/// Progress of the AI video mission, as shown to clients.
#[derive(Clone, Copy, Debug)]
pub struct AiVideoProgress {
    pub current_count: u32,
    pub target_count: u32,
    pub can_claim: bool,
    pub reward_amount: u64,
    pub completed: bool,
}

/// Progress of the referral mission, as shown to clients.
#[derive(Clone, Copy, Debug)]
pub struct ReferralProgress {
    pub current_count: u32,
    pub target_count: u32,
    pub can_claim: bool,
    pub reward_amount: u64,
    pub completed: bool,
}

/// A user's progress on every mission, as shown to clients.
#[derive(Clone, Debug)]
pub struct MissionProgress {
    pub login_streak: LoginStreakProgress,
    pub game_progress: GameProgress,
    pub ai_video_progress: AiVideoProgress,
    pub referral_progress: ReferralProgress,
    pub pending_rewards: Vec<PendingReward>,
}

/// The missions.
#[derive(Clone, Copy, Debug, PartialEq, Eq, Structural)]
pub enum MissionType {
    LoginStreak,
    PlayGames,
    GenerateAiVideos,
    Referrals,
}

/// What happened, for a mission update.
#[derive(Clone, Debug)]
pub enum MissionUpdateData {
    LoginEvent,
    GamePlayed { game_id: String },
    AiVideoGenerated { video_id: String },
    ReferralMade { referred_user: Principal },
}

/// A request to record progress on one mission.
#[derive(Clone, Debug)]
pub struct UpdateMissionRequest {
    pub mission_type: MissionType,
    pub data: MissionUpdateData,
}

/// The answer to a mission update.
#[derive(Clone, Debug)]
pub struct MissionUpdateResult {
    pub success: bool,
    pub message: String,
    pub new_progress: Option<MissionProgress>,
    pub reward_earned: Option<ClaimedReward>,
}

/// A request to claim a pending reward.
#[derive(Clone, Debug)]
pub struct ClaimRewardRequest {
    pub reward_id: String,
}

/// The answer to a claim.
#[derive(Clone, Debug)]
pub struct ClaimRewardResponse {
    pub success: bool,
    pub message: String,
    pub reward_amount: Option<u64>,
    pub claimed_reward: Option<ClaimedReward>,
}

impl Default for LoginStreak {
    fn default() -> (s: Self)
        ensures
            s.current_streak == 0,
            s.max_streak == 0,
            s.last_login_date is None,
            s.streak_start_date is None,
            s.claimed_rewards@ == Seq::<ClaimedReward>::empty(),
            !s.can_claim_today,
    {
        LoginStreak {
            current_streak: 0,
            max_streak: 0,
            last_login_date: None,
            streak_start_date: None,
            claimed_rewards: Vec::new(),
            can_claim_today: false,
        }
    }
}

impl Default for GameStreak {
    fn default() -> (s: Self)
        ensures
            s == (GameStreak {
                games_played_today: 0,
                target_games: GAME_TARGET,
                last_reset_date: None,
                claimed_today: false,
                total_games_completed: 0,
            }),
    {
        GameStreak {
            games_played_today: 0,
            target_games: GAME_TARGET,
            last_reset_date: None,
            claimed_today: false,
            total_games_completed: 0,
        }
    }
}

impl Default for GenerateAiVideoCount {
    fn default() -> (s: Self)
        ensures
            s == (GenerateAiVideoCount {
                videos_generated_total: 0,
                target_videos: AI_VIDEO_TARGET,
                completed: false,
                reward_claimed: false,
                total_videos_generated: 0,
            }),
    {
        GenerateAiVideoCount {
            videos_generated_total: 0,
            target_videos: AI_VIDEO_TARGET,
            completed: false,
            reward_claimed: false,
            total_videos_generated: 0,
        }
    }
}

impl Default for ReferralCount {
    fn default() -> (s: Self)
        ensures
            s.referrals_made_total == 0,
            s.target_referrals == REFERRAL_TARGET,
            !s.completed,
            !s.reward_claimed,
            s.total_referrals_made == 0,
            s.referred_users@ == Seq::<ReferredUser>::empty(),
    {
        ReferralCount {
            referrals_made_total: 0,
            target_referrals: REFERRAL_TARGET,
            completed: false,
            reward_claimed: false,
            total_referrals_made: 0,
            referred_users: Vec::new(),
        }
    }
}

/// Whether `m` is the state of a user who has done nothing yet.
pub open spec fn is_fresh_missions(m: UserDailyMissions) -> bool {
    &&& m.login_streak.current_streak == 0
    &&& m.login_streak.max_streak == 0
    &&& m.login_streak.last_login_date is None
    &&& m.login_streak.streak_start_date is None
    &&& m.login_streak.claimed_rewards@ == Seq::<ClaimedReward>::empty()
    &&& !m.login_streak.can_claim_today
    &&& m.game_streak == (GameStreak {
        games_played_today: 0,
        target_games: GAME_TARGET,
        last_reset_date: None,
        claimed_today: false,
        total_games_completed: 0,
    })
    &&& m.ai_video_count == (GenerateAiVideoCount {
        videos_generated_total: 0,
        target_videos: AI_VIDEO_TARGET,
        completed: false,
        reward_claimed: false,
        total_videos_generated: 0,
    })
    &&& m.referral_count.referrals_made_total == 0
    &&& m.referral_count.target_referrals == REFERRAL_TARGET
    &&& !m.referral_count.completed
    &&& !m.referral_count.reward_claimed
    &&& m.referral_count.total_referrals_made == 0
    &&& m.referral_count.referred_users@ == Seq::<ReferredUser>::empty()
    &&& m.last_updated == 0
    &&& m.pending_rewards@ == Seq::<PendingReward>::empty()
}

impl Default for UserDailyMissions {
    /// The state of a user who has done nothing yet; last updated at the epoch.
    fn default() -> (s: Self)
        ensures
            is_fresh_missions(s),
    {
        UserDailyMissions {
            login_streak: LoginStreak::default(),
            game_streak: GameStreak::default(),
            ai_video_count: GenerateAiVideoCount::default(),
            referral_count: ReferralCount::default(),
            last_updated: 0,
            pending_rewards: Vec::new(),
        }
    }
}

/// Same contents, comparing vectors by their elements.
pub open spec fn same_pending_reward(a: PendingReward, b: PendingReward) -> bool {
    a.id@ == b.id@ && a.reward_type == b.reward_type && a.amount == b.amount
        && a.earned_at == b.earned_at && a.mission_day == b.mission_day
}

/// Same contents, comparing vectors by their elements.
pub open spec fn same_missions(a: UserDailyMissions, b: UserDailyMissions) -> bool {
    &&& a.login_streak.current_streak == b.login_streak.current_streak
    &&& a.login_streak.max_streak == b.login_streak.max_streak
    &&& a.login_streak.last_login_date == b.login_streak.last_login_date
    &&& a.login_streak.streak_start_date == b.login_streak.streak_start_date
    &&& a.login_streak.claimed_rewards@ == b.login_streak.claimed_rewards@
    &&& a.login_streak.can_claim_today == b.login_streak.can_claim_today
    &&& a.game_streak == b.game_streak
    &&& a.ai_video_count == b.ai_video_count
    &&& a.referral_count.referrals_made_total == b.referral_count.referrals_made_total
    &&& a.referral_count.target_referrals == b.referral_count.target_referrals
    &&& a.referral_count.completed == b.referral_count.completed
    &&& a.referral_count.reward_claimed == b.referral_count.reward_claimed
    &&& a.referral_count.total_referrals_made == b.referral_count.total_referrals_made
    &&& a.referral_count.referred_users@ == b.referral_count.referred_users@
    &&& a.last_updated == b.last_updated
    &&& a.pending_rewards@.len() == b.pending_rewards@.len()
    &&& forall|i: int| 0 <= i < a.pending_rewards@.len()
        ==> same_pending_reward(#[trigger] a.pending_rewards@[i], b.pending_rewards@[i])
}

impl PendingReward {
    /// A copy of the reward.
    pub fn duplicate(&self) -> (r: PendingReward)
        ensures
            same_pending_reward(r, *self),
            r == *self,
    {
        PendingReward {
            id: self.id.clone(),
            reward_type: self.reward_type,
            amount: self.amount,
            earned_at: self.earned_at,
            mission_day: self.mission_day,
        }
    }
}

/// A copy of a list of pending rewards.
pub fn duplicate_rewards(v: &Vec<PendingReward>) -> (r: Vec<PendingReward>)
    ensures
        r@ == v@,
{
    let mut r: Vec<PendingReward> = Vec::new();
    let mut i: usize = 0;
    while i < v.len()
        invariant
            i <= v@.len(),
            r@ == v@.take(i as int),
        decreases v@.len() - i,
    {
        r.push(v[i].duplicate());
        i = i + 1;
        assert(r@ =~= v@.take(i as int));
    }
    assert(v@.take(v@.len() as int) =~= v@);
    r
}

/// A copy of a list of plain values.
pub fn duplicate_copies<T: Copy>(v: &Vec<T>) -> (r: Vec<T>)
    ensures
        r@ == v@,
{
    let mut r: Vec<T> = Vec::new();
    let mut i: usize = 0;
    while i < v.len()
        invariant
            i <= v@.len(),
            r@ == v@.take(i as int),
        decreases v@.len() - i,
    {
        r.push(v[i]);
        i = i + 1;
        assert(r@ =~= v@.take(i as int));
    }
    assert(v@.take(v@.len() as int) =~= v@);
    r
}

impl UserDailyMissions {
    /// A copy of the state.
    pub fn duplicate(&self) -> (r: UserDailyMissions)
        ensures
            same_missions(r, *self),
    {
        let r = UserDailyMissions {
            login_streak: LoginStreak {
                current_streak: self.login_streak.current_streak,
                max_streak: self.login_streak.max_streak,
                last_login_date: self.login_streak.last_login_date,
                streak_start_date: self.login_streak.streak_start_date,
                claimed_rewards: duplicate_copies(&self.login_streak.claimed_rewards),
                can_claim_today: self.login_streak.can_claim_today,
            },
            game_streak: self.game_streak,
            ai_video_count: self.ai_video_count,
            referral_count: ReferralCount {
                referrals_made_total: self.referral_count.referrals_made_total,
                target_referrals: self.referral_count.target_referrals,
                completed: self.referral_count.completed,
                reward_claimed: self.referral_count.reward_claimed,
                total_referrals_made: self.referral_count.total_referrals_made,
                referred_users: duplicate_copies(&self.referral_count.referred_users),
            },
            last_updated: self.last_updated,
            pending_rewards: duplicate_rewards(&self.pending_rewards),
        };
        r
    }
}

} // verus!
