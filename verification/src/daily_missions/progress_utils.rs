//! Summaries of a user's missions and the list of pending rewards.
use vstd::prelude::*;

use crate::daily_missions::mission_utils::{calculate_hours_until_next_day, calculate_hours_until_reset, hours_until_reset};
use crate::daily_missions::model::{
    AiVideoProgress, GameProgress, LoginStreakProgress, MissionProgress, PendingReward,
    ReferralProgress, RewardType, UserDailyMissions, AI_VIDEO_GENERATION_REWARD,
    GAME_COMPLETION_REWARD, LOGIN_STREAK_REWARD, LOGIN_STREAK_TARGET, REFERRAL_REWARD,
    duplicate_rewards,
};
use crate::daily_missions::time_utils::hours_to_midnight;
use crate::text::literal;

verus! {

/// Whether some pending reward has type `t`.
pub open spec fn has_pending_of_type(s: Seq<PendingReward>, t: RewardType) -> bool {
    exists|i: int| 0 <= i < s.len() && #[trigger] s[i].reward_type == t
}

/// Whether a pending reward of type `t` is in `s`.
pub fn any_pending_of_type(s: &Vec<PendingReward>, t: RewardType) -> (r: bool)
    ensures
        r == has_pending_of_type(s@, t),
{
    let mut i: usize = 0;
    while i < s.len()
        invariant
            i <= s@.len(),
            forall|j: int| 0 <= j < i ==> s@[j].reward_type != t,
        decreases s@.len() - i,
    {
        if s[i].reward_type == t {
            return true;
        }
        i = i + 1;
    }
    false
}

/// The progress shown to clients for `m` at `now`. A mission can be claimed
/// when a reward of its type is pending; the login streak also when today's
/// claim is open and the streak has reached its target; the other missions
/// also when they are complete and their reward not yet claimed.
pub open spec fn mission_progress_of(m: UserDailyMissions, now: u64, p: MissionProgress) -> bool {
    &&& p.login_streak == (LoginStreakProgress {
        current_day: m.login_streak.current_streak,
        target_day: LOGIN_STREAK_TARGET,
        can_claim: has_pending_of_type(m.pending_rewards@, RewardType::LoginStreak)
            || (m.login_streak.can_claim_today && m.login_streak.current_streak >= LOGIN_STREAK_TARGET),
        reward_amount: LOGIN_STREAK_REWARD,
        next_reset_in_hours: hours_to_midnight(now) as u32,
    })
    &&& p.game_progress == (GameProgress {
        current_count: m.game_streak.games_played_today,
        target_count: m.game_streak.target_games,
        can_claim: has_pending_of_type(m.pending_rewards@, RewardType::GameCompletion)
            || (!m.game_streak.claimed_today
            && m.game_streak.games_played_today >= m.game_streak.target_games),
        reward_amount: GAME_COMPLETION_REWARD,
        hours_remaining: hours_until_reset(m.game_streak.last_reset_date, now) as u32,
    })
    &&& p.ai_video_progress == (AiVideoProgress {
        current_count: m.ai_video_count.videos_generated_total,
        target_count: m.ai_video_count.target_videos,
        can_claim: has_pending_of_type(m.pending_rewards@, RewardType::AiVideoGeneration)
            || (!m.ai_video_count.reward_claimed && m.ai_video_count.completed),
        reward_amount: AI_VIDEO_GENERATION_REWARD,
        completed: m.ai_video_count.completed,
    })
    &&& p.referral_progress == (ReferralProgress {
        current_count: m.referral_count.referrals_made_total,
        target_count: m.referral_count.target_referrals,
        can_claim: has_pending_of_type(m.pending_rewards@, RewardType::Referral)
            || (!m.referral_count.reward_claimed && m.referral_count.completed),
        reward_amount: REFERRAL_REWARD,
        completed: m.referral_count.completed,
    })
    &&& p.pending_rewards@ == m.pending_rewards@
}

/// Whether the game counter's last reset is not after `now`.
pub open spec fn reset_not_after(m: UserDailyMissions, now: u64) -> bool {
    m.game_streak.last_reset_date matches Some(last) ==> last <= now
}

/// Builds the progress of every mission of `missions` at `now`.
pub fn build_mission_progress(missions: &UserDailyMissions, now: u64) -> (p: MissionProgress)
    requires
        reset_not_after(*missions, now),
    ensures
        mission_progress_of(*missions, now, p),
{
    let has_pending_login_reward = any_pending_of_type(&missions.pending_rewards, RewardType::LoginStreak);
    let has_pending_game_reward = any_pending_of_type(&missions.pending_rewards, RewardType::GameCompletion);
    let has_pending_ai_reward = any_pending_of_type(&missions.pending_rewards, RewardType::AiVideoGeneration);
    let has_pending_referral_reward = any_pending_of_type(&missions.pending_rewards, RewardType::Referral);
    MissionProgress {
        login_streak: LoginStreakProgress {
            current_day: missions.login_streak.current_streak,
            target_day: LOGIN_STREAK_TARGET,
            can_claim: has_pending_login_reward || (missions.login_streak.can_claim_today
                && missions.login_streak.current_streak >= LOGIN_STREAK_TARGET),
            reward_amount: LOGIN_STREAK_REWARD,
            next_reset_in_hours: calculate_hours_until_next_day(now),
        },
        game_progress: GameProgress {
            current_count: missions.game_streak.games_played_today,
            target_count: missions.game_streak.target_games,
            can_claim: has_pending_game_reward || (!missions.game_streak.claimed_today
                && missions.game_streak.games_played_today >= missions.game_streak.target_games),
            reward_amount: GAME_COMPLETION_REWARD,
            hours_remaining: calculate_hours_until_reset(&missions.game_streak.last_reset_date, now),
        },
        ai_video_progress: AiVideoProgress {
            current_count: missions.ai_video_count.videos_generated_total,
            target_count: missions.ai_video_count.target_videos,
            can_claim: has_pending_ai_reward || (!missions.ai_video_count.reward_claimed
                && missions.ai_video_count.completed),
            reward_amount: AI_VIDEO_GENERATION_REWARD,
            completed: missions.ai_video_count.completed,
        },
        referral_progress: ReferralProgress {
            current_count: missions.referral_count.referrals_made_total,
            target_count: missions.referral_count.target_referrals,
            can_claim: has_pending_referral_reward || (!missions.referral_count.reward_claimed
                && missions.referral_count.completed),
            reward_amount: REFERRAL_REWARD,
            completed: missions.referral_count.completed,
        },
        pending_rewards: duplicate_rewards(&missions.pending_rewards),
    }
}

/// Whether any mission of `m` can be claimed at `now`.
pub open spec fn any_claimable(m: UserDailyMissions) -> bool {
    ||| has_pending_of_type(m.pending_rewards@, RewardType::LoginStreak)
    ||| (m.login_streak.can_claim_today && m.login_streak.current_streak >= LOGIN_STREAK_TARGET)
    ||| has_pending_of_type(m.pending_rewards@, RewardType::GameCompletion)
    ||| (!m.game_streak.claimed_today && m.game_streak.games_played_today >= m.game_streak.target_games)
    ||| has_pending_of_type(m.pending_rewards@, RewardType::AiVideoGeneration)
    ||| (!m.ai_video_count.reward_claimed && m.ai_video_count.completed)
    ||| has_pending_of_type(m.pending_rewards@, RewardType::Referral)
    ||| (!m.referral_count.reward_claimed && m.referral_count.completed)
}

/// Whether the user can claim any reward.
pub fn has_claimable_rewards(missions: &UserDailyMissions, now: u64) -> (r: bool)
    requires
        reset_not_after(*missions, now),
    ensures
        r == any_claimable(*missions),
{
    let progress = build_mission_progress(missions, now);
    progress.login_streak.can_claim || progress.game_progress.can_claim
        || progress.ai_video_progress.can_claim || progress.referral_progress.can_claim
}

/// The sum of the amounts of `s`.
pub open spec fn total_amount(s: Seq<PendingReward>) -> int
    decreases s.len(),
{
    if s.len() == 0 {
        0
    } else {
        total_amount(s.drop_last()) + s.last().amount
    }
}

/// Every prefix sums to no more than the whole.
proof fn lemma_total_prefix(s: Seq<PendingReward>, i: int)
    requires
        0 <= i <= s.len(),
    ensures
        0 <= total_amount(s.take(i)) <= total_amount(s),
    decreases s.len() - i,
{
    if i < s.len() {
        lemma_total_prefix(s, i + 1);
        assert(s.take(i + 1).drop_last() =~= s.take(i));
    } else {
        assert(s.take(i) =~= s);
    }
    lemma_total_nonneg(s.take(i));
}

proof fn lemma_total_nonneg(s: Seq<PendingReward>)
    ensures
        total_amount(s) >= 0,
    decreases s.len(),
{
    if s.len() > 0 {
        lemma_total_nonneg(s.drop_last());
    }
}

/// The total amount of the pending rewards.
pub fn calculate_total_pending_rewards(pending_rewards: &[PendingReward]) -> (total: u64)
    requires
        total_amount(pending_rewards@) <= u64::MAX,
    ensures
        total == total_amount(pending_rewards@),
{
    let mut total: u64 = 0;
    let mut i: usize = 0;
    while i < pending_rewards.len()
        invariant
            i <= pending_rewards@.len(),
            total == total_amount(pending_rewards@.take(i as int)),
            total_amount(pending_rewards@) <= u64::MAX,
        decreases pending_rewards@.len() - i,
    {
        proof {
            assert(pending_rewards@.take(i + 1).drop_last() =~= pending_rewards@.take(i as int));
            lemma_total_prefix(pending_rewards@, i + 1);
        }
        total = total + pending_rewards[i].amount;
        i = i + 1;
    }
    assert(pending_rewards@.take(i as int) =~= pending_rewards@);
    total
}

/// The position of the first reward of `s` whose id is `id`.
pub open spec fn first_with_id(s: Seq<PendingReward>, id: Seq<char>, i: int) -> bool {
    &&& 0 <= i < s.len()
    &&& s[i].id@ == id
    &&& forall|j: int| 0 <= j < i ==> #[trigger] s[j].id@ != id
}

/// Whether no reward of `s` has the id `id`.
pub open spec fn no_reward_with_id(s: Seq<PendingReward>, id: Seq<char>) -> bool {
    forall|j: int| 0 <= j < s.len() ==> #[trigger] s[j].id@ != id
}

/// The position of the first reward whose id is `reward_id`.
pub fn position_of_reward(pending_rewards: &[PendingReward], reward_id: &str) -> (r: Option<usize>)
    ensures
        match r {
            Some(i) => first_with_id(pending_rewards@, reward_id@, i as int),
            None => no_reward_with_id(pending_rewards@, reward_id@),
        },
{
    let wanted = literal(reward_id);
    let mut i: usize = 0;
    while i < pending_rewards.len()
        invariant
            wanted@ == reward_id@,
            i <= pending_rewards@.len(),
            forall|j: int| 0 <= j < i ==> #[trigger] pending_rewards@[j].id@ != reward_id@,
        decreases pending_rewards@.len() - i,
    {
        if pending_rewards[i].id == wanted {
            return Some(i);
        }
        i = i + 1;
    }
    None
}

/// The first pending reward whose id is `reward_id`.
pub fn find_pending_reward_by_id<'a>(
    pending_rewards: &'a [PendingReward],
    reward_id: &str,
) -> (r: Option<&'a PendingReward>)
    ensures
        match r {
            Some(found) => exists|i: int| first_with_id(pending_rewards@, reward_id@, i)
                && pending_rewards@[i] == *found,
            None => no_reward_with_id(pending_rewards@, reward_id@),
        },
{
    match position_of_reward(pending_rewards, reward_id) {
        Some(i) => Some(&pending_rewards[i]),
        None => None,
    }
}

/// Takes the first pending reward whose id is `reward_id` out of the list.
pub fn remove_pending_reward_by_id(
    pending_rewards: &mut Vec<PendingReward>,
    reward_id: &str,
) -> (r: Option<PendingReward>)
    ensures
        match r {
            Some(removed) => exists|i: int| first_with_id(old(pending_rewards)@, reward_id@, i)
                && removed == old(pending_rewards)@[i]
                && final(pending_rewards)@ == old(pending_rewards)@.remove(i),
            None => no_reward_with_id(old(pending_rewards)@, reward_id@)
                && final(pending_rewards)@ == old(pending_rewards)@,
        },
{
    match position_of_reward(pending_rewards.as_slice(), reward_id) {
        Some(index) => Some(pending_rewards.remove(index)),
        None => None,
    }
}

/// The number of rewards of `s` whose type is `t`.
pub open spec fn count_of_type(s: Seq<PendingReward>, t: RewardType) -> nat
    decreases s.len(),
{
    if s.len() == 0 {
        0
    } else {
        count_of_type(s.drop_last(), t) + if s.last().reward_type == t { 1nat } else { 0nat }
    }
}

proof fn lemma_count_le_len(s: Seq<PendingReward>, t: RewardType)
    ensures
        count_of_type(s, t) <= s.len(),
    decreases s.len(),
{
    if s.len() > 0 {
        lemma_count_le_len(s.drop_last(), t);
    }
}

/// How many pending rewards have type `reward_type`.
pub fn count_pending_rewards_by_type(pending_rewards: &[PendingReward], reward_type: &RewardType) -> (n: usize)
    ensures
        n == count_of_type(pending_rewards@, *reward_type),
{
    let mut n: usize = 0;
    let mut i: usize = 0;
    while i < pending_rewards.len()
        invariant
            i <= pending_rewards@.len(),
            n == count_of_type(pending_rewards@.take(i as int), *reward_type),
        decreases pending_rewards@.len() - i,
    {
        proof {
            assert(pending_rewards@.take(i + 1).drop_last() =~= pending_rewards@.take(i as int));
            lemma_count_le_len(pending_rewards@.take(i + 1), *reward_type);
        }
        if pending_rewards[i].reward_type == *reward_type {
            n = n + 1;
        }
        i = i + 1;
    }
    assert(pending_rewards@.take(i as int) =~= pending_rewards@);
    n
}

/// The latest time at which a reward of type `t` in `s` was earned.
pub open spec fn latest_of_type(s: Seq<PendingReward>, t: RewardType) -> Option<u64>
    decreases s.len(),
{
    if s.len() == 0 {
        None
    } else {
        let rest = latest_of_type(s.drop_last(), t);
        if s.last().reward_type == t {
            match rest {
                Some(x) => Some(if x >= s.last().earned_at { x } else { s.last().earned_at }),
                None => Some(s.last().earned_at),
            }
        } else {
            rest
        }
    }
}

/// When the most recent pending reward of type `reward_type` was earned.
pub fn get_latest_reward_timestamp(pending_rewards: &[PendingReward], reward_type: &RewardType) -> (r: Option<u64>)
    ensures
        r == latest_of_type(pending_rewards@, *reward_type),
{
    let mut latest: Option<u64> = None;
    let mut i: usize = 0;
    while i < pending_rewards.len()
        invariant
            i <= pending_rewards@.len(),
            latest == latest_of_type(pending_rewards@.take(i as int), *reward_type),
        decreases pending_rewards@.len() - i,
    {
        proof {
            assert(pending_rewards@.take(i + 1).drop_last() =~= pending_rewards@.take(i as int));
        }
        if pending_rewards[i].reward_type == *reward_type {
            let t = pending_rewards[i].earned_at;
            latest = match latest {
                Some(x) => Some(if x >= t { x } else { t }),
                None => Some(t),
            };
        }
        i = i + 1;
    }
    assert(pending_rewards@.take(i as int) =~= pending_rewards@);
    latest
}

/// The first inconsistency of `m`, if any, as the message that reports it.
pub open spec fn mission_inconsistency(m: UserDailyMissions) -> Option<Seq<char>> {
    if m.login_streak.current_streak > m.login_streak.max_streak {
        Some("Current streak cannot exceed max streak"@)
    } else if m.ai_video_count.videos_generated_total > m.ai_video_count.total_videos_generated {
        Some("Daily videos cannot exceed total videos"@)
    } else if m.referral_count.referrals_made_total > m.referral_count.total_referrals_made {
        Some("Daily referrals cannot exceed total referrals"@)
    } else if m.referral_count.referrals_made_total != m.referral_count.referred_users.len() as u32 {
        Some("Referral count mismatch with referred users list"@)
    } else {
        None
    }
}

/// Checks that the counters of `missions` agree with one another.
pub fn validate_mission_progress(missions: &UserDailyMissions) -> (r: Result<(), String>)
    ensures
        match r {
            Ok(()) => mission_inconsistency(*missions) is None,
            Err(e) => mission_inconsistency(*missions) == Some(e@),
        },
{
    if missions.login_streak.current_streak > missions.login_streak.max_streak {
        return Err(literal("Current streak cannot exceed max streak"));
    }
    if missions.ai_video_count.videos_generated_total > missions.ai_video_count.total_videos_generated {
        return Err(literal("Daily videos cannot exceed total videos"));
    }
    if missions.referral_count.referrals_made_total > missions.referral_count.total_referrals_made {
        return Err(literal("Daily referrals cannot exceed total referrals"));
    }
    if missions.referral_count.referrals_made_total != missions.referral_count.referred_users.len() as u32 {
        return Err(literal("Referral count mismatch with referred users list"));
    }
    Ok(())
}

} // verus!
