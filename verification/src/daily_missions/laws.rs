//! Properties of the daily missions that hold across calls.
use vstd::prelude::*;

use crate::daily_missions::canister::{mission_update_effect, rewards_earned, update_allowed};
use crate::daily_missions::mission_utils::{hours_until_reset, is_reward_for, reward_id};
use crate::daily_missions::model::{
    MissionType, PendingReward, RewardType, UpdateMissionRequest, UserDailyMissions, GAME_COMPLETION_REWARD,
};
use crate::daily_missions::time_utils::{NANOS_PER_SECOND, SECONDS_PER_HOUR, day_of};
use crate::daily_missions::progress_utils::{first_with_id, mission_inconsistency, no_reward_with_id};
use crate::principal::Principal;

verus! {

/// Whether no two pending rewards share an id.
pub open spec fn reward_ids_distinct(s: Seq<PendingReward>) -> bool {
    forall|i: int, j: int| 0 <= i < s.len() && 0 <= j < s.len() && i != j ==> #[trigger] s[i].id@ != #[trigger] s[j].id@
}

/// A claimed reward leaves the pending list: when ids are distinct, once the
/// reward with some id has been taken out, no pending reward has that id,
/// so a second claim of it finds nothing.
pub proof fn law_claimed_reward_cannot_be_claimed_again(s: Seq<PendingReward>, id: Seq<char>, i: int)
    requires
        reward_ids_distinct(s),
        first_with_id(s, id, i),
    ensures
        no_reward_with_id(s.remove(i), id),
{
    assert forall|j: int| 0 <= j < s.remove(i).len() implies #[trigger] s.remove(i)[j].id@ != id by {
        if j < i {
            assert(s.remove(i)[j] == s[j]);
        } else {
            assert(s.remove(i)[j] == s[j + 1]);
            assert(s[j + 1].id@ != s[i].id@);
        }
    }
}

/// A completed AI video or referral mission stays completed: no later update
/// undoes it, and it earns no further reward of its type.
pub proof fn law_completed_missions_stay_completed(
    before: UserDailyMissions,
    after: UserDailyMissions,
    user: Principal,
    req: UpdateMissionRequest,
    now: u64,
    success: bool,
    message: Seq<char>,
)
    requires
        mission_update_effect(before, after, user, req, now, success, message),
    ensures
        before.ai_video_count.completed ==> after.ai_video_count.completed,
        before.ai_video_count.completed ==> forall|i: int| 0 <= i < rewards_earned(before, after, req).len()
            ==> #[trigger] rewards_earned(before, after, req)[i].0 != RewardType::AiVideoGeneration,
        before.referral_count.completed ==> after.referral_count.completed,
        before.referral_count.completed ==> forall|i: int| 0 <= i < rewards_earned(before, after, req).len()
            ==> #[trigger] rewards_earned(before, after, req)[i].0 != RewardType::Referral,
{
}

/// A reward that a mission update earns can then be claimed: the missions
/// after the update hold a pending reward with its id.
pub proof fn law_earned_reward_is_claimable(
    before: UserDailyMissions,
    after: UserDailyMissions,
    user: Principal,
    req: UpdateMissionRequest,
    now: u64,
    success: bool,
    message: Seq<char>,
    k: int,
)
    requires
        mission_update_effect(before, after, user, req, now, success, message),
        0 <= k < rewards_earned(before, after, req).len(),
    ensures
        !no_reward_with_id(after.pending_rewards@, reward_id(user, rewards_earned(before, after, req)[k].0, now)),
{
    let n = before.pending_rewards@.len();
    let earned = rewards_earned(before, after, req);
    assert(is_reward_for(after.pending_rewards@[n + k], user, earned[k].0, earned[k].1, earned[k].2, now));
}

/// A mission update keeps the counters of consistent missions consistent,
/// as `validate_mission_progress` checks them.
pub proof fn law_update_keeps_missions_consistent(
    before: UserDailyMissions,
    after: UserDailyMissions,
    user: Principal,
    req: UpdateMissionRequest,
    now: u64,
    success: bool,
    message: Seq<char>,
)
    requires
        mission_inconsistency(before) is None,
        update_allowed(before, req, now),
        mission_update_effect(before, after, user, req, now, success, message),
    ensures
        mission_inconsistency(after) is None,
{
    if req.mission_type == MissionType::Referrals && !before.referral_count.completed {
        let l = before.referral_count.referred_users.len();
        let t = before.referral_count.referrals_made_total;
        if !crate::daily_missions::mission_utils::already_referred(before.referral_count.referred_users@, req.data->referred_user) {
            assert(after.referral_count.referred_users@.len() == l + 1);
            lemma_truncate_succ(l, after.referral_count.referred_users.len(), t);
        }
    }
}

/// One more element keeps a count that matches a length truncated to 32 bits matching.
proof fn lemma_truncate_succ(l: usize, l2: usize, t: u32)
    requires
        t == l as u32,
        t < u32::MAX,
        l2 == l + 1,
    ensures
        (t + 1) as u32 == l2 as u32,
{
    assert(t == l as u32 && t < 0xffff_ffff && l2 == l + 1 ==> (t + 1) as u32 == l2 as u32) by (bit_vector);
}

/// The first game of a new UTC day starts the day's count over: after it one
/// game has been played today, today's game reward is not yet claimed
/// (whatever was claimed the day before), and the reset is dated at the play.
pub proof fn law_new_day_restarts_game_count(
    before: UserDailyMissions,
    after: UserDailyMissions,
    user: Principal,
    req: UpdateMissionRequest,
    now: u64,
    success: bool,
    message: Seq<char>,
)
    requires
        mission_update_effect(before, after, user, req, now, success, message),
        req.mission_type == MissionType::PlayGames,
        before.game_streak.last_reset_date matches Some(last) ==> day_of(now) > day_of(last),
    ensures
        success,
        after.game_streak.games_played_today == 1,
        !after.game_streak.claimed_today,
        after.game_streak.last_reset_date == Some(now),
        after.game_streak.target_games == before.game_streak.target_games,
        after.game_streak.total_games_completed == before.game_streak.total_games_completed,
{
}

/// A game played later on the same UTC day adds one to the day's count and
/// keeps whether today's reward was claimed and when the count was reset.
pub proof fn law_same_day_game_adds_one(
    before: UserDailyMissions,
    after: UserDailyMissions,
    user: Principal,
    req: UpdateMissionRequest,
    now: u64,
    success: bool,
    message: Seq<char>,
)
    requires
        mission_update_effect(before, after, user, req, now, success, message),
        req.mission_type == MissionType::PlayGames,
        before.game_streak.last_reset_date matches Some(last) && day_of(now) <= day_of(last),
        before.game_streak.games_played_today < u32::MAX,
    ensures
        success,
        after.game_streak.games_played_today == before.game_streak.games_played_today + 1,
        after.game_streak.claimed_today == before.game_streak.claimed_today,
        after.game_streak.last_reset_date == before.game_streak.last_reset_date,
{
}

/// Each UTC day's game reward can be earned anew: after the first game of a
/// new day (whatever was claimed before it), the game on that same day that
/// reaches the target earns one game completion reward.
pub proof fn law_game_reward_earned_again_each_day(
    m0: UserDailyMissions,
    m1: UserDailyMissions,
    m2: UserDailyMissions,
    user: Principal,
    req1: UpdateMissionRequest,
    req2: UpdateMissionRequest,
    t1: u64,
    t2: u64,
    success1: bool,
    success2: bool,
    message1: Seq<char>,
    message2: Seq<char>,
)
    requires
        mission_update_effect(m0, m1, user, req1, t1, success1, message1),
        mission_update_effect(m1, m2, user, req2, t2, success2, message2),
        req1.mission_type == MissionType::PlayGames,
        req2.mission_type == MissionType::PlayGames,
        m0.game_streak.last_reset_date matches Some(last) ==> day_of(t1) > day_of(last),
        day_of(t2) == day_of(t1),
        m1.game_streak.games_played_today < m1.game_streak.target_games,
        m1.game_streak.games_played_today + 1 >= m1.game_streak.target_games,
    ensures
        rewards_earned(m1, m2, req2) == seq![(RewardType::GameCompletion, GAME_COMPLETION_REWARD, 1u32)],
{
}

/// The hours shown until a game count is due again count down from 24: for a
/// reset fewer than 24 whole hours ago, the hours left and the whole hours
/// elapsed since the reset add up to 24; from 24 hours on none are left, and
/// a count never reset shows none.
pub proof fn law_reset_hours_count_down(last: u64, now: u64)
    requires
        last <= now,
    ensures
        hours_until_reset(None, now) == 0,
        ({
            let elapsed = (now - last) / (NANOS_PER_SECOND * SECONDS_PER_HOUR) as int;
            &&& elapsed < 24 ==> hours_until_reset(Some(last), now) + elapsed == 24
            &&& elapsed >= 24 ==> hours_until_reset(Some(last), now) == 0
        }),
{
    vstd::arithmetic::div_mod::lemma_div_denominator((now - last) as int, NANOS_PER_SECOND as int, SECONDS_PER_HOUR as int);
}

/// The hours left until a reset never grow as time passes.
pub proof fn law_reset_hours_never_grow(last: u64, now1: u64, now2: u64)
    requires
        last <= now1 <= now2,
    ensures
        hours_until_reset(Some(last), now2) <= hours_until_reset(Some(last), now1),
{
    let a = (now1 - last) as int / NANOS_PER_SECOND as int;
    let b = (now2 - last) as int / NANOS_PER_SECOND as int;
    vstd::arithmetic::div_mod::lemma_div_is_ordered((now1 - last) as int, (now2 - last) as int, NANOS_PER_SECOND as int);
    vstd::arithmetic::div_mod::lemma_div_is_ordered(a, b, SECONDS_PER_HOUR as int);
}


/// A login streak grows by one for a login on the UTC day after the last
/// one, starts over at one after a longer gap, and is left as it was by a
/// second login on the same day; the longest streak never falls and is never
/// below the current one after a counted login.
pub proof fn law_login_streak_follows_days(
    before: UserDailyMissions,
    after: UserDailyMissions,
    user: Principal,
    req: UpdateMissionRequest,
    now: u64,
    success: bool,
    message: Seq<char>,
)
    requires
        mission_update_effect(before, after, user, req, now, success, message),
        req.mission_type == MissionType::LoginStreak,
        before.login_streak.current_streak < u32::MAX,
    ensures
        before.login_streak.last_login_date matches Some(last) && day_of(now) == day_of(last) ==> {
            &&& !success
            &&& after.login_streak == before.login_streak
        },
        before.login_streak.last_login_date matches Some(last) && day_of(now) == day_of(last) + 1 ==> {
            &&& success
            &&& after.login_streak.current_streak == before.login_streak.current_streak + 1
            &&& after.login_streak.last_login_date == Some(now)
        },
        (before.login_streak.last_login_date matches Some(last) ==> day_of(now) > day_of(last) + 1) ==> {
            &&& success
            &&& after.login_streak.current_streak == 1
            &&& after.login_streak.streak_start_date == Some(now)
            &&& after.login_streak.last_login_date == Some(now)
        },
        after.login_streak.max_streak >= before.login_streak.max_streak,
        success ==> after.login_streak.max_streak >= after.login_streak.current_streak,
{
}


} // verus!
