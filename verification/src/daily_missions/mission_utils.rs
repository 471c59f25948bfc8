//! Updating each mission when its event happens, and recording earned rewards.
use vstd::prelude::*;

use crate::daily_missions::model::{
    GameStreak, GenerateAiVideoCount, LoginStreak, PendingReward, ReferralCount, ReferredUser,
    RewardType, UserDailyMissions,
};
use crate::daily_missions::time_utils::{
    NANOS_PER_SECOND, SECONDS_PER_DAY, SECONDS_PER_HOUR, day_number, day_of, hours_to_midnight,
    hours_until_next_day, seconds_of,
};
use crate::principal::{Principal, principal_bytes, principal_text};
use crate::text::{decimal, literal, u64_to_decimal};

verus! {

/// Whether `now` falls on the UTC day of the last recorded login.
pub open spec fn is_repeat_login(ls: LoginStreak, now: u64) -> bool {
    ls.last_login_date matches Some(last) && day_of(now) == day_of(last)
}

/// Whether `now` falls on the UTC day after the last recorded login.
pub open spec fn is_consecutive_login(ls: LoginStreak, now: u64) -> bool {
    ls.last_login_date matches Some(last) && day_of(now) == day_of(last) + 1
}

/// The login streak after a login on a new day at `now`: one day longer when
/// the last login was yesterday, else a new streak of one day that starts now.
pub open spec fn streak_after_login(ls: LoginStreak, now: u64) -> LoginStreak {
    let current = if is_consecutive_login(ls, now) { (ls.current_streak + 1) as u32 } else { 1u32 };
    LoginStreak {
        current_streak: current,
        max_streak: if ls.max_streak >= current { ls.max_streak } else { current },
        last_login_date: Some(now),
        streak_start_date: if is_consecutive_login(ls, now) { ls.streak_start_date } else { Some(now) },
        claimed_rewards: ls.claimed_rewards,
        can_claim_today: ls.can_claim_today,
    }
}

/// The message for a login that extended or started the streak.
pub open spec fn login_message(days: u32) -> Seq<char> {
    "Login streak updated to "@ + decimal(days as nat) + " days"@
}

/// Records a login at `now`. A second login on the same UTC day changes
/// nothing and is answered `false`.
pub fn update_login_streak(login_streak: &mut LoginStreak, now: u64) -> (r: (bool, String))
    requires
        is_consecutive_login(*old(login_streak), now) ==> old(login_streak).current_streak < u32::MAX,
    ensures
        is_repeat_login(*old(login_streak), now) ==> {
            &&& !r.0
            &&& r.1@ == "Already logged in today"@
            &&& *final(login_streak) == *old(login_streak)
        },
        !is_repeat_login(*old(login_streak), now) ==> {
            &&& r.0
            &&& *final(login_streak) == streak_after_login(*old(login_streak), now)
            &&& r.1@ == login_message(final(login_streak).current_streak)
        },
        !is_repeat_login(*old(login_streak), now) ==> {
            &&& final(login_streak).last_login_date == Some(now)
            &&& final(login_streak).max_streak >= final(login_streak).current_streak
            &&& final(login_streak).max_streak >= old(login_streak).max_streak
            &&& (final(login_streak).max_streak == old(login_streak).max_streak
                || final(login_streak).max_streak == final(login_streak).current_streak)
            &&& final(login_streak).claimed_rewards == old(login_streak).claimed_rewards
            &&& final(login_streak).can_claim_today == old(login_streak).can_claim_today
        },
        (old(login_streak).last_login_date matches Some(last) && day_of(now) == day_of(last) + 1) ==> {
            &&& final(login_streak).current_streak == old(login_streak).current_streak + 1
            &&& final(login_streak).streak_start_date == old(login_streak).streak_start_date
        },
        (old(login_streak).last_login_date matches Some(last) ==> day_of(now) > day_of(last) + 1 || day_of(now) < day_of(last)) ==> {
            &&& final(login_streak).current_streak == 1
            &&& final(login_streak).streak_start_date == Some(now)
        },
{
    let today = day_number(now);
    match login_streak.last_login_date {
        Some(last_login) => {
            let last_login_day = day_number(last_login);
            if today == last_login_day {
                return (false, literal("Already logged in today"));
            }
            if today == last_login_day + 1 {
                login_streak.current_streak = login_streak.current_streak + 1;
            } else {
                login_streak.current_streak = 1;
                login_streak.streak_start_date = Some(now);
            }
        },
        None => {
            login_streak.current_streak = 1;
            login_streak.streak_start_date = Some(now);
        },
    }
    login_streak.last_login_date = Some(now);
    if login_streak.current_streak > login_streak.max_streak {
        login_streak.max_streak = login_streak.current_streak;
    }
    let mut message = literal("Login streak updated to ");
    message.append(u64_to_decimal(login_streak.current_streak as u64).as_str());
    message.append(" days");
    (true, message)
}

/// Whether a daily counter last reset at `last_reset` starts over at `now`:
/// when it was never reset, or was reset on an earlier UTC day.
pub open spec fn needs_daily_reset(last_reset: Option<u64>, now: u64) -> bool {
    match last_reset {
        Some(last) => day_of(now) > day_of(last),
        None => true,
    }
}

/// Whether a daily counter should start over at `now`.
pub fn should_reset_daily_counter(last_reset: &Option<u64>, now: u64) -> (r: bool)
    ensures
        r == needs_daily_reset(*last_reset, now),
{
    match last_reset {
        Some(last) => {
            let last_day = get_day_from_timestamp(*last);
            let current_day = get_day_from_timestamp(now);
            current_day > last_day
        },
        None => true,
    }
}

/// The day number, since the epoch, of `time`.
pub fn get_day_from_timestamp(time: u64) -> (d: u64)
    ensures
        d == day_of(time),
{
    day_number(time)
}

/// Whole hours until the next UTC midnight.
pub fn calculate_hours_until_next_day(now: u64) -> (h: u32)
    ensures
        h == hours_to_midnight(now),
        h <= 24,
        ({
            let left = SECONDS_PER_DAY - seconds_of(now) % SECONDS_PER_DAY as int;
            h * SECONDS_PER_HOUR <= left < (h + 1) * SECONDS_PER_HOUR
        }),
{
    hours_until_next_day(now)
}

/// Hours left of the 24 that follow `last_reset`; 0 when never reset or when
/// 24 hours have passed.
pub open spec fn hours_until_reset(last_reset: Option<u64>, now: u64) -> int {
    match last_reset {
        Some(last) => {
            let hours = (now - last) / NANOS_PER_SECOND as int / SECONDS_PER_HOUR as int;
            if hours >= 24 { 0 } else { 24 - hours }
        },
        None => 0,
    }
}

/// Hours until the daily counter last reset at `last_reset` is due again.
pub fn calculate_hours_until_reset(last_reset: &Option<u64>, now: u64) -> (h: u32)
    requires
        last_reset matches Some(last) ==> last <= now,
    ensures
        h == hours_until_reset(*last_reset, now),
        last_reset is None ==> h == 0,
        *last_reset matches Some(last) ==> {
            let elapsed = (now - last) / (NANOS_PER_SECOND * SECONDS_PER_HOUR) as int;
            &&& elapsed < 24 ==> h + elapsed == 24
            &&& elapsed >= 24 ==> h == 0
        },
{
    match last_reset {
        Some(last) => {
            proof {
                vstd::arithmetic::div_mod::lemma_div_denominator(
                    (now - *last) as int,
                    NANOS_PER_SECOND as int,
                    SECONDS_PER_HOUR as int,
                );
            }
            let hours_since_reset = (now - *last) / NANOS_PER_SECOND / SECONDS_PER_HOUR;
            if hours_since_reset >= 24 {
                0
            } else {
                (24 - hours_since_reset) as u32
            }
        },
        None => 0,
    }
}

/// The game streak after one more game at `now`, the day's count starting
/// over first when a new UTC day has begun.
pub open spec fn games_after_play(gs: GameStreak, now: u64) -> GameStreak {
    let reset = needs_daily_reset(gs.last_reset_date, now);
    GameStreak {
        games_played_today: ((if reset { 0 } else { gs.games_played_today as int }) + 1) as u32,
        claimed_today: if reset { false } else { gs.claimed_today },
        last_reset_date: if reset { Some(now) } else { gs.last_reset_date },
        ..gs
    }
}

/// The message after a game.
pub open spec fn games_message(gs: GameStreak) -> Seq<char> {
    "Games played today: "@ + decimal(gs.games_played_today as nat) + "/"@ + decimal(gs.target_games as nat)
}

/// Records one game played at `now`.
pub fn update_game_streak(game_streak: &mut GameStreak, now: u64) -> (r: (bool, String))
    requires
        !needs_daily_reset(old(game_streak).last_reset_date, now)
            ==> old(game_streak).games_played_today < u32::MAX,
    ensures
        r.0,
        *final(game_streak) == games_after_play(*old(game_streak), now),
        r.1@ == games_message(*final(game_streak)),
        (old(game_streak).last_reset_date matches Some(last) ==> day_of(now) > day_of(last)) ==> {
            &&& final(game_streak).games_played_today == 1
            &&& !final(game_streak).claimed_today
            &&& final(game_streak).last_reset_date == Some(now)
        },
        (old(game_streak).last_reset_date matches Some(last) && day_of(now) <= day_of(last)) ==> {
            &&& final(game_streak).games_played_today == old(game_streak).games_played_today + 1
            &&& final(game_streak).claimed_today == old(game_streak).claimed_today
            &&& final(game_streak).last_reset_date == old(game_streak).last_reset_date
        },
        final(game_streak).target_games == old(game_streak).target_games,
        final(game_streak).total_games_completed == old(game_streak).total_games_completed,
{
    if should_reset_daily_counter(&game_streak.last_reset_date, now) {
        game_streak.games_played_today = 0;
        game_streak.claimed_today = false;
        game_streak.last_reset_date = Some(now);
    }
    game_streak.games_played_today = game_streak.games_played_today + 1;
    let mut message = literal("Games played today: ");
    message.append(u64_to_decimal(game_streak.games_played_today as u64).as_str());
    message.append("/");
    message.append(u64_to_decimal(game_streak.target_games as u64).as_str());
    (true, message)
}

/// The AI video mission after one more video, completed once the count
/// reaches the target.
pub open spec fn ai_videos_after(c: GenerateAiVideoCount) -> GenerateAiVideoCount {
    GenerateAiVideoCount {
        videos_generated_total: (c.videos_generated_total + 1) as u32,
        total_videos_generated: (c.total_videos_generated + 1) as u32,
        completed: c.videos_generated_total + 1 >= c.target_videos,
        ..c
    }
}

/// The message after a video counted: "AI videos generated: n/target", with
/// " - Mission Complete!" once complete.
pub open spec fn ai_video_message(c: GenerateAiVideoCount) -> Seq<char> {
    "AI videos generated: "@ + decimal(c.videos_generated_total as nat) + "/"@
        + decimal(c.target_videos as nat) + (if c.completed { " - Mission Complete!"@ } else { ""@ })
}

/// Records one generated AI video. Once the mission is complete nothing
/// changes and the answer is `false`.
pub fn update_ai_video_count(ai_video_count: &mut GenerateAiVideoCount, now: u64) -> (r: (bool, String))
    requires
        !old(ai_video_count).completed ==> old(ai_video_count).videos_generated_total < u32::MAX,
        !old(ai_video_count).completed ==> old(ai_video_count).total_videos_generated < u32::MAX,
    ensures
        old(ai_video_count).completed ==> {
            &&& !r.0
            &&& r.1@ == "AI video generation mission already completed. No more rewards available."@
            &&& *final(ai_video_count) == *old(ai_video_count)
        },
        !old(ai_video_count).completed ==> {
            &&& r.0
            &&& *final(ai_video_count) == ai_videos_after(*old(ai_video_count))
            &&& r.1@ == ai_video_message(*final(ai_video_count))
            &&& final(ai_video_count).videos_generated_total == old(ai_video_count).videos_generated_total + 1
            &&& final(ai_video_count).total_videos_generated == old(ai_video_count).total_videos_generated + 1
            &&& final(ai_video_count).completed <==> final(ai_video_count).videos_generated_total >= old(ai_video_count).target_videos
            &&& final(ai_video_count).target_videos == old(ai_video_count).target_videos
            &&& final(ai_video_count).reward_claimed == old(ai_video_count).reward_claimed
        },
{
    if ai_video_count.completed {
        return (
            false,
            literal("AI video generation mission already completed. No more rewards available."),
        );
    }
    ai_video_count.videos_generated_total = ai_video_count.videos_generated_total + 1;
    ai_video_count.total_videos_generated = ai_video_count.total_videos_generated + 1;
    if ai_video_count.videos_generated_total >= ai_video_count.target_videos {
        ai_video_count.completed = true;
    }
    let mut message = literal("AI videos generated: ");
    message.append(u64_to_decimal(ai_video_count.videos_generated_total as u64).as_str());
    message.append("/");
    message.append(u64_to_decimal(ai_video_count.target_videos as u64).as_str());
    if ai_video_count.completed {
        message.append(" - Mission Complete!");
    } else {
        proof { reveal_strlit(""); }
        assert(message@ =~= message@ + ""@);
    }
    (true, message)
}

/// Whether `user` is among the referred users.
pub open spec fn already_referred(users: Seq<ReferredUser>, user: Principal) -> bool {
    exists|i: int| 0 <= i < users.len() && #[trigger] users[i].principal_id == user
}

/// The message after a referral counted.
pub open spec fn referral_message(c: ReferralCount) -> Seq<char> {
    "Referrals made: "@ + decimal(c.referrals_made_total as nat) + "/"@
        + decimal(c.target_referrals as nat) + (if c.completed { " - Mission Complete!"@ } else { ""@ })
}

/// Records a referral of `referred_user` at `now`. Nothing changes, and the
/// answer is `false`, once the mission is complete or when the user was
/// referred before.
pub fn update_referral_count(
    referral_count: &mut ReferralCount,
    referred_user: Principal,
    now: u64,
) -> (r: (bool, String))
    requires
        !old(referral_count).completed ==> old(referral_count).referrals_made_total < u32::MAX,
        !old(referral_count).completed ==> old(referral_count).total_referrals_made < u32::MAX,
    ensures
        old(referral_count).completed ==> {
            &&& !r.0
            &&& r.1@ == "Referral mission already completed. No more rewards available."@
            &&& *final(referral_count) == *old(referral_count)
        },
        !old(referral_count).completed && already_referred(old(referral_count).referred_users@, referred_user) ==> {
            &&& !r.0
            &&& r.1@ == "User already referred"@
            &&& *final(referral_count) == *old(referral_count)
        },
        !old(referral_count).completed && !already_referred(old(referral_count).referred_users@, referred_user) ==> {
            &&& r.0
            &&& final(referral_count).referrals_made_total == old(referral_count).referrals_made_total + 1
            &&& final(referral_count).total_referrals_made == old(referral_count).total_referrals_made + 1
            &&& final(referral_count).target_referrals == old(referral_count).target_referrals
            &&& final(referral_count).reward_claimed == old(referral_count).reward_claimed
            &&& final(referral_count).completed == (final(referral_count).referrals_made_total >= final(referral_count).target_referrals)
            &&& final(referral_count).referred_users@ == old(referral_count).referred_users@.push(
                ReferredUser { principal_id: referred_user, referred_at: now, is_active: true },
            )
            &&& r.1@ == referral_message(*final(referral_count))
        },
{
    if referral_count.completed {
        return (false, literal("Referral mission already completed. No more rewards available."));
    }
    let mut i: usize = 0;
    while i < referral_count.referred_users.len()
        invariant
            !referral_count.completed,
            i <= referral_count.referred_users@.len(),
            forall|j: int| 0 <= j < i ==> referral_count.referred_users@[j].principal_id != referred_user,
        decreases referral_count.referred_users@.len() - i,
    {
        if referral_count.referred_users[i].principal_id.same_as(&referred_user) {
            return (false, literal("User already referred"));
        }
        i = i + 1;
    }
    referral_count.referrals_made_total = referral_count.referrals_made_total + 1;
    referral_count.total_referrals_made = referral_count.total_referrals_made + 1;
    referral_count.referred_users.push(
        ReferredUser { principal_id: referred_user, referred_at: now, is_active: true },
    );
    if referral_count.referrals_made_total >= referral_count.target_referrals {
        referral_count.completed = true;
    }
    let mut message = literal("Referrals made: ");
    message.append(u64_to_decimal(referral_count.referrals_made_total as u64).as_str());
    message.append("/");
    message.append(u64_to_decimal(referral_count.target_referrals as u64).as_str());
    if referral_count.completed {
        message.append(" - Mission Complete!");
    } else {
        proof { reveal_strlit(""); }
        assert(message@ =~= message@ + ""@);
    }
    (true, message)
}

/// The name of a reward type, as `Debug` prints it.
pub open spec fn reward_type_name(t: RewardType) -> Seq<char> {
    match t {
        RewardType::LoginStreak => "LoginStreak"@,
        RewardType::LoginStreakBonus => "LoginStreakBonus"@,
        RewardType::GameCompletion => "GameCompletion"@,
        RewardType::AiVideoGeneration => "AiVideoGeneration"@,
        RewardType::Referral => "Referral"@,
    }
}

/// The name of a reward type.
pub fn reward_type_to_text(t: &RewardType) -> (s: String)
    ensures
        s@ == reward_type_name(*t),
{
    match t {
        RewardType::LoginStreak => literal("LoginStreak"),
        RewardType::LoginStreakBonus => literal("LoginStreakBonus"),
        RewardType::GameCompletion => literal("GameCompletion"),
        RewardType::AiVideoGeneration => literal("AiVideoGeneration"),
        RewardType::Referral => literal("Referral"),
    }
}

/// The id of a reward: the user's principal text in quotes, the reward type
/// and the whole seconds of the time, joined by underscores.
pub open spec fn reward_id(user: Principal, reward_type: RewardType, timestamp: u64) -> Seq<char> {
    "\""@ + principal_text(principal_bytes(user)) + "\"_"@ + reward_type_name(reward_type) + "_"@
        + decimal(seconds_of(timestamp) as nat)
}

/// Builds the id of the reward of type `reward_type` that `user` earned at `timestamp`.
pub fn generate_reward_id(user: &Principal, reward_type: &RewardType, timestamp: u64) -> (id: String)
    requires
        user.len <= 29,
    ensures
        id@ == reward_id(*user, *reward_type, timestamp),
{
    let mut id = literal("\"");
    id.append(user.to_text().as_str());
    id.append("\"_");
    id.append(reward_type_to_text(reward_type).as_str());
    id.append("_");
    id.append(u64_to_decimal(timestamp / NANOS_PER_SECOND).as_str());
    id
}

/// Whether `r` is the pending reward that `user` earns with these values.
pub open spec fn is_reward_for(
    r: PendingReward,
    user: Principal,
    reward_type: RewardType,
    amount: u64,
    mission_day: u32,
    timestamp: u64,
) -> bool {
    &&& r.id@ == reward_id(user, reward_type, timestamp)
    &&& r.reward_type == reward_type
    &&& r.amount == amount
    &&& r.earned_at == timestamp
    &&& r.mission_day == mission_day
}

/// Adds a pending reward to the user's missions; nothing else changes.
pub fn add_pending_reward(
    missions: &mut UserDailyMissions,
    user: &Principal,
    reward_type: RewardType,
    amount: u64,
    mission_day: u32,
    timestamp: u64,
)
    requires
        user.len <= 29,
    ensures
        final(missions).login_streak == old(missions).login_streak,
        final(missions).game_streak == old(missions).game_streak,
        final(missions).ai_video_count == old(missions).ai_video_count,
        final(missions).referral_count == old(missions).referral_count,
        final(missions).last_updated == old(missions).last_updated,
        final(missions).pending_rewards@.len() == old(missions).pending_rewards@.len() + 1,
        final(missions).pending_rewards@.drop_last() == old(missions).pending_rewards@,
        is_reward_for(final(missions).pending_rewards@.last(), *user, reward_type, amount, mission_day, timestamp),
{
    let reward_id = generate_reward_id(user, &reward_type, timestamp);
    let pending_reward = PendingReward {
        id: reward_id,
        reward_type,
        amount,
        earned_at: timestamp,
        mission_day,
    };
    missions.pending_rewards.push(pending_reward);
    assert(missions.pending_rewards@.drop_last() =~= old(missions).pending_rewards@);
}

} // verus!
