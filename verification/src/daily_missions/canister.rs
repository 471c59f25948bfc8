//! The daily-missions canister's state and its two update calls: recording
//! mission progress and claiming rewards.
use vstd::prelude::*;

use crate::daily_missions::mission_utils::{
    add_pending_reward, ai_video_message, ai_videos_after, already_referred, games_after_play,
    games_message, is_consecutive_login, is_repeat_login, is_reward_for, login_message,
    needs_daily_reset, referral_message, reward_type_name, reward_type_to_text,
    streak_after_login, update_ai_video_count, update_game_streak, update_login_streak,
    update_referral_count,
};
use crate::daily_missions::model::{
    ClaimRewardRequest, ClaimRewardResponse, ClaimedReward, MissionProgress, MissionType,
    MissionUpdateData, MissionUpdateResult, PendingReward, ReferredUser, RewardType,
    UpdateMissionRequest, UserDailyMissions, AI_VIDEO_GENERATION_REWARD, DAILY_LOGIN_REWARD,
    GAME_COMPLETION_REWARD, LOGIN_STREAK_COMPLETION_BONUS, LOGIN_STREAK_TARGET, REFERRAL_REWARD,
    is_fresh_missions, same_missions,
};
use crate::daily_missions::progress_utils::{
    build_mission_progress, first_with_id, mission_progress_of, no_reward_with_id,
    position_of_reward, reset_not_after,
};
use crate::daily_missions::time_utils::day_number;
use crate::keyed_vec::KeyedVec;
use crate::principal::Principal;
use crate::text::literal;

verus! {

/// The state of the daily-missions canister.
pub struct CanisterData {
    pub missions: KeyedVec<Principal, UserDailyMissions>,
    pub version: String,
}

/// Whether the data of a request is the event of its mission.
pub open spec fn data_fits_mission(req: UpdateMissionRequest) -> bool {
    match req.mission_type {
        MissionType::LoginStreak => req.data is LoginEvent,
        MissionType::PlayGames => req.data is GamePlayed,
        MissionType::GenerateAiVideos => req.data is AiVideoGenerated,
        MissionType::Referrals => req.data is ReferralMade,
    }
}

/// The message for a request whose data is not its mission's event.
pub open spec fn invalid_data_message(t: MissionType) -> Seq<char> {
    match t {
        MissionType::LoginStreak => "Invalid data for login streak mission"@,
        MissionType::PlayGames => "Invalid data for game mission"@,
        MissionType::GenerateAiVideos => "Invalid data for AI video mission"@,
        MissionType::Referrals => "Invalid data for referral mission"@,
    }
}

/// The rewards (type, amount, mission day) that a fitting request earns,
/// given the missions before it; `after` is the state after the mission's update.
pub open spec fn rewards_earned(before: UserDailyMissions, after: UserDailyMissions, req: UpdateMissionRequest) -> Seq<(RewardType, u64, u32)> {
    match req.mission_type {
        MissionType::LoginStreak => {
            let prev = before.login_streak.current_streak;
            let cur = after.login_streak.current_streak;
            let daily: Seq<(RewardType, u64, u32)> = if cur > prev {
                seq![(RewardType::LoginStreak, DAILY_LOGIN_REWARD, cur)]
            } else {
                Seq::empty()
            };
            let bonus: Seq<(RewardType, u64, u32)> = if cur == LOGIN_STREAK_TARGET && prev < LOGIN_STREAK_TARGET {
                seq![(RewardType::LoginStreakBonus, LOGIN_STREAK_COMPLETION_BONUS, LOGIN_STREAK_TARGET)]
            } else {
                Seq::empty()
            };
            daily + bonus
        },
        MissionType::PlayGames => {
            if !before.game_streak.claimed_today
                && after.game_streak.games_played_today >= after.game_streak.target_games
                && before.game_streak.games_played_today < after.game_streak.target_games {
                seq![(RewardType::GameCompletion, GAME_COMPLETION_REWARD, 1u32)]
            } else {
                Seq::empty()
            }
        },
        MissionType::GenerateAiVideos => {
            if !before.ai_video_count.completed && after.ai_video_count.completed
                && !after.ai_video_count.reward_claimed {
                seq![(RewardType::AiVideoGeneration, AI_VIDEO_GENERATION_REWARD, 1u32)]
            } else {
                Seq::empty()
            }
        },
        MissionType::Referrals => {
            if !before.referral_count.completed && after.referral_count.completed
                && !after.referral_count.reward_claimed {
                seq![(RewardType::Referral, REFERRAL_REWARD, 1u32)]
            } else {
                Seq::empty()
            }
        },
    }
}

/// What the update of one mission does to the missions: `after` is `before`
/// with that mission advanced, `last_updated` set to `now` and the earned
/// rewards appended; `success` and `message` are the mission update's answer.
pub open spec fn mission_update_effect(
    before: UserDailyMissions,
    after: UserDailyMissions,
    user: Principal,
    req: UpdateMissionRequest,
    now: u64,
    success: bool,
    message: Seq<char>,
) -> bool {
    let earned = rewards_earned(before, after, req);
    &&& after.last_updated == now
    &&& (req.mission_type != MissionType::LoginStreak ==> after.login_streak == before.login_streak)
    &&& (req.mission_type != MissionType::PlayGames ==> after.game_streak == before.game_streak)
    &&& (req.mission_type != MissionType::GenerateAiVideos ==> after.ai_video_count == before.ai_video_count)
    &&& (req.mission_type != MissionType::Referrals ==> after.referral_count == before.referral_count)
    &&& match req.mission_type {
        MissionType::LoginStreak => if is_repeat_login(before.login_streak, now) {
            &&& !success
            &&& message == "Already logged in today"@
            &&& after.login_streak == before.login_streak
        } else {
            &&& success
            &&& after.login_streak == streak_after_login(before.login_streak, now)
            &&& message == login_message(after.login_streak.current_streak)
        },
        MissionType::PlayGames => {
            &&& success
            &&& after.game_streak == games_after_play(before.game_streak, now)
            &&& message == games_message(after.game_streak)
        },
        MissionType::GenerateAiVideos => if before.ai_video_count.completed {
            &&& !success
            &&& message == "AI video generation mission already completed. No more rewards available."@
            &&& after.ai_video_count == before.ai_video_count
        } else {
            &&& success
            &&& after.ai_video_count == ai_videos_after(before.ai_video_count)
            &&& message == ai_video_message(after.ai_video_count)
        },
        MissionType::Referrals => {
            let referred = req.data->referred_user;
            let b = before.referral_count;
            let a = after.referral_count;
            if b.completed {
                &&& !success
                &&& message == "Referral mission already completed. No more rewards available."@
                &&& a == b
            } else if already_referred(b.referred_users@, referred) {
                &&& !success
                &&& message == "User already referred"@
                &&& a == b
            } else {
                &&& success
                &&& a.referrals_made_total == b.referrals_made_total + 1
                &&& a.total_referrals_made == b.total_referrals_made + 1
                &&& a.target_referrals == b.target_referrals
                &&& a.reward_claimed == b.reward_claimed
                &&& a.completed == (a.referrals_made_total >= a.target_referrals)
                &&& a.referred_users@ == b.referred_users@.push(
                    ReferredUser { principal_id: referred, referred_at: now, is_active: true },
                )
                &&& message == referral_message(a)
            }
        },
    }
    &&& after.pending_rewards@.len() == before.pending_rewards@.len() + earned.len()
    &&& after.pending_rewards@.take(before.pending_rewards@.len() as int) == before.pending_rewards@
    &&& forall|i: int| 0 <= i < earned.len() ==> is_reward_for(
        #[trigger] after.pending_rewards@[before.pending_rewards@.len() + i],
        user,
        earned[i].0,
        earned[i].1,
        earned[i].2,
        now,
    )
}

/// What a mission update needs of the stored missions: counters that can
/// still grow, and a games counter not reset after `now`.
pub open spec fn update_allowed(m: UserDailyMissions, req: UpdateMissionRequest, now: u64) -> bool {
    &&& reset_not_after(m, now)
    &&& match req.mission_type {
        MissionType::LoginStreak => is_consecutive_login(m.login_streak, now)
            ==> m.login_streak.current_streak < u32::MAX,
        MissionType::PlayGames => !needs_daily_reset(m.game_streak.last_reset_date, now)
            ==> m.game_streak.games_played_today < u32::MAX,
        MissionType::GenerateAiVideos => !m.ai_video_count.completed ==> {
            &&& m.ai_video_count.videos_generated_total < u32::MAX
            &&& m.ai_video_count.total_videos_generated < u32::MAX
        },
        MissionType::Referrals => !m.referral_count.completed ==> {
            &&& m.referral_count.referrals_made_total < u32::MAX
            &&& m.referral_count.total_referrals_made < u32::MAX
        },
    }
}

/// Whether `before` is what the canister holds for `user` in `map`: the
/// stored missions, or fresh ones when there are none.
pub open spec fn missions_before(map: Map<Principal, UserDailyMissions>, user: Principal, before: UserDailyMissions) -> bool {
    &&& map.contains_key(user) ==> before == map[user]
    &&& !map.contains_key(user) ==> is_fresh_missions(before)
}

/// The message for a claimed reward: its type's name and " reward claimed successfully".
pub open spec fn claimed_message(t: RewardType) -> Seq<char> {
    reward_type_name(t) + " reward claimed successfully"@
}

/// What claiming the pending reward `p` at `now` does to the missions.
pub open spec fn claim_effect(before: UserDailyMissions, after: UserDailyMissions, i: int, p: PendingReward, now: u64) -> bool {
    let claimed = ClaimedReward { reward_type: p.reward_type, amount: p.amount, claimed_at: now, day: p.mission_day };
    &&& after.pending_rewards@ == before.pending_rewards@.remove(i)
    &&& after.last_updated == before.last_updated
    &&& match p.reward_type {
        RewardType::LoginStreak | RewardType::LoginStreakBonus => {
            &&& after.login_streak.claimed_rewards@ == before.login_streak.claimed_rewards@.push(claimed)
            &&& after.login_streak.current_streak == before.login_streak.current_streak
            &&& after.login_streak.max_streak == before.login_streak.max_streak
            &&& after.login_streak.last_login_date == before.login_streak.last_login_date
            &&& after.login_streak.streak_start_date == before.login_streak.streak_start_date
            &&& after.login_streak.can_claim_today == before.login_streak.can_claim_today
            &&& after.game_streak == before.game_streak
            &&& after.ai_video_count == before.ai_video_count
            &&& after.referral_count == before.referral_count
        },
        RewardType::GameCompletion => {
            &&& after.login_streak == before.login_streak
            &&& after.game_streak == (crate::daily_missions::model::GameStreak {
                claimed_today: true,
                total_games_completed: (before.game_streak.total_games_completed + 1) as u32,
                ..before.game_streak
            })
            &&& after.ai_video_count == before.ai_video_count
            &&& after.referral_count == before.referral_count
        },
        RewardType::AiVideoGeneration => {
            &&& after.login_streak == before.login_streak
            &&& after.game_streak == before.game_streak
            &&& after.ai_video_count == (crate::daily_missions::model::GenerateAiVideoCount {
                reward_claimed: true,
                ..before.ai_video_count
            })
            &&& after.referral_count == before.referral_count
        },
        RewardType::Referral => {
            &&& after.login_streak == before.login_streak
            &&& after.game_streak == before.game_streak
            &&& after.ai_video_count == before.ai_video_count
            &&& after.referral_count.reward_claimed
            &&& after.referral_count.referrals_made_total == before.referral_count.referrals_made_total
            &&& after.referral_count.target_referrals == before.referral_count.target_referrals
            &&& after.referral_count.completed == before.referral_count.completed
            &&& after.referral_count.total_referrals_made == before.referral_count.total_referrals_made
            &&& after.referral_count.referred_users == before.referral_count.referred_users
        },
    }
}

/// Whether claiming the reward at position `i` of `m` can be recorded: the
/// count of completed games must be able to grow.
pub open spec fn claim_allowed(m: UserDailyMissions, id: Seq<char>) -> bool {
    forall|i: int| #[trigger] first_with_id(m.pending_rewards@, id, i)
        && m.pending_rewards@[i].reward_type == RewardType::GameCompletion
        ==> m.game_streak.total_games_completed < u32::MAX
}

impl CanisterData {
    /// An empty canister state with the given version.
    pub fn new_with_version(version: String) -> (d: CanisterData)
        ensures
            d.missions.map() == Map::<Principal, UserDailyMissions>::empty(),
            d.version == version,
    {
        CanisterData { missions: KeyedVec::new(), version }
    }

    /// Sets the version.
    pub fn set_version(&mut self, version: &str)
        ensures
            final(self).version@ == version@,
            final(self).missions == old(self).missions,
    {
        self.version = literal(version);
    }

    /// The version.
    pub fn get_version(&self) -> (v: String)
        ensures
            v == self.version,
    {
        self.version.clone()
    }

    /// A copy of the user's missions, or fresh missions for an unknown user.
    pub fn get_user_missions(&self, user: &Principal) -> (m: UserDailyMissions)
        ensures
            self.missions.map().contains_key(*user) ==> same_missions(m, self.missions.map()[*user]),
            !self.missions.map().contains_key(*user) ==> is_fresh_missions(m),
    {
        match self.missions.get(user) {
            Some(m) => m.duplicate(),
            None => UserDailyMissions::default(),
        }
    }

    /// Stores the user's missions.
    pub fn update_user_missions(&mut self, user: Principal, missions: UserDailyMissions)
        ensures
            final(self).missions.map() == old(self).missions.map().insert(user, missions),
            final(self).version == old(self).version,
    {
        self.missions.insert(user, missions);
    }

    /// Whether missions are stored for the user.
    pub fn user_exists(&self, user: &Principal) -> (r: bool)
        ensures
            r == self.missions.map().contains_key(*user),
    {
        self.missions.contains_key(user)
    }

    /// Takes the user's missions out of the map, or fresh ones.
    fn take_user_missions(&mut self, user: &Principal) -> (m: UserDailyMissions)
        ensures
            missions_before(old(self).missions.map(), *user, m),
            final(self).missions.map() == old(self).missions.map().remove(*user),
            final(self).version == old(self).version,
    {
        match self.missions.remove(user) {
            Some(m) => m,
            None => UserDailyMissions::default(),
        }
    }

    /// Whether the request's data is its mission's event.
    pub fn data_fits(request: &UpdateMissionRequest) -> (r: bool)
        ensures
            r == data_fits_mission(*request),
    {
        match (&request.mission_type, &request.data) {
            (MissionType::LoginStreak, MissionUpdateData::LoginEvent) => true,
            (MissionType::PlayGames, MissionUpdateData::GamePlayed { .. }) => true,
            (MissionType::GenerateAiVideos, MissionUpdateData::AiVideoGenerated { .. }) => true,
            (MissionType::Referrals, MissionUpdateData::ReferralMade { .. }) => true,
            _ => false,
        }
    }

    /// Whether the user's game counter was last reset no later than `now`
    /// (always so for a user without missions).
    pub fn reset_not_after_now(&self, user: &Principal, now: u64) -> (r: bool)
        ensures
            r == (self.missions.map().contains_key(*user) ==> reset_not_after(self.missions.map()[*user], now)),
    {
        match self.missions.get(user) {
            Some(m) => match m.game_streak.last_reset_date {
                Some(last) => last <= now,
                None => true,
            },
            None => true,
        }
    }

    /// Whether recording `request` for the user at `now` keeps every counter
    /// within its type (always so for a user without missions).
    pub fn update_allowed_now(&self, user: &Principal, request: &UpdateMissionRequest, now: u64) -> (r: bool)
        ensures
            r == (self.missions.map().contains_key(*user) ==> update_allowed(self.missions.map()[*user], *request, now)),
    {
        match self.missions.get(user) {
            Some(m) => {
                let reset_ok = match m.game_streak.last_reset_date {
                    Some(last) => last <= now,
                    None => true,
                };
                let counters_ok = match request.mission_type {
                    MissionType::LoginStreak => {
                        let consecutive = match m.login_streak.last_login_date {
                            Some(last) => day_number(now) as u128 == day_number(last) as u128 + 1,
                            None => false,
                        };
                        !consecutive || m.login_streak.current_streak < u32::MAX
                    },
                    MissionType::PlayGames => {
                        let needs_reset = match m.game_streak.last_reset_date {
                            Some(last) => day_number(now) > day_number(last),
                            None => true,
                        };
                        needs_reset || m.game_streak.games_played_today < u32::MAX
                    },
                    MissionType::GenerateAiVideos => m.ai_video_count.completed || (
                        m.ai_video_count.videos_generated_total < u32::MAX
                            && m.ai_video_count.total_videos_generated < u32::MAX),
                    MissionType::Referrals => m.referral_count.completed || (
                        m.referral_count.referrals_made_total < u32::MAX
                            && m.referral_count.total_referrals_made < u32::MAX),
                };
                reset_ok && counters_ok
            },
            None => true,
        }
    }

    /// Whether claiming the reward with this id keeps the games counter
    /// within its type (always so for a user without missions).
    pub fn claim_allowed_now(&self, user: &Principal, reward_id: &str) -> (r: bool)
        ensures
            r == (self.missions.map().contains_key(*user) ==> claim_allowed(self.missions.map()[*user], reward_id@)),
    {
        match self.missions.get(user) {
            Some(m) => match position_of_reward(m.pending_rewards.as_slice(), reward_id) {
                Some(i) => {
                    proof {
                        assert forall|j: int| #[trigger] first_with_id(m.pending_rewards@, reward_id@, j)
                            implies j == i as int by {
                            if j < i as int {
                                assert(m.pending_rewards@[j].id@ != reward_id@);
                            } else if j > i as int {
                                assert(m.pending_rewards@[i as int].id@ != reward_id@);
                            }
                        }
                    }
                    m.pending_rewards[i].reward_type != RewardType::GameCompletion
                        || m.game_streak.total_games_completed < u32::MAX
                },
                None => true,
            },
            None => true,
        }
    }

    /// The progress of the user's missions at `now`.
    pub fn get_current_mission_progress(&self, user: &Principal, now: u64) -> (p: MissionProgress)
        requires
            self.missions.map().contains_key(*user) ==> reset_not_after(self.missions.map()[*user], now),
        ensures
            exists|m: UserDailyMissions| missions_before(self.missions.map(), *user, m)
                && mission_progress_of(m, now, p),
    {
        match self.missions.get(user) {
            Some(m) => build_mission_progress(m, now),
            None => {
                let m = UserDailyMissions::default();
                build_mission_progress(&m, now)
            },
        }
    }

    /// Records progress on one mission for `user` at `now`, adds the rewards
    /// it earns to the pending ones and answers with the new progress. A
    /// request whose data is not its mission's event changes nothing.
    pub fn update_mission(&mut self, user: Principal, request: UpdateMissionRequest, now: u64) -> (r: MissionUpdateResult)
        requires
            user.len <= 29,
            data_fits_mission(request) && old(self).missions.map().contains_key(user)
                ==> update_allowed(old(self).missions.map()[user], request, now),
        ensures
            !data_fits_mission(request) ==> {
                &&& final(self).missions.map() == old(self).missions.map()
                &&& final(self).version == old(self).version
                &&& !r.success
                &&& r.message@ == invalid_data_message(request.mission_type)
                &&& r.new_progress is None
                &&& r.reward_earned is None
            },
            data_fits_mission(request) ==> {
                &&& final(self).version == old(self).version
                &&& final(self).missions.map().contains_key(user)
                &&& final(self).missions.map() == old(self).missions.map().insert(user, final(self).missions.map()[user])
                &&& exists|before: UserDailyMissions| #[trigger] missions_before(old(self).missions.map(), user, before)
                    && mission_update_effect(before, final(self).missions.map()[user], user, request, now, r.success, r.message@)
                &&& r.new_progress matches Some(p) && mission_progress_of(final(self).missions.map()[user], now, p)
                &&& r.reward_earned is None
            },
    {
        let fits = Self::data_fits(&request);
        if !fits {
            let message = match request.mission_type {
                MissionType::LoginStreak => literal("Invalid data for login streak mission"),
                MissionType::PlayGames => literal("Invalid data for game mission"),
                MissionType::GenerateAiVideos => literal("Invalid data for AI video mission"),
                MissionType::Referrals => literal("Invalid data for referral mission"),
            };
            return MissionUpdateResult { success: false, message, new_progress: None, reward_earned: None };
        }
        let ghost old_map = self.missions.map();
        let mut missions = self.take_user_missions(&user);
        let ghost before = missions;
        missions.last_updated = now;
        let ghost stamped = missions;
        let result = match request.mission_type {
            MissionType::LoginStreak => {
                let prev_streak = missions.login_streak.current_streak;
                let result = update_login_streak(&mut missions.login_streak, now);
                if result.0 && missions.login_streak.current_streak > prev_streak {
                    let current_streak = missions.login_streak.current_streak;
                    add_pending_reward(&mut missions, &user, RewardType::LoginStreak, DAILY_LOGIN_REWARD, current_streak, now);
                }
                let ghost mid = missions;
                let current_streak = missions.login_streak.current_streak;
                if current_streak == LOGIN_STREAK_TARGET && prev_streak < LOGIN_STREAK_TARGET {
                    add_pending_reward(
                        &mut missions,
                        &user,
                        RewardType::LoginStreakBonus,
                        LOGIN_STREAK_COMPLETION_BONUS,
                        LOGIN_STREAK_TARGET,
                        now,
                    );
                }
                proof {
                    let earned = rewards_earned(before, missions, request);
                    let n = before.pending_rewards@.len();
                    assert(missions.pending_rewards@.take(n as int) =~= before.pending_rewards@);
                    assert forall|i: int| 0 <= i < earned.len() implies is_reward_for(
                        #[trigger] missions.pending_rewards@[n + i], user, earned[i].0, earned[i].1, earned[i].2, now) by {
                        if missions.pending_rewards@.len() > mid.pending_rewards@.len() {
                            assert(missions.pending_rewards@.drop_last() == mid.pending_rewards@);
                        }
                        if i + 1 < earned.len() || missions.pending_rewards@.len() == mid.pending_rewards@.len() {
                            assert(missions.pending_rewards@[n + i] == mid.pending_rewards@[n + i]);
                        }
                    }
                }
                result
            },
            MissionType::PlayGames => {
                let prev_games = missions.game_streak.games_played_today;
                let prev_claimed = missions.game_streak.claimed_today;
                let result = update_game_streak(&mut missions.game_streak, now);
                if !prev_claimed && missions.game_streak.games_played_today >= missions.game_streak.target_games
                    && prev_games < missions.game_streak.target_games {
                    add_pending_reward(&mut missions, &user, RewardType::GameCompletion, GAME_COMPLETION_REWARD, 1, now);
                }
                proof {
                    let n = before.pending_rewards@.len();
                    assert(missions.pending_rewards@.take(n as int) =~= before.pending_rewards@);
                }
                result
            },
            MissionType::GenerateAiVideos => {
                let prev_completed = missions.ai_video_count.completed;
                let result = update_ai_video_count(&mut missions.ai_video_count, now);
                if !prev_completed && missions.ai_video_count.completed && !missions.ai_video_count.reward_claimed {
                    add_pending_reward(&mut missions, &user, RewardType::AiVideoGeneration, AI_VIDEO_GENERATION_REWARD, 1, now);
                }
                proof {
                    let n = before.pending_rewards@.len();
                    assert(missions.pending_rewards@.take(n as int) =~= before.pending_rewards@);
                }
                result
            },
            MissionType::Referrals => {
                let referred_user = match &request.data {
                    MissionUpdateData::ReferralMade { referred_user } => *referred_user,
                    _ => user,
                };
                let prev_completed = missions.referral_count.completed;
                let result = update_referral_count(&mut missions.referral_count, referred_user, now);
                if !prev_completed && missions.referral_count.completed && !missions.referral_count.reward_claimed {
                    add_pending_reward(&mut missions, &user, RewardType::Referral, REFERRAL_REWARD, 1, now);
                }
                proof {
                    let n = before.pending_rewards@.len();
                    assert(missions.pending_rewards@.take(n as int) =~= before.pending_rewards@);
                }
                result
            },
        };
        let progress = build_mission_progress(&missions, now);
        let ghost after = missions;
        self.missions.insert(user, missions);
        proof {
            assert(self.missions.map()[user] == after);
            assert(self.missions.map() =~= old_map.insert(user, self.missions.map()[user]));
            assert(missions_before(old_map, user, before));
        }
        MissionUpdateResult {
            success: result.0,
            message: result.1,
            new_progress: Some(progress),
            reward_earned: None,
        }
    }

    /// Claims the user's first pending reward with the requested id at `now`:
    /// it leaves the pending list and is recorded on its mission. An id with
    /// no pending reward changes nothing.
    pub fn claim_reward(&mut self, user: Principal, request: ClaimRewardRequest, now: u64) -> (r: ClaimRewardResponse)
        requires
            old(self).missions.map().contains_key(user)
                ==> claim_allowed(old(self).missions.map()[user], request.reward_id@),
        ensures
            final(self).version == old(self).version,
            !r.success <==> (!old(self).missions.map().contains_key(user)
                || no_reward_with_id(old(self).missions.map()[user].pending_rewards@, request.reward_id@)),
            !r.success ==> {
                &&& final(self).missions.map() == old(self).missions.map()
                &&& r.message@ == "Reward not found or already claimed"@
                &&& r.reward_amount is None
                &&& r.claimed_reward is None
            },
            r.success ==> {
                let before = old(self).missions.map()[user];
                &&& final(self).missions.map().contains_key(user)
                &&& final(self).missions.map() == old(self).missions.map().insert(user, final(self).missions.map()[user])
                &&& exists|i: int| #[trigger] first_with_id(before.pending_rewards@, request.reward_id@, i)
                    && claim_effect(before, final(self).missions.map()[user], i, before.pending_rewards@[i], now)
                    && r.message@ == claimed_message(before.pending_rewards@[i].reward_type)
                    && r.reward_amount == Some(before.pending_rewards@[i].amount)
                    && r.claimed_reward == Some(ClaimedReward {
                        reward_type: before.pending_rewards@[i].reward_type,
                        amount: before.pending_rewards@[i].amount,
                        claimed_at: now,
                        day: before.pending_rewards@[i].mission_day,
                    })
            },
    {
        let not_found = ClaimRewardResponse {
            success: false,
            message: literal("Reward not found or already claimed"),
            reward_amount: None,
            claimed_reward: None,
        };
        let ghost old_map = self.missions.map();
        let mut missions = match self.missions.remove(&user) {
            Some(m) => m,
            None => {
                proof {
                    assert(self.missions.map() =~= old_map);
                }
                return not_found;
            },
        };
        let ghost before = missions;
        match position_of_reward(missions.pending_rewards.as_slice(), request.reward_id.as_str()) {
            Some(index) => {
                let pending_reward = missions.pending_rewards.remove(index);
                let ghost i = index as int;
                let claimed_reward = ClaimedReward {
                    reward_type: pending_reward.reward_type,
                    amount: pending_reward.amount,
                    claimed_at: now,
                    day: pending_reward.mission_day,
                };
                match pending_reward.reward_type {
                    RewardType::LoginStreak => {
                        missions.login_streak.claimed_rewards.push(claimed_reward);
                    },
                    RewardType::LoginStreakBonus => {
                        missions.login_streak.claimed_rewards.push(claimed_reward);
                    },
                    RewardType::GameCompletion => {
                        missions.game_streak.claimed_today = true;
                        missions.game_streak.total_games_completed = missions.game_streak.total_games_completed + 1;
                    },
                    RewardType::AiVideoGeneration => {
                        missions.ai_video_count.reward_claimed = true;
                    },
                    RewardType::Referral => {
                        missions.referral_count.reward_claimed = true;
                    },
                }
                let ghost after = missions;
                self.missions.insert(user, missions);
                proof {
                    assert(self.missions.map()[user] == after);
                    assert(self.missions.map() =~= old_map.insert(user, self.missions.map()[user]));
                    assert(claim_effect(before, after, i, before.pending_rewards@[i], now));
                }
                let mut message = reward_type_to_text(&pending_reward.reward_type);
                message.append(" reward claimed successfully");
                ClaimRewardResponse {
                    success: true,
                    message,
                    reward_amount: Some(pending_reward.amount),
                    claimed_reward: Some(claimed_reward),
                }
            },
            None => {
                self.missions.insert(user, missions);
                proof {
                    assert(self.missions.map() =~= old_map);
                }
                not_found
            },
        }
    }
}

impl Default for CanisterData {
    /// An empty state at version "1.0.0".
    fn default() -> (d: CanisterData)
        ensures
            d.missions.map() == Map::<Principal, UserDailyMissions>::empty(),
            d.version@ == "1.0.0"@,
    {
        CanisterData { missions: KeyedVec::new(), version: literal("1.0.0") }
    }
}

} // verus!
