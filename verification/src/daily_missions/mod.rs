//! Daily missions: login streaks, games, AI videos and referrals, with the
//! rewards they earn.
pub mod model;
pub mod time_utils;
pub mod mission_utils;
pub mod progress_utils;
pub mod canister;
pub mod laws;
