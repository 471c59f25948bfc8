//! Verified core logic of the HotOrNot backend canisters: daily missions,
//! rate limits, user info, notifications, the video dedup index and the
//! bookkeeping of bulk canister operations.
use vstd::prelude::*;

pub mod principal;
pub mod text;
pub mod keyed_vec;
pub mod principal_set;
pub mod daily_missions;
pub mod rate_limits;
pub mod user_info;
pub mod notification_store;
pub mod dedup_index;
pub mod user_index;

verus! {
} // verus!
