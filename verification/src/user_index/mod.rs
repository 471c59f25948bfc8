//! The user index's canister bookkeeping: which user has which canister,
//! the pools of spare canisters, and the progress of bulk operations.
pub mod canister;
pub mod laws;
