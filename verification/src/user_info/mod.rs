//! User profiles: registration, bots, sessions, follows, profile details
//! and subscription credits.
pub mod types;
pub mod canister;
pub mod laws;
pub mod api;
