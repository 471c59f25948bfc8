//! Rate limits per principal and property, property-wide limits, a
//! blacklist, and the bookkeeping of video generation requests.
pub mod types;
pub mod canister;
pub mod api;
pub mod laws;
