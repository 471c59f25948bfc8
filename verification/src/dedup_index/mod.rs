//! The video dedup index: each video hash with the videos that have it.
pub mod order;
pub mod index;
pub mod api;
pub mod laws;
