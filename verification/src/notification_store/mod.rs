//! The notification store: each user's notifications, newest last, with
//! when the user last opened the notification panel.
pub mod types;
pub mod api;
pub mod laws;
