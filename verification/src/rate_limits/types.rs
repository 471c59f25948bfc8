//! The values the rate-limits canister stores and answers with.
use vstd::prelude::*;

use crate::keyed_vec::MapKey;
use crate::principal::Principal;

verus! {

/// The window of a property-wide limit when its configuration names none: a day.
pub const DEFAULT_PROPERTY_WINDOW_SECONDS: u64 = 86400;

/// A limit of its own for one principal on one property.
#[derive(Clone, Copy, Debug, PartialEq, Eq, Structural)]
pub struct RateLimitConfig {
    pub max_requests_per_window: u64,
    pub window_duration_seconds: u64,
}

/// The limits every principal gets where nothing more specific is set.
#[derive(Clone, Copy, Debug, PartialEq, Eq, Structural)]
pub struct GlobalRateLimitConfig {
    pub max_requests_per_window_registered: u64,
    pub max_requests_per_window_unregistered: u64,
    pub window_duration_seconds: u64,
}

/// The limits of one property, per principal and, optionally, for all users together.
#[derive(Clone, Debug)]
pub struct PropertyRateLimitConfig {
    pub property: String,
    pub max_requests_per_window_registered: u64,
    pub max_requests_per_window_unregistered: u64,
    pub window_duration_seconds: u64,
    pub max_requests_per_property_all_users: Option<u64>,
    pub property_rate_limit_window_duration_seconds: Option<u64>,
}

/// The count of requests in the current window. Times are whole seconds since the epoch.
#[derive(Clone, Copy, Debug, PartialEq, Eq, Structural)]
pub struct RateLimitEntry {
    pub request_count: u64,
    pub window_start: u64,
    pub config: Option<RateLimitConfig>,
}

/// The key of a principal's counter on a property.
#[derive(Clone, Debug)]
pub struct RateLimitKey {
    pub principal: Principal,
    pub property: String,
}

impl RateLimitKey {
    pub fn new(principal: Principal, property: String) -> (k: RateLimitKey)
        ensures
            k.principal == principal,
            k.property == property,
    {
        RateLimitKey { principal, property }
    }
}

impl View for RateLimitKey {
    type V = (Principal, Seq<char>);

    open spec fn view(&self) -> (Principal, Seq<char>) {
        (self.principal, self.property@)
    }
}

impl MapKey for RateLimitKey {
    fn key_eq(&self, other: &Self) -> (r: bool) {
        self.principal.same_as(&other.principal) && self.property == other.property
    }
}

/// Where a principal stands on a property.
#[derive(Clone, Copy, Debug)]
pub struct RateLimitStatus {
    pub principal: Principal,
    pub request_count: u64,
    pub window_start: u64,
    pub is_limited: bool,
}

/// The answer of the rate-limit calls: a message either way.
pub type RateLimitResult = Result<String, String>;

/// The state of a video generation request.
#[derive(Clone, Debug)]
pub enum VideoGenRequestStatus {
    Pending,
    Processing,
    Complete(String),
    Failed(String),
}

/// The key of a video generation request: the principal and its number among
/// that principal's requests, counting from 1.
#[derive(Clone, Copy, Debug)]
pub struct VideoGenRequestKey {
    pub principal: Principal,
    pub counter: u64,
}

impl VideoGenRequestKey {
    pub fn new(principal: Principal, counter: u64) -> (k: VideoGenRequestKey)
        ensures
            k == (VideoGenRequestKey { principal, counter }),
    {
        VideoGenRequestKey { principal, counter }
    }
}

impl View for VideoGenRequestKey {
    type V = VideoGenRequestKey;

    open spec fn view(&self) -> VideoGenRequestKey {
        *self
    }
}

impl MapKey for VideoGenRequestKey {
    fn key_eq(&self, other: &Self) -> (r: bool) {
        self.principal.same_as(&other.principal) && self.counter == other.counter
    }
}

/// A video generation request. Times are whole seconds since the epoch.
#[derive(Clone, Debug)]
pub struct VideoGenRequest {
    pub model_name: String,
    pub prompt: String,
    pub status: VideoGenRequestStatus,
    pub created_at: u64,
    pub updated_at: u64,
}

} // verus!
