//! The calls of the rate-limits canister, given the caller's identity and
//! the time as plain values.
use vstd::prelude::*;

use crate::principal::{Principal, principal_bytes, principal_text};
use crate::rate_limits::canister::{CanisterData, ordered_listing, property_window, secs_of};
use crate::rate_limits::types::{
    GlobalRateLimitConfig, PropertyRateLimitConfig, RateLimitConfig, RateLimitResult,
    RateLimitStatus, VideoGenRequest, VideoGenRequestKey, VideoGenRequestStatus,
};
use crate::text::literal;
use crate::user_info::types::SessionType;

verus! {

/// The text that `Debug` prints for an optional string, its characters
/// escaped as `str::escape_debug` does.
pub uninterp spec fn optional_text_debug(s: Option<Seq<char>>) -> Seq<char>;

/// Calls `format!("{:?}", s)` on an `Option<String>`. The contract names the
/// text and states that `None` prints as "None"; the escaping of a present
/// string is left unsaid.
#[verifier::external_body]
fn debug_optional_text(s: &Option<String>) -> (t: String)
    ensures
        t@ == optional_text_debug(match s { Some(x) => Some(x@), None => None }),
        s is None ==> t@ == "None"@,
{
    format!("{:?}", s)
}

/// The message of a refused increment.
pub open spec fn unauthorized_increment_message() -> Seq<char> {
    "Unauthorized: Only admin, controller, or the principal itself can increment request count"@
}

/// Only the principal itself, a controller or a global admin may count
/// requests for a principal.
pub fn is_caller_allowed_to_increment(caller: &Principal, caller_is_admin: bool, principal: &Principal) -> (r: Result<(), String>)
    ensures
        r is Ok <==> (*caller == *principal || caller_is_admin),
        r matches Err(e) ==> e@ == unauthorized_increment_message(),
{
    if caller.same_as(principal) || caller_is_admin {
        return Ok(());
    }
    Err(literal("Unauthorized: Only admin, controller, or the principal itself can increment request count"))
}

/// Whether a request would be refused: "Rate limit exceeded", else "Within rate limit".
pub fn check_rate_limit(
    data: &CanisterData,
    principal: Principal,
    property: String,
    is_registered: bool,
    now: u64,
) -> (r: RateLimitResult)
    requires
        data.status_computable(principal, property@, secs_of(now)),
    ensures
        data.limited(principal, property@, is_registered, secs_of(now)) ==> (r matches Err(e) && e@ == "Rate limit exceeded"@),
        !data.limited(principal, property@, is_registered, secs_of(now)) ==> (r matches Ok(m) && m@ == "Within rate limit"@),
{
    if data.is_rate_limited_with_property(&principal, property.as_str(), is_registered, now) {
        Err(literal("Rate limit exceeded"))
    } else {
        Ok(literal("Within rate limit"))
    }
}

/// Counts a request of `principal` on `property` unless the caller may not
/// or the request is rate limited.
pub fn increment_request_count(
    data: &mut CanisterData,
    caller: Principal,
    caller_is_admin: bool,
    principal: Principal,
    property: String,
    is_registered: bool,
    now: u64,
) -> (r: RateLimitResult)
    requires
        caller == principal || caller_is_admin ==> old(data).status_computable(principal, property@, secs_of(now)),
        caller == principal || caller_is_admin ==> old(data).increment_fits(principal, property@, secs_of(now)),
    ensures
        !(caller == principal || caller_is_admin) ==> {
            &&& r matches Err(e) && e@ == unauthorized_increment_message()
            &&& *final(data) == *old(data)
        },
        (caller == principal || caller_is_admin) && old(data).limited(principal, property@, is_registered, secs_of(now)) ==> {
            &&& r matches Err(e) && e@ == "Rate limit exceeded"@
            &&& *final(data) == *old(data)
        },
        (caller == principal || caller_is_admin) && !old(data).limited(principal, property@, is_registered, secs_of(now)) ==> {
            &&& r matches Ok(m) && m@ == "Request count incremented"@
            &&& final(data).limits() == old(data).limits().insert(
                (principal, property@),
                old(data).counted_entry(principal, property@, secs_of(now)),
            )
            &&& final(data).property_limits() == old(data).counted_property_limits(property@, secs_of(now))
            &&& final(data).same_settings(*old(data))
        },
{
    match is_caller_allowed_to_increment(&caller, caller_is_admin, &principal) {
        Err(e) => return Err(e),
        Ok(()) => {},
    }
    if data.is_rate_limited_with_property(&principal, property.as_str(), is_registered, now) {
        Err(literal("Rate limit exceeded"))
    } else {
        data.increment_request_with_property(&principal, property.as_str(), now);
        Ok(literal("Request count incremented"))
    }
}

/// The message of a paid request.
pub open spec fn paid_message(payment_amount: Option<String>) -> Seq<char> {
    "Paid request processed. Amount: "@ + optional_text_debug(match payment_amount { Some(x) => Some(x@), None => None })
}

/// Like `increment_request_count`, but a paid request skips the limits and
/// is counted only on the property-wide counter.
pub fn increment_request_count_v1(
    data: &mut CanisterData,
    caller: Principal,
    caller_is_admin: bool,
    principal: Principal,
    property: String,
    is_registered: bool,
    is_paid: bool,
    payment_amount: Option<String>,
    now: u64,
) -> (r: RateLimitResult)
    requires
        (caller == principal || caller_is_admin) && !is_paid ==> old(data).status_computable(principal, property@, secs_of(now)),
        (caller == principal || caller_is_admin) && !is_paid ==> old(data).own_increment_fits(principal, property@, secs_of(now)),
        caller == principal || caller_is_admin ==> old(data).property_increment_fits(property@, secs_of(now)),
    ensures
        !(caller == principal || caller_is_admin) ==> {
            &&& r matches Err(e) && e@ == unauthorized_increment_message()
            &&& *final(data) == *old(data)
        },
        (caller == principal || caller_is_admin) && is_paid ==> {
            &&& r matches Ok(m) && m@ == paid_message(payment_amount)
            &&& final(data).limits() == old(data).limits()
            &&& final(data).property_limits() == old(data).counted_property_limits(property@, secs_of(now))
            &&& final(data).same_settings(*old(data))
            &&& !old(data).has_property_limit(property@) ==> final(data).property_limits() == old(data).property_limits()
            &&& old(data).has_property_limit(property@) ==> {
                let e = old(data).property_limits()[property@];
                let window = property_window(old(data).configs()[property@]);
                let after = final(data).property_limits()[property@];
                &&& final(data).property_limits().contains_key(property@)
                &&& !old(data).property_limits().contains_key(property@) ==> after.request_count == 1
                    && after.window_start == secs_of(now)
                &&& old(data).property_limits().contains_key(property@) && secs_of(now) >= e.window_start + window
                    ==> after.request_count == 1 && after.window_start == secs_of(now)
                &&& old(data).property_limits().contains_key(property@) && secs_of(now) < e.window_start + window
                    ==> after.request_count == e.request_count + 1 && after.window_start == e.window_start
            }
        },
        (caller == principal || caller_is_admin) && !is_paid && old(data).limited(principal, property@, is_registered, secs_of(now)) ==> {
            &&& r matches Err(e) && e@ == "Rate limit exceeded"@
            &&& *final(data) == *old(data)
        },
        (caller == principal || caller_is_admin) && !is_paid && !old(data).limited(principal, property@, is_registered, secs_of(now)) ==> {
            &&& r matches Ok(m) && m@ == "Request count incremented"@
            &&& final(data).limits() == old(data).limits().insert(
                (principal, property@),
                old(data).counted_entry(principal, property@, secs_of(now)),
            )
            &&& final(data).property_limits() == old(data).counted_property_limits(property@, secs_of(now))
            &&& final(data).same_settings(*old(data))
        },
{
    match is_caller_allowed_to_increment(&caller, caller_is_admin, &principal) {
        Err(e) => return Err(e),
        Ok(()) => {},
    }
    if is_paid {
        let current_time = now / crate::rate_limits::canister::NANOS_PER_SECOND;
        let counted = match data.property_configs.get(&property) {
            Some(prop_config) => match prop_config.max_requests_per_property_all_users {
                Some(_) => {
                    let window_duration = match prop_config.property_rate_limit_window_duration_seconds {
                        Some(w) => w,
                        None => crate::rate_limits::types::DEFAULT_PROPERTY_WINDOW_SECONDS,
                    };
                    let property_entry = match data.property_rate_limits.get(&property) {
                        Some(existing) => {
                            let existing = *existing;
                            if current_time >= existing.window_start + window_duration {
                                crate::rate_limits::types::RateLimitEntry {
                                    request_count: 1,
                                    window_start: current_time,
                                    config: None,
                                }
                            } else {
                                crate::rate_limits::types::RateLimitEntry {
                                    request_count: existing.request_count + 1,
                                    ..existing
                                }
                            }
                        },
                        None => crate::rate_limits::types::RateLimitEntry {
                            request_count: 1,
                            window_start: current_time,
                            config: None,
                        },
                    };
                    Some(property_entry)
                },
                None => None,
            },
            None => None,
        };
        match counted {
            Some(property_entry) => {
                data.property_rate_limits.insert(property.clone(), property_entry);
            },
            None => {},
        }
        let mut message = literal("Paid request processed. Amount: ");
        message.append(debug_optional_text(&payment_amount).as_str());
        Ok(message)
    } else {
        if data.is_rate_limited_with_property(&principal, property.as_str(), is_registered, now) {
            Err(literal("Rate limit exceeded"))
        } else {
            data.increment_request_with_property(&principal, property.as_str(), now);
            Ok(literal("Request count incremented"))
        }
    }
}

/// Where the principal stands on the property.
pub fn get_rate_limit_status(
    data: &CanisterData,
    principal: Principal,
    property: String,
    is_registered: bool,
    now: u64,
) -> (r: Option<RateLimitStatus>)
    requires
        data.status_computable(principal, property@, secs_of(now)),
    ensures
        r == Some(data.status_of(principal, property@, is_registered, secs_of(now))),
{
    data.get_rate_limit_status_with_property(&principal, property.as_str(), is_registered, now)
}

/// The default limits.
pub fn get_default_rate_limit_config(data: &CanisterData) -> (c: GlobalRateLimitConfig)
    ensures
        c == data.default_config,
{
    data.default_config
}

/// Replaces the default limits; every value must be positive.
pub fn update_default_rate_limit_config(
    data: &mut CanisterData,
    max_requests_per_window_registered: u64,
    max_requests_per_window_unregistered: u64,
    window_duration_seconds: u64,
) -> (r: RateLimitResult)
    ensures
        (max_requests_per_window_registered == 0 || max_requests_per_window_unregistered == 0
            || window_duration_seconds == 0) ==> {
            &&& r matches Err(e) && e@ == "Invalid configuration: values must be greater than 0"@
            &&& *final(data) == *old(data)
        },
        !(max_requests_per_window_registered == 0 || max_requests_per_window_unregistered == 0
            || window_duration_seconds == 0) ==> {
            &&& r matches Ok(m) && m@ == "Default configuration updated"@
            &&& final(data).default_config == (GlobalRateLimitConfig {
                max_requests_per_window_registered,
                max_requests_per_window_unregistered,
                window_duration_seconds,
            })
            &&& final(data).rate_limits == old(data).rate_limits
            &&& final(data).property_rate_limits == old(data).property_rate_limits
            &&& final(data).property_configs == old(data).property_configs
            &&& final(data).video_gen_requests == old(data).video_gen_requests
            &&& final(data).user_request_counters == old(data).user_request_counters
            &&& final(data).blacklist == old(data).blacklist
            &&& final(data).version == old(data).version
        },
{
    if max_requests_per_window_registered == 0 || max_requests_per_window_unregistered == 0
        || window_duration_seconds == 0 {
        return Err(literal("Invalid configuration: values must be greater than 0"));
    }
    data.default_config = GlobalRateLimitConfig {
        max_requests_per_window_registered,
        max_requests_per_window_unregistered,
        window_duration_seconds,
    };
    Ok(literal("Default configuration updated"))
}

/// "`prefix` <principal> on property `property`".
fn principal_property_message(prefix: &str, principal: &Principal, property: &String) -> (s: String)
    requires
        principal.len <= 29,
    ensures
        s@ == prefix@ + principal_text(principal_bytes(*principal)) + " on property "@ + property@,
{
    let mut s = literal(prefix);
    s.append(principal.to_text().as_str());
    s.append(" on property ");
    s.append(property.as_str());
    s
}

/// Forgets the principal's counter on the property.
pub fn reset_rate_limit(data: &mut CanisterData, principal: Principal, property: String) -> (r: RateLimitResult)
    requires
        principal.len <= 29,
    ensures
        r matches Ok(m) && m@ == "Rate limit reset for principal "@ + principal_text(principal_bytes(principal))
            + " on property "@ + property@,
        final(data).limits() == old(data).limits().remove((principal, property@)),
        final(data).property_limits() == old(data).property_limits(),
        final(data).same_settings(*old(data)),
{
    data.reset_rate_limit_with_property(&principal, property.as_str());
    Ok(principal_property_message("Rate limit reset for principal ", &principal, &property))
}

/// Forgets every principal's counters.
pub fn clear_all_rate_limits(data: &mut CanisterData) -> (r: RateLimitResult)
    ensures
        r matches Ok(m) && m@ == "All rate limits cleared"@,
        final(data).limits() == Map::<(Principal, Seq<char>), crate::rate_limits::types::RateLimitEntry>::empty(),
        final(data).property_limits() == old(data).property_limits(),
        final(data).same_settings(*old(data)),
{
    data.clear_all_rate_limits();
    Ok(literal("All rate limits cleared"))
}

/// Gives the principal a limit of its own on the property.
pub fn set_principal_rate_limit(
    data: &mut CanisterData,
    principal: Principal,
    property: String,
    max_requests_per_window: u64,
    window_duration_seconds: u64,
    now: u64,
) -> (r: RateLimitResult)
    requires
        principal.len <= 29,
    ensures
        r matches Ok(m) && m@ == "Rate limit set for principal "@ + principal_text(principal_bytes(principal))
            + " on property "@ + property@,
        final(data).limits() == old(data).limits().insert(
            (principal, property@),
            if old(data).limits().contains_key((principal, property@)) {
                crate::rate_limits::types::RateLimitEntry {
                    config: Some(RateLimitConfig { max_requests_per_window, window_duration_seconds }),
                    ..old(data).limits()[(principal, property@)]
                }
            } else {
                crate::rate_limits::types::RateLimitEntry {
                    request_count: 0,
                    window_start: secs_of(now) as u64,
                    config: Some(RateLimitConfig { max_requests_per_window, window_duration_seconds }),
                }
            },
        ),
        final(data).property_limits() == old(data).property_limits(),
        final(data).same_settings(*old(data)),
{
    let config = RateLimitConfig { max_requests_per_window, window_duration_seconds };
    data.set_principal_property_rate_limit(&principal, property.as_str(), config, now);
    Ok(principal_property_message("Rate limit set for principal ", &principal, &property))
}

/// Sets the per-principal limits of a property, with no property-wide limit.
pub fn set_property_rate_limit_config(
    data: &mut CanisterData,
    property: String,
    max_requests_per_window_registered: u64,
    max_requests_per_window_unregistered: u64,
    window_duration_seconds: u64,
) -> (r: RateLimitResult)
    ensures
        r matches Ok(m) && m@ == "Property rate limit config set for: "@ + property@,
        final(data).configs() == old(data).configs().insert(property@, PropertyRateLimitConfig {
            property,
            max_requests_per_window_registered,
            max_requests_per_window_unregistered,
            window_duration_seconds,
            max_requests_per_property_all_users: None,
            property_rate_limit_window_duration_seconds: None,
        }),
        final(data).limits() == old(data).limits(),
        final(data).property_limits() == old(data).property_limits(),
        final(data).blacklist == old(data).blacklist,
        final(data).default_config == old(data).default_config,
{
    let config = PropertyRateLimitConfig {
        property: property.clone(),
        max_requests_per_window_registered,
        max_requests_per_window_unregistered,
        window_duration_seconds,
        max_requests_per_property_all_users: None,
        property_rate_limit_window_duration_seconds: None,
    };
    data.set_property_config(config);
    let mut m = literal("Property rate limit config set for: ");
    m.append(property.as_str());
    Ok(m)
}

/// Forgets the property's configuration.
pub fn remove_property_rate_limit_config(data: &mut CanisterData, property: String) -> (r: RateLimitResult)
    ensures
        r matches Ok(m) && m@ == "Property rate limit config removed for: "@ + property@,
        final(data).configs() == old(data).configs().remove(property@),
        final(data).limits() == old(data).limits(),
        final(data).property_limits() == old(data).property_limits(),
        final(data).blacklist == old(data).blacklist,
        final(data).default_config == old(data).default_config,
{
    data.remove_property_config(property.as_str());
    let mut m = literal("Property rate limit config removed for: ");
    m.append(property.as_str());
    Ok(m)
}

/// Forgets every counter of the principal.
pub fn reset_all_principal_rate_limits(data: &mut CanisterData, principal: Principal) -> (r: RateLimitResult)
    requires
        principal.len <= 29,
    ensures
        r matches Ok(m) && m@ == "All rate limits reset for principal: "@ + principal_text(principal_bytes(principal)),
        final(data).limits() == old(data).limits().remove_keys(
            Set::new(|k: (Principal, Seq<char>)| k.0 == principal),
        ),
        final(data).property_limits() == old(data).property_limits(),
        final(data).same_settings(*old(data)),
{
    data.reset_all_principal_rate_limits(&principal);
    let mut m = literal("All rate limits reset for principal: ");
    m.append(principal.to_text().as_str());
    Ok(m)
}

/// Copies of all property configurations, in string order of the properties.
pub fn get_property_rate_limit_configs(data: &CanisterData) -> (r: Vec<PropertyRateLimitConfig>)
    ensures
        exists|keys: Seq<Seq<char>>| ordered_listing(data.configs(), keys, r@),
{
    data.get_all_property_configs()
}

/// A copy of the property's configuration.
pub fn get_property_rate_limit_config(data: &CanisterData, property: String) -> (r: Option<PropertyRateLimitConfig>)
    ensures
        r == (if data.configs().contains_key(property@) { Some(data.configs()[property@]) } else { None }),
{
    data.get_property_config(property.as_str())
}

/// The length of `s` in bytes.
pub open spec fn byte_len(s: String) -> int {
    vstd::utf8::encode_utf8(s@).len() as usize as int
}

/// The error of a video generation request with invalid inputs, if any.
pub open spec fn video_request_input_error(model_name: String, prompt: String, property: String) -> Option<Seq<char>> {
    if model_name@.len() == 0 || byte_len(model_name) > 100 {
        Some("Invalid model name"@)
    } else if prompt@.len() == 0 || byte_len(prompt) > 1000 {
        Some("Invalid prompt length"@)
    } else if property@.len() == 0 || byte_len(property) > 50 {
        Some("Invalid property"@)
    } else {
        None
    }
}

/// Records a video generation request after checking its inputs and the
/// rate limit, counting it as a request on the property.
pub fn create_video_generation_request(
    data: &mut CanisterData,
    principal: Principal,
    model_name: String,
    prompt: String,
    property: String,
    is_registered: bool,
    now: u64,
) -> (r: Result<VideoGenRequestKey, String>)
    requires
        old(data).status_computable(principal, property@, secs_of(now)),
        old(data).increment_fits(principal, property@, secs_of(now)),
        old(data).counters().contains_key(principal) ==> old(data).counters()[principal] < u64::MAX,
    ensures
        video_request_input_error(model_name, prompt, property) matches Some(e) ==> {
            &&& r matches Err(m) && m@ == e
            &&& *final(data) == *old(data)
        },
        video_request_input_error(model_name, prompt, property) is None
            && old(data).limited(principal, property@, is_registered, secs_of(now)) ==> {
            &&& r matches Err(m) && m@ == "Rate limit exceeded"@
            &&& *final(data) == *old(data)
        },
        video_request_input_error(model_name, prompt, property) is None
            && !old(data).limited(principal, property@, is_registered, secs_of(now)) ==> {
            let counter: u64 = if old(data).counters().contains_key(principal) { (old(data).counters()[principal] + 1) as u64 } else { 1 };
            let key = VideoGenRequestKey { principal, counter };
            &&& r == Ok::<VideoGenRequestKey, String>(key)
            &&& final(data).limits() == old(data).limits().insert(
                (principal, property@),
                old(data).counted_entry(principal, property@, secs_of(now)),
            )
            &&& final(data).property_limits() == old(data).counted_property_limits(property@, secs_of(now))
            &&& final(data).counters() == old(data).counters().insert(principal, counter)
            &&& final(data).requests() == old(data).requests().insert(key, VideoGenRequest {
                model_name,
                prompt,
                status: VideoGenRequestStatus::Pending,
                created_at: secs_of(now) as u64,
                updated_at: secs_of(now) as u64,
            })
            &&& final(data).property_configs == old(data).property_configs
            &&& final(data).blacklist == old(data).blacklist
            &&& final(data).default_config == old(data).default_config
            &&& final(data).version == old(data).version
        },
{
    if model_name.as_str().is_empty() || model_name.as_str().len() > 100 {
        return Err(literal("Invalid model name"));
    }
    if prompt.as_str().is_empty() || prompt.as_str().len() > 1000 {
        return Err(literal("Invalid prompt length"));
    }
    if property.as_str().is_empty() || property.as_str().len() > 50 {
        return Err(literal("Invalid property"));
    }
    if data.is_rate_limited_with_property(&principal, property.as_str(), is_registered, now) {
        return Err(literal("Rate limit exceeded"));
    }
    data.increment_request_with_property(&principal, property.as_str(), now);
    let key = data.create_video_gen_request(principal, model_name, prompt, now);
    Ok(key)
}

/// Sets the status of a request.
pub fn update_video_generation_status(
    data: &mut CanisterData,
    key: VideoGenRequestKey,
    status: VideoGenRequestStatus,
    now: u64,
) -> (r: Result<(), String>)
    ensures
        r is Ok <==> old(data).requests().contains_key(key),
        r matches Err(e) ==> e@ == "Video generation request not found"@ && final(data).requests() == old(data).requests(),
        r is Ok ==> final(data).requests() == old(data).requests().insert(key, VideoGenRequest {
            status,
            updated_at: secs_of(now) as u64,
            ..old(data).requests()[key]
        }),
        final(data).counters() == old(data).counters(),
        final(data).limits() == old(data).limits(),
        final(data).property_limits() == old(data).property_limits(),
{
    data.update_video_gen_request_status(&key, status, now)
}

/// A copy of the request.
pub fn get_video_generation_request(data: &CanisterData, key: VideoGenRequestKey) -> (r: Option<VideoGenRequest>)
    ensures
        r == (if data.requests().contains_key(key) { Some(data.requests()[key]) } else { None }),
{
    data.get_video_gen_request(&key)
}

/// A page of the principal's requests, most recent first.
pub fn get_user_video_generation_requests(
    data: &CanisterData,
    principal: Principal,
    start: Option<u64>,
    limit: Option<u64>,
) -> (r: Vec<(VideoGenRequestKey, VideoGenRequest)>)
    requires
        limit == Some(0u64) && data.counters().contains_key(principal) ==> {
            let m = data.counters()[principal];
            (match start { Some(x) => if x <= m { x } else { m }, None => m }) < u64::MAX
        },
    ensures
        r@ == crate::rate_limits::canister::request_page(
            data.requests(),
            principal,
            if data.counters().contains_key(principal) { data.counters()[principal] as int } else { 0 },
            start,
            limit,
        ),
{
    data.get_user_video_gen_requests(principal, start, limit)
}

/// The status of the request.
pub fn poll_video_generation_status(data: &CanisterData, key: VideoGenRequestKey) -> (r: Result<VideoGenRequestStatus, String>)
    ensures
        data.requests().contains_key(key) ==> r == Ok::<VideoGenRequestStatus, String>(data.requests()[key].status),
        !data.requests().contains_key(key) ==> (r matches Err(e) && e@ == "Video generation request not found"@),
{
    match data.get_video_gen_request(&key) {
        Some(request) => Ok(request.status),
        None => Err(literal("Video generation request not found")),
    }
}

/// Takes back the request counted for a failed video generation request.
pub fn decrement_video_generation_counter(
    data: &mut CanisterData,
    key: VideoGenRequestKey,
    property: String,
    now: u64,
) -> (r: Result<(), String>)
    requires
        old(data).decrement_fits(key.principal, property@),
    ensures
        property@.len() == 0 || byte_len(property) > 50 ==> {
            &&& r matches Err(e) && e@ == "Invalid property"@
            &&& *final(data) == *old(data)
        },
        !(property@.len() == 0 || byte_len(property) > 50) && !old(data).requests().contains_key(key) ==> {
            &&& r matches Err(e) && e@ == "Video generation request not found"@
            &&& *final(data) == *old(data)
        },
        !(property@.len() == 0 || byte_len(property) > 50) && old(data).requests().contains_key(key)
            && !(old(data).requests()[key].status is Failed) ==> {
            &&& r matches Err(e) && e@ == "Can only decrement counter for failed requests"@
            &&& *final(data) == *old(data)
        },
        !(property@.len() == 0 || byte_len(property) > 50) && old(data).requests().contains_key(key)
            && old(data).requests()[key].status is Failed ==> {
            &&& r is Ok
            &&& final(data).limits() == old(data).uncounted_limits(key.principal, property@, secs_of(now))
            &&& final(data).property_limits() == old(data).uncounted_property_limits(property@, secs_of(now))
            &&& final(data).same_settings(*old(data))
        },
{
    if property.as_str().is_empty() || property.as_str().len() > 50 {
        return Err(literal("Invalid property"));
    }
    match data.get_video_gen_request(&key) {
        Some(request) => match request.status {
            VideoGenRequestStatus::Failed(_) => {
                data.decrement_request_with_property(&key.principal, property.as_str(), now);
                Ok(())
            },
            _ => Err(literal("Can only decrement counter for failed requests")),
        },
        None => Err(literal("Video generation request not found")),
    }
}

/// The user-info service's answer to a session-type query, as the rate
/// limits report it: an error of the service is prefixed.
pub fn session_type_from_reply(reply: Result<SessionType, String>) -> (r: Result<SessionType, String>)
    ensures
        match reply {
            Ok(t) => r == Ok::<SessionType, String>(t),
            Err(e) => r matches Err(m) && m@ == "User info service error: "@ + e@,
        },
{
    match reply {
        Ok(t) => Ok(t),
        Err(e) => {
            let mut m = literal("User info service error: ");
            m.append(e.as_str());
            Err(m)
        },
    }
}

} // verus!
