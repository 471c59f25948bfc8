//! Properties of the rate limits that hold across calls.
use vstd::prelude::*;

use crate::principal::Principal;
use crate::rate_limits::canister::{CanisterData, lemma_requests_between, property_window, request_page};
use crate::rate_limits::types::{VideoGenRequest, VideoGenRequestKey, VideoGenRequestStatus};

verus! {

/// A blacklisted property refuses every request, whoever makes it and at
/// any time; "all" on the blacklist refuses requests on every property.
pub proof fn law_blacklist_refuses_everything(
    data: CanisterData,
    principal: Principal,
    property: Seq<char>,
    is_registered: bool,
    now_s: int,
)
    requires
        data.blocked().contains(property) || data.blocked().contains("all"@),
    ensures
        data.limited(principal, property, is_registered, now_s),
{
}

/// Taking back a request undoes counting it: when the principal's counter
/// (and the property-wide one, if the property has such a limit) is inside
/// its window, counting one request and then taking one back at the same
/// time leaves every counter as it was.
pub proof fn law_decrement_undoes_increment(
    d0: CanisterData,
    d1: CanisterData,
    principal: Principal,
    property: Seq<char>,
    now_s: int,
)
    requires
        d0.limits().contains_key((principal, property)),
        now_s < d0.limits()[(principal, property)].window_start
            + d0.window_for(d0.limits()[(principal, property)], property),
        d0.limits()[(principal, property)].request_count < u64::MAX,
        d0.has_property_limit(property) ==> {
            &&& d0.property_limits().contains_key(property)
            &&& now_s < d0.property_limits()[property].window_start + property_window(d0.configs()[property])
            &&& d0.property_limits()[property].request_count < u64::MAX
        },
        d1.limits() == d0.limits().insert((principal, property), d0.counted_entry(principal, property, now_s)),
        d1.property_limits() == d0.counted_property_limits(property, now_s),
        d1.same_settings(d0),
    ensures
        d1.uncounted_limits(principal, property, now_s) == d0.limits(),
        d1.uncounted_property_limits(property, now_s) == d0.property_limits(),
{
    let k = (principal, property);
    assert(d1.configs() == d0.configs());
    assert(d1.uncounted_limits(principal, property, now_s) =~= d0.limits());
    assert(d1.uncounted_property_limits(property, now_s) =~= d0.property_limits());
}

/// A request is counted only while the limit allows it, so a positive limit
/// is never exceeded: after counting an allowed request the principal's
/// count is at most its limit.
pub proof fn law_counted_requests_stay_within_limit(
    d0: CanisterData,
    d1: CanisterData,
    principal: Principal,
    property: Seq<char>,
    is_registered: bool,
    now_s: int,
)
    requires
        0 <= now_s <= u64::MAX,
        !d0.limited(principal, property, is_registered, now_s),
        d0.max_for(d0.entry_or_empty(principal, property, now_s), property, is_registered) > 0,
        d0.limits().contains_key((principal, property)) ==> d0.limits()[(principal, property)].request_count < u64::MAX,
        d1.limits() == d0.limits().insert((principal, property), d0.counted_entry(principal, property, now_s)),
        d1.same_settings(d0),
    ensures
        d1.limits()[(principal, property)].request_count
            <= d1.max_for(d1.limits()[(principal, property)], property, is_registered),
{
    assert(d1.configs() == d0.configs());
}

/// Whether every stored request's counter is at most its principal's counter.
pub open spec fn counters_cover_requests(d: CanisterData) -> bool {
    forall|k: VideoGenRequestKey| #[trigger] d.requests().contains_key(k)
        ==> d.counters().contains_key(k.principal) && k.counter <= d.counters()[k.principal]
}

/// Every new video generation request gets a key that no stored request has,
/// and counters keep covering the stored requests.
pub proof fn law_new_request_keys_are_fresh(
    d0: CanisterData,
    d1: CanisterData,
    key: VideoGenRequestKey,
    request: VideoGenRequest,
)
    requires
        counters_cover_requests(d0),
        key.counter == (if d0.counters().contains_key(key.principal) { d0.counters()[key.principal] + 1 } else { 1 }),
        d1.counters() == d0.counters().insert(key.principal, key.counter),
        d1.requests() == d0.requests().insert(key, request),
    ensures
        !d0.requests().contains_key(key),
        counters_cover_requests(d1),
{
}

/// Setting a request's status keeps counters covering the stored requests.
pub proof fn law_status_update_keeps_cover(
    d0: CanisterData,
    d1: CanisterData,
    key: VideoGenRequestKey,
    status: VideoGenRequestStatus,
    now_s: int,
)
    requires
        counters_cover_requests(d0),
        d0.requests().contains_key(key),
        d1.counters() == d0.counters(),
        d1.requests() == d0.requests().insert(key, VideoGenRequest {
            status,
            updated_at: now_s as u64,
            ..d0.requests()[key]
        }),
    ensures
        counters_cover_requests(d1),
{
}

/// Counting a request on a property-wide counter whose window has passed
/// starts a new window at the current second with that one request, so the
/// counter is inside its window again for the whole new window, and the
/// limit for all users is reached in it only when it allows a single request.
pub proof fn law_passed_property_window_restarts(
    d0: CanisterData,
    d1: CanisterData,
    property: Seq<char>,
    now_s: int,
    t: int,
)
    requires
        0 <= now_s <= u64::MAX,
        d0.has_property_limit(property),
        d0.property_limits().contains_key(property),
        now_s >= d0.property_limits()[property].window_start + property_window(d0.configs()[property]),
        d1.property_limits() == d0.counted_property_limits(property, now_s),
        d1.same_settings(d0),
        now_s <= t < now_s + property_window(d0.configs()[property]),
    ensures
        d1.property_limits()[property].request_count == 1,
        d1.property_limits()[property].window_start == now_s,
        t < d1.property_limits()[property].window_start + property_window(d1.configs()[property]),
        d1.property_limit_reached(property, t)
            <==> d0.configs()[property].max_requests_per_property_all_users->0 <= 1,
{
    assert(d1.configs() == d0.configs());
}

/// Counting a request of a principal whose own window has passed starts a
/// new window at the current second with that one request, keeping the
/// principal's own limit; a principal without a counter gets one the same way.
pub proof fn law_passed_own_window_restarts(
    d0: CanisterData,
    principal: Principal,
    property: Seq<char>,
    now_s: int,
)
    requires
        0 <= now_s <= u64::MAX,
        d0.limits().contains_key((principal, property)) ==> now_s >= d0.limits()[(principal, property)].window_start
            + d0.window_for(d0.limits()[(principal, property)], property),
    ensures
        d0.counted_entry(principal, property, now_s).request_count == 1,
        d0.counted_entry(principal, property, now_s).window_start == now_s,
        d0.limits().contains_key((principal, property)) ==> d0.counted_entry(principal, property, now_s).config
            == d0.limits()[(principal, property)].config,
        !d0.limits().contains_key((principal, property)) ==> d0.counted_entry(principal, property, now_s).config is None,
{
}


/// A page of a principal's video generation requests holds at most `limit`
/// of them (10 when no limit is given, never more than 100): only stored
/// requests of that principal, most recent first, whose counters lie in the
/// `limit` counters going back from `start` (the latest counter when not
/// given, never beyond it), and every stored request among those counters.
pub proof fn law_request_pages_are_bounded(
    requests: Map<VideoGenRequestKey, VideoGenRequest>,
    principal: Principal,
    max_counter: int,
    start: Option<u64>,
    limit: Option<u64>,
)
    requires
        0 <= max_counter <= u64::MAX,
    ensures
        ({
            let page = request_page(requests, principal, max_counter, start, limit);
            let lim: int = match limit { Some(l) => if l <= 100 { l as int } else { 100 }, None => 10 };
            let s: int = match start { Some(x) => if x <= max_counter { x as int } else { max_counter }, None => max_counter };
            &&& lim <= 100
            &&& max_counter == 0 ==> page.len() == 0
            &&& page.len() <= lim
            &&& forall|i: int| 0 <= i < page.len() ==> {
                &&& (#[trigger] page[i]).0.principal == principal
                &&& s - lim < page[i].0.counter <= s
                &&& 1 <= page[i].0.counter
                &&& requests.contains_key(page[i].0)
                &&& requests[page[i].0] == page[i].1
            }
            &&& forall|i: int, j: int| #![trigger page[i], page[j]] 0 <= i < j < page.len() ==> page[i].0.counter > page[j].0.counter
            &&& forall|c: u64| s - lim < c <= s && 1 <= c && #[trigger] requests.contains_key(VideoGenRequestKey { principal, counter: c })
                ==> exists|i: int| 0 <= i < page.len() && page[i].0 == VideoGenRequestKey { principal, counter: c }
        }),
{
    if max_counter != 0 {
        let lim: int = match limit { Some(l) => if l <= 100 { l as int } else { 100 }, None => 10 };
        let s: int = match start { Some(x) => if x <= max_counter { x as int } else { max_counter }, None => max_counter };
        let end: int = if s > lim { s - lim + 1 } else { 1 };
        lemma_requests_between(requests, principal, s, end);
    }
}


} // verus!
