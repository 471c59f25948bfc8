//! Calendar arithmetic on UTC days. A time is held as the nanoseconds since
//! the Unix epoch, the form in which the Internet Computer reports it.
use vstd::prelude::*;

use crate::text::{decimal, literal, u64_to_decimal};

verus! {

pub const NANOS_PER_SECOND: u64 = 1_000_000_000;
pub const SECONDS_PER_DAY: u64 = 86400;
pub const SECONDS_PER_HOUR: u64 = 3600;
pub const HOURS_PER_DAY: u32 = 24;

/// Whole seconds since the epoch.
pub open spec fn seconds_of(t: u64) -> int {
    t as int / NANOS_PER_SECOND as int
}

/// The number of the UTC day that holds `t`, day 0 starting at the epoch.
pub open spec fn day_of(t: u64) -> int {
    seconds_of(t) / SECONDS_PER_DAY as int
}

/// The start of the UTC day that holds `t`.
pub open spec fn day_start_of(t: u64) -> int {
    day_of(t) * SECONDS_PER_DAY * NANOS_PER_SECOND
}

/// Whole hours left until the next UTC midnight (24 exactly at midnight).
pub open spec fn hours_to_midnight(t: u64) -> int {
    (SECONDS_PER_DAY - seconds_of(t) % SECONDS_PER_DAY as int) / SECONDS_PER_HOUR as int
}

/// The day number of `t`.
pub fn day_number(t: u64) -> (d: u64)
    ensures
        d == day_of(t),
{
    t / NANOS_PER_SECOND / SECONDS_PER_DAY
}

/// Whether the two times fall on the same UTC day.
pub fn is_same_day(timestamp: u64, reference: u64) -> (r: bool)
    ensures
        r == (day_of(timestamp) == day_of(reference)),
{
    day_number(timestamp) == day_number(reference)
}

/// Whether `timestamp` falls on the UTC day before that of `reference`.
pub fn is_yesterday(timestamp: u64, reference: u64) -> (r: bool)
    requires
        day_of(reference) >= 1,
    ensures
        r == (day_of(timestamp) == day_of(reference) - 1),
{
    day_number(timestamp) == day_number(reference) - 1
}

/// The number of day boundaries between `start` and `end`; 0 when `end` is earlier.
pub fn days_between(start: u64, end: u64) -> (n: u64)
    ensures
        n == (if end < start { 0 } else { day_of(end) - day_of(start) }),
{
    if end < start {
        return 0;
    }
    let start_days = day_number(start);
    let end_days = day_number(end);
    assert(start_days <= end_days) by {
        assert(start / NANOS_PER_SECOND <= end / NANOS_PER_SECOND) by (nonlinear_arith)
            requires start <= end;
        assert((start / NANOS_PER_SECOND) / SECONDS_PER_DAY <= (end / NANOS_PER_SECOND) / SECONDS_PER_DAY)
            by (nonlinear_arith)
            requires start / NANOS_PER_SECOND <= end / NANOS_PER_SECOND;
    }
    end_days - start_days
}

proof fn lemma_day_start_le(t: u64)
    ensures
        0 <= day_start_of(t) <= t,
        t - day_start_of(t) < SECONDS_PER_DAY * NANOS_PER_SECOND,
{
    let s = t as int / 1_000_000_000;
    let d = s / 86400;
    assert(s * 1_000_000_000 <= t < s * 1_000_000_000 + 1_000_000_000) by (nonlinear_arith)
        requires s == t as int / 1_000_000_000, t >= 0;
    assert(d * 86400 <= s < d * 86400 + 86400) by (nonlinear_arith)
        requires d == s / 86400, s >= 0;
    assert(d * 86400 * 1_000_000_000 <= s * 1_000_000_000) by (nonlinear_arith)
        requires d * 86400 <= s;
    assert(s * 1_000_000_000 < (d * 86400 + 86400) * 1_000_000_000) by (nonlinear_arith)
        requires s < d * 86400 + 86400;
    assert(d >= 0) by (nonlinear_arith) requires d == s / 86400, s >= 0;
    assert(d * 86400 * 1_000_000_000 >= 0) by (nonlinear_arith) requires d >= 0;
}

/// The start (midnight UTC) of the day that holds `timestamp`.
pub fn get_day_start(timestamp: u64) -> (r: u64)
    ensures
        r == day_start_of(timestamp),
{
    proof {
        lemma_day_start_le(timestamp);
    }
    let seconds_since_epoch = timestamp / NANOS_PER_SECOND;
    let day_start_seconds = (seconds_since_epoch / SECONDS_PER_DAY) * SECONDS_PER_DAY;
    day_start_seconds * NANOS_PER_SECOND
}

/// The last whole second of the day that holds `timestamp`.
pub fn get_day_end(timestamp: u64) -> (r: u64)
    requires
        day_start_of(timestamp) + (SECONDS_PER_DAY - 1) * NANOS_PER_SECOND <= u64::MAX,
    ensures
        r == day_start_of(timestamp) + (SECONDS_PER_DAY - 1) * NANOS_PER_SECOND,
{
    let day_start = get_day_start(timestamp);
    day_start + (SECONDS_PER_DAY - 1) * NANOS_PER_SECOND
}

/// Whole hours until the next UTC midnight (24 at midnight itself).
pub fn hours_until_next_day(timestamp: u64) -> (h: u32)
    ensures
        h == hours_to_midnight(timestamp),
        h <= 24,
        ({
            let left = SECONDS_PER_DAY - seconds_of(timestamp) % SECONDS_PER_DAY as int;
            h * SECONDS_PER_HOUR <= left < (h + 1) * SECONDS_PER_HOUR
        }),
{
    proof {
        let left = SECONDS_PER_DAY - seconds_of(timestamp) % SECONDS_PER_DAY as int;
        assert(0 < left <= 86400);
        let q = left / 3600;
        assert(q * 3600 <= left < q * 3600 + 3600) by (nonlinear_arith)
            requires q == left / 3600, left >= 0;
    }
    let seconds_since_epoch = timestamp / NANOS_PER_SECOND;
    let seconds_into_day = seconds_since_epoch % SECONDS_PER_DAY;
    let seconds_until_next_day = SECONDS_PER_DAY - seconds_into_day;
    (seconds_until_next_day / SECONDS_PER_HOUR) as u32
}

/// Whether a reward with this progress and target can still be claimed.
pub fn can_claim_reward(current_progress: u32, target: u32, already_claimed: bool) -> (r: bool)
    ensures
        r == (current_progress >= target && !already_claimed),
{
    current_progress >= target && !already_claimed
}

/// The text of `hours` as a human reads it: "Now", "1 hour", "N hours",
/// "1 day", "N days", or "D days H hours".
pub open spec fn duration_text(hours: u32) -> Seq<char> {
    if hours == 0 {
        "Now"@
    } else if hours == 1 {
        "1 hour"@
    } else if hours < 24 {
        decimal(hours as nat) + " hours"@
    } else if hours % 24 == 0 {
        if hours / 24 == 1 {
            "1 day"@
        } else {
            decimal((hours / 24) as nat) + " days"@
        }
    } else {
        decimal((hours / 24) as nat) + " days "@ + decimal((hours % 24) as nat) + " hours"@
    }
}

/// Formats a duration in hours for people.
pub fn format_duration_hours(hours: u32) -> (s: String)
    ensures
        s@ == duration_text(hours),
{
    if hours == 0 {
        literal("Now")
    } else if hours == 1 {
        literal("1 hour")
    } else if hours < HOURS_PER_DAY {
        let mut s = u64_to_decimal(hours as u64);
        s.append(" hours");
        s
    } else {
        let days = hours / HOURS_PER_DAY;
        let remaining_hours = hours % HOURS_PER_DAY;
        if remaining_hours == 0 {
            if days == 1 {
                literal("1 day")
            } else {
                let mut s = u64_to_decimal(days as u64);
                s.append(" days");
                s
            }
        } else {
            let mut s = u64_to_decimal(days as u64);
            s.append(" days ");
            s.append(u64_to_decimal(remaining_hours as u64).as_str());
            s.append(" hours");
            s
        }
    }
}

} // verus!
