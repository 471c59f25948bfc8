//! The rate-limits canister's state and the rules that count requests.
use vstd::prelude::*;

use crate::dedup_index::order::{lemma_lex_lt_transitive, lemma_text_lt_total, text_less, text_lt};
use crate::keyed_vec::KeyedVec;
use vstd::utf8::encode_utf8;
use crate::principal::Principal;
use crate::rate_limits::types::{
    DEFAULT_PROPERTY_WINDOW_SECONDS, GlobalRateLimitConfig, PropertyRateLimitConfig,
    RateLimitConfig, RateLimitEntry, RateLimitKey, RateLimitStatus, VideoGenRequest,
    VideoGenRequestKey, VideoGenRequestStatus,
};
use crate::text::literal;

verus! {

pub const NANOS_PER_SECOND: u64 = 1_000_000_000;

/// Whole seconds of a time given in nanoseconds since the epoch.
pub open spec fn secs_of(now: u64) -> int {
    now as int / NANOS_PER_SECOND as int
}

/// The window of a property-wide limit.
pub open spec fn property_window(pc: PropertyRateLimitConfig) -> int {
    match pc.property_rate_limit_window_duration_seconds {
        Some(w) => w as int,
        None => DEFAULT_PROPERTY_WINDOW_SECONDS as int,
    }
}

/// Whether the texts are in strictly increasing string order.
pub open spec fn texts_ascending(ks: Seq<Seq<char>>) -> bool {
    forall|a: int, b: int| 0 <= a < b < ks.len() ==> text_lt(#[trigger] ks[a], #[trigger] ks[b])
}

/// Whether `vs` lists the values of `m` under the keys `keys`, which are
/// exactly the keys of `m`, in strictly increasing string order.
pub open spec fn ordered_listing<V>(m: Map<Seq<char>, V>, keys: Seq<Seq<char>>, vs: Seq<V>) -> bool {
    &&& keys.len() == vs.len()
    &&& texts_ascending(keys)
    &&& forall|x: int| 0 <= x < keys.len() ==> m.contains_key(#[trigger] keys[x]) && vs[x] == m[keys[x]]
    &&& forall|p: Seq<char>| #[trigger] m.contains_key(p) ==> exists|x: int| 0 <= x < keys.len() && keys[x] == p
}

/// The state of the rate-limits canister.
pub struct CanisterData {
    pub rate_limits: KeyedVec<RateLimitKey, RateLimitEntry>,
    pub property_configs: KeyedVec<String, PropertyRateLimitConfig>,
    pub property_rate_limits: KeyedVec<String, RateLimitEntry>,
    pub video_gen_requests: KeyedVec<crate::rate_limits::types::VideoGenRequestKey, crate::rate_limits::types::VideoGenRequest>,
    pub user_request_counters: KeyedVec<Principal, u64>,
    pub version: String,
    pub default_config: GlobalRateLimitConfig,
    pub blacklist: KeyedVec<String, ()>,
}

impl CanisterData {
    /// The per-principal counters.
    pub open spec fn limits(self) -> Map<(Principal, Seq<char>), RateLimitEntry> {
        self.rate_limits.map()
    }

    /// The property configurations, by property.
    pub open spec fn configs(self) -> Map<Seq<char>, PropertyRateLimitConfig> {
        self.property_configs.map()
    }

    /// The property-wide counters.
    pub open spec fn property_limits(self) -> Map<Seq<char>, RateLimitEntry> {
        self.property_rate_limits.map()
    }

    /// The blacklisted properties ("all" blocks every property).
    pub open spec fn blocked(self) -> Set<Seq<char>> {
        self.blacklist.map().dom()
    }

    /// Whether `property`, or every property, is blacklisted.
    pub open spec fn is_blocked(self, property: Seq<char>) -> bool {
        self.blocked().contains(property) || self.blocked().contains("all"@)
    }

    /// Whether the property has a limit for all users together.
    pub open spec fn has_property_limit(self, property: Seq<char>) -> bool {
        self.configs().contains_key(property)
            && self.configs()[property].max_requests_per_property_all_users is Some
    }

    /// Whether the property-wide limit is reached at `now_s`: a counter in its
    /// window that has reached the limit.
    pub open spec fn property_limit_reached(self, property: Seq<char>, now_s: int) -> bool {
        &&& self.has_property_limit(property)
        &&& self.property_limits().contains_key(property)
        &&& now_s < self.property_limits()[property].window_start + property_window(self.configs()[property])
        &&& self.property_limits()[property].request_count
            >= self.configs()[property].max_requests_per_property_all_users->0
    }

    /// The window of a principal's counter: its own limit's, else the
    /// property's, else the default.
    pub open spec fn window_for(self, e: RateLimitEntry, property: Seq<char>) -> int {
        match e.config {
            Some(c) => c.window_duration_seconds as int,
            None => if self.configs().contains_key(property) {
                self.configs()[property].window_duration_seconds as int
            } else {
                self.default_config.window_duration_seconds as int
            },
        }
    }

    /// The most requests a window allows: the principal's own limit, else
    /// the property's or the default one for registered or unregistered users.
    pub open spec fn max_for(self, e: RateLimitEntry, property: Seq<char>, is_registered: bool) -> int {
        match e.config {
            Some(c) => c.max_requests_per_window as int,
            None => if self.configs().contains_key(property) {
                if is_registered {
                    self.configs()[property].max_requests_per_window_registered as int
                } else {
                    self.configs()[property].max_requests_per_window_unregistered as int
                }
            } else {
                if is_registered {
                    self.default_config.max_requests_per_window_registered as int
                } else {
                    self.default_config.max_requests_per_window_unregistered as int
                }
            },
        }
    }

    /// The principal's counter on the property, or an empty one starting at `now_s`.
    pub open spec fn entry_or_empty(self, principal: Principal, property: Seq<char>, now_s: int) -> RateLimitEntry {
        if self.limits().contains_key((principal, property)) {
            self.limits()[(principal, property)]
        } else {
            RateLimitEntry { request_count: 0, window_start: now_s as u64, config: None }
        }
    }

    /// Where the principal stands on the property at `now_s`.
    pub open spec fn status_of(self, principal: Principal, property: Seq<char>, is_registered: bool, now_s: int) -> RateLimitStatus {
        let e = self.entry_or_empty(principal, property, now_s);
        if self.is_blocked(property) {
            RateLimitStatus { principal, request_count: 1, window_start: now_s as u64, is_limited: true }
        } else if self.property_limit_reached(property, now_s) {
            RateLimitStatus { principal, request_count: e.request_count, window_start: e.window_start, is_limited: true }
        } else {
            let max = self.max_for(e, property, is_registered);
            let within = now_s < e.window_start + self.window_for(e, property);
            RateLimitStatus {
                principal,
                request_count: e.request_count,
                window_start: e.window_start,
                is_limited: within && (max == 0 || e.request_count >= max),
            }
        }
    }

    /// Whether a request of the principal on the property is refused at `now_s`.
    pub open spec fn limited(self, principal: Principal, property: Seq<char>, is_registered: bool, now_s: int) -> bool {
        self.status_of(principal, property, is_registered, now_s).is_limited
    }

    /// Whether the property-wide window can be computed without overflow.
    pub open spec fn property_window_fits(self, property: Seq<char>) -> bool {
        self.has_property_limit(property) && self.property_limits().contains_key(property)
            ==> self.property_limits()[property].window_start + property_window(self.configs()[property]) <= u64::MAX
    }

    /// Whether a status can be computed at `now_s` without overflow.
    pub open spec fn status_computable(self, principal: Principal, property: Seq<char>, now_s: int) -> bool {
        !self.is_blocked(property) ==> {
            &&& self.property_window_fits(property)
            &&& !self.property_limit_reached(property, now_s) ==> {
                let e = self.entry_or_empty(principal, property, now_s);
                e.window_start + self.window_for(e, property) <= u64::MAX
            }
        }
    }

    /// The principal's counter after one more request at `now_s`: a new
    /// window of one request once the window has passed, else one more in it.
    pub open spec fn counted_entry(self, principal: Principal, property: Seq<char>, now_s: int) -> RateLimitEntry {
        if self.limits().contains_key((principal, property)) {
            let e = self.limits()[(principal, property)];
            if now_s >= e.window_start + self.window_for(e, property) {
                RateLimitEntry { request_count: 1, window_start: now_s as u64, config: e.config }
            } else {
                RateLimitEntry { request_count: (e.request_count + 1) as u64, ..e }
            }
        } else {
            RateLimitEntry { request_count: 1, window_start: now_s as u64, config: None }
        }
    }

    /// The property-wide counter after one more request at `now_s`.
    pub open spec fn counted_property_entry(self, property: Seq<char>, now_s: int) -> RateLimitEntry {
        if self.property_limits().contains_key(property) {
            let e = self.property_limits()[property];
            if now_s >= e.window_start + property_window(self.configs()[property]) {
                RateLimitEntry { request_count: 1, window_start: now_s as u64, config: None }
            } else {
                RateLimitEntry { request_count: (e.request_count + 1) as u64, ..e }
            }
        } else {
            RateLimitEntry { request_count: 1, window_start: now_s as u64, config: None }
        }
    }

    /// The property-wide counters after one more request at `now_s`: counted
    /// only when the property has a limit for all users.
    pub open spec fn counted_property_limits(self, property: Seq<char>, now_s: int) -> Map<Seq<char>, RateLimitEntry> {
        if self.has_property_limit(property) {
            self.property_limits().insert(property, self.counted_property_entry(property, now_s))
        } else {
            self.property_limits()
        }
    }

    /// Whether the principal's own counter can count one more request at
    /// `now_s` without overflow.
    pub open spec fn own_increment_fits(self, principal: Principal, property: Seq<char>, now_s: int) -> bool {
        self.limits().contains_key((principal, property)) ==> {
            let e = self.limits()[(principal, property)];
            &&& e.window_start + self.window_for(e, property) <= u64::MAX
            &&& now_s < e.window_start + self.window_for(e, property) ==> e.request_count < u64::MAX
        }
    }

    /// Whether the property-wide counter can count one more request at
    /// `now_s` without overflow.
    pub open spec fn property_increment_fits(self, property: Seq<char>, now_s: int) -> bool {
        self.has_property_limit(property) && self.property_limits().contains_key(property) ==> {
            let e = self.property_limits()[property];
            &&& e.window_start + property_window(self.configs()[property]) <= u64::MAX
            &&& now_s < e.window_start + property_window(self.configs()[property]) ==> e.request_count < u64::MAX
        }
    }

    /// Whether one more request can be counted at `now_s` without overflow.
    pub open spec fn increment_fits(self, principal: Principal, property: Seq<char>, now_s: int) -> bool {
        &&& self.own_increment_fits(principal, property, now_s)
        &&& self.property_increment_fits(property, now_s)
    }

    /// The principal's counters after taking back one request at `now_s`:
    /// one fewer when the counter is in its window and above zero.
    pub open spec fn uncounted_limits(self, principal: Principal, property: Seq<char>, now_s: int) -> Map<(Principal, Seq<char>), RateLimitEntry> {
        let k = (principal, property);
        if self.limits().contains_key(k) {
            let e = self.limits()[k];
            if now_s < e.window_start + self.window_for(e, property) && e.request_count > 0 {
                self.limits().insert(k, RateLimitEntry { request_count: (e.request_count - 1) as u64, ..e })
            } else {
                self.limits()
            }
        } else {
            self.limits()
        }
    }

    /// The property-wide counters after taking back one request at `now_s`.
    pub open spec fn uncounted_property_limits(self, property: Seq<char>, now_s: int) -> Map<Seq<char>, RateLimitEntry> {
        if self.has_property_limit(property) && self.property_limits().contains_key(property) {
            let e = self.property_limits()[property];
            if now_s < e.window_start + property_window(self.configs()[property]) && e.request_count > 0 {
                self.property_limits().insert(property, RateLimitEntry { request_count: (e.request_count - 1) as u64, ..e })
            } else {
                self.property_limits()
            }
        } else {
            self.property_limits()
        }
    }

    /// Whether a request can be taken back at `now_s` without overflow.
    pub open spec fn decrement_fits(self, principal: Principal, property: Seq<char>) -> bool {
        &&& self.limits().contains_key((principal, property)) ==> {
            let e = self.limits()[(principal, property)];
            e.window_start + self.window_for(e, property) <= u64::MAX
        }
        &&& self.property_window_fits(property)
    }

    /// Everything but the counters is as in `other`.
    pub open spec fn same_settings(self, other: CanisterData) -> bool {
        &&& self.property_configs == other.property_configs
        &&& self.video_gen_requests == other.video_gen_requests
        &&& self.user_request_counters == other.user_request_counters
        &&& self.version == other.version
        &&& self.default_config == other.default_config
        &&& self.blacklist == other.blacklist
    }

    /// Whether `property` or "all" is blacklisted.
    pub fn is_blacklisted(&self, property: &str) -> (r: bool)
        ensures
            r == self.is_blocked(property@),
    {
        let p = literal(property);
        let all = literal("all");
        self.blacklist.contains_key(&p) || self.blacklist.contains_key(&all)
    }

    /// The property's configuration, looked up without copying.
    fn config_ref(&self, property: &String) -> (r: Option<&PropertyRateLimitConfig>)
        ensures
            match r {
                Some(c) => self.configs().contains_key(property@) && *c == self.configs()[property@],
                None => !self.configs().contains_key(property@),
            },
    {
        self.property_configs.get(property)
    }

    /// The window of a principal's counter.
    fn window_of(&self, e: &RateLimitEntry, property: &String) -> (w: u64)
        ensures
            w == self.window_for(*e, property@),
    {
        match &e.config {
            Some(c) => c.window_duration_seconds,
            None => match self.config_ref(property) {
                Some(pc) => pc.window_duration_seconds,
                None => self.default_config.window_duration_seconds,
            },
        }
    }

    /// Whether the property-wide limit is reached at `now`.
    fn is_property_daily_rate_limited(&self, property: &String, now: u64) -> (r: bool)
        requires
            self.property_window_fits(property@),
        ensures
            r == self.property_limit_reached(property@, secs_of(now)),
    {
        match self.config_ref(property) {
            Some(prop_config) => match prop_config.max_requests_per_property_all_users {
                Some(property_limit) => {
                    let window_duration = match prop_config.property_rate_limit_window_duration_seconds {
                        Some(w) => w,
                        None => DEFAULT_PROPERTY_WINDOW_SECONDS,
                    };
                    let current_time = now / NANOS_PER_SECOND;
                    match self.property_rate_limits.get(property) {
                        Some(entry) => {
                            if current_time < entry.window_start + window_duration {
                                entry.request_count >= property_limit
                            } else {
                                false
                            }
                        },
                        None => false,
                    }
                },
                None => false,
            },
            None => false,
        }
    }

    /// Whether the property-wide window's end fits in a `u64`.
    pub fn property_window_fits_now(&self, property: &String) -> (r: bool)
        ensures
            r == self.property_window_fits(property@),
    {
        match self.config_ref(property) {
            Some(pc) => match pc.max_requests_per_property_all_users {
                Some(_) => match self.property_rate_limits.get(property) {
                    Some(e) => {
                        let w = match pc.property_rate_limit_window_duration_seconds {
                            Some(w) => w,
                            None => DEFAULT_PROPERTY_WINDOW_SECONDS,
                        };
                        e.window_start.checked_add(w).is_some()
                    },
                    None => true,
                },
                None => true,
            },
            None => true,
        }
    }

    /// The principal's counter on the property, or an empty one starting at `now`.
    fn entry_at(&self, principal: &Principal, property: &String, now: u64) -> (e: RateLimitEntry)
        ensures
            e == self.entry_or_empty(*principal, property@, secs_of(now)),
    {
        let key = RateLimitKey::new(*principal, property.clone());
        match self.rate_limits.get(&key) {
            Some(e) => *e,
            None => RateLimitEntry { request_count: 0, window_start: now / NANOS_PER_SECOND, config: None },
        }
    }

    /// Whether the principal's status on the property can be computed at
    /// `now` without overflow.
    pub fn status_computable_now(&self, principal: &Principal, property: &str, now: u64) -> (r: bool)
        ensures
            r == self.status_computable(*principal, property@, secs_of(now)),
    {
        if self.is_blacklisted(property) {
            return true;
        }
        let p = literal(property);
        if !self.property_window_fits_now(&p) {
            return false;
        }
        if self.is_property_daily_rate_limited(&p, now) {
            return true;
        }
        let e = self.entry_at(principal, &p, now);
        e.window_start.checked_add(self.window_of(&e, &p)).is_some()
    }

    /// Whether the principal's own counter can count one more request at `now`.
    pub fn own_increment_fits_now(&self, principal: &Principal, property: &str, now: u64) -> (r: bool)
        ensures
            r == self.own_increment_fits(*principal, property@, secs_of(now)),
    {
        let p = literal(property);
        let current_time = now / NANOS_PER_SECOND;
        let key = RateLimitKey::new(*principal, p.clone());
        match self.rate_limits.get(&key) {
            Some(e) => match e.window_start.checked_add(self.window_of(e, &p)) {
                Some(end) => !(current_time < end) || e.request_count < u64::MAX,
                None => false,
            },
            None => true,
        }
    }

    /// Whether the property-wide counter can count one more request at `now`.
    pub fn property_increment_fits_now(&self, property: &str, now: u64) -> (r: bool)
        ensures
            r == self.property_increment_fits(property@, secs_of(now)),
    {
        let p = literal(property);
        let current_time = now / NANOS_PER_SECOND;
        match self.config_ref(&p) {
            Some(pc) => match pc.max_requests_per_property_all_users {
                Some(_) => match self.property_rate_limits.get(&p) {
                    Some(e) => {
                        let w = match pc.property_rate_limit_window_duration_seconds {
                            Some(w) => w,
                            None => DEFAULT_PROPERTY_WINDOW_SECONDS,
                        };
                        match e.window_start.checked_add(w) {
                            Some(end) => !(current_time < end) || e.request_count < u64::MAX,
                            None => false,
                        }
                    },
                    None => true,
                },
                None => true,
            },
            None => true,
        }
    }

    /// Whether counting a request of the principal on the property at `now`
    /// stays within `u64`.
    pub fn increment_fits_now(&self, principal: &Principal, property: &str, now: u64) -> (r: bool)
        ensures
            r == self.increment_fits(*principal, property@, secs_of(now)),
    {
        self.own_increment_fits_now(principal, property, now) && self.property_increment_fits_now(property, now)
    }

    /// Whether taking back a request of the principal on the property stays
    /// within `u64`.
    pub fn decrement_fits_now(&self, principal: &Principal, property: &str) -> (r: bool)
        ensures
            r == self.decrement_fits(*principal, property@),
    {
        let p = literal(property);
        let key = RateLimitKey::new(*principal, p.clone());
        let own_fits = match self.rate_limits.get(&key) {
            Some(e) => e.window_start.checked_add(self.window_of(e, &p)).is_some(),
            None => true,
        };
        own_fits && self.property_window_fits_now(&p)
    }

    /// Where the principal stands on the property at `now` (always given).
    pub fn get_rate_limit_status_with_property(
        &self,
        principal: &Principal,
        property: &str,
        is_registered: bool,
        now: u64,
    ) -> (r: Option<RateLimitStatus>)
        requires
            self.status_computable(*principal, property@, secs_of(now)),
        ensures
            r == Some(self.status_of(*principal, property@, is_registered, secs_of(now))),
    {
        let property = literal(property);
        let key = RateLimitKey::new(*principal, property.clone());
        let current_time = now / NANOS_PER_SECOND;
        if self.is_blacklisted(property.as_str()) {
            return Some(RateLimitStatus {
                principal: *principal,
                request_count: 1,
                window_start: current_time,
                is_limited: true,
            });
        }
        let entry = match self.rate_limits.get(&key) {
            Some(e) => *e,
            None => RateLimitEntry { request_count: 0, window_start: current_time, config: None },
        };
        if self.is_property_daily_rate_limited(&property, now) {
            return Some(RateLimitStatus {
                principal: *principal,
                request_count: entry.request_count,
                window_start: entry.window_start,
                is_limited: true,
            });
        }
        let max_requests = match &entry.config {
            Some(config) => config.max_requests_per_window,
            None => match self.config_ref(&property) {
                Some(prop_config) => if is_registered {
                    prop_config.max_requests_per_window_registered
                } else {
                    prop_config.max_requests_per_window_unregistered
                },
                None => if is_registered {
                    self.default_config.max_requests_per_window_registered
                } else {
                    self.default_config.max_requests_per_window_unregistered
                },
            },
        };
        let window_duration = self.window_of(&entry, &property);
        let within_window = current_time < entry.window_start + window_duration;
        let is_limited = within_window && (max_requests == 0 || entry.request_count >= max_requests);
        Some(RateLimitStatus {
            principal: *principal,
            request_count: entry.request_count,
            window_start: entry.window_start,
            is_limited,
        })
    }

    /// Whether a request of the principal on the property is refused at
    /// `now`: the property (or "all") is blacklisted, the property-wide limit
    /// is reached, or the principal's window is full.
    pub fn is_rate_limited_with_property(
        &self,
        principal: &Principal,
        property: &str,
        is_registered: bool,
        now: u64,
    ) -> (r: bool)
        requires
            self.status_computable(*principal, property@, secs_of(now)),
        ensures
            r == self.limited(*principal, property@, is_registered, secs_of(now)),
            self.is_blocked(property@) ==> r,
            self.property_limit_reached(property@, secs_of(now)) ==> r,
    {
        if self.is_blacklisted(property) {
            return true;
        }
        let p = literal(property);
        if self.is_property_daily_rate_limited(&p, now) {
            return true;
        }
        match self.get_rate_limit_status_with_property(principal, property, is_registered, now) {
            Some(status) => status.is_limited,
            None => false,
        }
    }

    /// Counts one request of the principal on the property at `now`, and on
    /// the property-wide counter when the property has such a limit.
    pub fn increment_request_with_property(&mut self, principal: &Principal, property: &str, now: u64)
        requires
            old(self).increment_fits(*principal, property@, secs_of(now)),
        ensures
            final(self).limits() == old(self).limits().insert(
                (*principal, property@),
                old(self).counted_entry(*principal, property@, secs_of(now)),
            ),
            final(self).property_limits() == old(self).counted_property_limits(property@, secs_of(now)),
            final(self).same_settings(*old(self)),
            ({
                let k = (*principal, property@);
                let e = old(self).limits()[k];
                let after = final(self).limits()[k];
                &&& final(self).limits().contains_key(k)
                &&& !old(self).limits().contains_key(k) ==> after.request_count == 1 && after.window_start == secs_of(now)
                    && after.config is None
                &&& old(self).limits().contains_key(k) && secs_of(now) >= e.window_start + old(self).window_for(e, property@)
                    ==> after.request_count == 1 && after.window_start == secs_of(now) && after.config == e.config
                &&& old(self).limits().contains_key(k) && secs_of(now) < e.window_start + old(self).window_for(e, property@)
                    ==> after.request_count == e.request_count + 1 && after.window_start == e.window_start
                        && after.config == e.config
            }),
            !old(self).has_property_limit(property@) ==> final(self).property_limits() == old(self).property_limits(),
            old(self).has_property_limit(property@) ==> {
                let e = old(self).property_limits()[property@];
                let window = property_window(old(self).configs()[property@]);
                let after = final(self).property_limits()[property@];
                &&& final(self).property_limits().contains_key(property@)
                &&& !old(self).property_limits().contains_key(property@) ==> after.request_count == 1
                    && after.window_start == secs_of(now) && after.config is None
                &&& old(self).property_limits().contains_key(property@) && secs_of(now) >= e.window_start + window
                    ==> after.request_count == 1 && after.window_start == secs_of(now) && after.config is None
                &&& old(self).property_limits().contains_key(property@) && secs_of(now) < e.window_start + window
                    ==> after.request_count == e.request_count + 1 && after.window_start == e.window_start
            },
    {
        let ghost old_self = *self;
        let current_time = now / NANOS_PER_SECOND;
        let property = literal(property);
        let key = RateLimitKey::new(*principal, property.clone());
        let entry = match self.rate_limits.get(&key) {
            Some(existing) => {
                let existing = *existing;
                let window_duration = self.window_of(&existing, &property);
                if current_time >= existing.window_start + window_duration {
                    RateLimitEntry { request_count: 1, window_start: current_time, config: existing.config }
                } else {
                    RateLimitEntry { request_count: existing.request_count + 1, ..existing }
                }
            },
            None => RateLimitEntry { request_count: 1, window_start: current_time, config: None },
        };
        self.rate_limits.insert(key, entry);
        let counted = match self.property_configs.get(&property) {
            Some(prop_config) => match prop_config.max_requests_per_property_all_users {
                Some(_) => {
                    let window_duration = match prop_config.property_rate_limit_window_duration_seconds {
                        Some(w) => w,
                        None => DEFAULT_PROPERTY_WINDOW_SECONDS,
                    };
                    let property_entry = match self.property_rate_limits.get(&property) {
                        Some(existing) => {
                            let existing = *existing;
                            if current_time >= existing.window_start + window_duration {
                                RateLimitEntry { request_count: 1, window_start: current_time, config: None }
                            } else {
                                RateLimitEntry { request_count: existing.request_count + 1, ..existing }
                            }
                        },
                        None => RateLimitEntry { request_count: 1, window_start: current_time, config: None },
                    };
                    Some(property_entry)
                },
                None => None,
            },
            None => None,
        };
        match counted {
            Some(property_entry) => {
                self.property_rate_limits.insert(property, property_entry);
            },
            None => {},
        }
    }

    /// Takes back one request of the principal on the property at `now`,
    /// when its counters are still in their windows and above zero.
    pub fn decrement_request_with_property(&mut self, principal: &Principal, property: &str, now: u64)
        requires
            old(self).decrement_fits(*principal, property@),
        ensures
            final(self).limits() == old(self).uncounted_limits(*principal, property@, secs_of(now)),
            final(self).property_limits() == old(self).uncounted_property_limits(property@, secs_of(now)),
            final(self).same_settings(*old(self)),
            ({
                let k = (*principal, property@);
                let e = old(self).limits()[k];
                &&& final(self).limits().dom() == old(self).limits().dom()
                &&& old(self).limits().contains_key(k) && secs_of(now) < e.window_start + old(self).window_for(e, property@)
                    && e.request_count > 0 ==> final(self).limits()[k] == (RateLimitEntry { request_count: (e.request_count - 1) as u64, ..e })
                &&& !(old(self).limits().contains_key(k) && secs_of(now) < e.window_start + old(self).window_for(e, property@)
                    && e.request_count > 0) ==> final(self).limits() == old(self).limits()
            }),
            ({
                let e = old(self).property_limits()[property@];
                let window = property_window(old(self).configs()[property@]);
                &&& final(self).property_limits().dom() == old(self).property_limits().dom()
                &&& old(self).has_property_limit(property@) && old(self).property_limits().contains_key(property@)
                    && secs_of(now) < e.window_start + window && e.request_count > 0
                    ==> final(self).property_limits()[property@].request_count == e.request_count - 1
                        && final(self).property_limits()[property@].window_start == e.window_start
                &&& !(old(self).has_property_limit(property@) && old(self).property_limits().contains_key(property@)
                    && secs_of(now) < e.window_start + window && e.request_count > 0)
                    ==> final(self).property_limits() == old(self).property_limits()
            }),
    {
        let ghost old_self = *self;
        let current_time = now / NANOS_PER_SECOND;
        let property = literal(property);
        let key = RateLimitKey::new(*principal, property.clone());
        match self.rate_limits.get(&key) {
            Some(entry) => {
                let entry = *entry;
                let window_duration = self.window_of(&entry, &property);
                if current_time < entry.window_start + window_duration && entry.request_count > 0 {
                    self.rate_limits.insert(key, RateLimitEntry { request_count: entry.request_count - 1, ..entry });
                }
            },
            None => {},
        }
        proof {
            assert(self.limits() =~= old_self.uncounted_limits(*principal, property@, secs_of(now)));
        }
        let uncounted = match self.property_configs.get(&property) {
            Some(prop_config) => match prop_config.max_requests_per_property_all_users {
                Some(_) => {
                    let window_duration = match prop_config.property_rate_limit_window_duration_seconds {
                        Some(w) => w,
                        None => DEFAULT_PROPERTY_WINDOW_SECONDS,
                    };
                    match self.property_rate_limits.get(&property) {
                        Some(entry) => {
                            let entry = *entry;
                            if current_time < entry.window_start + window_duration && entry.request_count > 0 {
                                Some(RateLimitEntry { request_count: entry.request_count - 1, ..entry })
                            } else {
                                None
                            }
                        },
                        None => None,
                    }
                },
                None => None,
            },
            None => None,
        };
        match uncounted {
            Some(e) => {
                self.property_rate_limits.insert(property, e);
            },
            None => {},
        }
    }
}


impl PropertyRateLimitConfig {
    /// A copy of the configuration.
    pub fn duplicate(&self) -> (r: PropertyRateLimitConfig)
        ensures
            r == *self,
    {
        PropertyRateLimitConfig {
            property: self.property.clone(),
            max_requests_per_window_registered: self.max_requests_per_window_registered,
            max_requests_per_window_unregistered: self.max_requests_per_window_unregistered,
            window_duration_seconds: self.window_duration_seconds,
            max_requests_per_property_all_users: self.max_requests_per_property_all_users,
            property_rate_limit_window_duration_seconds: self.property_rate_limit_window_duration_seconds,
        }
    }
}

impl VideoGenRequestStatus {
    /// A copy of the status.
    pub fn duplicate(&self) -> (r: VideoGenRequestStatus)
        ensures
            r == *self,
    {
        match self {
            VideoGenRequestStatus::Pending => VideoGenRequestStatus::Pending,
            VideoGenRequestStatus::Processing => VideoGenRequestStatus::Processing,
            VideoGenRequestStatus::Complete(s) => VideoGenRequestStatus::Complete(s.clone()),
            VideoGenRequestStatus::Failed(s) => VideoGenRequestStatus::Failed(s.clone()),
        }
    }
}

impl VideoGenRequest {
    /// A copy of the request.
    pub fn duplicate(&self) -> (r: VideoGenRequest)
        ensures
            r == *self,
    {
        VideoGenRequest {
            model_name: self.model_name.clone(),
            prompt: self.prompt.clone(),
            status: self.status.duplicate(),
            created_at: self.created_at,
            updated_at: self.updated_at,
        }
    }
}

impl RateLimitKey {
    /// A copy of the key.
    pub fn duplicate(&self) -> (r: RateLimitKey)
        ensures
            r == *self,
    {
        RateLimitKey { principal: self.principal, property: self.property.clone() }
    }
}

/// The requests of `principal` with counters from `hi` down to `lo`, most
/// recent first, skipping counters that have no request.
pub open spec fn requests_between(
    requests: Map<VideoGenRequestKey, VideoGenRequest>,
    principal: Principal,
    hi: int,
    lo: int,
) -> Seq<(VideoGenRequestKey, VideoGenRequest)>
    decreases hi - lo + 1,
{
    if hi < lo || hi < 0 {
        Seq::empty()
    } else {
        let k = VideoGenRequestKey { principal, counter: hi as u64 };
        let rest = requests_between(requests, principal, hi - 1, lo);
        if requests.contains_key(k) {
            seq![(k, requests[k])] + rest
        } else {
            rest
        }
    }
}

/// What `requests_between` lists: only requests of `principal` that are
/// stored, with counters from `lo` to `hi`, at most one per counter, most
/// recent first, and every stored one of those counters.
pub proof fn lemma_requests_between(
    requests: Map<VideoGenRequestKey, VideoGenRequest>,
    principal: Principal,
    hi: int,
    lo: int,
)
    requires
        1 <= lo,
        hi <= u64::MAX,
    ensures
        ({
            let r = requests_between(requests, principal, hi, lo);
            &&& r.len() <= if hi >= lo { hi - lo + 1 } else { 0 }
            &&& forall|i: int| 0 <= i < r.len() ==> {
                &&& (#[trigger] r[i]).0.principal == principal
                &&& lo <= r[i].0.counter <= hi
                &&& requests.contains_key(r[i].0)
                &&& requests[r[i].0] == r[i].1
            }
            &&& forall|i: int, j: int| #![trigger r[i], r[j]] 0 <= i < j < r.len() ==> r[i].0.counter > r[j].0.counter
            &&& forall|c: u64| lo <= c <= hi && #[trigger] requests.contains_key(VideoGenRequestKey { principal, counter: c })
                ==> exists|i: int| 0 <= i < r.len() && r[i].0 == VideoGenRequestKey { principal, counter: c }
        }),
    decreases hi - lo + 1,
{
    if hi < lo || hi < 0 {
    } else {
        lemma_requests_between(requests, principal, hi - 1, lo);
        let k = VideoGenRequestKey { principal, counter: hi as u64 };
        let rest = requests_between(requests, principal, hi - 1, lo);
        let r = requests_between(requests, principal, hi, lo);
        if requests.contains_key(k) {
            assert(r == seq![(k, requests[k])] + rest);
            assert forall|i: int| 0 < i < r.len() implies r[i] == rest[i - 1] by {}
            assert forall|c: u64| lo <= c <= hi && #[trigger] requests.contains_key(VideoGenRequestKey { principal, counter: c })
                implies exists|i: int| 0 <= i < r.len() && r[i].0 == VideoGenRequestKey { principal, counter: c } by {
                if c == hi {
                    assert(r[0].0 == VideoGenRequestKey { principal, counter: c });
                } else {
                    let i = choose|i: int| 0 <= i < rest.len() && rest[i].0 == VideoGenRequestKey { principal, counter: c };
                    assert(r[i + 1] == rest[i]);
                }
            }
        } else {
            assert(r == rest);
            assert forall|c: u64| lo <= c <= hi && #[trigger] requests.contains_key(VideoGenRequestKey { principal, counter: c })
                implies exists|i: int| 0 <= i < r.len() && r[i].0 == VideoGenRequestKey { principal, counter: c } by {
                assert(c != hi);
            }
        }
    }
}

/// The page of a principal's requests: at most `limit` (10 when not given,
/// 100 at most) counters, going back from `start` (the latest when not
/// given, never beyond it).
pub open spec fn request_page(
    requests: Map<VideoGenRequestKey, VideoGenRequest>,
    principal: Principal,
    max_counter: int,
    start: Option<u64>,
    limit: Option<u64>,
) -> Seq<(VideoGenRequestKey, VideoGenRequest)> {
    if max_counter == 0 {
        Seq::empty()
    } else {
        let lim: int = match limit { Some(l) => if l <= 100 { l as int } else { 100 }, None => 10 };
        let s: int = match start { Some(x) => if x <= max_counter { x as int } else { max_counter }, None => max_counter };
        let end: int = if s > lim { s - lim + 1 } else { 1 };
        requests_between(requests, principal, s, end)
    }
}

impl CanisterData {
    /// The video generation requests.
    pub open spec fn requests(self) -> Map<VideoGenRequestKey, VideoGenRequest> {
        self.video_gen_requests.map()
    }

    /// The number of requests each principal has made.
    pub open spec fn counters(self) -> Map<Principal, u64> {
        self.user_request_counters.map()
    }

    /// Forgets the principal's counter on the property.
    pub fn reset_rate_limit_with_property(&mut self, principal: &Principal, property: &str)
        ensures
            final(self).limits() == old(self).limits().remove((*principal, property@)),
            final(self).property_limits() == old(self).property_limits(),
            final(self).same_settings(*old(self)),
    {
        let key = RateLimitKey::new(*principal, literal(property));
        self.rate_limits.remove(&key);
    }

    /// Forgets every counter of the principal.
    pub fn reset_all_principal_rate_limits(&mut self, principal: &Principal)
        ensures
            final(self).limits() == old(self).limits().remove_keys(
                Set::new(|k: (Principal, Seq<char>)| k.0 == *principal),
            ),
            final(self).property_limits() == old(self).property_limits(),
            final(self).same_settings(*old(self)),
    {
        let ghost old_map = self.limits();
        let mut kept: KeyedVec<RateLimitKey, RateLimitEntry> = KeyedVec::new();
        let pairs = self.rate_limits.as_pairs();
        proof {
            use_type_invariant(&self.rate_limits);
        }
        let mut i: usize = 0;
        while i < pairs.len()
            invariant
                pairs@ == self.rate_limits.pairs(),
                self.rate_limits.keys_distinct(),
                old_map == self.limits(),
                i <= pairs@.len(),
                kept.map() == Map::new(
                    |k: (Principal, Seq<char>)| k.0 != *principal && exists|j: int| 0 <= j < i && #[trigger] pairs@[j].0@ == k,
                    |k: (Principal, Seq<char>)| old_map[k],
                ),
            decreases pairs@.len() - i,
        {
            let ghost prev = kept.map();
            if !pairs[i].0.principal.same_as(principal) {
                proof {
                    self.rate_limits.lemma_pair_in_map(i as int);
                }
                kept.insert(pairs[i].0.duplicate(), pairs[i].1);
            }
            i = i + 1;
            proof {
                let target = Map::new(
                    |k: (Principal, Seq<char>)| k.0 != *principal && exists|j: int| 0 <= j < i && #[trigger] pairs@[j].0@ == k,
                    |k: (Principal, Seq<char>)| old_map[k],
                );
                assert forall|k: (Principal, Seq<char>)| #[trigger] target.contains_key(k) implies kept.map().contains_key(k) && kept.map()[k] == old_map[k] by {
                    let j = choose|j: int| 0 <= j < i && #[trigger] pairs@[j].0@ == k;
                    if j < i - 1 {
                        assert(prev.contains_key(k));
                    }
                }
                assert forall|k: (Principal, Seq<char>)| #[trigger] kept.map().contains_key(k) implies target.contains_key(k) by {
                    if prev.contains_key(k) {
                        let j = choose|j: int| 0 <= j < i - 1 && #[trigger] pairs@[j].0@ == k;
                        assert(0 <= j < i && pairs@[j].0@ == k);
                    } else {
                        assert(pairs@[i - 1].0@ == k);
                    }
                }
                assert(kept.map() =~= target);
            }
        }
        proof {
            assert forall|k: (Principal, Seq<char>)| old_map.remove_keys(Set::new(|k: (Principal, Seq<char>)| k.0 == *principal)).contains_key(k)
                implies kept.map().contains_key(k) by {
                let j = self.rate_limits.index_of(k);
                assert(pairs@[j].0@ == k);
            }
            assert forall|k: (Principal, Seq<char>)| kept.map().contains_key(k)
                implies old_map.contains_key(k) by {
                let j = choose|j: int| 0 <= j < i && #[trigger] pairs@[j].0@ == k;
                self.rate_limits.lemma_pair_in_map(j);
            }
            assert(kept.map() =~= old_map.remove_keys(Set::new(|k: (Principal, Seq<char>)| k.0 == *principal)));
        }
        self.rate_limits = kept;
    }

    /// Forgets every principal's counters.
    pub fn clear_all_rate_limits(&mut self)
        ensures
            final(self).limits() == Map::<(Principal, Seq<char>), RateLimitEntry>::empty(),
            final(self).property_limits() == old(self).property_limits(),
            final(self).same_settings(*old(self)),
    {
        self.rate_limits = KeyedVec::new();
    }

    /// Gives the principal a limit of its own on the property; a new counter
    /// starts empty at `now`.
    pub fn set_principal_property_rate_limit(
        &mut self,
        principal: &Principal,
        property: &str,
        config: RateLimitConfig,
        now: u64,
    )
        ensures
            final(self).limits() == old(self).limits().insert(
                (*principal, property@),
                if old(self).limits().contains_key((*principal, property@)) {
                    RateLimitEntry { config: Some(config), ..old(self).limits()[(*principal, property@)] }
                } else {
                    RateLimitEntry { request_count: 0, window_start: secs_of(now) as u64, config: Some(config) }
                },
            ),
            final(self).property_limits() == old(self).property_limits(),
            final(self).same_settings(*old(self)),
    {
        let key = RateLimitKey::new(*principal, literal(property));
        let entry = match self.rate_limits.get(&key) {
            Some(e) => RateLimitEntry { config: Some(config), ..*e },
            None => RateLimitEntry { request_count: 0, window_start: now / NANOS_PER_SECOND, config: Some(config) },
        };
        self.rate_limits.insert(key, entry);
    }

    /// The principal's own limit on the property, if it has one.
    pub fn get_principal_property_config(&self, principal: &Principal, property: &str) -> (r: Option<RateLimitConfig>)
        ensures
            r == (if self.limits().contains_key((*principal, property@)) {
                self.limits()[(*principal, property@)].config
            } else {
                None
            }),
    {
        let key = RateLimitKey::new(*principal, literal(property));
        match self.rate_limits.get(&key) {
            Some(e) => e.config,
            None => None,
        }
    }

    /// Stores the configuration under its property.
    pub fn set_property_config(&mut self, config: PropertyRateLimitConfig)
        ensures
            final(self).configs() == old(self).configs().insert(config.property@, config),
            final(self).limits() == old(self).limits(),
            final(self).property_limits() == old(self).property_limits(),
            final(self).blacklist == old(self).blacklist,
            final(self).video_gen_requests == old(self).video_gen_requests,
            final(self).user_request_counters == old(self).user_request_counters,
            final(self).version == old(self).version,
            final(self).default_config == old(self).default_config,
    {
        let property = config.property.clone();
        self.property_configs.insert(property, config);
    }

    /// A copy of the property's configuration.
    pub fn get_property_config(&self, property: &str) -> (r: Option<PropertyRateLimitConfig>)
        ensures
            r == (if self.configs().contains_key(property@) { Some(self.configs()[property@]) } else { None }),
    {
        match self.property_configs.get(&literal(property)) {
            Some(c) => Some(c.duplicate()),
            None => None,
        }
    }

    /// Forgets the property's configuration.
    pub fn remove_property_config(&mut self, property: &str)
        ensures
            final(self).configs() == old(self).configs().remove(property@),
            final(self).limits() == old(self).limits(),
            final(self).property_limits() == old(self).property_limits(),
            final(self).blacklist == old(self).blacklist,
            final(self).video_gen_requests == old(self).video_gen_requests,
            final(self).user_request_counters == old(self).user_request_counters,
            final(self).version == old(self).version,
            final(self).default_config == old(self).default_config,
    {
        self.property_configs.remove(&literal(property));
    }

    /// Every property configuration, in string order of the properties.
    #[verifier::spinoff_prover]
    #[verifier::rlimit(50)]
    pub fn get_all_property_configs(&self) -> (r: Vec<PropertyRateLimitConfig>)
        ensures
            exists|keys: Seq<Seq<char>>| ordered_listing(self.configs(), keys, r@),
    {
        let pairs = self.property_configs.as_pairs();
        proof {
            use_type_invariant(&self.property_configs);
            self.property_configs.lemma_distinct();
        }
        let ghost m = self.configs();
        let ghost ps = pairs@;
        let mut out: Vec<PropertyRateLimitConfig> = Vec::new();
        let mut out_keys: Vec<String> = Vec::new();
        let mut i: usize = 0;
        while i < pairs.len()
            invariant
                ps == pairs@,
                ps == self.property_configs.pairs(),
                m == self.configs(),
                self.property_configs.keys_distinct(),
                forall|a: int, b: int| 0 <= a < ps.len() && 0 <= b < ps.len() && a != b
                    ==> #[trigger] ps[a].0@ != #[trigger] ps[b].0@,
                i <= ps.len(),
                out@.len() == out_keys@.len(),
                texts_ascending(out_keys@.map_values(|k: String| k@)),
                forall|x: int| 0 <= x < out_keys@.len() ==> exists|j: int| 0 <= j < i
                    && #[trigger] out_keys@[x]@ == ps[j].0@ && out@[x] == ps[j].1,
                forall|j: int| #![trigger ps[j]] 0 <= j < i ==> exists|x: int| 0 <= x < out_keys@.len()
                    && #[trigger] out_keys@[x]@ == ps[j].0@,
                out_keys@.len() == i,
            decreases ps.len() - i,
        {
            let key = &pairs[i].0;
            let mut pos: usize = 0;
            while pos < out_keys.len()
                invariant
                    pos <= out_keys@.len(),
                    forall|x: int| 0 <= x < pos ==> text_lt(#[trigger] out_keys@[x]@, key@),
                ensures
                    pos <= out_keys@.len(),
                    forall|x: int| 0 <= x < pos ==> text_lt(#[trigger] out_keys@[x]@, key@),
                    pos < out_keys@.len() ==> !text_lt(out_keys@[pos as int]@, key@),
                decreases out_keys@.len() - pos,
            {
                if !text_less(&out_keys[pos], key) {
                    break;
                }
                pos = pos + 1;
            }
            let ghost old_keys = out_keys@;
            let ghost old_out = out@;
            proof {
                assert forall|x: int| 0 <= x < old_keys.len() implies #[trigger] old_keys[x]@ != key@ by {
                    let j = choose|j: int| 0 <= j < i && #[trigger] old_keys[x]@ == ps[j].0@ && old_out[x] == ps[j].1;
                    assert(ps[j].0@ != ps[i as int].0@);
                }
                assert forall|b: int| pos <= b < old_keys.len() implies text_lt(key@, #[trigger] old_keys[b]@) by {
                    let e = old_keys[pos as int]@;
                    assert(old_keys.map_values(|k: String| k@)[pos as int] == e);
                    assert(e != key@);
                    lemma_text_lt_total(e, key@);
                    if b > pos {
                        assert(old_keys.map_values(|k: String| k@)[b] == old_keys[b]@);
                        assert(text_lt(e, old_keys[b]@));
                        lemma_lex_lt_transitive(encode_utf8(key@), encode_utf8(e), encode_utf8(old_keys[b]@));
                    }
                }
            }
            out_keys.insert(pos, key.clone());
            out.insert(pos, pairs[i].1.duplicate());
            proof {
                let ks = out_keys@.map_values(|k: String| k@);
                let oks = old_keys.map_values(|k: String| k@);
                assert forall|a: int, b: int| 0 <= a < b < ks.len() implies text_lt(#[trigger] ks[a], #[trigger] ks[b]) by {
                    if b < pos {
                        assert(ks[a] == oks[a] && ks[b] == oks[b]);
                    } else if b == pos {
                        assert(ks[a] == old_keys[a]@);
                    } else if a < pos {
                        assert(ks[a] == old_keys[a]@ && ks[b] == old_keys[b - 1]@);
                        lemma_lex_lt_transitive(encode_utf8(old_keys[a]@), encode_utf8(key@), encode_utf8(old_keys[b - 1]@));
                    } else if a == pos {
                        assert(ks[b] == old_keys[b - 1]@);
                    } else {
                        assert(ks[a] == oks[a - 1] && ks[b] == oks[b - 1]);
                    }
                }
                assert forall|x: int| 0 <= x < out_keys@.len() implies exists|j: int| 0 <= j < i + 1
                    && #[trigger] out_keys@[x]@ == ps[j].0@ && out@[x] == ps[j].1 by {
                    if x < pos {
                        let j = choose|j: int| 0 <= j < i && #[trigger] old_keys[x]@ == ps[j].0@ && old_out[x] == ps[j].1;
                        assert(out_keys@[x] == old_keys[x] && out@[x] == old_out[x]);
                    } else if x == pos {
                        assert(out_keys@[x]@ == ps[i as int].0@ && out@[x] == ps[i as int].1);
                    } else {
                        let j = choose|j: int| 0 <= j < i && #[trigger] old_keys[x - 1]@ == ps[j].0@ && old_out[x - 1] == ps[j].1;
                        assert(out_keys@[x] == old_keys[x - 1] && out@[x] == old_out[x - 1]);
                    }
                }
                assert forall|j: int| #![trigger ps[j]] 0 <= j < i + 1 implies exists|x: int| 0 <= x < out_keys@.len()
                    && #[trigger] out_keys@[x]@ == ps[j].0@ by {
                    if j == i {
                        assert(out_keys@[pos as int]@ == ps[j].0@);
                    } else {
                        let x = choose|x: int| 0 <= x < old_keys.len() && #[trigger] old_keys[x]@ == ps[j].0@;
                        if x < pos {
                            assert(out_keys@[x] == old_keys[x]);
                        } else {
                            assert(out_keys@[x + 1] == old_keys[x]);
                        }
                    }
                }
            }
            i = i + 1;
        }
        proof {
            let keys = out_keys@.map_values(|k: String| k@);
            assert forall|x: int| 0 <= x < keys.len() implies m.contains_key(#[trigger] keys[x]) && out@[x] == m[keys[x]] by {
                let j = choose|j: int| 0 <= j < i && #[trigger] out_keys@[x]@ == ps[j].0@ && out@[x] == ps[j].1;
                self.property_configs.lemma_pair_in_map(j);
            }
            assert forall|p: Seq<char>| #[trigger] m.contains_key(p) implies exists|x: int| 0 <= x < keys.len() && keys[x] == p by {
                let j = self.property_configs.index_of(p);
                assert(ps[j].0@ == p);
                let x = choose|x: int| 0 <= x < out_keys@.len() && #[trigger] out_keys@[x]@ == ps[j].0@;
                assert(keys[x] == p);
            }
            assert(ordered_listing(m, keys, out@));
        }
        out
    }

    /// Blacklists the property ("all" blacklists every property).
    pub fn add_to_blacklist(&mut self, property: String)
        ensures
            final(self).blocked() == old(self).blocked().insert(property@),
            final(self).limits() == old(self).limits(),
            final(self).property_limits() == old(self).property_limits(),
            final(self).property_configs == old(self).property_configs,
            final(self).video_gen_requests == old(self).video_gen_requests,
            final(self).user_request_counters == old(self).user_request_counters,
            final(self).version == old(self).version,
            final(self).default_config == old(self).default_config,
    {
        self.blacklist.insert(property, ());
    }

    /// Takes the property off the blacklist; whether it was on it.
    pub fn remove_from_blacklist(&mut self, property: &str) -> (r: bool)
        ensures
            r == old(self).blocked().contains(property@),
            final(self).blocked() == old(self).blocked().remove(property@),
            final(self).limits() == old(self).limits(),
            final(self).property_limits() == old(self).property_limits(),
            final(self).property_configs == old(self).property_configs,
            final(self).video_gen_requests == old(self).video_gen_requests,
            final(self).user_request_counters == old(self).user_request_counters,
            final(self).version == old(self).version,
            final(self).default_config == old(self).default_config,
    {
        self.blacklist.remove(&literal(property)).is_some()
    }

    /// The blacklisted properties, each once.
    pub fn get_blacklist(&self) -> (r: Vec<String>)
        ensures
            r@.len() == self.blocked().len(),
            forall|i: int| 0 <= i < r@.len() ==> #[trigger] self.blocked().contains(r@[i]@),
            forall|p: Seq<char>| #[trigger] self.blocked().contains(p) ==> exists|i: int| 0 <= i < r@.len() && r@[i]@ == p,
    {
        let pairs = self.blacklist.as_pairs();
        proof {
            use_type_invariant(&self.blacklist);
            self.blacklist.lemma_len();
        }
        let mut r: Vec<String> = Vec::new();
        let mut i: usize = 0;
        while i < pairs.len()
            invariant
                pairs@ == self.blacklist.pairs(),
                self.blacklist.keys_distinct(),
                i <= pairs@.len(),
                r@.len() == i,
                forall|j: int| 0 <= j < i ==> #[trigger] r@[j] == pairs@[j].0,
            decreases pairs@.len() - i,
        {
            r.push(pairs[i].0.clone());
            i = i + 1;
        }
        proof {
            assert forall|j: int| 0 <= j < r@.len() implies #[trigger] self.blocked().contains(r@[j]@) by {
                self.blacklist.lemma_pair_in_map(j);
            }
            assert forall|p: Seq<char>| #[trigger] self.blocked().contains(p)
                implies exists|j: int| 0 <= j < r@.len() && r@[j]@ == p by {
                let j = self.blacklist.index_of(p);
                assert(r@[j] == pairs@[j].0);
            }
        }
        r
    }

    /// Empties the blacklist.
    pub fn clear_blacklist(&mut self)
        ensures
            final(self).blocked() == Set::<Seq<char>>::empty(),
            final(self).limits() == old(self).limits(),
            final(self).property_limits() == old(self).property_limits(),
            final(self).property_configs == old(self).property_configs,
            final(self).video_gen_requests == old(self).video_gen_requests,
            final(self).user_request_counters == old(self).user_request_counters,
            final(self).version == old(self).version,
            final(self).default_config == old(self).default_config,
    {
        self.blacklist = KeyedVec::new();
        assert(self.blocked() =~= Set::<Seq<char>>::empty());
    }

    /// The requests counted on the property-wide counter in its current
    /// window at `now` (0 when it has passed or there is none).
    pub open spec fn property_usage(self, property: Seq<char>, now_s: int) -> int {
        if self.property_limits().contains_key(property) {
            let e = self.property_limits()[property];
            let w = if self.configs().contains_key(property) { property_window(self.configs()[property]) } else { DEFAULT_PROPERTY_WINDOW_SECONDS as int };
            if now_s < e.window_start + w { e.request_count as int } else { 0 }
        } else {
            0
        }
    }

    /// The property-wide usage in the current window.
    pub fn get_property_daily_usage(&self, property: &str, now: u64) -> (n: u64)
        requires
            self.property_limits().contains_key(property@) ==> self.property_limits()[property@].window_start
                + (if self.configs().contains_key(property@) { property_window(self.configs()[property@]) } else { DEFAULT_PROPERTY_WINDOW_SECONDS as int })
                <= u64::MAX,
        ensures
            n == self.property_usage(property@, secs_of(now)),
    {
        let current_time = now / NANOS_PER_SECOND;
        let property = literal(property);
        match self.property_rate_limits.get(&property) {
            Some(entry) => {
                let window_duration = match self.property_configs.get(&property) {
                    Some(pc) => match pc.property_rate_limit_window_duration_seconds {
                        Some(w) => w,
                        None => DEFAULT_PROPERTY_WINDOW_SECONDS,
                    },
                    None => DEFAULT_PROPERTY_WINDOW_SECONDS,
                };
                if current_time < entry.window_start + window_duration {
                    entry.request_count
                } else {
                    0
                }
            },
            None => 0,
        }
    }

    /// Forgets the property-wide counter.
    pub fn reset_property_daily_limit(&mut self, property: &str)
        ensures
            final(self).property_limits() == old(self).property_limits().remove(property@),
            final(self).limits() == old(self).limits(),
            final(self).same_settings(*old(self)),
    {
        self.property_rate_limits.remove(&literal(property));
    }

    /// Records a new pending video generation request of the principal at
    /// `now`, under the principal's next counter, and gives back its key.
    pub fn create_video_gen_request(
        &mut self,
        principal: Principal,
        model_name: String,
        prompt: String,
        now: u64,
    ) -> (key: VideoGenRequestKey)
        requires
            old(self).counters().contains_key(principal) ==> old(self).counters()[principal] < u64::MAX,
        ensures
            key.principal == principal,
            key.counter == (if old(self).counters().contains_key(principal) { old(self).counters()[principal] + 1 } else { 1 }),
            final(self).counters() == old(self).counters().insert(principal, key.counter),
            final(self).requests() == old(self).requests().insert(key, VideoGenRequest {
                model_name,
                prompt,
                status: VideoGenRequestStatus::Pending,
                created_at: secs_of(now) as u64,
                updated_at: secs_of(now) as u64,
            }),
            final(self).limits() == old(self).limits(),
            final(self).property_limits() == old(self).property_limits(),
            final(self).property_configs == old(self).property_configs,
            final(self).blacklist == old(self).blacklist,
            final(self).version == old(self).version,
            final(self).default_config == old(self).default_config,
    {
        let current_time = now / NANOS_PER_SECOND;
        let counter = match self.user_request_counters.get(&principal) {
            Some(c) => *c,
            None => 0,
        };
        let new_counter = counter + 1;
        self.user_request_counters.insert(principal, new_counter);
        let key = VideoGenRequestKey::new(principal, new_counter);
        let request = VideoGenRequest {
            model_name,
            prompt,
            status: VideoGenRequestStatus::Pending,
            created_at: current_time,
            updated_at: current_time,
        };
        self.video_gen_requests.insert(key, request);
        key
    }

    /// Sets the status of a request and stamps it with `now`.
    pub fn update_video_gen_request_status(
        &mut self,
        key: &VideoGenRequestKey,
        status: VideoGenRequestStatus,
        now: u64,
    ) -> (r: Result<(), String>)
        ensures
            r is Ok <==> old(self).requests().contains_key(*key),
            r matches Err(e) ==> e@ == "Video generation request not found"@ && final(self).requests() == old(self).requests(),
            r is Ok ==> final(self).requests() == old(self).requests().insert(*key, VideoGenRequest {
                status,
                updated_at: secs_of(now) as u64,
                ..old(self).requests()[*key]
            }),
            final(self).counters() == old(self).counters(),
            final(self).limits() == old(self).limits(),
            final(self).property_limits() == old(self).property_limits(),
            final(self).property_configs == old(self).property_configs,
            final(self).blacklist == old(self).blacklist,
            final(self).version == old(self).version,
            final(self).default_config == old(self).default_config,
    {
        let current_time = now / NANOS_PER_SECOND;
        match self.video_gen_requests.remove(key) {
            Some(request) => {
                let ghost before = request;
                let updated = VideoGenRequest { status, updated_at: current_time, ..request };
                self.video_gen_requests.insert(*key, updated);
                proof {
                    assert(self.requests() =~= old(self).requests().insert(*key, updated));
                }
                Ok(())
            },
            None => {
                proof {
                    assert(self.requests() =~= old(self).requests());
                }
                Err(literal("Video generation request not found"))
            },
        }
    }

    /// A copy of the request.
    pub fn get_video_gen_request(&self, key: &VideoGenRequestKey) -> (r: Option<VideoGenRequest>)
        ensures
            r == (if self.requests().contains_key(*key) { Some(self.requests()[*key]) } else { None }),
    {
        match self.video_gen_requests.get(key) {
            Some(r) => Some(r.duplicate()),
            None => None,
        }
    }

    /// Whether the principal's request counter can count one more request.
    pub fn counter_below_max(&self, principal: &Principal) -> (r: bool)
        ensures
            r == (self.counters().contains_key(*principal) ==> self.counters()[*principal] < u64::MAX),
    {
        match self.user_request_counters.get(principal) {
            Some(c) => *c < u64::MAX,
            None => true,
        }
    }

    /// Whether listing the principal's requests from `start` with `limit`
    /// stays within `u64`.
    pub fn request_listing_fits(&self, principal: &Principal, start: Option<u64>, limit: Option<u64>) -> (r: bool)
        ensures
            r == (limit == Some(0u64) && self.counters().contains_key(*principal) ==> {
                let m = self.counters()[*principal];
                (match start { Some(x) => if x <= m { x } else { m }, None => m }) < u64::MAX
            }),
    {
        match limit {
            Some(0) => match self.user_request_counters.get(principal) {
                Some(m) => {
                    let from = match start {
                        Some(x) => if x <= *m { x } else { *m },
                        None => *m,
                    };
                    from < u64::MAX
                },
                None => true,
            },
            _ => true,
        }
    }

    /// The principal's requests, a page at a time, most recent first.
    pub fn get_user_video_gen_requests(
        &self,
        principal: Principal,
        start: Option<u64>,
        limit: Option<u64>,
    ) -> (r: Vec<(VideoGenRequestKey, VideoGenRequest)>)
        requires
            limit == Some(0u64) && self.counters().contains_key(principal) ==> {
                let m = self.counters()[principal];
                (match start { Some(x) => if x <= m { x } else { m }, None => m }) < u64::MAX
            },
        ensures
            r@ == request_page(
                self.requests(),
                principal,
                if self.counters().contains_key(principal) { self.counters()[principal] as int } else { 0 },
                start,
                limit,
            ),
            ({
                let m: int = if self.counters().contains_key(principal) { self.counters()[principal] as int } else { 0 };
                let lim: int = match limit { Some(l) => if l <= 100 { l as int } else { 100 }, None => 10 };
                let s: int = match start { Some(x) => if x <= m { x as int } else { m }, None => m };
                &&& m == 0 ==> r@.len() == 0
                &&& r@.len() <= lim
                &&& forall|i: int| 0 <= i < r@.len() ==> {
                    &&& (#[trigger] r@[i]).0.principal == principal
                    &&& s - lim < r@[i].0.counter <= s
                    &&& 1 <= r@[i].0.counter
                    &&& self.requests().contains_key(r@[i].0)
                    &&& self.requests()[r@[i].0] == r@[i].1
                }
                &&& forall|i: int, j: int| #![trigger r@[i], r@[j]] 0 <= i < j < r@.len() ==> r@[i].0.counter > r@[j].0.counter
                &&& forall|c: u64| s - lim < c <= s && 1 <= c
                    && #[trigger] self.requests().contains_key(VideoGenRequestKey { principal, counter: c })
                    ==> exists|i: int| 0 <= i < r@.len() && r@[i].0 == VideoGenRequestKey { principal, counter: c }
            }),
    {
        let max_counter = match self.user_request_counters.get(&principal) {
            Some(c) => *c,
            None => 0,
        };
        if max_counter == 0 {
            return Vec::new();
        }
        let limit = match limit {
            Some(l) => if l <= 100 { l } else { 100 },
            None => 10,
        };
        let start_counter = match start {
            Some(x) => if x <= max_counter { x } else { max_counter },
            None => max_counter,
        };
        let end_counter = if start_counter > limit {
            let back = start_counter - limit;
            back + 1
        } else {
            1
        };
        let mut results: Vec<(VideoGenRequestKey, VideoGenRequest)> = Vec::new();
        let mut counter = start_counter;
        while counter >= end_counter
            invariant
                end_counter >= 1,
                counter <= start_counter,
                counter + 1 >= end_counter,
                results@ + requests_between(self.requests(), principal, counter as int, end_counter as int)
                    == requests_between(self.requests(), principal, start_counter as int, end_counter as int),
            decreases counter,
        {
            let key = VideoGenRequestKey::new(principal, counter);
            let ghost before = results@;
            match self.video_gen_requests.get(&key) {
                Some(request) => {
                    results.push((key, request.duplicate()));
                    assert(results@ + requests_between(self.requests(), principal, counter - 1, end_counter as int)
                        =~= before + requests_between(self.requests(), principal, counter as int, end_counter as int));
                },
                None => {
                    assert(results@ + requests_between(self.requests(), principal, counter - 1, end_counter as int)
                        =~= before + requests_between(self.requests(), principal, counter as int, end_counter as int));
                },
            }
            counter = counter - 1;
        }
        assert(requests_between(self.requests(), principal, counter as int, end_counter as int) =~= Seq::empty());
        assert(results@ =~= requests_between(self.requests(), principal, start_counter as int, end_counter as int));
        proof {
            lemma_requests_between(self.requests(), principal, start_counter as int, end_counter as int);
        }
        results
    }
}

impl Default for GlobalRateLimitConfig {
    /// The default limits.
    fn default() -> (c: Self)
        ensures
            c == (GlobalRateLimitConfig {
                max_requests_per_window_registered: DEFAULT_MAX_REQUESTS_REGISTERED,
                max_requests_per_window_unregistered: DEFAULT_MAX_REQUESTS_UNREGISTERED,
                window_duration_seconds: DEFAULT_WINDOW_SECONDS,
            }),
    {
        GlobalRateLimitConfig {
            max_requests_per_window_registered: DEFAULT_MAX_REQUESTS_REGISTERED,
            max_requests_per_window_unregistered: DEFAULT_MAX_REQUESTS_UNREGISTERED,
            window_duration_seconds: DEFAULT_WINDOW_SECONDS,
        }
    }
}

/// Requests a registered principal may make in a window by default.
pub const DEFAULT_MAX_REQUESTS_REGISTERED: u64 = 10;
/// Requests an unregistered principal may make in a window by default.
pub const DEFAULT_MAX_REQUESTS_UNREGISTERED: u64 = 5;
/// The default window: a day.
pub const DEFAULT_WINDOW_SECONDS: u64 = 86400;

impl Default for CanisterData {
    /// An empty state at version "v1.0.0" with the default limits.
    fn default() -> (d: CanisterData)
        ensures
            d.limits() == Map::<(Principal, Seq<char>), RateLimitEntry>::empty(),
            d.configs() == Map::<Seq<char>, PropertyRateLimitConfig>::empty(),
            d.property_limits() == Map::<Seq<char>, RateLimitEntry>::empty(),
            d.requests() == Map::<VideoGenRequestKey, VideoGenRequest>::empty(),
            d.counters() == Map::<Principal, u64>::empty(),
            d.blocked() == Set::<Seq<char>>::empty(),
            d.version@ == "v1.0.0"@,
            d.default_config == (GlobalRateLimitConfig {
                max_requests_per_window_registered: DEFAULT_MAX_REQUESTS_REGISTERED,
                max_requests_per_window_unregistered: DEFAULT_MAX_REQUESTS_UNREGISTERED,
                window_duration_seconds: DEFAULT_WINDOW_SECONDS,
            }),
    {
        let d = CanisterData {
            rate_limits: KeyedVec::new(),
            property_configs: KeyedVec::new(),
            property_rate_limits: KeyedVec::new(),
            video_gen_requests: KeyedVec::new(),
            user_request_counters: KeyedVec::new(),
            version: literal("v1.0.0"),
            default_config: GlobalRateLimitConfig::default(),
            blacklist: KeyedVec::new(),
        };
        assert(d.blocked() =~= Set::<Seq<char>>::empty());
        d
    }
}

} // verus!
