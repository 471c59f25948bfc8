//! The notification store's requests. Who calls, whether the caller is an
//! administrator and the time come from the platform.
use vstd::prelude::*;

use crate::principal::Principal;
use crate::notification_store::types::{CanisterData, Notification, NotificationData, NotificationStoreError};

verus! {

/// Once a user's list reaches this many notifications, the oldest are dropped.
pub const MAX_STORED_NOTIFICATIONS: usize = 1000;

/// How many of the oldest notifications are dropped then.
pub const DROPPED_NOTIFICATIONS: usize = 500;

/// How long notifications are kept by pruning: thirty days, in nanoseconds.
pub const RETENTION_NANOS: u64 = 2_592_000_000_000_000;

/// `s` with each notification's id set to its position.
pub open spec fn numbered<P>(s: Seq<NotificationData<P>>) -> Seq<NotificationData<P>> {
    Seq::new(s.len(), |i: int| NotificationData { notification_id: i as u64, ..s[i] })
}

/// The notification that an add appends to `s`.
pub open spec fn new_notification<P>(s: Seq<NotificationData<P>>, payload: P, now: u64) -> NotificationData<P> {
    NotificationData { notification_id: s.len() as u64, payload, created_at: now, read: false }
}

/// The list after adding a notification to `s`: appended with the next id;
/// when that makes the list reach the maximum, the oldest are dropped and
/// the rest renumbered from zero.
pub open spec fn after_add<P>(s: Seq<NotificationData<P>>, payload: P, now: u64) -> Seq<NotificationData<P>> {
    let pushed = s.push(new_notification(s, payload, now));
    if pushed.len() >= MAX_STORED_NOTIFICATIONS {
        numbered(pushed.skip(DROPPED_NOTIFICATIONS as int))
    } else {
        pushed
    }
}

/// Adds a notification for `user_principal`, at the request of that user
/// or of an administrator.
pub fn add_notification<P>(
    data: &mut CanisterData<P>,
    caller: Principal,
    caller_is_admin: bool,
    user_principal: Principal,
    payload: P,
    now: u64,
) -> (r: Result<(), NotificationStoreError>)
    ensures
        final(data).version == old(data).version,
        user_principal != caller && !caller_is_admin ==> r == Err::<(), NotificationStoreError>(NotificationStoreError::Unauthorized)
            && final(data).records() == old(data).records(),
        user_principal == caller || caller_is_admin ==> {
            &&& r is Ok
            &&& final(data).records().contains_key(user_principal)
            &&& final(data).records() == old(data).records().insert(user_principal, final(data).records()[user_principal])
            &&& final(data).stored(user_principal) == after_add(old(data).stored(user_principal), payload, now)
            &&& old(data).records().contains_key(user_principal) ==>
                final(data).records()[user_principal].last_viewed == old(data).records()[user_principal].last_viewed
            &&& !old(data).records().contains_key(user_principal) ==>
                final(data).records()[user_principal].last_viewed is None
        },
{
    if !user_principal.same_as(&caller) && !caller_is_admin {
        return Err(NotificationStoreError::Unauthorized);
    }
    let ghost old_records = data.records();
    let ghost s0 = old(data).stored(user_principal);
    let record = match data.notifications.remove(&user_principal) {
        Some(n) => n,
        None => Notification::default(),
    };
    let Notification { notifications, last_viewed } = record;
    let mut list = notifications;
    assert(list@ == s0);
    let next_id = list.len() as u64;
    list.push(NotificationData { notification_id: next_id, payload, created_at: now, read: false });
    let ghost pushed = list@;
    if list.len() >= MAX_STORED_NOTIFICATIONS {
        let kept = list.split_off(DROPPED_NOTIFICATIONS);
        list = renumber(kept);
        assert(list@ =~= numbered(pushed.skip(DROPPED_NOTIFICATIONS as int)));
    }
    let record = Notification { notifications: list, last_viewed };
    data.notifications.insert(user_principal, record);
    proof {
        assert(data.records() =~= old_records.insert(user_principal, record));
    }
    Ok(())
}

/// The notifications of `v` with each id set to its position.
fn renumber<P>(v: Vec<NotificationData<P>>) -> (r: Vec<NotificationData<P>>)
    ensures
        r@ == numbered(v@),
{
    let ghost s = v@;
    let total = v.len();
    let mut rest = v;
    let mut out: Vec<NotificationData<P>> = Vec::new();
    let mut i: usize = 0;
    while rest.len() > 0
        invariant
            i == out@.len(),
            i + rest@.len() == s.len(),
            s.len() == total,
            rest@ == s.skip(i as int),
            out@ == numbered(s).take(i as int),
        decreases rest@.len(),
    {
        let item = rest.remove(0);
        assert(item == s[i as int]);
        let NotificationData { notification_id: _, payload, created_at, read } = item;
        out.push(NotificationData { notification_id: i as u64, payload, created_at, read });
        i = i + 1;
        assert(rest@ =~= s.skip(i as int));
        assert(out@ =~= numbered(s).take(i as int));
    }
    assert(out@ =~= numbered(s));
    out
}

/// The notifications from `offset` on, at most `limit` of them.
pub open spec fn window<P>(s: Seq<NotificationData<P>>, offset: int, limit: int) -> Seq<NotificationData<P>> {
    let start = if offset < s.len() { offset } else { s.len() as int };
    let rest = s.skip(start);
    if limit < rest.len() { rest.take(limit) } else { rest }
}

/// Whether `b` is a copy of `a`.
pub open spec fn copy_of<P: Clone>(a: NotificationData<P>, b: NotificationData<P>) -> bool {
    &&& b.notification_id == a.notification_id
    &&& b.created_at == a.created_at
    &&& b.read == a.read
    &&& cloned(a.payload, b.payload)
}

/// The caller's notifications from `offset` on, at most `limit` of them.
pub fn get_notifications<P: Clone>(data: &CanisterData<P>, caller: Principal, limit: usize, offset: usize) -> (r: Vec<NotificationData<P>>)
    ensures
        r@.len() == window(data.stored(caller), offset as int, limit as int).len(),
        forall|i: int| 0 <= i < r@.len() ==> copy_of(window(data.stored(caller), offset as int, limit as int)[i], #[trigger] r@[i]),
{
    let mut out: Vec<NotificationData<P>> = Vec::new();
    match data.notifications.get(&caller) {
        Some(record) => {
            let list = &record.notifications;
            let ghost s = list@;
            let ghost w = window(s, offset as int, limit as int);
            let start = if offset < list.len() { offset } else { list.len() };
            let mut i: usize = start;
            while i < list.len() && i - start < limit
                invariant
                    s == list@,
                    w == window(s, offset as int, limit as int),
                    start <= i <= s.len(),
                    start == (if offset < s.len() { offset as int } else { s.len() as int }),
                    i - start <= limit,
                    out@.len() == i - start,
                    forall|j: int| 0 <= j < out@.len() ==> copy_of(s[start + j], #[trigger] out@[j]),
                decreases s.len() - i,
            {
                out.push(list[i].duplicate());
                i = i + 1;
            }
            proof {
                assert(w.len() == out@.len());
                assert forall|j: int| 0 <= j < out@.len() implies copy_of(w[j], #[trigger] out@[j]) by {
                    assert(w[j] == s[start + j]);
                }
            }
        },
        None => {},
    }
    out
}

/// Whether `i` is the first position in `s` of a notification with id `id`.
pub open spec fn first_with_id<P>(s: Seq<NotificationData<P>>, id: u64, i: int) -> bool {
    &&& 0 <= i < s.len()
    &&& s[i].notification_id == id
    &&& forall|j: int| 0 <= j < i ==> #[trigger] s[j].notification_id != id
}

/// Whether the caller has a record holding a notification with this id.
pub fn has_notification<P>(data: &CanisterData<P>, caller: Principal, notification_id: u64) -> (r: bool)
    ensures
        r == (data.records().contains_key(caller) && exists|i: int|
            0 <= i < data.stored(caller).len() && #[trigger] data.stored(caller)[i].notification_id == notification_id),
{
    match data.notifications.get(&caller) {
        Some(record) => {
            let list = &record.notifications;
            let mut i: usize = 0;
            while i < list.len()
                invariant
                    i <= list@.len(),
                    list@ == data.stored(caller),
                    forall|j: int| 0 <= j < i ==> #[trigger] list@[j].notification_id != notification_id,
                decreases list@.len() - i,
            {
                if list[i].notification_id == notification_id {
                    return true;
                }
                i = i + 1;
            }
            false
        },
        None => false,
    }
}

/// Marks the caller's first notification with the given id as read. The
/// caller must have a record holding such a notification.
pub fn mark_notification_as_read<P>(data: &mut CanisterData<P>, caller: Principal, notification_id: u64) -> (r: Result<(), NotificationStoreError>)
    requires
        old(data).records().contains_key(caller),
        exists|i: int| 0 <= i < old(data).stored(caller).len() && #[trigger] old(data).stored(caller)[i].notification_id == notification_id,
    ensures
        r is Ok,
        final(data).version == old(data).version,
        final(data).records().contains_key(caller),
        final(data).records() == old(data).records().insert(caller, final(data).records()[caller]),
        final(data).records()[caller].last_viewed == old(data).records()[caller].last_viewed,
        exists|i: int| first_with_id(old(data).stored(caller), notification_id, i)
            && final(data).stored(caller) == old(data).stored(caller).update(i, NotificationData { read: true, ..old(data).stored(caller)[i] }),
{
    let ghost old_records = data.records();
    let ghost s = old(data).stored(caller);
    let record = match data.notifications.remove(&caller) {
        Some(n) => n,
        None => {
            assert(false);
            return Ok(());
        },
    };
    let Notification { notifications, last_viewed } = record;
    let mut list = notifications;
    let mut i: usize = 0;
    while i < list.len()
        invariant
            list@ == s,
            0 <= i <= s.len(),
            exists|k: int| 0 <= k < s.len() && #[trigger] s[k].notification_id == notification_id,
            forall|j: int| 0 <= j < i ==> #[trigger] s[j].notification_id != notification_id,
        ensures
            list@ == s,
            0 <= i <= s.len(),
            i < s.len() ==> s[i as int].notification_id == notification_id,
            forall|j: int| 0 <= j < i ==> #[trigger] s[j].notification_id != notification_id,
        decreases s.len() - i,
    {
        if list[i].notification_id == notification_id {
            break;
        }
        i = i + 1;
    }
    proof {
        if i == s.len() {
            let k = choose|k: int| 0 <= k < s.len() && #[trigger] s[k].notification_id == notification_id;
            assert(s[k].notification_id != notification_id);
        }
    }
    assert(first_with_id(s, notification_id, i as int));
    let item = list.remove(i);
    let NotificationData { notification_id: id, payload, created_at, read: _ } = item;
    list.insert(i, NotificationData { notification_id: id, payload, created_at, read: true });
    assert(list@ =~= s.update(i as int, NotificationData { read: true, ..s[i as int] }));
    let record = Notification { notifications: list, last_viewed };
    data.notifications.insert(caller, record);
    proof {
        assert(data.records() =~= old_records.insert(caller, record));
    }
    Ok(())
}

/// Records that the caller opened the notification panel at `now`, making
/// a record for a caller without one.
pub fn set_notification_panel_viewed<P>(data: &mut CanisterData<P>, caller: Principal, now: u64) -> (r: Result<(), NotificationStoreError>)
    ensures
        r is Ok,
        final(data).version == old(data).version,
        final(data).records().contains_key(caller),
        final(data).records() == old(data).records().insert(caller, final(data).records()[caller]),
        final(data).records()[caller].last_viewed == Some(now),
        final(data).stored(caller) == old(data).stored(caller),
{
    let ghost old_records = data.records();
    let record = match data.notifications.remove(&caller) {
        Some(n) => Notification { last_viewed: Some(now), ..n },
        None => Notification { notifications: Vec::new(), last_viewed: Some(now) },
    };
    data.notifications.insert(caller, record);
    proof {
        assert(data.records() =~= old_records.insert(caller, record));
    }
    Ok(())
}

/// When the caller last opened the notification panel.
pub fn get_notification_panel_viewed<P>(data: &CanisterData<P>, caller: Principal) -> (r: Option<u64>)
    ensures
        r == (if data.records().contains_key(caller) { data.records()[caller].last_viewed } else { None }),
{
    match data.notifications.get(&caller) {
        Some(record) => record.last_viewed,
        None => None,
    }
}

/// The notifications of `s` created at or after `cutoff`, in order.
pub open spec fn kept<P>(s: Seq<NotificationData<P>>, cutoff: u64) -> Seq<NotificationData<P>>
    decreases s.len(),
{
    if s.len() == 0 {
        Seq::empty()
    } else {
        let rest = kept(s.drop_last(), cutoff);
        if s.last().created_at >= cutoff { rest.push(s.last()) } else { rest }
    }
}

/// The oldest creation time that pruning at `now` keeps: thirty days
/// before `now`, or the epoch when `now` is earlier than that.
pub open spec fn prune_cutoff(now: u64) -> u64 {
    if now >= RETENTION_NANOS { (now - RETENTION_NANOS) as u64 } else { 0 }
}

/// The notifications of `v` created at or after `cutoff`.
fn retain_recent<P>(v: Vec<NotificationData<P>>, cutoff: u64) -> (r: Vec<NotificationData<P>>)
    ensures
        r@ == kept(v@, cutoff),
{
    let ghost s = v@;
    let total = v.len();
    let mut rest = v;
    let mut out: Vec<NotificationData<P>> = Vec::new();
    let mut i: usize = 0;
    while rest.len() > 0
        invariant
            i + rest@.len() == s.len(),
            s.len() == total,
            rest@ == s.skip(i as int),
            out@ == kept(s.take(i as int), cutoff),
        decreases rest@.len(),
    {
        let item = rest.remove(0);
        assert(item == s[i as int]);
        assert(s.take(i + 1).drop_last() =~= s.take(i as int));
        assert(s.take(i + 1).last() == s[i as int]);
        if item.created_at >= cutoff {
            out.push(item);
        }
        i = i + 1;
        assert(rest@ =~= s.skip(i as int));
    }
    assert(s.take(i as int) =~= s);
    out
}

/// Drops every notification older than thirty days before `now`.
pub fn prune_notifications<P>(data: &mut CanisterData<P>, now: u64)
    ensures
        final(data).version == old(data).version,
        final(data).records().dom() == old(data).records().dom(),
        forall|user: Principal| #[trigger] old(data).records().contains_key(user) ==> {
            &&& final(data).records()[user].notifications@ == kept(old(data).records()[user].notifications@, prune_cutoff(now))
            &&& final(data).records()[user].last_viewed == old(data).records()[user].last_viewed
        },
{
    let cutoff = match now.checked_sub(RETENTION_NANOS) {
        Some(t) => t,
        None => 0,
    };
    let ghost m0 = data.records();
    proof {
        use_type_invariant(&data.notifications);
        data.notifications.lemma_distinct();
    }
    let ghost kv0 = data.notifications;
    let pairs = data.notifications.as_pairs();
    let mut users: Vec<Principal> = Vec::new();
    let mut k: usize = 0;
    while k < pairs.len()
        invariant
            pairs@ == kv0.pairs(),
            k <= pairs@.len(),
            users@.len() == k,
            forall|j: int| 0 <= j < k ==> #[trigger] users@[j] == pairs@[j].0,
        decreases pairs@.len() - k,
    {
        users.push(pairs[k].0);
        k = k + 1;
    }
    proof {
        assert forall|a: int, b: int| 0 <= a < users@.len() && 0 <= b < users@.len() && a != b
            implies #[trigger] users@[a] != #[trigger] users@[b] by {
            assert(kv0.pairs()[a].0@ != kv0.pairs()[b].0@);
        }
        assert forall|j: int| 0 <= j < users@.len() implies #[trigger] m0.contains_key(users@[j]) by {
            kv0.lemma_pair_in_map(j);
        }
        assert forall|user: Principal| #[trigger] m0.contains_key(user) implies users@.contains(user) by {
            assert(kv0.has(user));
            let j = choose|j: int| 0 <= j < kv0.pairs().len() && #[trigger] kv0.pairs()[j].0@ == user;
            assert(users@[j] == user);
        }
    }
    let mut i: usize = 0;
    while i < users.len()
        invariant
            data.version == old(data).version,
            i <= users@.len(),
            forall|a: int, b: int| 0 <= a < users@.len() && 0 <= b < users@.len() && a != b
                ==> #[trigger] users@[a] != #[trigger] users@[b],
            forall|j: int| 0 <= j < users@.len() ==> #[trigger] m0.contains_key(users@[j]),
            data.records().dom() == m0.dom(),
            forall|user: Principal| #[trigger] m0.contains_key(user) ==> {
                &&& data.records()[user].last_viewed == m0[user].last_viewed
                &&& data.records()[user].notifications@ == (if users@.take(i as int).contains(user) {
                    kept(m0[user].notifications@, cutoff)
                } else {
                    m0[user].notifications@
                })
            },
        decreases users@.len() - i,
    {
        let user = users[i];
        let ghost before = data.records();
        proof {
            assert(m0.contains_key(user));
            if users@.take(i as int).contains(user) {
                let j = choose|j: int| 0 <= j < i && #[trigger] users@.take(i as int)[j] == user;
                assert(users@[j] == users@[i as int]);
            }
        }
        let record = match data.notifications.remove(&user) {
            Some(n) => n,
            None => {
                assert(false);
                return;
            },
        };
        let Notification { notifications, last_viewed } = record;
        let pruned = Notification { notifications: retain_recent(notifications, cutoff), last_viewed };
        data.notifications.insert(user, pruned);
        proof {
            assert(data.records() =~= before.insert(user, pruned));
            assert forall|other: Principal| #[trigger] users@.take(i + 1).contains(other)
                == (users@.take(i as int).contains(other) || other == user) by {
                if users@.take(i + 1).contains(other) {
                    let j = choose|j: int| 0 <= j < i + 1 && #[trigger] users@.take(i + 1)[j] == other;
                    if j < i {
                        assert(users@.take(i as int)[j] == other);
                    }
                }
                if users@.take(i as int).contains(other) {
                    let j = choose|j: int| 0 <= j < i && #[trigger] users@.take(i as int)[j] == other;
                    assert(users@.take(i + 1)[j] == other);
                }
                if other == user {
                    assert(users@.take(i + 1)[i as int] == other);
                }
            }
        }
        i = i + 1;
    }
    proof {
        assert(users@.take(users@.len() as int) =~= users@);
        assert(cutoff == prune_cutoff(now));
    }
}

} // verus!
