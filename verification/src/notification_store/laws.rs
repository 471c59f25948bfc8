//! Properties of the notification lists that hold across calls.
use vstd::prelude::*;

use crate::notification_store::api::{after_add, kept, new_notification, DROPPED_NOTIFICATIONS, MAX_STORED_NOTIFICATIONS};
use crate::notification_store::types::NotificationData;

verus! {

/// Whether each notification's id is its position in the list.
pub open spec fn ids_are_positions<P>(s: Seq<NotificationData<P>>) -> bool {
    forall|i: int| 0 <= i < s.len() ==> #[trigger] s[i].notification_id == i
}

/// A list shorter than the maximum stays shorter after an add: a user never
/// has the maximum number of notifications stored.
pub proof fn law_add_keeps_list_short<P>(s: Seq<NotificationData<P>>, payload: P, now: u64)
    requires
        s.len() < MAX_STORED_NOTIFICATIONS,
    ensures
        after_add(s, payload, now).len() < MAX_STORED_NOTIFICATIONS,
{
}

/// When ids are positions, they still are after an add, whether or not the
/// add dropped the oldest notifications.
pub proof fn law_add_numbers_by_position<P>(s: Seq<NotificationData<P>>, payload: P, now: u64)
    requires
        ids_are_positions(s),
        s.len() < MAX_STORED_NOTIFICATIONS,
    ensures
        ids_are_positions(after_add(s, payload, now)),
{
    let r = after_add(s, payload, now);
    let pushed = s.push(new_notification(s, payload, now));
    if pushed.len() >= MAX_STORED_NOTIFICATIONS {
        assert forall|i: int| 0 <= i < r.len() implies #[trigger] r[i].notification_id == i by {
            assert(r[i] == NotificationData { notification_id: i as u64, ..pushed.skip(DROPPED_NOTIFICATIONS as int)[i] });
        }
    } else {
        assert forall|i: int| 0 <= i < r.len() implies #[trigger] r[i].notification_id == i by {
            if i < s.len() {
                assert(r[i] == s[i]);
            }
        }
    }
}

/// Pruning keeps only notifications created at or after the cutoff.
pub proof fn law_pruned_are_recent<P>(s: Seq<NotificationData<P>>, cutoff: u64)
    ensures
        forall|i: int| 0 <= i < kept(s, cutoff).len() ==> #[trigger] kept(s, cutoff)[i].created_at >= cutoff,
        kept(s, cutoff).len() <= s.len(),
    decreases s.len(),
{
    if s.len() > 0 {
        law_pruned_are_recent(s.drop_last(), cutoff);
        let rest = kept(s.drop_last(), cutoff);
        if s.last().created_at >= cutoff {
            assert forall|i: int| 0 <= i < kept(s, cutoff).len() implies #[trigger] kept(s, cutoff)[i].created_at >= cutoff by {
                if i < rest.len() {
                    assert(kept(s, cutoff)[i] == rest[i]);
                }
            }
        }
    }
}

/// Pruning twice at the same cutoff keeps what pruning once keeps.
pub proof fn law_pruning_is_idempotent<P>(s: Seq<NotificationData<P>>, cutoff: u64)
    ensures
        kept(kept(s, cutoff), cutoff) == kept(s, cutoff),
    decreases s.len(),
{
    if s.len() > 0 {
        let rest = kept(s.drop_last(), cutoff);
        law_pruning_is_idempotent(s.drop_last(), cutoff);
        if s.last().created_at >= cutoff {
            let k = rest.push(s.last());
            assert(k.drop_last() =~= rest);
            assert(k.last() == s.last());
        }
    }
}

} // verus!
