//! The notification store's data.
use vstd::prelude::*;

use crate::keyed_vec::KeyedVec;
use crate::principal::Principal;

verus! {

/// One notification. Times are nanoseconds since the Unix epoch.
pub struct NotificationData<P> {
    pub notification_id: u64,
    pub payload: P,
    pub created_at: u64,
    pub read: bool,
}

impl<P: Clone> NotificationData<P> {
    /// A copy, with a clone of the payload.
    pub fn duplicate(&self) -> (r: NotificationData<P>)
        ensures
            r.notification_id == self.notification_id,
            r.created_at == self.created_at,
            r.read == self.read,
            cloned(self.payload, r.payload),
    {
        NotificationData {
            notification_id: self.notification_id,
            payload: self.payload.clone(),
            created_at: self.created_at,
            read: self.read,
        }
    }
}

/// A user's notifications, oldest first, and when the user last opened
/// the notification panel.
pub struct Notification<P> {
    pub notifications: Vec<NotificationData<P>>,
    pub last_viewed: Option<u64>,
}

impl<P> Default for Notification<P> {
    /// No notifications, never viewed.
    fn default() -> (n: Notification<P>)
        ensures
            n.notifications@ == Seq::<NotificationData<P>>::empty(),
            n.last_viewed is None,
    {
        Notification { notifications: Vec::new(), last_viewed: None }
    }
}

/// Why the store refused a request.
#[derive(Clone, Copy, Debug, PartialEq, Eq, Structural)]
pub enum NotificationStoreError {
    Unauthorized,
}

/// The state of the notification store.
pub struct CanisterData<P> {
    pub notifications: KeyedVec<Principal, Notification<P>>,
    pub version: String,
}

impl<P> CanisterData<P> {
    /// Each user's record.
    pub open spec fn records(self) -> Map<Principal, Notification<P>> {
        self.notifications.map()
    }

    /// The user's notifications (none without a record).
    pub open spec fn stored(self, user: Principal) -> Seq<NotificationData<P>> {
        if self.records().contains_key(user) {
            self.records()[user].notifications@
        } else {
            Seq::empty()
        }
    }
}

impl<P> Default for CanisterData<P> {
    /// No records and an empty version.
    fn default() -> (d: CanisterData<P>)
        ensures
            d.records() == Map::<Principal, Notification<P>>::empty(),
            d.version@ == Seq::<char>::empty(),
    {
        CanisterData { notifications: KeyedVec::new(), version: String::new() }
    }
}

} // verus!
