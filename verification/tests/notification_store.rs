use hot_or_not_backend::notification_store::api::{
    add_notification, get_notification_panel_viewed, get_notifications, has_notification, mark_notification_as_read,
    prune_notifications, set_notification_panel_viewed, RETENTION_NANOS,
};
use hot_or_not_backend::notification_store::types::{CanisterData, NotificationStoreError};
use hot_or_not_backend::principal::Principal;

fn p(n: u8) -> Principal {
    Principal::from_slice(&[n])
}

#[test]
fn only_the_user_or_an_admin_may_add() {
    let mut data: CanisterData<String> = CanisterData::default();
    assert_eq!(
        add_notification(&mut data, p(2), false, p(1), "hi".to_string(), 5),
        Err(NotificationStoreError::Unauthorized)
    );
    assert!(get_notifications(&data, p(1), 10, 0).is_empty());
    assert_eq!(add_notification(&mut data, p(2), true, p(1), "hi".to_string(), 5), Ok(()));
    assert_eq!(add_notification(&mut data, p(1), false, p(1), "again".to_string(), 6), Ok(()));
    let list = get_notifications(&data, p(1), 10, 0);
    assert_eq!(list.len(), 2);
    assert_eq!(list[0].notification_id, 0);
    assert_eq!(list[1].notification_id, 1);
    assert_eq!(list[1].payload, "again");
    assert_eq!(list[1].created_at, 6);
    assert!(!list[1].read);
}

#[test]
fn reaching_a_thousand_drops_the_oldest_five_hundred() {
    let mut data: CanisterData<u32> = CanisterData::default();
    for i in 0..999u32 {
        add_notification(&mut data, p(1), false, p(1), i, i as u64).unwrap();
    }
    assert_eq!(get_notifications(&data, p(1), 2000, 0).len(), 999);
    add_notification(&mut data, p(1), false, p(1), 999, 999).unwrap();
    let list = get_notifications(&data, p(1), 2000, 0);
    assert_eq!(list.len(), 500);
    assert_eq!(list[0].payload, 500);
    assert_eq!(list[0].notification_id, 0);
    assert_eq!(list[499].payload, 999);
    assert_eq!(list[499].notification_id, 499);
}

#[test]
fn pages_skip_and_take() {
    let mut data: CanisterData<u32> = CanisterData::default();
    for i in 0..5u32 {
        add_notification(&mut data, p(1), false, p(1), i, 0).unwrap();
    }
    let page: Vec<u32> = get_notifications(&data, p(1), 2, 1).iter().map(|n| n.payload).collect();
    assert_eq!(page, vec![1, 2]);
    let page: Vec<u32> = get_notifications(&data, p(1), 10, 3).iter().map(|n| n.payload).collect();
    assert_eq!(page, vec![3, 4]);
    assert!(get_notifications(&data, p(1), 10, 7).is_empty());
}

#[test]
fn marking_read_marks_the_first_with_the_id() {
    let mut data: CanisterData<u32> = CanisterData::default();
    for i in 0..3u32 {
        add_notification(&mut data, p(1), false, p(1), i, 0).unwrap();
    }
    assert_eq!(mark_notification_as_read(&mut data, p(1), 1), Ok(()));
    let read: Vec<bool> = get_notifications(&data, p(1), 10, 0).iter().map(|n| n.read).collect();
    assert_eq!(read, vec![false, true, false]);
}

#[test]
fn pruning_keeps_thirty_days() {
    let mut data: CanisterData<u32> = CanisterData::default();
    let day: u64 = 86_400_000_000_000;
    let now = 100 * day;
    add_notification(&mut data, p(1), false, p(1), 1, now - 31 * day).unwrap();
    add_notification(&mut data, p(1), false, p(1), 2, now - RETENTION_NANOS).unwrap();
    add_notification(&mut data, p(1), false, p(1), 3, now - day).unwrap();
    set_notification_panel_viewed(&mut data, p(2), now).unwrap();
    prune_notifications(&mut data, now);
    let kept: Vec<u32> = get_notifications(&data, p(1), 10, 0).iter().map(|n| n.payload).collect();
    assert_eq!(kept, vec![2, 3]);
    // Ids are not renumbered by pruning.
    assert_eq!(get_notifications(&data, p(1), 10, 0)[0].notification_id, 1);
    assert_eq!(get_notification_panel_viewed(&data, p(2)), Some(now));
    // Before thirty days have passed since the epoch, nothing is dropped.
    let mut early: CanisterData<u32> = CanisterData::default();
    add_notification(&mut early, p(1), false, p(1), 7, 0).unwrap();
    prune_notifications(&mut early, day);
    assert_eq!(get_notifications(&early, p(1), 10, 0).len(), 1);
}

#[test]
fn panel_viewed_is_kept_per_user() {
    let mut data: CanisterData<u32> = CanisterData::default();
    assert_eq!(get_notification_panel_viewed(&data, p(1)), None);
    add_notification(&mut data, p(1), false, p(1), 1, 0).unwrap();
    assert_eq!(get_notification_panel_viewed(&data, p(1)), None);
    set_notification_panel_viewed(&mut data, p(1), 42).unwrap();
    assert_eq!(get_notification_panel_viewed(&data, p(1)), Some(42));
    assert_eq!(get_notifications(&data, p(1), 10, 0).len(), 1);
}

#[test]
fn pruning_twice_keeps_what_pruning_once_keeps() {
    let mut data: CanisterData<u32> = CanisterData::default();
    let day: u64 = 86_400_000_000_000;
    let now = 90 * day;
    for i in 0..6u32 {
        add_notification(&mut data, p(1), false, p(1), i, (i as u64) * 15 * day).unwrap();
    }
    prune_notifications(&mut data, now);
    let once: Vec<u32> = get_notifications(&data, p(1), 10, 0).iter().map(|n| n.payload).collect();
    prune_notifications(&mut data, now);
    let twice: Vec<u32> = get_notifications(&data, p(1), 10, 0).iter().map(|n| n.payload).collect();
    assert_eq!(once, vec![4, 5]);
    assert_eq!(once, twice);
}

#[test]
fn has_notification_finds_ids() {
    let mut data: CanisterData<u32> = CanisterData::default();
    assert!(!has_notification(&data, p(1), 0));
    add_notification(&mut data, p(1), false, p(1), 9, 0).unwrap();
    assert!(has_notification(&data, p(1), 0));
    assert!(!has_notification(&data, p(1), 1));
    assert!(!has_notification(&data, p(2), 0));
}
