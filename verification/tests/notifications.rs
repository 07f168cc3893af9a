use muldex::notifications::{ActiveNotification, NotificationSlot};

#[test]
fn notification_expires() {
    let mut slot = NotificationSlot::default();
    let start: u64 = 1_000;
    slot.notify("hello".to_string(), start, 1);
    assert!(slot.current_notification(start + 5).is_none());
    slot.notify("world".to_string(), start + 5, 60_000);
    assert_eq!(slot.current_notification(start + 5), Some("world".to_string()));
}

#[test]
fn notification_is_current_until_its_expiry() {
    let mut slot = NotificationSlot::default();
    slot.notify("saved".to_string(), 100, 50);
    assert_eq!(
        slot.active,
        Some(ActiveNotification { message: "saved".to_string(), expires_at_ms: 150 })
    );
    assert_eq!(slot.current_notification(149), Some("saved".to_string()));
    assert!(slot.active.is_some());
    assert_eq!(slot.current_notification(150), None);
    assert!(slot.active.is_none());
}

#[test]
fn a_new_notification_replaces_the_old_one() {
    let mut slot = NotificationSlot::default();
    slot.notify("first".to_string(), 0, 1_000);
    slot.notify("second".to_string(), 10, 1_000);
    assert_eq!(slot.current_notification(20), Some("second".to_string()));
}

#[test]
fn expiry_saturates_at_the_end_of_the_clock() {
    let mut slot = NotificationSlot::default();
    slot.notify("forever".to_string(), u64::MAX - 1, 10);
    assert_eq!(slot.active.as_ref().map(|n| n.expires_at_ms), Some(u64::MAX));
    assert_eq!(slot.current_notification(u64::MAX - 1), Some("forever".to_string()));
}

#[test]
fn empty_slot_shows_nothing() {
    let mut slot = NotificationSlot::default();
    assert_eq!(slot.current_notification(0), None);
}

#[test]
fn expired_notification_stays_gone_until_the_next() {
    let mut slot = NotificationSlot::default();
    slot.notify("gone".to_string(), 10, 5);
    assert_eq!(slot.current_notification(14), Some("gone".to_string()));
    assert_eq!(slot.current_notification(15), None);
    assert_eq!(slot.current_notification(12), None);
    slot.notify("back".to_string(), 20, 5);
    assert_eq!(slot.current_notification(21), Some("back".to_string()));
}
