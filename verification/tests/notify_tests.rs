use lobtui::notify::{NotificationLevel, NotificationQueue, DEFAULT_TTL};

#[test]
fn pushed_notification_survives_ttl_ticks_and_then_leaves() {
    assert_eq!(DEFAULT_TTL, 3);
    let mut q = NotificationQueue::new();
    q.push("hello".to_string(), NotificationLevel::Info);
    assert_eq!(q.len(), 1);
    assert_eq!(q.items[0].ttl, 3);
    // A tick first drops the already-expired, then decrements the rest: a
    // notification pushed with ttl 3 is still present after the 3rd tick
    // (at ttl 0) and leaves on the 4th.
    q.tick();
    assert_eq!(q.len(), 1);
    assert_eq!(q.items[0].ttl, 2);
    q.tick();
    assert_eq!(q.len(), 1);
    assert_eq!(q.items[0].ttl, 1);
    q.tick();
    assert_eq!(q.len(), 1);
    assert_eq!(q.items[0].ttl, 0);
    q.tick();
    assert_eq!(q.len(), 0);
}

#[test]
fn tick_keeps_insertion_order_and_permits_duplicates() {
    let mut q = NotificationQueue::new();
    q.push("same".to_string(), NotificationLevel::Warning);
    q.push("same".to_string(), NotificationLevel::Warning);
    q.push("other".to_string(), NotificationLevel::Error);
    assert_eq!(q.len(), 3);
    q.tick();
    assert_eq!(q.len(), 3);
    assert_eq!(q.items[0].message, "same");
    assert_eq!(q.items[1].message, "same");
    assert_eq!(q.items[2].message, "other");
    assert_eq!(q.items[2].level, NotificationLevel::Error);
}

#[test]
fn later_pushes_outlive_earlier_ones() {
    let mut q = NotificationQueue::new();
    q.push("first".to_string(), NotificationLevel::Info);
    q.tick();
    q.tick();
    q.push("second".to_string(), NotificationLevel::Info);
    // first: ttl 1, second: ttl 3.
    q.tick();
    q.tick();
    // first dropped on the tick after its ttl reached 0; second remains.
    assert_eq!(q.len(), 1);
    assert_eq!(q.items[0].message, "second");
    assert_eq!(q.items[0].ttl, 1);
}

#[test]
fn tick_on_empty_queue_is_a_noop() {
    let mut q = NotificationQueue::new();
    q.tick();
    assert_eq!(q.len(), 0);
}
