use futures_native::schedule::{default_worker_count, yield_now, Priority, Yield};

#[test]
fn default_priority_is_default() {
    assert_eq!(Priority::default(), Priority::Default);
}

#[test]
fn worker_count_falls_back_to_four() {
    assert_eq!(default_worker_count(Some(12)), 12);
    assert_eq!(default_worker_count(None), 4);
}

#[test]
fn yield_is_pending_exactly_once() {
    let mut y = yield_now();
    assert!(!y.poll());
    assert!(y.poll());
    assert!(y.poll());
    let mut d = Yield::default();
    assert!(!d.poll());
    let mut n = Yield::new();
    assert!(!n.poll());
}
