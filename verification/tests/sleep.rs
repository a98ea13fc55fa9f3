use futures_native::sleep::{sleep, Sleep, SleepCancel};
use futures_native::time::{Duration, Instant};

fn ms(n: u64) -> Duration {
    Duration::from_millis(n)
}

/// A simulated runtime for one sleep: a clock and the sleep's timer.
struct Runtime {
    now: Instant,
    timer: Option<Instant>,
}

impl Runtime {
    /// Starts the clock and arms the sleep's timer.
    fn start(s: &Sleep) -> Self {
        let now = Instant::from_nanos(1_000_000_000);
        Runtime { now, timer: now.checked_add(s.duration()) }
    }

    /// Cancels the sleep, carrying out what the cancellation asks.
    fn cancel(&mut self, s: &mut Sleep) -> SleepCancel {
        let c = s.cancel();
        if c.cancel_timer {
            self.timer = None;
        }
        c
    }

    /// Blocks on the sleep: polls, and while it is pending lets the clock run
    /// to the timer's expiry and fires it.
    fn block_on(&mut self, s: &mut Sleep) {
        while !s.poll() {
            let expiry = self.timer.take().expect("a pending sleep has a timer");
            self.now = expiry;
            assert!(s.timer_elapsed());
        }
    }
}

#[test]
fn test_sleep_basic() {
    let duration = ms(50);
    let mut s = sleep(duration);
    let mut rt = Runtime::start(&s);
    let start = rt.now;

    rt.block_on(&mut s);

    let elapsed = rt.now.duration_since(start);
    assert!(elapsed >= duration);
    assert!(elapsed < duration.checked_add(ms(50)).unwrap()); // Allow some tolerance
}

#[test]
fn test_sleep_creation() {
    let duration = ms(100);
    let _sleep_future = sleep(duration);
    let _sleep_direct = Sleep::new(duration);

    // Should not panic during creation
}

#[test]
fn test_sleep_cancel() {
    let mut sleep_future = Sleep::new(ms(1000));
    let mut rt = Runtime::start(&sleep_future);

    // Cancel the sleep immediately
    rt.cancel(&mut sleep_future);

    // The cancelled sleep should complete immediately
    let start = rt.now;
    rt.block_on(&mut sleep_future);
    let elapsed = rt.now.duration_since(start);

    // Should complete much faster than the requested 1000ms
    assert!(elapsed < ms(100));
}

#[test]
fn test_sleep_zero_duration() {
    let mut s = sleep(Duration::zero());
    let mut rt = Runtime::start(&s);
    let start = rt.now;
    rt.block_on(&mut s);
    let elapsed = rt.now.duration_since(start);

    // Should complete very quickly
    assert!(elapsed < ms(10));
}

#[test]
fn sleep_records_its_duration() {
    assert_eq!(Sleep::new(ms(7)).duration(), ms(7));
}

#[test]
fn pending_poll_is_woken_by_the_timer() {
    let mut s = sleep(ms(5));
    assert!(!s.poll());
    assert!(!s.poll());
    assert!(s.timer_elapsed());
    assert!(s.poll());
    assert!(s.poll());
}

#[test]
fn timer_before_any_poll_wakes_nobody() {
    let mut s = sleep(ms(5));
    assert!(!s.timer_elapsed());
    assert!(s.poll());
}

#[test]
fn cancel_wakes_a_waiting_task_once() {
    let mut s = sleep(ms(5));
    assert!(!s.poll());
    assert_eq!(s.cancel(), SleepCancel { cancel_timer: true, wake: true });
    assert_eq!(s.cancel(), SleepCancel { cancel_timer: false, wake: false });
    assert!(s.poll());
}

#[test]
fn cancel_before_any_poll_wakes_nobody() {
    let mut s = sleep(ms(5));
    assert_eq!(s.cancel(), SleepCancel { cancel_timer: true, wake: false });
    assert!(s.poll());
}
