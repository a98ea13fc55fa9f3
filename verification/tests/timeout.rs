use futures_native::sleep::{sleep, Sleep};
use futures_native::time::{Duration, Instant};
use futures_native::timeout::{timeout, Elapsed, Timeout};

fn ms(n: u64) -> Duration {
    Duration::from_millis(n)
}

/// A simulated runtime for a timeout around a future that waits for its own
/// sleep and then yields `output`: a clock and the two timers.
struct Runtime {
    now: Instant,
    inner_timer: Option<Instant>,
    outer_timer: Option<Instant>,
}

/// Polls the wrapped future: ready with `output` once its sleep has completed.
fn poll_inner(t: &mut Timeout<Sleep>, output: &'static str) -> Option<&'static str> {
    if t.future_mut().poll() {
        Some(output)
    } else {
        None
    }
}

/// Blocks on the timeout, letting the clock run from timer to timer.
fn block_on(t: &mut Timeout<Sleep>, output: &'static str) -> (Result<&'static str, Elapsed>, Instant, Instant) {
    let start = Instant::from_nanos(1_000_000_000);
    let mut rt = Runtime {
        now: start,
        inner_timer: start.checked_add(t.future_mut().duration()),
        outer_timer: start.checked_add(t.sleep_duration()),
    };
    loop {
        let inner = if t.is_completed() { None } else { poll_inner(t, output) };
        let step = t.poll(inner);
        if step.sleep_cancel.cancel_timer {
            rt.outer_timer = None;
        }
        if let Some(result) = step.output {
            return (result, start, rt.now);
        }
        // Fire whichever timer expires first; the wrapped future's goes first on a tie
        let inner_due = rt.inner_timer.filter(|i| rt.outer_timer.map_or(true, |o| i <= &o));
        if let Some(expiry) = inner_due {
            rt.now = expiry;
            rt.inner_timer = None;
            t.future_mut().timer_elapsed();
        } else {
            let expiry = rt.outer_timer.take().expect("a pending timeout has a timer");
            rt.now = expiry;
            assert!(t.sleep_timer_elapsed());
        }
    }
}

#[test]
fn test_timeout_success() {
    let mut t = timeout(ms(100), sleep(ms(30)));
    let (result, _, _) = block_on(&mut t, "completed");
    assert!(result.is_ok());
    assert_eq!(result.unwrap(), "completed");
}

#[test]
fn test_timeout_elapsed() {
    let mut t = timeout(ms(30), sleep(ms(100)));
    let (result, _, _) = block_on(&mut t, "completed");
    assert!(result.is_err());
    assert_eq!(result.unwrap_err(), Elapsed);
}

#[test]
fn test_timeout_immediate_completion() {
    let mut t = timeout(ms(100), sleep(Duration::zero()));
    // The wrapped future is ready on its first poll
    t.future_mut().timer_elapsed();
    let (result, _, _) = block_on(&mut t, "immediate");
    assert!(result.is_ok());
    assert_eq!(result.unwrap(), "immediate");
}

#[test]
fn test_timeout_zero_duration() {
    let mut t = timeout(Duration::zero(), sleep(ms(1)));
    let (result, _, _) = block_on(&mut t, "too_slow");
    assert!(result.is_err());
    assert_eq!(result.unwrap_err(), Elapsed);
}

#[test]
fn test_elapsed_error_display() {
    let elapsed = Elapsed;
    assert_eq!(elapsed.to_string(), "operation timed out");
    assert_eq!(format!("{:?}", elapsed), "Elapsed");
}

#[test]
fn test_elapsed_error_trait() {
    let elapsed = Elapsed;
    assert_eq!(elapsed.to_string(), "operation timed out");
}

#[test]
fn test_timeout_timing_accuracy() {
    let timeout_duration = ms(50);
    let mut t = timeout(timeout_duration, sleep(ms(200)));
    let (result, start, end) = block_on(&mut t, "never_reached");
    let elapsed = end.duration_since(start);

    assert!(result.is_err());
    // Should timeout close to the specified duration
    assert!(elapsed >= timeout_duration);
    assert!(elapsed < timeout_duration.checked_add(ms(50)).unwrap());
}

#[test]
fn completed_timeout_answers_elapsed_afterwards() {
    let mut t = timeout(ms(10), 7u32);
    let step = t.poll(Some(7u32));
    assert_eq!(step.output, Some(Ok(7)));
    assert!(step.sleep_cancel.cancel_timer);
    assert!(t.is_completed());
    let again = t.poll::<u32>(None);
    assert_eq!(again.output, Some(Err(Elapsed)));
    assert!(!again.sleep_cancel.cancel_timer);
}

#[test]
fn future_output_wins_over_an_elapsed_sleep() {
    let mut t = timeout(Duration::zero(), ());
    assert!(!t.sleep_timer_elapsed());
    let step = t.poll(Some("done"));
    assert_eq!(step.output, Some(Ok("done")));
}

#[test]
fn pending_timeout_is_woken_by_its_sleep() {
    let mut t = timeout(ms(10), ());
    assert_eq!(t.poll::<()>(None).output, None);
    assert!(t.sleep_timer_elapsed());
    assert_eq!(t.poll::<()>(None).output, Some(Err(Elapsed)));
}
