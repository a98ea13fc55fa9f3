use futures_native::interval::{interval, interval_at, Interval, MissedTickBehavior, PollTick};
use futures_native::time::{Duration, Instant};

fn ms(n: u64) -> Duration {
    Duration::from_millis(n)
}

/// The instant the simulated clock starts at.
fn origin() -> Instant {
    Instant::from_nanos(1_000_000_000)
}

/// A simulated runtime: a clock and the one timer an interval may arm.
struct Clock {
    now: Instant,
    timer: Option<Instant>,
}

impl Clock {
    fn new(now: Instant) -> Self {
        Clock { now, timer: None }
    }

    /// Awaits the next tick: polls, and while the tick waits for the timer,
    /// advances the clock to the timer's expiry and fires it.
    fn tick(&mut self, iv: &mut Interval) -> Instant {
        loop {
            match iv.poll_tick(self.now) {
                PollTick::Ready { tick, timer } => {
                    self.timer = timer.map(|d| self.now.checked_add(d).unwrap());
                    return tick;
                }
                PollTick::Wait { timer } => {
                    self.timer = Some(self.now.checked_add(timer).unwrap());
                }
                PollTick::Pending => {
                    let expiry = self.timer.take().expect("a pending interval has a timer");
                    self.now = expiry;
                    assert!(iv.timer_elapsed(self.now));
                }
            }
        }
    }

    /// Resets through `reset`, cancelling the armed timer when asked to.
    fn cancel_if(&mut self, cancel: bool) {
        if cancel {
            assert!(self.timer.is_some());
            self.timer = None;
        }
    }
}

#[test]
fn test_interval_basic() {
    let start = origin();
    let mut clock = Clock::new(start);
    let mut interval = interval(ms(30), clock.now);

    let first_tick = clock.tick(&mut interval);
    let first_elapsed = first_tick.duration_since(start);

    let second_tick = clock.tick(&mut interval);
    let second_elapsed = second_tick.duration_since(start);

    // First tick should be immediate
    assert!(first_elapsed < ms(10));

    // Second tick should be after the interval period
    assert!(second_elapsed >= ms(25));
    assert!(second_elapsed < ms(60));
}

#[test]
fn test_interval_at() {
    let start = origin();
    let mut clock = Clock::new(start);
    let future_time = start.checked_add(ms(50)).unwrap();
    let mut interval = interval_at(future_time, ms(30));

    let first_tick = clock.tick(&mut interval);
    let elapsed = first_tick.duration_since(start);

    // First tick should happen at the specified time
    assert!(elapsed >= ms(40));
    assert!(elapsed < ms(80));
}

#[test]
fn test_interval_stream() {
    let mut clock = Clock::new(origin());
    let mut interval = interval(ms(20), clock.now);

    let mut ticks = Vec::new();
    for _ in 0..3 {
        ticks.push(clock.tick(&mut interval));
    }

    assert_eq!(ticks.len(), 3);

    // Check that intervals are roughly correct
    let interval_1 = ticks[1].duration_since(ticks[0]);
    let interval_2 = ticks[2].duration_since(ticks[1]);

    assert!(interval_1 >= ms(15));
    assert!(interval_1 < ms(40));
    assert!(interval_2 >= ms(15));
    assert!(interval_2 < ms(40));
}

#[test]
fn test_interval_reset_behaviors() {
    let mut clock = Clock::new(origin());
    let mut interval = interval(ms(100), clock.now);

    // First tick is immediate
    let first = clock.tick(&mut interval);

    // Reset immediately and check that next tick is immediate again
    let cancel = interval.reset_immediately(clock.now);
    clock.cancel_if(cancel);
    let reset_tick = clock.tick(&mut interval);

    // The reset tick should be very close to when we called reset
    let time_diff = reset_tick.duration_since(first);
    assert!(time_diff < ms(50));

    // Test reset_after
    let before_reset = clock.now;
    let cancel = interval.reset_after(clock.now, ms(50));
    clock.cancel_if(cancel);
    let after_reset_tick = clock.tick(&mut interval);
    let reset_elapsed = after_reset_tick.duration_since(before_reset);

    assert!(reset_elapsed >= ms(40));
    assert!(reset_elapsed < ms(80));
}

#[test]
fn test_interval_missed_tick_behaviors() {
    // Test Burst behavior (default)
    let mut burst_interval = interval(ms(10), origin());
    assert_eq!(burst_interval.missed_tick_behavior(), MissedTickBehavior::Burst);

    burst_interval.set_missed_tick_behavior(MissedTickBehavior::Delay);
    assert_eq!(burst_interval.missed_tick_behavior(), MissedTickBehavior::Delay);

    burst_interval.set_missed_tick_behavior(MissedTickBehavior::Skip);
    assert_eq!(burst_interval.missed_tick_behavior(), MissedTickBehavior::Skip);
}

#[test]
fn test_interval_period() {
    let period = ms(42);
    let interval = interval(period, origin());
    assert_eq!(interval.period(), period);
}

#[test]
fn test_stream_with_combinators() {
    let mut clock = Clock::new(origin());
    let mut interval = interval(ms(15), clock.now);

    let sum: usize = (0..5)
        .map(|i| {
            clock.tick(&mut interval);
            i
        })
        .filter(|i| *i % 2 == 0)
        .sum();

    // Should sum indices 0, 2, 4 = 6
    assert_eq!(sum, 6);
}

#[test]
fn test_missed_tick_behavior_calculations() {
    let now = origin();
    let timeout = now.checked_sub(ms(100)).unwrap();
    let period = ms(50);

    // Test Burst behavior
    let burst_next = MissedTickBehavior::Burst.next_timeout(timeout, now, period);
    assert_eq!(burst_next, timeout.checked_add(period).unwrap());

    // Test Delay behavior
    let delay_next = MissedTickBehavior::Delay.next_timeout(timeout, now, period);
    assert_eq!(delay_next, now.checked_add(period).unwrap());

    // Test Skip behavior
    let skip_next = MissedTickBehavior::Skip.next_timeout(timeout, now, period);
    // Should skip ahead to next multiple
    assert!(skip_next > now);
    assert!(skip_next >= timeout.checked_add(period.checked_mul(2).unwrap()).unwrap());
}

#[test]
fn skip_lands_on_the_period_grid() {
    let timeout = Instant::from_nanos(1_000);
    let period = Duration::from_nanos(300);
    // 1_000 + 4 * 300 = 2_200 is the first grid point after 2_150
    let next = MissedTickBehavior::Skip.next_timeout(timeout, Instant::from_nanos(2_150), period);
    assert_eq!(next, Instant::from_nanos(2_200));
    // A `now` exactly on the grid goes one period further
    let next = MissedTickBehavior::Skip.next_timeout(timeout, Instant::from_nanos(1_900), period);
    assert_eq!(next, Instant::from_nanos(2_200));
    // A `now` before the missed deadline gives the deadline plus one period
    let next = MissedTickBehavior::Skip.next_timeout(timeout, Instant::from_nanos(500), period);
    assert_eq!(next, Instant::from_nanos(1_300));
}

#[test]
fn skip_near_the_end_of_the_clock() {
    let timeout = Instant::from_nanos(0);
    let now = Instant::from_nanos(u64::MAX - 10);
    let period = Duration::from_nanos(7);
    // u64::MAX - 10 = 7 * 2635249153387078800 + 5, so the next grid point is u64::MAX - 8
    let next = MissedTickBehavior::Skip.next_timeout(timeout, now, period);
    assert_eq!(next, Instant::from_nanos(u64::MAX - 8));
}

#[test]
fn skip_with_zero_period_is_delay() {
    let next = MissedTickBehavior::Skip.next_timeout(
        Instant::from_nanos(5),
        Instant::from_nanos(9),
        Duration::zero(),
    );
    assert_eq!(next, Instant::from_nanos(9));
}

#[test]
fn late_tick_follows_the_missed_tick_behavior() {
    let start = origin();
    let late = start.checked_add(ms(35)).unwrap();

    // Burst: the next tick is one period after the missed one, already due
    let mut burst = interval(ms(10), start);
    assert_eq!(burst.poll_tick(late), PollTick::Ready { tick: start, timer: None });
    assert_eq!(
        burst.poll_tick(late),
        PollTick::Ready { tick: start.checked_add(ms(10)).unwrap(), timer: None }
    );

    // Delay: the next tick is one period after the late tick was taken
    let mut delay = interval(ms(10), start);
    delay.set_missed_tick_behavior(MissedTickBehavior::Delay);
    assert_eq!(delay.poll_tick(late), PollTick::Ready { tick: start, timer: Some(ms(10)) });

    // Skip: the next tick is the next multiple of the period from the start
    let mut skip = interval(ms(10), start);
    skip.set_missed_tick_behavior(MissedTickBehavior::Skip);
    assert_eq!(skip.poll_tick(late), PollTick::Ready { tick: start, timer: Some(ms(5)) });
}

#[test]
fn tick_within_tolerance_is_not_missed() {
    let start = origin();
    let mut iv = interval(ms(10), start);
    iv.set_missed_tick_behavior(MissedTickBehavior::Delay);
    // Five milliseconds late still counts as on time
    let now = start.checked_add(ms(5)).unwrap();
    assert_eq!(iv.poll_tick(now), PollTick::Ready { tick: start, timer: Some(ms(5)) });
}

#[test]
fn pending_interval_stays_pending_until_its_timer() {
    let start = origin();
    let mut iv = interval(ms(10), start);
    assert_eq!(iv.poll_tick(start), PollTick::Ready { tick: start, timer: Some(ms(10)) });
    assert_eq!(iv.poll_tick(start), PollTick::Pending);
    assert_eq!(iv.poll_tick(start.checked_add(ms(20)).unwrap()), PollTick::Pending);
    assert!(iv.timer_elapsed(start.checked_add(ms(10)).unwrap()));
    assert_eq!(
        iv.poll_tick(start.checked_add(ms(10)).unwrap()),
        PollTick::Ready { tick: start.checked_add(ms(10)).unwrap(), timer: Some(ms(10)) }
    );
}

#[test]
fn reset_asks_to_cancel_only_an_armed_timer() {
    let start = origin();
    let mut iv = interval(ms(10), start);
    // Not yet polled: no timer to cancel
    assert!(!iv.reset(start));
    // The reset deadline lies one period ahead: the poll waits for it
    assert_eq!(iv.poll_tick(start), PollTick::Wait { timer: ms(10) });
    assert_eq!(iv.poll_tick(start), PollTick::Pending);
    let due = start.checked_add(ms(10)).unwrap();
    assert!(iv.timer_elapsed(due));
    assert_eq!(iv.poll_tick(due), PollTick::Ready { tick: due, timer: Some(ms(10)) });

    let mut iv = interval(ms(10), start);
    assert_eq!(iv.poll_tick(start), PollTick::Ready { tick: start, timer: Some(ms(10)) });
    assert!(iv.reset_at(start.checked_add(ms(3)).unwrap()));
    assert_eq!(iv.poll_tick(start), PollTick::Wait { timer: ms(3) });
}

#[test]
fn stale_timer_changes_nothing() {
    let start = origin();
    let mut iv = interval(ms(10), start);
    let expiry = start.checked_add(ms(7)).unwrap();
    assert!(!iv.timer_elapsed(expiry));
    // The tick at the start is still the next one; taken 7 ms late it is missed
    assert_eq!(iv.poll_tick(expiry), PollTick::Ready { tick: start, timer: Some(ms(3)) });
}

#[test]
fn future_start_is_not_yielded_early() {
    let start = origin();
    let later = start.checked_add(ms(50)).unwrap();
    let mut iv = interval_at(later, ms(30));
    assert_eq!(iv.poll_tick(start), PollTick::Wait { timer: ms(50) });
    assert_eq!(iv.poll_tick(start.checked_add(ms(20)).unwrap()), PollTick::Pending);
    assert!(iv.timer_elapsed(later));
    assert_eq!(iv.poll_tick(later), PollTick::Ready { tick: later, timer: Some(ms(30)) });
}

#[test]
fn reset_at_a_future_instant_waits_for_it() {
    let start = origin();
    let mut iv = interval(ms(10), start);
    let target = start.checked_add(ms(40)).unwrap();
    assert!(!iv.reset_at(target));
    assert_eq!(iv.poll_tick(start.checked_add(ms(1)).unwrap()), PollTick::Wait { timer: ms(39) });
    // The timer armed for the wait fires at the target
    assert!(iv.timer_elapsed(target));
    assert_eq!(iv.poll_tick(target), PollTick::Ready { tick: target, timer: Some(ms(10)) });
}

#[test]
fn burst_ticks_are_one_period_apart() {
    let mut clock = Clock::new(origin());
    let mut iv = interval(ms(10), clock.now);
    let ticks: Vec<Instant> = (0..4).map(|_| clock.tick(&mut iv)).collect();
    for pair in ticks.windows(2) {
        assert_eq!(pair[1], pair[0].checked_add(ms(10)).unwrap());
    }
}

#[test]
fn default_missed_tick_behavior_is_burst() {
    assert_eq!(MissedTickBehavior::default(), MissedTickBehavior::Burst);
}
