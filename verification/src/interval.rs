//! Intervals: a clock that ticks once per period, with a choice of what to
//! do after a missed tick.
//!
//! An [`Interval`] is a state machine. Each poll is given the current time and
//! either yields the instant of a tick, together with the delay after which
//! the caller must arm a timer, or reports that the next tick is still
//! pending. Timer expiry and resets are further events on the same machine.

use crate::time::{Duration, Instant};
use vstd::prelude::*;

verus! {

broadcast use {Duration::lemma_range, Instant::lemma_range};

/// How late a tick may be taken before it counts as missed: five milliseconds.
pub const TICK_TOLERANCE_NANOS: u64 = 5_000_000;

/// Defines the behavior of an [`Interval`] when it misses a tick.
#[derive(Debug, Clone, Copy, PartialEq, Eq, Structural)]
pub enum MissedTickBehavior {
    /// Ticks as fast as possible until caught up.
    /// This is the default behavior.
    Burst,
    /// Tick at multiples of `period` from when the late tick was taken,
    /// rather than from the start time.
    Delay,
    /// Skips missed ticks and ticks on the next multiple of `period` from start.
    Skip,
}

impl Default for MissedTickBehavior {
    fn default() -> (r: Self)
        ensures
            r == MissedTickBehavior::Burst,
    {
        MissedTickBehavior::Burst
    }
}

/// The offset from a missed deadline at which `Skip` places the next tick:
/// one period past the number of whole periods that have elapsed since it.
pub open spec fn skip_offset(timeout: int, now: int, period: int) -> int {
    let elapsed = if now >= timeout { now - timeout } else { 0 };
    (elapsed / period + 1) * period
}

/// The instant of the next tick after the tick due at `timeout` was taken late, at `now`.
pub open spec fn next_timeout_spec(
    behavior: MissedTickBehavior,
    timeout: int,
    now: int,
    period: int,
) -> int {
    match behavior {
        MissedTickBehavior::Burst => timeout + period,
        MissedTickBehavior::Delay => now + period,
        MissedTickBehavior::Skip => {
            if period == 0 {
                now + period
            } else if skip_offset(timeout, now, period) > u64::MAX {
                now + period
            } else {
                timeout + skip_offset(timeout, now, period)
            }
        },
    }
}

impl MissedTickBehavior {
    /// If a tick is missed, this method determines when the next tick should
    /// happen.
    pub fn next_timeout(&self, timeout: Instant, now: Instant, period: Duration) -> (r: Instant)
        requires
            next_timeout_spec(*self, timeout@, now@, period@) <= u64::MAX,
        ensures
            r@ == next_timeout_spec(*self, timeout@, now@, period@),
    {
        match self {
            MissedTickBehavior::Burst => timeout.add_duration(period),
            MissedTickBehavior::Delay => now.add_duration(period),
            MissedTickBehavior::Skip => {
                // How many whole periods have elapsed since the missed deadline
                let elapsed = now.saturating_duration_since(timeout);
                let period_nanos = period.as_nanos();
                if period_nanos == 0 {
                    return now.add_duration(period);
                }
                let elapsed_nanos = elapsed.as_nanos();
                let periods_elapsed = elapsed_nanos / period_nanos;
                let next_period_count = periods_elapsed + 1;
                proof {
                    lemma_skip_offset_bound(elapsed_nanos as int, period_nanos as int);
                }
                let additional_nanos = next_period_count * period_nanos;
                if additional_nanos > u64::MAX as u128 {
                    // Past the clock's range: fall back to the delay behavior
                    return now.add_duration(period);
                }
                timeout.add_duration(Duration::from_nanos(additional_nanos as u64))
            },
        }
    }
}

proof fn lemma_skip_offset_bound(elapsed: int, period: int)
    requires
        0 <= elapsed,
        0 < period,
    ensures
        (elapsed / period + 1) * period <= elapsed + period,
        (elapsed / period + 1) * period >= period,
{
    assert((elapsed / period + 1) * period <= elapsed + period) by (nonlinear_arith)
        requires
            0 <= elapsed,
            0 < period,
    {
        assert(elapsed == period * (elapsed / period) + elapsed % period);
        assert(elapsed % period >= 0);
    }
    assert((elapsed / period + 1) * period >= period) by (nonlinear_arith)
        requires
            0 <= elapsed,
            0 < period,
    {
        assert(elapsed / period >= 0);
    }
}

/// The abstract state of an [`Interval`].
pub struct IntervalView {
    /// The period, in nanoseconds.
    pub period: int,
    /// What happens after a missed tick.
    pub missed_tick_behavior: MissedTickBehavior,
    /// Whether the tick at `deadline` is taken by the first poll at or after
    /// `deadline`; when false a timer is armed to expire at `deadline`.
    pub ready: bool,
    /// The instant of the next tick.
    pub deadline: int,
}

/// What a poll of an [`Interval`] returns, in plain values.
pub enum TickOutcome {
    /// A tick at `tick`; where `timer` is `Some(delay)` the caller arms a timer for `delay`.
    Ready { tick: int, timer: Option<int> },
    /// The next tick is not due yet: the caller arms a timer for `timer` and
    /// keeps the current waker.
    Wait { timer: int },
    /// No tick yet: the caller keeps the current waker and waits for the timer.
    Pending,
}

/// The instant of the tick that follows the tick at `v.deadline` when it is taken at `now`.
pub open spec fn next_deadline(v: IntervalView, now: int) -> int {
    if now > v.deadline + TICK_TOLERANCE_NANOS {
        next_timeout_spec(v.missed_tick_behavior, v.deadline, now, v.period)
    } else {
        v.deadline + v.period
    }
}

/// Whether a poll at `now` keeps every instant it computes on the clock.
pub open spec fn poll_fits(v: IntervalView, now: int) -> bool {
    v.ready && v.deadline <= now ==> {
        &&& v.deadline + TICK_TOLERANCE_NANOS <= u64::MAX
        &&& next_deadline(v, now) <= u64::MAX
    }
}

/// A poll at `now`: the new state and what the poll returns.
pub open spec fn poll_tick_spec(v: IntervalView, now: int) -> (IntervalView, TickOutcome) {
    if v.ready && now < v.deadline {
        (IntervalView { ready: false, ..v }, TickOutcome::Wait { timer: v.deadline - now })
    } else if v.ready {
        let next = next_deadline(v, now);
        if next <= now {
            (
                IntervalView { ready: true, deadline: next, ..v },
                TickOutcome::Ready { tick: v.deadline, timer: None },
            )
        } else {
            (
                IntervalView { ready: false, deadline: next, ..v },
                TickOutcome::Ready { tick: v.deadline, timer: Some(next - now) },
            )
        }
    } else {
        (v, TickOutcome::Pending)
    }
}

/// The armed timer expires at `now`: the new state and whether the waiting task is woken.
pub open spec fn timer_elapsed_spec(v: IntervalView, now: int) -> (IntervalView, bool) {
    if v.ready {
        // No timer is pending: a stale expiry changes nothing
        (v, false)
    } else {
        (IntervalView { ready: true, ..v }, true)
    }
}

/// A reset to `deadline`: the new state and whether the armed timer must be cancelled.
pub open spec fn reset_at_spec(v: IntervalView, deadline: int) -> (IntervalView, bool) {
    (IntervalView { ready: true, deadline, ..v }, !v.ready)
}

/// After a missed tick, `Skip` places the next tick on the grid of whole
/// periods from the missed deadline: the first grid point strictly after
/// `now`, and never the missed deadline itself.
pub proof fn lemma_skip_ticks_on_period_grid(timeout: int, now: int, period: int)
    requires
        0 <= timeout,
        0 <= now,
        0 < period,
        skip_offset(timeout, now, period) <= u64::MAX,
    ensures
        ({
            let next = next_timeout_spec(MissedTickBehavior::Skip, timeout, now, period);
            &&& next > now
            &&& next >= timeout + period
            &&& (next - timeout) % period == 0
            &&& next - period <= if now >= timeout { now } else { timeout }
        }),
{
    let elapsed = if now >= timeout { now - timeout } else { 0 };
    let q = elapsed / period;
    assert(elapsed == period * q + elapsed % period) by (nonlinear_arith)
        requires
            q == elapsed / period,
            0 < period,
    ;
    assert(0 <= elapsed % period < period) by (nonlinear_arith)
        requires
            0 < period,
    ;
    assert(q >= 0) by (nonlinear_arith)
        requires
            q == elapsed / period,
            0 <= elapsed,
            0 < period,
    ;
    assert((q + 1) * period == period * q + period) by (nonlinear_arith);
    assert(((q + 1) * period) % period == 0) by (nonlinear_arith)
        requires
            0 < period,
            q >= 0,
    {
        vstd::arithmetic::div_mod::lemma_mod_multiples_basic(q + 1, period);
    }
}

/// Which tick follows a tick taken at `now`, at or after its deadline `d`,
/// for an interval of period `p`. Taken on time (at most the tolerance late)
/// the next tick is `d + p` whatever the missed tick behavior. Taken late, it
/// is `d + p` under `Burst`, `now + p` under `Delay`, and under `Skip` the
/// first instant of the grid `d + k * p` strictly after `now` (for polls at
/// least one period before the clock's end). The poll yields the tick at `d`
/// and asks for a timer exactly up to the next tick where that lies ahead.
pub proof fn lemma_next_tick_by_behavior(v: IntervalView, now: int)
    requires
        v.ready,
        v.period > 0,
        0 <= v.deadline <= now,
        now + v.period <= u64::MAX,
    ensures
        ({
            let (w, out) = poll_tick_spec(v, now);
            let d = v.deadline;
            let p = v.period;
            &&& w.period == p
            &&& w.missed_tick_behavior == v.missed_tick_behavior
            &&& now <= d + TICK_TOLERANCE_NANOS ==> w.deadline == d + p
            &&& now > d + TICK_TOLERANCE_NANOS && v.missed_tick_behavior == MissedTickBehavior::Burst
                ==> w.deadline == d + p
            &&& now > d + TICK_TOLERANCE_NANOS && v.missed_tick_behavior == MissedTickBehavior::Delay
                ==> w.deadline == now + p
            &&& now > d + TICK_TOLERANCE_NANOS && v.missed_tick_behavior == MissedTickBehavior::Skip
                ==> {
                &&& w.deadline > now
                &&& w.deadline - p <= now
                &&& (w.deadline - d) % p == 0
            }
            &&& out matches TickOutcome::Ready { tick, timer } && tick == d && (if w.deadline > now {
                timer == Some(w.deadline - now) && !w.ready
            } else {
                timer is None && w.ready
            })
        }),
{
    let d = v.deadline;
    let p = v.period;
    if now > d + TICK_TOLERANCE_NANOS && v.missed_tick_behavior == MissedTickBehavior::Skip {
        lemma_skip_offset_bound(now - d, p);
        lemma_skip_ticks_on_period_grid(d, now, p);
    }
}

/// Every tick is followed by a strictly later one: the deadline computed
/// when a tick is taken lies after the tick, whatever the missed tick behavior.
pub proof fn lemma_next_deadline_after_tick(v: IntervalView, now: int)
    requires
        v.period > 0,
        0 <= v.deadline,
        0 <= now,
    ensures
        next_deadline(v, now) > v.deadline,
{
    if now > v.deadline + TICK_TOLERANCE_NANOS && v.missed_tick_behavior == MissedTickBehavior::Skip {
        if skip_offset(v.deadline, now, v.period) <= u64::MAX {
            lemma_skip_ticks_on_period_grid(v.deadline, now, v.period);
        }
    }
}

/// With `Burst`, an interval that has fallen behind ticks as fast as it is
/// polled until it has caught up: each late poll yields the missed tick, and
/// where the tick after it is already due, no timer is armed and the next poll
/// yields that tick one period later.
pub proof fn lemma_burst_catches_up(v: IntervalView, now: int)
    requires
        v.ready,
        v.missed_tick_behavior == MissedTickBehavior::Burst,
        now > v.deadline + TICK_TOLERANCE_NANOS,
        v.deadline + v.period <= now,
    ensures
        poll_tick_spec(v, now) == (
            IntervalView { deadline: v.deadline + v.period, ..v },
            TickOutcome::Ready { tick: v.deadline, timer: None },
        ),
        poll_tick_spec(poll_tick_spec(v, now).0, now).1 matches TickOutcome::Ready { tick, .. } && tick
            == v.deadline + v.period,
{
}

/// With `Delay`, the tick after a late one comes one full period after the
/// late tick was taken.
pub proof fn lemma_delay_restarts_from_now(v: IntervalView, now: int)
    requires
        v.ready,
        v.missed_tick_behavior == MissedTickBehavior::Delay,
        now > v.deadline + TICK_TOLERANCE_NANOS,
        v.period > 0,
    ensures
        poll_tick_spec(v, now).0.deadline == now + v.period,
        poll_tick_spec(v, now).1 == (TickOutcome::Ready { tick: v.deadline, timer: Some(v.period) }),
{
}

/// A new interval yields its first tick at the start instant it was created
/// with: a poll at or after the start returns that tick, and a poll before it
/// waits for a timer that ends exactly at the start.
pub proof fn lemma_first_tick_at_start(period: int, start: int, now: int)
    ensures
        ({
            let fresh = IntervalView {
                period,
                missed_tick_behavior: MissedTickBehavior::Burst,
                ready: true,
                deadline: start,
            };
            &&& now >= start ==> (poll_tick_spec(fresh, now).1 matches TickOutcome::Ready { tick, .. }
                && tick == start)
            &&& now < start ==> poll_tick_spec(fresh, now).1 == (TickOutcome::Wait { timer: start - now })
        }),
{
}

/// A reset to `deadline` makes the next tick fall at exactly `deadline`: a poll
/// at or after it yields that tick, and a poll before it waits for a timer
/// that ends exactly at `deadline`, after which the next poll yields the tick.
pub proof fn lemma_reset_then_tick(v: IntervalView, deadline: int, now: int, later: int)
    ensures
        ({
            let reset = reset_at_spec(v, deadline).0;
            &&& now >= deadline ==> (poll_tick_spec(reset, now).1 matches TickOutcome::Ready {
                tick,
                ..
            } && tick == deadline)
            &&& now < deadline ==> {
                let waiting = poll_tick_spec(reset, now);
                &&& waiting.1 == (TickOutcome::Wait { timer: deadline - now })
                &&& timer_elapsed_spec(waiting.0, later).1
                &&& later >= deadline ==> (poll_tick_spec(
                    timer_elapsed_spec(waiting.0, later).0,
                    later,
                ).1 matches TickOutcome::Ready { tick, .. } && tick == deadline)
            }
        }),
{
}

/// A timer that expires while no timer is armed, such as one armed before a
/// reset, changes nothing and wakes no one.
pub proof fn lemma_stale_timer_changes_nothing(v: IntervalView, now: int)
    requires
        v.ready,
    ensures
        timer_elapsed_spec(v, now) == (v, false),
{
}

/// A tick that has to wait for a timer is delivered at the deadline the timer
/// was armed for: the timer's delay ends exactly at that deadline, polls before
/// the timer expires stay pending without changing anything, and once it has
/// expired the next poll yields a tick at that deadline.
pub proof fn lemma_timer_delivers_next_tick(v: IntervalView, now: int, early: int, later: int, poll_time: int)
    requires
        poll_tick_spec(v, now).1 matches TickOutcome::Ready { timer, .. } && timer is Some,
        poll_time >= next_deadline(v, now),
    ensures
        ({
            let armed = poll_tick_spec(v, now).0;
            let delay = poll_tick_spec(v, now).1->Ready_timer->0;
            let woken = timer_elapsed_spec(armed, later);
            &&& now + delay == next_deadline(v, now)
            &&& poll_tick_spec(armed, early) == (armed, TickOutcome::Pending)
            &&& woken.1
            &&& poll_tick_spec(woken.0, poll_time).1 matches TickOutcome::Ready { tick, .. } && tick
                == next_deadline(v, now)
        }),
{
}

/// No tick comes before its deadline: a poll before the deadline yields no
/// tick and keeps the deadline, whatever timer expiries came before it, so a
/// timer armed before a reset that fires late can cost a wake-up but never an
/// early tick.
pub proof fn lemma_no_tick_before_deadline(v: IntervalView, now: int, expiry: int)
    requires
        now < v.deadline,
    ensures
        !(poll_tick_spec(v, now).1 is Ready),
        poll_tick_spec(v, now).0.deadline == v.deadline,
        timer_elapsed_spec(v, expiry).0.deadline == v.deadline,
        !(poll_tick_spec(timer_elapsed_spec(v, expiry).0, now).1 is Ready),
{
}

/// The period and the missed tick behavior are kept by every poll, timer expiry and reset.
pub proof fn lemma_events_keep_configuration(v: IntervalView, now: int, deadline: int)
    ensures
        poll_tick_spec(v, now).0.period == v.period,
        poll_tick_spec(v, now).0.missed_tick_behavior == v.missed_tick_behavior,
        timer_elapsed_spec(v, now).0.period == v.period,
        timer_elapsed_spec(v, now).0.missed_tick_behavior == v.missed_tick_behavior,
        reset_at_spec(v, deadline).0.period == v.period,
        reset_at_spec(v, deadline).0.missed_tick_behavior == v.missed_tick_behavior,
{
}

/// An event that reaches an interval between resets: a poll or a timer
/// expiry, each at the instant given.
pub enum IntervalEvent {
    Poll(int),
    TimerElapsed(int),
}

/// One event: the new state and the tick it yields, if any.
pub open spec fn apply_event(v: IntervalView, e: IntervalEvent) -> (IntervalView, Option<int>) {
    match e {
        IntervalEvent::Poll(now) => {
            let (w, out) = poll_tick_spec(v, now);
            (w, match out {
                TickOutcome::Ready { tick, .. } => Some(tick),
                _ => None,
            })
        },
        IntervalEvent::TimerElapsed(now) => (timer_elapsed_spec(v, now).0, None),
    }
}

/// A run of events in order: the final state and the ticks yielded, in order.
pub open spec fn run_events(v: IntervalView, events: Seq<IntervalEvent>) -> (IntervalView, Seq<int>)
    decreases events.len(),
{
    if events.len() == 0 {
        (v, Seq::empty())
    } else {
        let (w, ticks) = run_events(v, events.drop_last());
        let (x, out) = apply_event(w, events.last());
        (x, match out {
            Some(t) => ticks.push(t),
            None => ticks,
        })
    }
}

/// Whether every poll of the run happens at a time on the clock at least one
/// period before its end.
pub open spec fn polls_in_range(events: Seq<IntervalEvent>, period: int) -> bool {
    forall|i: int|
        0 <= i < events.len() ==> (#[trigger] events[i] matches IntervalEvent::Poll(now) ==> 0 <= now
            && now + period <= u64::MAX)
}

/// The deadline set when a tick is taken at `now`, at or after the tick's
/// deadline, lies at least one period after it, and exactly one under `Burst`.
proof fn lemma_next_deadline_at_least_period(v: IntervalView, now: int)
    requires
        v.period > 0,
        now >= v.deadline,
    ensures
        next_deadline(v, now) >= v.deadline + v.period,
        v.missed_tick_behavior == MissedTickBehavior::Burst ==> next_deadline(v, now) == v.deadline
            + v.period,
{
    if now > v.deadline + TICK_TOLERANCE_NANOS && v.missed_tick_behavior == MissedTickBehavior::Skip {
        lemma_skip_offset_bound(now - v.deadline, v.period);
    }
}

proof fn lemma_run_spacing(v: IntervalView, events: Seq<IntervalEvent>)
    requires
        v.period > 0,
    ensures
        ({
            let (w, ticks) = run_events(v, events);
            &&& w.period == v.period
            &&& w.missed_tick_behavior == v.missed_tick_behavior
            &&& ticks.len() == 0 ==> w.deadline == v.deadline
            &&& ticks.len() > 0 ==> ticks[0] == v.deadline
            &&& ticks.len() > 0 ==> w.deadline >= ticks.last() + v.period
            &&& ticks.len() > 0 && v.missed_tick_behavior == MissedTickBehavior::Burst ==> w.deadline
                == ticks.last() + v.period
            &&& forall|i: int|
                0 <= i < ticks.len() - 1 ==> #[trigger] ticks[i + 1] >= ticks[i] + v.period
            &&& v.missed_tick_behavior == MissedTickBehavior::Burst ==> forall|i: int|
                0 <= i < ticks.len() - 1 ==> #[trigger] ticks[i + 1] == ticks[i] + v.period
        }),
    decreases events.len(),
{
    if events.len() > 0 {
        lemma_run_spacing(v, events.drop_last());
        let (w, ticks) = run_events(v, events.drop_last());
        match events.last() {
            IntervalEvent::Poll(now) => {
                if w.ready && now >= w.deadline {
                    lemma_next_deadline_at_least_period(w, now);
                }
            },
            IntervalEvent::TimerElapsed(_) => {},
        }
    }
}

/// Between resets, each tick comes at least one period after the one before
/// it, whatever polls and timer expiries lie between them, and exactly one
/// period after it under `Burst`. The first tick is the deadline the run
/// started from.
pub proof fn lemma_ticks_at_least_one_period_apart(v: IntervalView, events: Seq<IntervalEvent>)
    requires
        v.period > 0,
    ensures
        ({
            let ticks = run_events(v, events).1;
            &&& ticks.len() > 0 ==> ticks[0] == v.deadline
            &&& forall|i: int|
                0 <= i < ticks.len() - 1 ==> #[trigger] ticks[i + 1] >= ticks[i] + v.period
            &&& v.missed_tick_behavior == MissedTickBehavior::Burst ==> forall|i: int|
                0 <= i < ticks.len() - 1 ==> #[trigger] ticks[i + 1] == ticks[i] + v.period
        }),
{
    lemma_run_spacing(v, events);
}

proof fn lemma_run_grid(v: IntervalView, events: Seq<IntervalEvent>)
    requires
        v.period > 0,
        v.deadline >= 0,
        v.missed_tick_behavior == MissedTickBehavior::Burst || v.missed_tick_behavior
            == MissedTickBehavior::Skip,
        polls_in_range(events, v.period),
    ensures
        ({
            let (w, ticks) = run_events(v, events);
            &&& w.period == v.period
            &&& w.missed_tick_behavior == v.missed_tick_behavior
            &&& w.deadline >= v.deadline
            &&& (w.deadline - v.deadline) % v.period == 0
            &&& forall|i: int|
                0 <= i < ticks.len() ==> #[trigger] ticks[i] >= v.deadline && (ticks[i] - v.deadline)
                    % v.period == 0
        }),
    decreases events.len(),
{
    if events.len() == 0 {
        assert((v.deadline - v.deadline) % v.period == 0) by (nonlinear_arith)
            requires
                v.period > 0,
        ;
    } else {
        let init = events.drop_last();
        assert forall|i: int| 0 <= i < init.len() implies (#[trigger] init[i] matches IntervalEvent::Poll(
            now,
        ) ==> 0 <= now && now + v.period <= u64::MAX) by {
            assert(init[i] == events[i]);
        }
        lemma_run_grid(v, init);
        let (w, ticks) = run_events(v, init);
        let last = events.last();
        assert(last == events[events.len() - 1]);
        match last {
            IntervalEvent::Poll(now) => {
                if w.ready && now >= w.deadline {
                    let p = v.period;
                    let d = w.deadline;
                    let k: int = if now > d + TICK_TOLERANCE_NANOS && w.missed_tick_behavior
                        == MissedTickBehavior::Skip {
                        lemma_skip_offset_bound(now - d, p);
                        (now - d) / p + 1
                    } else {
                        1
                    };
                    assert(k * p == p * k) by (nonlinear_arith);
                    if now > d + TICK_TOLERANCE_NANOS && w.missed_tick_behavior
                        == MissedTickBehavior::Skip {
                        assert(skip_offset(d, now, p) == k * p);
                        assert(next_deadline(w, now) == d + k * p);
                    } else {
                        assert(next_deadline(w, now) == d + p);
                    }
                    assert(k >= 1) by (nonlinear_arith)
                        requires
                            k == 1 || k == (now - d) / p + 1,
                            now - d >= 0,
                            p > 0,
                    ;
                    vstd::arithmetic::div_mod::lemma_mod_multiples_vanish(k, d - v.deadline, p);
                    assert(p * k >= p) by (nonlinear_arith)
                        requires
                            k >= 1,
                            p > 0,
                    ;
                    assert(d - v.deadline + p * k == p * k + (d - v.deadline));
                }
            },
            IntervalEvent::TimerElapsed(_) => {},
        }
        let (x, out) = apply_event(w, last);
        if let Some(t) = out {
            assert(t == w.deadline);
            assert forall|i: int| 0 <= i < ticks.push(t).len() implies #[trigger] ticks.push(t)[i]
                >= v.deadline && (ticks.push(t)[i] - v.deadline) % v.period == 0 by {
                if i < ticks.len() {
                    assert(ticks.push(t)[i] == ticks[i]);
                }
            }
        }
    }
}

/// Under `Burst` and `Skip`, every tick between resets falls on the grid of
/// whole periods from the deadline the run started from, provided every poll
/// happens at least one period before the clock's end.
pub proof fn lemma_ticks_on_start_grid(v: IntervalView, events: Seq<IntervalEvent>)
    requires
        v.period > 0,
        v.deadline >= 0,
        v.missed_tick_behavior == MissedTickBehavior::Burst || v.missed_tick_behavior
            == MissedTickBehavior::Skip,
        polls_in_range(events, v.period),
    ensures
        forall|i: int|
            0 <= i < run_events(v, events).1.len() ==> #[trigger] run_events(v, events).1[i]
                >= v.deadline && (run_events(v, events).1[i] - v.deadline) % v.period == 0,
{
    lemma_run_grid(v, events);
}

enum IntervalState {
    Pending { deadline: Instant },
    Ready { deadline: Instant },
}

/// A stream of events that yields at fixed intervals
pub struct Interval {
    period: Duration,
    missed_tick_behavior: MissedTickBehavior,
    state: IntervalState,
}

/// What [`Interval::poll_tick`] returns.
#[derive(Debug, Clone, Copy, PartialEq, Eq, Structural)]
pub enum PollTick {
    /// The tick at `tick` has been reached. Where `timer` is `Some(delay)`, the
    /// next tick waits for a timer that the caller arms for `delay`, waking the
    /// current task when it expires.
    Ready { tick: Instant, timer: Option<Duration> },
    /// The next tick is not due yet: the caller arms a timer for `timer`,
    /// waking the current task when it expires.
    Wait { timer: Duration },
    /// The next tick has not been reached; the caller keeps the current task's waker.
    Pending,
}

impl View for PollTick {
    type V = TickOutcome;

    open spec fn view(&self) -> TickOutcome {
        match self {
            PollTick::Ready { tick, timer } => TickOutcome::Ready {
                tick: tick@,
                timer: match timer {
                    Some(d) => Some(d@),
                    None => None,
                },
            },
            PollTick::Wait { timer } => TickOutcome::Wait { timer: timer@ },
            PollTick::Pending => TickOutcome::Pending,
        }
    }
}

impl View for Interval {
    type V = IntervalView;

    closed spec fn view(&self) -> IntervalView {
        IntervalView {
            period: self.period@,
            missed_tick_behavior: self.missed_tick_behavior,
            ready: self.state is Ready,
            deadline: match self.state {
                IntervalState::Pending { deadline } => deadline@,
                IntervalState::Ready { deadline } => deadline@,
            },
        }
    }
}

impl Interval {
    #[verifier::type_invariant]
    closed spec fn period_is_positive(&self) -> bool {
        self.period@ > 0
    }

    /// Create a new interval that yields at `now` and then at the given period.
    ///
    /// The period must be non-zero.
    pub fn new(period: Duration, now: Instant) -> (r: Self)
        requires
            period@ > 0,
        ensures
            r@ == (IntervalView {
                period: period@,
                missed_tick_behavior: MissedTickBehavior::Burst,
                ready: true,
                deadline: now@,
            }),
    {
        Self::new_at(now, period)
    }

    /// Create a new interval that yields at `start` and then at the given
    /// period.
    ///
    /// The period must be non-zero.
    pub fn new_at(start: Instant, period: Duration) -> (r: Self)
        requires
            period@ > 0,
        ensures
            r@ == (IntervalView {
                period: period@,
                missed_tick_behavior: MissedTickBehavior::Burst,
                ready: true,
                deadline: start@,
            }),
    {
        Interval {
            period,
            missed_tick_behavior: MissedTickBehavior::default(),
            state: IntervalState::Ready { deadline: start },
        }
    }

    /// Polls for the next instant in the interval to be reached, at time `now`.
    pub fn poll_tick(&mut self, now: Instant) -> (r: PollTick)
        requires
            poll_fits(old(self)@, now@),
        ensures
            (final(self)@, r@) == poll_tick_spec(old(self)@, now@),
    {
        proof {
            use_type_invariant(&*self);
        }
        match self.state {
            IntervalState::Ready { deadline } => {
                if deadline.is_after(now) {
                    // The tick is not due yet: wait for a timer
                    self.state = IntervalState::Pending { deadline };
                    return PollTick::Wait { timer: deadline.saturating_duration_since(now) };
                }
                let tick_instant = deadline;
                let late_after = tick_instant.add_duration(Duration::from_nanos(TICK_TOLERANCE_NANOS));
                // Calculate the next deadline
                let next_deadline = if now.is_after(late_after) {
                    // The tick was missed: use the missed tick behavior
                    self.missed_tick_behavior.next_timeout(tick_instant, now, self.period)
                } else {
                    // Normal case: the next tick is one period later
                    tick_instant.add_duration(self.period)
                };
                let delay = next_deadline.saturating_duration_since(now);
                if delay.is_zero() {
                    // The next tick is also ready immediately
                    self.state = IntervalState::Ready { deadline: next_deadline };
                    PollTick::Ready { tick: tick_instant, timer: None }
                } else {
                    // A timer for the next tick
                    self.state = IntervalState::Pending { deadline: next_deadline };
                    PollTick::Ready { tick: tick_instant, timer: Some(delay) }
                }
            },
            IntervalState::Pending { .. } => PollTick::Pending,
        }
    }

    /// Whether a poll at `now` keeps every instant it computes on the clock, as
    /// [`Interval::poll_tick`] requires.
    pub fn poll_fits_at(&self, now: Instant) -> (b: bool)
        ensures
            b == poll_fits(self@, now@),
    {
        proof {
            use_type_invariant(self);
        }
        let deadline = match self.state {
            IntervalState::Pending { .. } => return true,
            IntervalState::Ready { deadline } => deadline,
        };
        if deadline.is_after(now) {
            return true;
        }
        let late_after = match deadline.checked_add(Duration::from_nanos(TICK_TOLERANCE_NANOS)) {
            Some(t) => t,
            None => return false,
        };
        if !now.is_after(late_after) {
            return deadline.checked_add(self.period).is_some();
        }
        match self.missed_tick_behavior {
            MissedTickBehavior::Burst => deadline.checked_add(self.period).is_some(),
            MissedTickBehavior::Delay => now.checked_add(self.period).is_some(),
            MissedTickBehavior::Skip => {
                let elapsed_nanos = now.saturating_duration_since(deadline).as_nanos();
                let period_nanos = self.period.as_nanos();
                proof {
                    lemma_skip_offset_bound(elapsed_nanos as int, period_nanos as int);
                }
                let additional_nanos = (elapsed_nanos / period_nanos + 1) * period_nanos;
                if additional_nanos > u64::MAX as u128 {
                    now.checked_add(self.period).is_some()
                } else {
                    deadline.checked_add(Duration::from_nanos(additional_nanos as u64)).is_some()
                }
            },
        }
    }

    /// The timer armed by the last tick expires at `now`. Returns whether the
    /// task waiting on the interval is to be woken.
    pub fn timer_elapsed(&mut self, now: Instant) -> (wake: bool)
        ensures
            (final(self)@, wake) == timer_elapsed_spec(old(self)@, now@),
    {
        proof {
            use_type_invariant(&*self);
        }
        match self.state {
            IntervalState::Pending { deadline } => {
                self.state = IntervalState::Ready { deadline };
                true
            },
            IntervalState::Ready { .. } => false,
        }
    }

    /// Reset the interval to complete one period after `now`. Returns whether
    /// the armed timer must be cancelled.
    pub fn reset(&mut self, now: Instant) -> (cancel: bool)
        requires
            now@ + old(self)@.period <= u64::MAX,
        ensures
            (final(self)@, cancel) == reset_at_spec(old(self)@, now@ + old(self)@.period),
    {
        let deadline = now.add_duration(self.period);
        self.reset_at(deadline)
    }

    /// Reset the interval to complete immediately on the next tick. Returns
    /// whether the armed timer must be cancelled.
    pub fn reset_immediately(&mut self, now: Instant) -> (cancel: bool)
        ensures
            (final(self)@, cancel) == reset_at_spec(old(self)@, now@),
    {
        self.reset_at(now)
    }

    /// Reset the interval to complete `after` the instant `now`. Returns
    /// whether the armed timer must be cancelled.
    pub fn reset_after(&mut self, now: Instant, after: Duration) -> (cancel: bool)
        requires
            now@ + after@ <= u64::MAX,
        ensures
            (final(self)@, cancel) == reset_at_spec(old(self)@, now@ + after@),
    {
        self.reset_at(now.add_duration(after))
    }

    /// Reset the interval to complete at the specified instant. Returns whether
    /// the armed timer must be cancelled.
    pub fn reset_at(&mut self, deadline: Instant) -> (cancel: bool)
        ensures
            (final(self)@, cancel) == reset_at_spec(old(self)@, deadline@),
    {
        proof {
            use_type_invariant(&*self);
        }
        let cancel = match self.state {
            IntervalState::Pending { .. } => true,
            IntervalState::Ready { .. } => false,
        };
        self.state = IntervalState::Ready { deadline };
        cancel
    }

    /// Returns the period of the interval.
    pub fn period(&self) -> (p: Duration)
        ensures
            p@ == self@.period,
            p@ > 0,
    {
        proof {
            use_type_invariant(self);
        }
        self.period
    }

    /// Returns the current missed tick behavior.
    pub fn missed_tick_behavior(&self) -> (b: MissedTickBehavior)
        ensures
            b == self@.missed_tick_behavior,
    {
        self.missed_tick_behavior
    }

    /// Sets the missed tick behavior.
    pub fn set_missed_tick_behavior(&mut self, behavior: MissedTickBehavior)
        ensures
            final(self)@ == (IntervalView { missed_tick_behavior: behavior, ..old(self)@ }),
    {
        proof {
            use_type_invariant(&*self);
        }
        self.missed_tick_behavior = behavior;
    }
}

/// Create a new interval that yields at `now` and then at the given period.
///
/// The period must be non-zero.
pub fn interval(period: Duration, now: Instant) -> (r: Interval)
    requires
        period@ > 0,
    ensures
        r@ == (IntervalView {
            period: period@,
            missed_tick_behavior: MissedTickBehavior::Burst,
            ready: true,
            deadline: now@,
        }),
{
    Interval::new(period, now)
}

/// Create a new interval that yields at `start` and then at the given period.
///
/// The period must be non-zero.
pub fn interval_at(start: Instant, period: Duration) -> (r: Interval)
    requires
        period@ > 0,
    ensures
        r@ == (IntervalView {
            period: period@,
            missed_tick_behavior: MissedTickBehavior::Burst,
            ready: true,
            deadline: start@,
        }),
{
    Interval::new_at(start, period)
}

} // verus!
