//! Timeouts: a future raced against a sleep.
//!
//! [`Timeout`] holds the wrapped future and decides each poll. The caller
//! polls the wrapped future only while [`Timeout::is_completed`] is false,
//! hands its output (or `None` while it is pending) to [`Timeout::poll`],
//! and carries out the cancellation that the step returns.

use crate::sleep::{
    sleep_cancel_spec, sleep_poll_spec, sleep_timer_elapsed_spec, Sleep, SleepCancel, SleepPhase,
    SleepView,
};
use crate::time::Duration;
use vstd::prelude::*;

verus! {

/// Error type for timeout operations
#[derive(Debug, Clone, Copy, PartialEq, Eq, Structural)]
pub struct Elapsed;

impl Elapsed {
    /// The error message: "operation timed out".
    pub fn to_string(&self) -> (s: String)
        ensures
            s@ == "operation timed out"@,
    {
        "operation timed out".to_owned()
    }
}

/// The abstract state of a [`Timeout`], apart from the wrapped future.
pub struct TimeoutView {
    /// Whether a result has been returned.
    pub completed: bool,
    /// The sleep that bounds the wait.
    pub sleep: SleepView,
}

/// What one poll of a [`Timeout`] returns and asks of the caller.
pub struct TimeoutStep<T> {
    /// `None` while pending; `Some(Ok(..))` with the future's output; `Some(Err(Elapsed))` on timeout.
    pub output: Option<Result<T, Elapsed>>,
    /// The cancellation of the sleep's timer that the caller carries out.
    pub sleep_cancel: SleepCancel,
}

/// A poll in which the wrapped future returned `future_output` (`None` while
/// pending, and not polled at all once the timeout has completed): the new
/// state, the output and the sleep's cancellation.
pub open spec fn timeout_poll_spec<T>(v: TimeoutView, future_output: Option<T>) -> (
    TimeoutView,
    Option<Result<T, Elapsed>>,
    SleepCancel,
) {
    let nothing = SleepCancel { cancel_timer: false, wake: false };
    if v.completed {
        (v, Some(Err(Elapsed)), nothing)
    } else {
        match future_output {
            Some(out) => {
                let cancelled = sleep_cancel_spec(v.sleep);
                (TimeoutView { completed: true, sleep: cancelled.0 }, Some(Ok(out)), cancelled.1)
            },
            None => {
                let polled = sleep_poll_spec(v.sleep);
                if polled.1 {
                    (TimeoutView { completed: true, sleep: polled.0 }, Some(Err(Elapsed)), nothing)
                } else {
                    (TimeoutView { completed: false, sleep: polled.0 }, None, nothing)
                }
            },
        }
    }
}

/// A future that wraps another future with a timeout
pub struct Timeout<F> {
    future: F,
    sleep: Sleep,
    completed: bool,
}

impl<F> View for Timeout<F> {
    type V = TimeoutView;

    closed spec fn view(&self) -> TimeoutView {
        TimeoutView { completed: self.completed, sleep: self.sleep@ }
    }
}

impl<F> Timeout<F> {
    /// The wrapped future.
    pub closed spec fn inner_future(&self) -> F {
        self.future
    }

    fn new(future: F, duration: Duration) -> (t: Self)
        ensures
            t@ == (TimeoutView {
                completed: false,
                sleep: SleepView {
                    duration: duration@,
                    phase: SleepPhase::Pending { waker: false },
                    armed: true,
                },
            }),
            t.inner_future() == future,
    {
        Timeout { future, sleep: Sleep::new(duration), completed: false }
    }

    /// Whether a result has been returned; the wrapped future is polled only while this is false.
    pub fn is_completed(&self) -> (b: bool)
        ensures
            b == self@.completed,
    {
        self.completed
    }

    /// The duration of the timeout, for which the caller arms the sleep's timer.
    pub fn sleep_duration(&self) -> (d: Duration)
        ensures
            d@ == self@.sleep.duration,
    {
        self.sleep.duration()
    }

    /// The wrapped future, to be polled.
    pub fn future_mut(&mut self) -> (f: &mut F)
        ensures
            *f == old(self).inner_future(),
            final(self)@ == old(self)@,
            final(self).inner_future() == *final(f),
    {
        &mut self.future
    }

    /// Decides one poll, given what polling the wrapped future returned.
    pub fn poll<T>(&mut self, future_output: Option<T>) -> (r: TimeoutStep<T>)
        ensures
            (final(self)@, r.output, r.sleep_cancel) == timeout_poll_spec(old(self)@, future_output),
            final(self).inner_future() == old(self).inner_future(),
    {
        let nothing = SleepCancel { cancel_timer: false, wake: false };
        // If we've already completed, don't poll again
        if self.completed {
            return TimeoutStep { output: Some(Err(Elapsed)), sleep_cancel: nothing };
        }
        // The main future goes first
        match future_output {
            Some(out) => {
                self.completed = true;
                let sleep_cancel = self.sleep.cancel();
                TimeoutStep { output: Some(Ok(out)), sleep_cancel }
            },
            None => {
                // Check whether the timeout has elapsed
                if self.sleep.poll() {
                    self.completed = true;
                    TimeoutStep { output: Some(Err(Elapsed)), sleep_cancel: nothing }
                } else {
                    TimeoutStep { output: None, sleep_cancel: nothing }
                }
            },
        }
    }

    /// The sleep's timer expired. Returns whether the stored waker is to be woken.
    pub fn sleep_timer_elapsed(&mut self) -> (wake: bool)
        ensures
            final(self)@ == (TimeoutView { sleep: sleep_timer_elapsed_spec(old(self)@.sleep).0, ..old(self)@ }),
            wake == sleep_timer_elapsed_spec(old(self)@.sleep).1,
            final(self).inner_future() == old(self).inner_future(),
    {
        self.sleep.timer_elapsed()
    }
}

/// Wraps a future with a timeout
pub fn timeout<F>(duration: Duration, future: F) -> (t: Timeout<F>)
    ensures
        t@ == (TimeoutView {
            completed: false,
            sleep: SleepView {
                duration: duration@,
                phase: SleepPhase::Pending { waker: false },
                armed: true,
            },
        }),
        t.inner_future() == future,
{
    Timeout::new(future, duration)
}

/// The wrapped future goes first: when it is ready, its output is returned,
/// even where the timeout has elapsed too, and the sleep is cancelled.
pub proof fn lemma_timeout_future_wins<T>(v: TimeoutView, out: T)
    requires
        !v.completed,
    ensures
        timeout_poll_spec(v, Some(out)).1 == Some(Ok::<T, Elapsed>(out)),
        timeout_poll_spec(v, Some(out)).0.completed,
        timeout_poll_spec(v, Some(out)).2 == sleep_cancel_spec(v.sleep).1,
{
}

/// While the wrapped future is pending, the timeout completes with `Elapsed`
/// exactly when its sleep has completed.
pub proof fn lemma_timeout_elapses_with_sleep<T>(v: TimeoutView)
    requires
        !v.completed,
    ensures
        timeout_poll_spec::<T>(v, None).1 == (if sleep_poll_spec(v.sleep).1 {
            Some(Err::<T, Elapsed>(Elapsed))
        } else {
            None
        }),
{
}

/// Once a timeout has returned a result, every later poll returns `Elapsed`
/// without changing anything.
pub proof fn lemma_timeout_after_completion<T>(v: TimeoutView, future_output: Option<T>)
    requires
        v.completed,
    ensures
        timeout_poll_spec(v, future_output) == (
            v,
            Some(Err::<T, Elapsed>(Elapsed)),
            SleepCancel { cancel_timer: false, wake: false },
        ),
{
}

/// A timeout left pending has its waker stored in the sleep, so the sleep's
/// timer wakes the task.
pub proof fn lemma_timeout_pending_is_woken<T>(v: TimeoutView)
    requires
        timeout_poll_spec::<T>(v, None).1 is None,
    ensures
        sleep_timer_elapsed_spec(timeout_poll_spec::<T>(v, None).0.sleep).1,
{
}

} // verus!
