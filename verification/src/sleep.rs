//! Sleeps: a future that completes once a timer has expired or the sleep has
//! been cancelled.
//!
//! [`Sleep`] is the state machine behind the future. The caller arms a platform
//! timer for [`Sleep::duration`], reports its expiry with
//! [`Sleep::timer_elapsed`], and performs the wake-ups and cancellations that
//! the machine's events return.

use crate::time::Duration;
use vstd::prelude::*;

verus! {

/// Where a sleep stands.
#[derive(Debug, Clone, Copy, PartialEq, Eq, Structural)]
pub enum SleepPhase {
    /// The timer has not expired; `waker` tells whether a task's waker is stored.
    Pending { waker: bool },
    /// The timer has expired.
    Elapsed,
    /// The sleep was cancelled.
    Cancelled,
}

/// The abstract state of a [`Sleep`].
pub struct SleepView {
    /// The requested duration, in nanoseconds.
    pub duration: int,
    /// Where the sleep stands.
    pub phase: SleepPhase,
    /// Whether the platform timer is still held, so that a cancellation has a timer to cancel.
    pub armed: bool,
}

/// What a cancellation asks of the caller.
#[derive(Debug, Clone, Copy, PartialEq, Eq, Structural)]
pub struct SleepCancel {
    /// Cancel the platform timer.
    pub cancel_timer: bool,
    /// Wake the task whose waker is stored.
    pub wake: bool,
}

/// Every reachable sleep that still holds no timer has completed.
pub open spec fn sleep_wf(v: SleepView) -> bool {
    v.armed || !(v.phase is Pending)
}

/// A poll: the new state and whether the sleep has completed.
pub open spec fn sleep_poll_spec(v: SleepView) -> (SleepView, bool) {
    match v.phase {
        SleepPhase::Pending { .. } => (SleepView { phase: SleepPhase::Pending { waker: true }, ..v }, false),
        _ => (v, true),
    }
}

/// The timer expires: the new state and whether the stored waker is woken.
pub open spec fn sleep_timer_elapsed_spec(v: SleepView) -> (SleepView, bool) {
    (SleepView { phase: SleepPhase::Elapsed, ..v }, v.phase == SleepPhase::Pending { waker: true })
}

/// A cancellation: the new state and what the caller must do.
pub open spec fn sleep_cancel_spec(v: SleepView) -> (SleepView, SleepCancel) {
    if v.armed {
        (
            SleepView { phase: SleepPhase::Cancelled, armed: false, ..v },
            SleepCancel { cancel_timer: true, wake: v.phase == SleepPhase::Pending { waker: true } },
        )
    } else {
        (v, SleepCancel { cancel_timer: false, wake: false })
    }
}

/// A future that resolves after a specified duration
pub struct Sleep {
    duration: Duration,
    phase: SleepPhase,
    armed: bool,
}

impl View for Sleep {
    type V = SleepView;

    closed spec fn view(&self) -> SleepView {
        SleepView { duration: self.duration@, phase: self.phase, armed: self.armed }
    }
}

impl Sleep {
    #[verifier::type_invariant]
    closed spec fn well_formed(&self) -> bool {
        sleep_wf(self@)
    }

    /// Create a new sleep that completes after the given duration. The caller
    /// arms a platform timer for that duration.
    pub fn new(duration: Duration) -> (s: Self)
        ensures
            s@ == (SleepView {
                duration: duration@,
                phase: SleepPhase::Pending { waker: false },
                armed: true,
            }),
    {
        Sleep { duration, phase: SleepPhase::Pending { waker: false }, armed: true }
    }

    /// The duration the timer is armed for. Every sleep is well formed.
    pub fn duration(&self) -> (d: Duration)
        ensures
            d@ == self@.duration,
            sleep_wf(self@),
    {
        proof {
            use_type_invariant(self);
        }
        self.duration
    }

    /// Polls the sleep. Returns whether it has completed; when it has not, the
    /// caller stores the current task's waker.
    pub fn poll(&mut self) -> (ready: bool)
        ensures
            (final(self)@, ready) == sleep_poll_spec(old(self)@),
            sleep_wf(old(self)@),
            sleep_wf(final(self)@),
    {
        proof {
            use_type_invariant(&*self);
        }
        match self.phase {
            SleepPhase::Pending { .. } => {
                self.phase = SleepPhase::Pending { waker: true };
                false
            },
            _ => true,
        }
    }

    /// The platform timer expired. Returns whether the stored waker is to be woken.
    pub fn timer_elapsed(&mut self) -> (wake: bool)
        ensures
            (final(self)@, wake) == sleep_timer_elapsed_spec(old(self)@),
            sleep_wf(old(self)@),
            sleep_wf(final(self)@),
    {
        proof {
            use_type_invariant(&*self);
        }
        let wake = match self.phase {
            SleepPhase::Pending { waker } => waker,
            _ => false,
        };
        self.phase = SleepPhase::Elapsed;
        wake
    }

    /// Cancel the timer
    pub fn cancel(&mut self) -> (c: SleepCancel)
        ensures
            (final(self)@, c) == sleep_cancel_spec(old(self)@),
            sleep_wf(old(self)@),
            sleep_wf(final(self)@),
    {
        proof {
            use_type_invariant(&*self);
        }
        if self.armed {
            let wake = match self.phase {
                SleepPhase::Pending { waker } => waker,
                _ => false,
            };
            self.phase = SleepPhase::Cancelled;
            self.armed = false;
            SleepCancel { cancel_timer: true, wake }
        } else {
            SleepCancel { cancel_timer: false, wake: false }
        }
    }
}

/// Sleep for the given duration
pub fn sleep(duration: Duration) -> (s: Sleep)
    ensures
        s@ == (SleepView { duration: duration@, phase: SleepPhase::Pending { waker: false }, armed: true }),
{
    Sleep::new(duration)
}

/// A new sleep is well formed, and polls, timer expiry and cancellation keep it so.
pub proof fn lemma_sleep_wf_preserved(duration: int, v: SleepView)
    ensures
        sleep_wf(SleepView { duration, phase: SleepPhase::Pending { waker: false }, armed: true }),
        sleep_wf(v) ==> sleep_wf(sleep_poll_spec(v).0),
        sleep_wf(v) ==> sleep_wf(sleep_timer_elapsed_spec(v).0),
        sleep_wf(v) ==> sleep_wf(sleep_cancel_spec(v).0),
{
}

/// Once a sleep has completed, it stays completed: every later poll, timer
/// expiry or cancellation leaves it complete, and every poll returns ready.
pub proof fn lemma_sleep_completion_is_permanent(v: SleepView)
    requires
        sleep_poll_spec(v).1,
    ensures
        sleep_poll_spec(sleep_poll_spec(v).0).1,
        sleep_poll_spec(sleep_timer_elapsed_spec(v).0).1,
        sleep_poll_spec(sleep_cancel_spec(v).0).1,
{
}

/// A cancelled sleep completes immediately, and so does one whose timer expired.
pub proof fn lemma_sleep_cancel_or_expiry_completes(v: SleepView)
    requires
        sleep_wf(v),
    ensures
        sleep_poll_spec(sleep_cancel_spec(v).0).1,
        sleep_poll_spec(sleep_timer_elapsed_spec(v).0).1,
{
}

/// No wake-up is lost: after a poll that left the sleep pending, the timer's
/// expiry wakes the polling task, and so does a cancellation.
pub proof fn lemma_sleep_pending_poll_is_woken(v: SleepView)
    requires
        sleep_wf(v),
        !sleep_poll_spec(v).1,
    ensures
        sleep_timer_elapsed_spec(sleep_poll_spec(v).0).1,
        sleep_cancel_spec(sleep_poll_spec(v).0).1 == (SleepCancel { cancel_timer: true, wake: true }),
{
}

/// Cancelling twice is the same as cancelling once: the second cancellation
/// changes nothing and asks nothing of the caller.
pub proof fn lemma_sleep_cancel_idempotent(v: SleepView)
    ensures
        sleep_cancel_spec(sleep_cancel_spec(v).0) == (
            sleep_cancel_spec(v).0,
            SleepCancel { cancel_timer: false, wake: false },
        ),
{
}

} // verus!
