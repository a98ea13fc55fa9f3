//! Task scheduling: priorities, the scheduler interface, and yielding to it.

use crate::time::Duration;
use vstd::prelude::*;

verus! {

/// Priority levels for scheduled tasks
#[derive(Debug, Clone, Copy, PartialEq, Eq, Structural)]
pub enum Priority {
    /// Background priority - lowest
    Background,
    /// Utility priority - below normal
    Utility,
    /// Default priority - normal
    Default,
    /// User initiated priority - above normal
    UserInitiated,
    /// User interactive priority - highest
    UserInteractive,
}

impl Default for Priority {
    fn default() -> (p: Self)
        ensures
            p == Priority::Default,
    {
        Priority::Default
    }
}

/// Trait for platform-specific task schedulers
pub trait TaskScheduler: Clone + Send + Sync + 'static {
    /// Schedule a task to run immediately on background thread
    fn schedule<F>(&self, task: F) where F: FnOnce() + Send + 'static;

    /// Schedule a task to run with a specific priority on background thread
    fn schedule_with_priority<F>(&self, task: F, priority: Priority) where
        F: FnOnce() + Send + 'static,
    ;

    /// Schedule a task to run after a delay on background thread
    fn schedule_after<F>(&self, task: F, delay: Duration) where F: FnOnce() + Send + 'static;

    /// Schedule a task to run after a delay with priority on background thread
    fn schedule_after_with_priority<F>(&self, task: F, delay: Duration, priority: Priority) where
        F: FnOnce() + Send + 'static,
    ;

    /// Schedule a task to run immediately on main thread (if supported)
    /// Note: This can handle non-Send closures on main thread
    fn schedule_on_main_thread<F>(&self, task: F) where F: FnOnce() + 'static;

    /// Get the number of worker threads/queues
    fn worker_count(&self) -> usize;
}

/// The number of worker threads a scheduler starts: the parallelism the
/// system reports, or four where it reports none.
pub fn default_worker_count(available_parallelism: Option<usize>) -> (n: usize)
    ensures
        n == match available_parallelism {
            Some(p) => p,
            None => 4,
        },
{
    match available_parallelism {
        Some(p) => p,
        None => 4,
    }
}

/// A poll of a yield whose wake-up has (`scheduled`) or has not been
/// scheduled: the new state and whether the future has completed.
pub open spec fn yield_poll_spec(scheduled: bool) -> (bool, bool) {
    (true, scheduled)
}

/// A fresh yield is pending on its first poll, which schedules its wake-up,
/// and complete on every later poll.
pub proof fn lemma_yield_pends_once()
    ensures
        yield_poll_spec(false) == (true, false),
        yield_poll_spec(yield_poll_spec(false).0) == (true, true),
        yield_poll_spec(true) == (true, true),
{
}

/// A future that completes when scheduled on the platform scheduler.
///
/// The first poll returns pending: the caller stores the current waker and
/// schedules a task on the scheduler that wakes it. Every later poll completes.
pub struct Yield {
    scheduled: bool,
}

impl View for Yield {
    type V = bool;

    /// Whether the wake-up has been scheduled.
    closed spec fn view(&self) -> bool {
        self.scheduled
    }
}

impl Yield {
    /// Create a new yield future
    pub fn new() -> (y: Self)
        ensures
            !y@,
    {
        Yield { scheduled: false }
    }

    /// Polls the future. Returns whether it has completed; when it has not,
    /// the caller stores the waker and schedules the wake-up.
    pub fn poll(&mut self) -> (ready: bool)
        ensures
            (final(self)@, ready) == yield_poll_spec(old(self)@),
    {
        if self.scheduled {
            return true;
        }
        self.scheduled = true;
        false
    }
}

impl Default for Yield {
    fn default() -> (y: Self)
        ensures
            !y@,
    {
        Self::new()
    }
}

/// Yield execution to the scheduler
pub fn yield_now() -> (y: Yield)
    ensures
        !y@,
{
    Yield::new()
}

} // verus!
