//! Plain-value time: spans and points on a monotonic clock, in nanoseconds.

use vstd::prelude::*;

verus! {

/// A span of time with nanosecond resolution.
#[derive(Debug, Clone, Copy, PartialEq, Eq, Structural, PartialOrd, Ord, Hash)]
pub struct Duration {
    nanos: u64,
}

/// A point on a monotonic clock, counted in nanoseconds from the clock's origin.
#[derive(Debug, Clone, Copy, PartialEq, Eq, Structural, PartialOrd, Ord, Hash)]
pub struct Instant {
    nanos: u64,
}

impl View for Duration {
    type V = int;

    closed spec fn view(&self) -> int {
        self.nanos as int
    }
}

impl View for Instant {
    type V = int;

    closed spec fn view(&self) -> int {
        self.nanos as int
    }
}

impl Duration {
    /// Every duration is a count of nanoseconds that fits in a `u64`.
    pub broadcast proof fn lemma_range(d: Duration)
        ensures
            0 <= #[trigger] d@ <= u64::MAX,
    {
    }

    /// The empty span.
    pub fn zero() -> (d: Duration)
        ensures
            d@ == 0,
    {
        Duration { nanos: 0 }
    }

    /// A span of `nanos` nanoseconds.
    pub fn from_nanos(nanos: u64) -> (d: Duration)
        ensures
            d@ == nanos,
    {
        Duration { nanos }
    }

    /// A span of `micros` microseconds.
    pub fn from_micros(micros: u64) -> (d: Duration)
        requires
            micros * 1_000 <= u64::MAX,
        ensures
            d@ == micros * 1_000,
    {
        Duration { nanos: micros * 1_000 }
    }

    /// A span of `millis` milliseconds.
    pub fn from_millis(millis: u64) -> (d: Duration)
        requires
            millis * 1_000_000 <= u64::MAX,
        ensures
            d@ == millis * 1_000_000,
    {
        Duration { nanos: millis * 1_000_000 }
    }

    /// A span of `secs` seconds.
    pub fn from_secs(secs: u64) -> (d: Duration)
        requires
            secs * 1_000_000_000 <= u64::MAX,
        ensures
            d@ == secs * 1_000_000_000,
    {
        Duration { nanos: secs * 1_000_000_000 }
    }

    /// The length of the span in nanoseconds.
    pub fn as_nanos(&self) -> (n: u128)
        ensures
            n == self@,
    {
        self.nanos as u128
    }

    /// Whether the span is empty.
    pub fn is_zero(&self) -> (b: bool)
        ensures
            b == (self@ == 0),
    {
        self.nanos == 0
    }

    /// The sum of two spans, or `None` where it exceeds the representable range.
    pub fn checked_add(self, other: Duration) -> (r: Option<Duration>)
        ensures
            r is Some <==> self@ + other@ <= u64::MAX,
            r matches Some(d) ==> d@ == self@ + other@,
    {
        match self.nanos.checked_add(other.nanos) {
            Some(n) => Some(Duration { nanos: n }),
            None => None,
        }
    }

    /// The span repeated `factor` times, or `None` where it exceeds the representable range.
    pub fn checked_mul(self, factor: u32) -> (r: Option<Duration>)
        ensures
            r is Some <==> self@ * factor <= u64::MAX,
            r matches Some(d) ==> d@ == self@ * factor,
    {
        match self.nanos.checked_mul(factor as u64) {
            Some(n) => Some(Duration { nanos: n }),
            None => None,
        }
    }
}

impl Instant {
    /// Every instant is a count of nanoseconds that fits in a `u64`.
    pub broadcast proof fn lemma_range(t: Instant)
        ensures
            0 <= #[trigger] t@ <= u64::MAX,
    {
    }

    /// The instant `nanos` nanoseconds after the clock's origin.
    pub fn from_nanos(nanos: u64) -> (t: Instant)
        ensures
            t@ == nanos,
    {
        Instant { nanos }
    }

    /// Nanoseconds from the clock's origin to this instant.
    pub fn as_nanos(&self) -> (n: u64)
        ensures
            n == self@,
    {
        self.nanos
    }

    /// The instant `d` after this one; the sum must stay on the clock.
    pub fn add_duration(self, d: Duration) -> (t: Instant)
        requires
            self@ + d@ <= u64::MAX,
        ensures
            t@ == self@ + d@,
    {
        Instant { nanos: self.nanos + d.nanos }
    }

    /// The instant `d` after this one, or `None` where it falls past the clock's range.
    pub fn checked_add(self, d: Duration) -> (r: Option<Instant>)
        ensures
            r is Some <==> self@ + d@ <= u64::MAX,
            r matches Some(t) ==> t@ == self@ + d@,
    {
        match self.nanos.checked_add(d.nanos) {
            Some(n) => Some(Instant { nanos: n }),
            None => None,
        }
    }

    /// The instant `d` before this one, or `None` where it falls before the clock's origin.
    pub fn checked_sub(self, d: Duration) -> (r: Option<Instant>)
        ensures
            r is Some <==> self@ - d@ >= 0,
            r matches Some(t) ==> t@ == self@ - d@,
    {
        match self.nanos.checked_sub(d.nanos) {
            Some(n) => Some(Instant { nanos: n }),
            None => None,
        }
    }

    /// The time from `earlier` to this instant, or zero where `earlier` is later.
    pub fn saturating_duration_since(&self, earlier: Instant) -> (d: Duration)
        ensures
            d@ == if self@ >= earlier@ { self@ - earlier@ } else { 0 },
    {
        if self.nanos >= earlier.nanos {
            Duration { nanos: self.nanos - earlier.nanos }
        } else {
            Duration { nanos: 0 }
        }
    }

    /// The time from `earlier` to this instant, or zero where `earlier` is later.
    pub fn duration_since(&self, earlier: Instant) -> (d: Duration)
        ensures
            d@ == if self@ >= earlier@ { self@ - earlier@ } else { 0 },
    {
        self.saturating_duration_since(earlier)
    }

    /// Whether this instant lies strictly after `other`.
    pub fn is_after(&self, other: Instant) -> (b: bool)
        ensures
            b == (self@ > other@),
    {
        self.nanos > other.nanos
    }
}

} // verus!
