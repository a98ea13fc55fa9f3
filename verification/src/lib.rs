//! Runtime-independent async building blocks: intervals, sleeps, timeouts,
//! a task scheduler and an HTTP client front end.
//!
//! Each component is a verified state machine: it decides what happens on
//! every poll, timer expiry, cancellation or reset, and says which timer to
//! arm or which task to wake. The executor glue (threads, wakers, platform
//! timers) drives these machines and performs the actions they return.

mod outside;

pub mod headers;
pub mod interval;
pub mod request;
pub mod response;
pub mod schedule;
pub mod sleep;
pub mod time;
pub mod timeout;

pub use time::{Duration, Instant};
