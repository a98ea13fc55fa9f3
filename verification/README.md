# futures_native

Runtime-independent async building blocks — intervals, sleeps, timeouts, a
task scheduler and an HTTP client front end — written as verified state
machines in Verus, with an unverified runtime layer that drives them.

## Layout

- `src/` — the verified library.
  - `time.rs`: plain-value durations and instants (nanoseconds on a monotonic clock).
  - `interval.rs`: the interval machine, missed-tick behaviors, and the laws of ticking.
  - `sleep.rs`, `timeout.rs`: the sleep and timeout machines and their laws.
  - `schedule.rs`: priorities, the scheduler trait, yielding.
  - `headers.rs`, `request.rs`, `response.rs`: header handling, client
    configuration, request building, response futures and bodies.
  - `outside.rs`: declarations of the outside types the HTTP client carries.
- `app/` — the runtime layer: platform timers, wakers, `Future` and `Stream`
  implementations, a thread-pool scheduler, a small executor, and the Tower
  service.
- `tests/` — tests of the library, driving its machines with a simulated clock.

Every event the runtime observes (a poll at some instant, a timer expiring, a
cancellation, a reset) is handed to a machine, which returns the new state and
the action to perform: which timer to arm or cancel, which task to wake.
