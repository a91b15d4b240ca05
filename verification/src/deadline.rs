//! The shared deadline of a run: one start instant and one duration, against
//! which every worker measures the time that has passed.

use vstd::prelude::*;

verus! {

/// `tokio::time::Instant`, a reading of tokio's clock. Nothing of what it
/// holds is visible here: it is kept, copied and handed back to tokio.
#[verifier::external_type_specification]
#[verifier::external_body]
pub struct ExInstant(tokio::time::Instant);

/// Calls `tokio::time::Instant::now`. Nothing is claimed of the instant
/// that comes back.
#[verifier::external_body]
fn clock_now() -> (now: tokio::time::Instant) {
    tokio::time::Instant::now()
}

/// Calls `tokio::time::Instant::elapsed` on `start` and takes the whole
/// seconds of the duration that it gives. The reading depends on the clock,
/// so nothing is claimed of the number that comes back.
#[verifier::external_body]
fn clock_elapsed_secs(start: &tokio::time::Instant) -> (seconds: u64) {
    start.elapsed().as_secs()
}

/// Whether a worker that reads `elapsed_secs` on the clock has used up a
/// sampling window of `duration_seconds`.
pub fn window_closed(elapsed_secs: u64, duration_seconds: u64) -> (closed: bool)
    ensures
        closed == (elapsed_secs >= duration_seconds),
{
    elapsed_secs >= duration_seconds
}

/// The start of a run and the length of its sampling window. It does not
/// change once made, and all workers of a run read the same one.
#[derive(Clone, Copy)]
pub struct Deadline {
    start: tokio::time::Instant,
    duration_seconds: u64,
}

impl Deadline {
    /// The length of the sampling window, in seconds.
    pub closed spec fn window(&self) -> u64 {
        self.duration_seconds
    }

    /// A deadline whose window of `duration_seconds` starts at this moment.
    pub fn starting_now(duration_seconds: u64) -> (deadline: Deadline)
        ensures
            deadline.window() == duration_seconds,
    {
        Deadline { start: clock_now(), duration_seconds }
    }

    /// The length of the sampling window, in seconds.
    pub fn duration_seconds(&self) -> (seconds: u64)
        ensures
            seconds == self.window(),
    {
        self.duration_seconds
    }

    /// The whole seconds that have passed since the start, by the clock.
    pub fn elapsed_secs(&self) -> (seconds: u64) {
        clock_elapsed_secs(&self.start)
    }
}

} // verus!
