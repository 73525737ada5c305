//! Readings of the system clock, and the decisions of the loops that wait on
//! it: a spin delay and a once-a-second loop counter.

use vstd::prelude::*;

verus! {

/// Nanoseconds since boot, read with `embassy_time::Instant::now()` and
/// `Instant::as_nanos`. The reading depends on when the call is made, so
/// nothing is claimed of it.
#[inline(always)]
#[verifier::external_body]
pub fn current_nano() -> u64 {
    embassy_time::Instant::now().as_nanos()
}

/// Microseconds since boot, read with `embassy_time::Instant::now()` and
/// `Instant::as_micros`. The reading depends on when the call is made, so
/// nothing is claimed of it.
#[inline(always)]
#[verifier::external_body]
pub fn current_micro() -> u64 {
    embassy_time::Instant::now().as_micros()
}

/// Whether a spin delay of `ms` milliseconds that began at `start_ns` is
/// over at `now_ns` (both in nanoseconds).
pub fn delay_elapsed(start_ns: u64, now_ns: u64, ms: u64) -> (done: bool)
    requires
        start_ns <= now_ns,
        ms * 1_000_000 <= u64::MAX,
    ensures
        done == (now_ns - start_ns >= ms * 1_000_000),
{
    now_ns - start_ns >= ms * 1_000_000
}

/// Length of one counting period, in microseconds.
pub const REPORT_PERIOD_US: u64 = 1_000_000;

/// Counts loop rounds and reports the count once per period.
pub struct RateMeter {
    counter: u64,
    start: u64,
}

impl RateMeter {
    /// Rounds counted in the current period.
    pub closed spec fn count(&self) -> u64 {
        self.counter
    }

    /// When the current period began, in microseconds.
    pub closed spec fn period_start(&self) -> u64 {
        self.start
    }

    /// A meter whose first period begins at `start`.
    pub fn new(start: u64) -> (m: Self)
        ensures
            m.count() == 0,
            m.period_start() == start,
    {
        RateMeter { counter: 0, start }
    }

    /// Rounds counted in the current period.
    pub fn counter(&self) -> (n: u64)
        ensures
            n == self.count(),
    {
        self.counter
    }

    /// When the current period began, in microseconds.
    pub fn started_at(&self) -> (t: u64)
        ensures
            t == self.period_start(),
    {
        self.start
    }

    /// One round at time `now`: once the period has run out, the count is
    /// reported and set back to zero, and the next period should be started
    /// with `restart`; otherwise the round is counted.
    pub fn poll(&mut self, now: u64) -> (report: Option<u64>)
        requires
            old(self).period_start() <= now,
            now - old(self).period_start() < REPORT_PERIOD_US ==> old(self).count() < u64::MAX,
        ensures
            final(self).period_start() == old(self).period_start(),
            if now - old(self).period_start() >= REPORT_PERIOD_US {
                report == Some(old(self).count()) && final(self).count() == 0
            } else {
                report is None && final(self).count() == old(self).count() + 1
            },
    {
        if now - self.start >= REPORT_PERIOD_US {
            let n = self.counter;
            self.counter = 0;
            Some(n)
        } else {
            self.counter = self.counter + 1;
            None
        }
    }

    /// Starts the next period at `now`.
    pub fn restart(&mut self, now: u64)
        ensures
            final(self).period_start() == now,
            final(self).count() == old(self).count(),
    {
        self.start = now;
    }
}

} // verus!
