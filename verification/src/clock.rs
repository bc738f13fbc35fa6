//! Monotonic clock readings and the fixed delays of the hold protocol.

use vstd::prelude::*;

verus! {

/// Nanoseconds in one millisecond.
pub const NANOS_PER_MILLI: u64 = 1_000_000;

/// Refractory window of the debounce guard, in milliseconds.
pub const DEBOUNCE_WINDOW_MS: u64 = 25;

/// How long a start attempt may wait for the audio subsystem, in milliseconds.
pub const START_DEADLINE_MS: u64 = 2000;

/// Pause between two readiness probes of a start attempt, in milliseconds.
pub const POLL_INTERVAL_MS: u64 = 20;

/// Pause after focus was handed back, before the workflow runs, in milliseconds.
pub const FOCUS_SETTLE_MS: u64 = 100;

/// How long the indicator shows a success, in milliseconds.
pub const SUCCESS_DWELL_MS: u64 = 500;

/// How long the indicator shows an error, in milliseconds.
pub const ERROR_DWELL_MS: u64 = 3000;

/// A reading of a monotonic clock, in nanoseconds since an origin that the
/// caller fixes once for the lifetime of the process.
#[derive(Clone, Copy, PartialEq, Eq, Structural, Debug)]
pub struct Timestamp {
    pub nanos: u64,
}

impl Timestamp {
    /// Nanoseconds from `earlier` to `self`; zero when `earlier` is the later one.
    pub open spec fn nanos_since(self, earlier: Timestamp) -> nat {
        if self.nanos >= earlier.nanos {
            (self.nanos - earlier.nanos) as nat
        } else {
            0
        }
    }

    /// Whole milliseconds from `earlier` to `self`, rounded down.
    pub open spec fn millis_since(self, earlier: Timestamp) -> nat {
        self.nanos_since(earlier) / (NANOS_PER_MILLI as nat)
    }

    /// Whether more than `millis` milliseconds lie between `earlier` and `self`.
    pub open spec fn is_more_than_after(self, millis: u64, earlier: Timestamp) -> bool {
        self.nanos_since(earlier) > millis * NANOS_PER_MILLI
    }

    /// Whether at least `millis` milliseconds lie between `earlier` and `self`.
    pub open spec fn is_at_least_after(self, millis: u64, earlier: Timestamp) -> bool {
        self.nanos_since(earlier) >= millis * NANOS_PER_MILLI
    }

    /// The reading `nanos` nanoseconds after the origin.
    pub fn from_nanos(nanos: u64) -> (t: Timestamp)
        ensures
            t.nanos == nanos,
    {
        Timestamp { nanos }
    }

    /// The reading `millis` milliseconds after the origin, or the last
    /// representable reading when that lies beyond it.
    pub fn from_millis(millis: u64) -> (t: Timestamp)
        ensures
            t.nanos == if millis * NANOS_PER_MILLI <= u64::MAX {
                millis * NANOS_PER_MILLI
            } else {
                u64::MAX as int
            },
    {
        if millis <= u64::MAX / NANOS_PER_MILLI {
            assert(millis * NANOS_PER_MILLI <= u64::MAX) by (nonlinear_arith)
                requires
                    millis <= u64::MAX / NANOS_PER_MILLI,
            ;
            Timestamp { nanos: millis * NANOS_PER_MILLI }
        } else {
            assert(millis * NANOS_PER_MILLI > u64::MAX) by (nonlinear_arith)
                requires
                    millis > u64::MAX / NANOS_PER_MILLI,
            ;
            Timestamp { nanos: u64::MAX }
        }
    }

    /// The reading in nanoseconds.
    pub fn as_nanos(self) -> (n: u64)
        ensures
            n == self.nanos,
    {
        self.nanos
    }

    /// Nanoseconds elapsed from `earlier` to `self`, zero when the clock
    /// readings are out of order.
    pub fn saturating_nanos_since(self, earlier: Timestamp) -> (n: u64)
        ensures
            n == self.nanos_since(earlier),
    {
        if self.nanos >= earlier.nanos {
            self.nanos - earlier.nanos
        } else {
            0
        }
    }

    /// Whole milliseconds elapsed from `earlier` to `self`, rounded down.
    pub fn saturating_millis_since(self, earlier: Timestamp) -> (ms: u64)
        ensures
            ms == self.millis_since(earlier),
    {
        self.saturating_nanos_since(earlier) / NANOS_PER_MILLI
    }

    /// Tells whether strictly more than `millis` milliseconds have passed
    /// from `earlier` to `self`.
    pub fn more_than_after(self, millis: u64, earlier: Timestamp) -> (b: bool)
        ensures
            b == self.is_more_than_after(millis, earlier),
    {
        if millis <= u64::MAX / NANOS_PER_MILLI {
            assert(millis * NANOS_PER_MILLI <= u64::MAX) by (nonlinear_arith)
                requires
                    millis <= u64::MAX / NANOS_PER_MILLI,
            ;
            self.saturating_nanos_since(earlier) > millis * NANOS_PER_MILLI
        } else {
            assert(millis * NANOS_PER_MILLI > u64::MAX) by (nonlinear_arith)
                requires
                    millis > u64::MAX / NANOS_PER_MILLI,
            ;
            false
        }
    }

    /// Tells whether at least `millis` milliseconds have passed from
    /// `earlier` to `self`.
    pub fn at_least_after(self, millis: u64, earlier: Timestamp) -> (b: bool)
        ensures
            b == self.is_at_least_after(millis, earlier),
    {
        if millis <= u64::MAX / NANOS_PER_MILLI {
            assert(millis * NANOS_PER_MILLI <= u64::MAX) by (nonlinear_arith)
                requires
                    millis <= u64::MAX / NANOS_PER_MILLI,
            ;
            self.saturating_nanos_since(earlier) >= millis * NANOS_PER_MILLI
        } else {
            assert(millis * NANOS_PER_MILLI > u64::MAX) by (nonlinear_arith)
                requires
                    millis > u64::MAX / NANOS_PER_MILLI,
            ;
            false
        }
    }
}

} // verus!
