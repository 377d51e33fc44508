//! Time of day, held as whole seconds and nanoseconds since midnight.

use vstd::prelude::*;

verus! {

/// Number of seconds in a day without leap seconds.
pub const SECONDS_PER_DAY: u32 = 86_400;

/// Number of nanoseconds in one second.
pub const NANOS_PER_SECOND: u32 = 1_000_000_000;

/// Exclusive bound of the nanosecond field: values from one second up to
/// this bound stand for a leap second.
pub const NANOS_BOUND: u32 = 2_000_000_000;

/// A local time of day, as read from the wall clock.
#[derive(Clone, Copy, Debug, PartialEq, Eq, Structural)]
pub struct TimeOfDay {
    /// Whole seconds since midnight, below `SECONDS_PER_DAY`.
    pub secs: u32,
    /// Nanoseconds since the whole second, below `NANOS_BOUND`.
    pub nanos: u32,
}

impl TimeOfDay {
    /// Both fields lie in their ranges.
    pub open spec fn wf(self) -> bool {
        &&& self.secs < SECONDS_PER_DAY
        &&& self.nanos < NANOS_BOUND
    }

    /// The time of day as a count of nanoseconds since midnight.
    pub open spec fn total_nanos(self) -> int {
        self.secs * NANOS_PER_SECOND + self.nanos
    }

    /// Builds a time of day from its two fields; `None` where either lies
    /// outside its range.
    pub fn new(secs: u32, nanos: u32) -> (r: Option<TimeOfDay>)
        ensures
            r is Some <==> (secs < SECONDS_PER_DAY && nanos < NANOS_BOUND),
            r matches Some(t) ==> t.secs == secs && t.nanos == nanos,
    {
        if secs < SECONDS_PER_DAY && nanos < NANOS_BOUND {
            Some(TimeOfDay { secs, nanos })
        } else {
            None
        }
    }

    /// The time of day as nanoseconds since midnight.
    pub fn nanos_since_midnight(&self) -> (r: u64)
        ensures
            r == self.total_nanos(),
    {
        assert(self.secs * NANOS_PER_SECOND <= 0xffff_ffffu32 * 1_000_000_000u32)
            by (nonlinear_arith);
        self.secs as u64 * NANOS_PER_SECOND as u64 + self.nanos as u64
    }

    /// Reads the local wall clock.
    pub fn now_local() -> (r: TimeOfDay)
        ensures
            r.wf(),
    {
        local_clock_reading()
    }
}

/// Relies on `chrono::Local::now` for the current local date and time, and on
/// `chrono::Timelike::num_seconds_from_midnight` (0 to 86399) and
/// `chrono::Timelike::nanosecond` (below 2,000,000,000, leap second included)
/// of its `NaiveTime`.
#[verifier::external_body]
fn local_clock_reading() -> (r: TimeOfDay)
    ensures
        r.wf(),
{
    let time = chrono::Local::now().time();
    TimeOfDay {
        secs: chrono::Timelike::num_seconds_from_midnight(&time),
        nanos: chrono::Timelike::nanosecond(&time),
    }
}

} // verus!
