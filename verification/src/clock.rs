use vstd::prelude::*;

verus! {

/// The kernel clock a timer counts against. Fixed when the timer is
/// created; immutable afterwards.
#[derive(Clone, Copy, PartialEq, Eq, Structural, Debug)]
pub enum ClockSource {
    /// System-wide wall clock; settable.
    Realtime,
    /// Monotonic system-wide clock.
    Monotonic,
    /// High-resolution per-process CPU-time clock.
    ProcessCputime,
    /// Thread-specific CPU-time clock.
    ThreadCputime,
    /// Monotonic clock, not adjusted for frequency scaling.
    MonotonicRaw,
    /// Wall clock updated only on ticks.
    RealtimeCoarse,
    /// Monotonic clock updated only on ticks.
    MonotonicCoarse,
    /// Monotonic clock that includes time spent in suspension.
    Boottime,
    /// Like the wall clock, but also wakes a suspended system.
    RealtimeAlarm,
    /// Like the boot clock, but also wakes a suspended system.
    BoottimeAlarm,
    /// Wall clock in International Atomic Time.
    Tai,
}

impl ClockSource {
    /// The identifier the kernel assigns this clock.
    pub open spec fn spec_clock_id(self) -> i32 {
        match self {
            ClockSource::Realtime => 0,
            ClockSource::Monotonic => 1,
            ClockSource::ProcessCputime => 2,
            ClockSource::ThreadCputime => 3,
            ClockSource::MonotonicRaw => 4,
            ClockSource::RealtimeCoarse => 5,
            ClockSource::MonotonicCoarse => 6,
            ClockSource::Boottime => 7,
            ClockSource::RealtimeAlarm => 8,
            ClockSource::BoottimeAlarm => 9,
            ClockSource::Tai => 11,
        }
    }

    /// The clock identifier to hand to the kernel create call.
    pub fn clock_id(&self) -> (r: i32)
        ensures
            r == self.spec_clock_id(),
    {
        match self {
            ClockSource::Realtime => 0,
            ClockSource::Monotonic => 1,
            ClockSource::ProcessCputime => 2,
            ClockSource::ThreadCputime => 3,
            ClockSource::MonotonicRaw => 4,
            ClockSource::RealtimeCoarse => 5,
            ClockSource::MonotonicCoarse => 6,
            ClockSource::Boottime => 7,
            ClockSource::RealtimeAlarm => 8,
            ClockSource::BoottimeAlarm => 9,
            ClockSource::Tai => 11,
        }
    }
}

/// Flag for the kernel set-time call when the start time is a point on the
/// clock rather than an offset from now.
pub const TIMER_ABSTIME: i32 = 1;

} // verus!
