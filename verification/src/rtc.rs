use vstd::prelude::*;

verus! {

/// A signed offset for gradual clock adjustment: whole seconds and
/// microseconds, the shape the kernel slew call takes and returns.
#[allow(non_camel_case_types)]
#[derive(Clone, Copy, PartialEq, Eq, Structural, Debug)]
pub struct timeval_t {
    pub tv_sec: i32,
    pub tv_usec: i32,
}

impl timeval_t {
    pub fn new(sec: i32, usec: i32) -> (r: timeval_t)
        ensures
            r.tv_sec == sec,
            r.tv_usec == usec,
    {
        timeval_t { tv_sec: sec, tv_usec: usec }
    }

    /// The zero offset, used to receive the previously pending adjustment.
    pub fn zero() -> (r: timeval_t)
        ensures
            r.tv_sec == 0,
            r.tv_usec == 0,
    {
        timeval_t { tv_sec: 0, tv_usec: 0 }
    }
}

/// A well-formed realtime reading: the nanosecond part lies inside one
/// second. Read and written as a whole, never partially.
pub open spec fn spec_valid_reading(sec: i64, nsec: i64) -> bool {
    0 <= nsec < 1_000_000_000
}

/// Checks that a (seconds, nanoseconds) pair is a well-formed realtime
/// reading.
pub fn valid_reading(sec: i64, nsec: i64) -> (r: bool)
    ensures
        r == spec_valid_reading(sec, nsec),
{
    0 <= nsec && nsec < 1_000_000_000
}

} // verus!
