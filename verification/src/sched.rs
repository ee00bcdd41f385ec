use vstd::prelude::*;

verus! {

/// The fixed scheduling class used for timer-delivery threads.
pub const SCHED_FIFO: i32 = 1;

/// Notification descriptor kind: the kernel delivers each firing by invoking
/// the entry point on a thread it owns.
pub const SIGEV_THREAD: i32 = 2;

/// A priority clamped into the legal range: requests above the maximum come
/// back as the maximum, requests below the minimum as the minimum.
pub open spec fn spec_clamp(p: int, min: int, max: int) -> int {
    if p > max {
        max
    } else if p < min {
        min
    } else {
        p
    }
}

/// Scheduling-priority descriptor for the kernel-created delivery thread.
#[allow(non_camel_case_types)]
#[derive(Clone, Copy, PartialEq, Eq, Structural, Debug)]
pub struct sched_param_t {
    pub sched_priority: i32,
}

impl sched_param_t {
    /// Builds the descriptor, silently clamping the requested priority into
    /// the legal `[min, max]` range of the delivery scheduling class;
    /// out-of-range requests are clamped, never rejected.
    pub fn new(priority: i32, min: i32, max: i32) -> (r: sched_param_t)
        requires
            min <= max,
        ensures
            r.sched_priority == spec_clamp(priority as int, min as int, max as int),
            min <= r.sched_priority <= max,
    {
        let mut priority = priority;
        if priority > max {
            priority = max;
        }
        if priority < min {
            priority = min;
        }
        sched_param_t { sched_priority: priority }
    }
}

/// A priority request above the legal maximum is clamped to the class
/// maximum rather than rejected.
pub proof fn lemma_overlarge_request_clamps_to_max(p: int, min: int, max: int)
    requires
        min <= max,
        p > max,
    ensures
        spec_clamp(p, min, max) == max,
{
}

/// The plain-valued part of the kernel notification descriptor: how firings
/// are delivered and at what thread priority. The callback entry point and
/// the opaque context pointer are wired in by the unverified shell.
#[allow(non_camel_case_types)]
#[derive(Clone, Copy, PartialEq, Eq, Structural, Debug)]
pub struct sigevent_plan_t {
    pub sigev_signo: i32,
    pub sigev_notify: i32,
    pub priority: sched_param_t,
}

impl sigevent_plan_t {
    /// Plans callback delivery: the kernel invokes the entry point on a
    /// thread it owns (no signal is involved), scheduled at the requested
    /// priority clamped into the legal range of the delivery class.
    pub fn with_callback(priority: i32, min: i32, max: i32) -> (r: sigevent_plan_t)
        requires
            min <= max,
        ensures
            r.sigev_notify == SIGEV_THREAD,
            r.sigev_signo == 0,
            r.priority.sched_priority == spec_clamp(priority as int, min as int, max as int),
            min <= r.priority.sched_priority <= max,
    {
        sigevent_plan_t {
            sigev_signo: 0,
            sigev_notify: SIGEV_THREAD,
            priority: sched_param_t::new(priority, min, max),
        }
    }
}

/// Thread-attributes block for the delivery thread, zero-initialized before
/// the kernel attribute-init call fills it in.
#[allow(non_camel_case_types)]
pub struct pthread_attr_t {
    pub __pad: [u8; 56],
}

impl pthread_attr_t {
    /// A zeroed attributes block.
    pub fn new() -> (r: pthread_attr_t)
        ensures
            forall|i: int| 0 <= i < 56 ==> r.__pad[i] == 0,
    {
        pthread_attr_t { __pad: [0u8; 56] }
    }
}

} // verus!
