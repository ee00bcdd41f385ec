use vstd::prelude::*;

verus! {

/// A point in time or a duration as the kernel represents it: whole seconds
/// and nanoseconds within the second.
#[allow(non_camel_case_types)]
#[derive(Clone, Copy, PartialEq, Eq, Structural, Debug)]
pub struct timespec_t {
    pub tv_sec: i64,
    pub tv_nsec: i64,
}

impl timespec_t {
    /// A well-formed value: non-negative, with the nanosecond part inside
    /// one second.
    pub open spec fn wf(self) -> bool {
        0 <= self.tv_sec && 0 <= self.tv_nsec < 1_000_000_000
    }

    pub open spec fn spec_is_zero(self) -> bool {
        self.tv_sec == 0 && self.tv_nsec == 0
    }

    /// The value as one nanosecond count.
    pub open spec fn spec_ns(self) -> int {
        self.tv_sec * 1_000_000_000 + self.tv_nsec
    }

    pub open spec fn spec_zero() -> timespec_t {
        timespec_t { tv_sec: 0, tv_nsec: 0 }
    }

    pub fn new(sec: i64, nsec: i64) -> (r: timespec_t)
        ensures
            r.tv_sec == sec,
            r.tv_nsec == nsec,
    {
        timespec_t { tv_sec: sec, tv_nsec: nsec }
    }

    /// Marshals a duration split into whole seconds and subsecond
    /// nanoseconds, the shape a kernel schedule field takes.
    pub fn from_duration(secs: u64, subsec_nanos: u32) -> (r: timespec_t)
        requires
            secs <= i64::MAX as u64,
            subsec_nanos < 1_000_000_000,
        ensures
            r.tv_sec == secs as i64,
            r.tv_nsec == subsec_nanos as i64,
            r.wf(),
    {
        timespec_t { tv_sec: secs as i64, tv_nsec: subsec_nanos as i64 }
    }

    pub fn is_zero(&self) -> (r: bool)
        ensures
            r == self.spec_is_zero(),
    {
        self.tv_sec == 0 && self.tv_nsec == 0
    }
}

/// A kernel timer schedule: the recurrence interval and the first-firing
/// time. A zero interval with a non-zero value is a one-shot; a non-zero
/// interval is periodic; all zero is disarmed.
#[allow(non_camel_case_types)]
#[derive(Clone, Copy, PartialEq, Eq, Structural, Debug)]
pub struct itimerspec_t {
    pub it_interval: timespec_t,
    pub it_value: timespec_t,
}

impl itimerspec_t {
    pub open spec fn spec_zero() -> itimerspec_t {
        itimerspec_t { it_interval: timespec_t::spec_zero(), it_value: timespec_t::spec_zero() }
    }

    /// Disarmed: no first firing and no recurrence, so no future firings.
    pub open spec fn is_disarmed(self) -> bool {
        self.it_interval.spec_is_zero() && self.it_value.spec_is_zero()
    }

    /// One-shot: fires once at the start time, then never again.
    pub open spec fn is_one_shot(self) -> bool {
        self.it_interval.spec_is_zero() && !self.it_value.spec_is_zero()
    }

    /// Periodic: fires at the start time and then at every interval.
    pub open spec fn is_periodic(self) -> bool {
        !self.it_interval.spec_is_zero()
    }

    /// The all-zero schedule, which disarms a timer.
    pub fn new() -> (r: itimerspec_t)
        ensures
            r == itimerspec_t::spec_zero(),
            r.is_disarmed(),
    {
        itimerspec_t { it_interval: timespec_t::new(0, 0), it_value: timespec_t::new(0, 0) }
    }

    pub fn with_value(interval: timespec_t, value: timespec_t) -> (r: itimerspec_t)
        ensures
            r.it_interval == interval,
            r.it_value == value,
    {
        itimerspec_t { it_interval: interval, it_value: value }
    }

    /// Whether the schedule delivers a k-th firing, counting from zero: a
    /// disarmed schedule delivers none, a one-shot only the first, a
    /// periodic schedule every one, indefinitely.
    pub open spec fn spec_fires(self, k: nat) -> bool {
        if self.is_disarmed() {
            false
        } else if self.is_one_shot() {
            k == 0
        } else {
            true
        }
    }

    /// The clock reading at the k-th firing: the start time plus k whole
    /// intervals.
    pub open spec fn spec_firing_time(self, k: nat) -> int {
        self.it_value.spec_ns() + k * self.it_interval.spec_ns()
    }
}

/// A well-formed non-zero time amounts to a positive nanosecond count.
pub proof fn lemma_wf_nonzero_is_positive(t: timespec_t)
    requires
        t.wf(),
        !t.spec_is_zero(),
    ensures
        t.spec_ns() > 0,
{
    if t.tv_sec >= 1 {
        assert(t.tv_sec * 1_000_000_000 >= 1_000_000_000) by (nonlinear_arith)
            requires
                t.tv_sec >= 1,
        ;
    }
}

/// Arming with a zero interval and a non-zero start time yields a one-shot
/// schedule: exactly one firing, no recurrence.
pub proof fn lemma_zero_interval_is_one_shot(interval: timespec_t, start: timespec_t)
    requires
        interval.spec_is_zero(),
        !start.spec_is_zero(),
    ensures
        (itimerspec_t { it_interval: interval, it_value: start }).is_one_shot(),
        !(itimerspec_t { it_interval: interval, it_value: start }).is_periodic(),
{
}

/// Arming with a non-zero interval yields a periodic schedule, whatever the
/// start time: firings recur at the interval until disarm or destruction.
pub proof fn lemma_nonzero_interval_is_periodic(interval: timespec_t, start: timespec_t)
    requires
        !interval.spec_is_zero(),
    ensures
        (itimerspec_t { it_interval: interval, it_value: start }).is_periodic(),
{
}

/// A disarmed schedule is neither one-shot nor periodic: it produces no
/// further firings.
pub proof fn lemma_disarmed_fires_nothing(s: itimerspec_t)
    requires
        s.is_disarmed(),
    ensures
        !s.is_one_shot(),
        !s.is_periodic(),
        forall|k: nat| !s.spec_fires(k),
{
}

/// A one-shot schedule delivers its first firing, at the start time, and no
/// other: exactly one notification, then no more.
pub proof fn lemma_one_shot_fires_exactly_once(s: itimerspec_t)
    requires
        s.is_one_shot(),
    ensures
        s.spec_fires(0),
        s.spec_firing_time(0) == s.it_value.spec_ns(),
        forall|k: nat| k >= 1 ==> !s.spec_fires(k),
{
}

/// A periodic schedule delivers every firing, consecutive firings one full
/// interval apart, indefinitely until disarm or destruction.
pub proof fn lemma_periodic_fires_at_period(s: itimerspec_t, k: nat)
    requires
        s.is_periodic(),
    ensures
        s.spec_fires(k),
        s.spec_firing_time(k + 1) - s.spec_firing_time(k) == s.it_interval.spec_ns(),
{
    let i = s.it_interval.spec_ns();
    assert((k + 1) * i - k * i == i) by (nonlinear_arith);
}

/// Over a window of n whole periods from the start time, a well-formed
/// periodic schedule fires exactly n times: the k-th firing falls before the
/// window's end exactly when k < n.
pub proof fn lemma_periodic_count_in_window(s: itimerspec_t, k: nat, n: nat)
    requires
        s.is_periodic(),
        s.it_interval.wf(),
    ensures
        s.spec_firing_time(k) < s.spec_firing_time(n) <==> k < n,
{
    lemma_wf_nonzero_is_positive(s.it_interval);
    let i = s.it_interval.spec_ns();
    assert(k * i < n * i <==> k < n) by (nonlinear_arith)
        requires
            i > 0,
    ;
}

} // verus!
