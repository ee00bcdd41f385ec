use vstd::prelude::*;

use crate::channel::NotificationQueue;
use crate::clock::ClockSource;
use crate::sched::sched_param_t;
use crate::tspec::itimerspec_t;

verus! {

/// A handle owning one kernel timer. It is constructed empty, binds a
/// kernel-assigned identity when creation succeeds, can be armed and
/// disarmed repeatedly, and owns the channel its firing notifications go
/// through. The unverified shell makes each kernel call and reports the
/// outcome here; this type decides what every outcome means and keeps the
/// model of the kernel state.
pub struct Timer {
    timer_id: u64,
    clock: ClockSource,
    delivery_priority: i32,
    schedule: itimerspec_t,
    on_arrived: NotificationQueue,
}

impl Timer {
    /// The kernel identity this handle holds; zero means "not created".
    pub closed spec fn spec_id(self) -> u64 {
        self.timer_id
    }

    /// Creation has succeeded and the handle has not been destroyed.
    pub open spec fn spec_created(self) -> bool {
        self.spec_id() != 0
    }

    /// The clock the timer counts against; meaningful once created.
    pub closed spec fn spec_clock(self) -> ClockSource {
        self.clock
    }

    /// The clamped priority of the delivery thread; meaningful once created.
    pub closed spec fn spec_priority(self) -> int {
        self.delivery_priority as int
    }

    /// The schedule last committed to the kernel.
    pub closed spec fn spec_schedule(self) -> itimerspec_t {
        self.schedule
    }

    /// The notifications delivered but not yet drained, oldest first.
    pub closed spec fn spec_pending(self) -> Seq<u32> {
        self.on_arrived@
    }

    /// The parts of the handle no arming operation may touch: the kernel
    /// identity, the clock it was created against, and the delivery
    /// priority.
    pub open spec fn same_identity(self, other: Timer) -> bool {
        &&& self.spec_id() == other.spec_id()
        &&& self.spec_clock() == other.spec_clock()
        &&& self.spec_priority() == other.spec_priority()
    }

    /// An empty handle: no kernel identity, a disarmed schedule, and an
    /// empty notification channel.
    pub fn new() -> (r: Timer)
        ensures
            !r.spec_created(),
            r.spec_id() == 0,
            r.spec_schedule() == itimerspec_t::spec_zero(),
            r.spec_pending() == Seq::<u32>::empty(),
    {
        Timer {
            timer_id: 0,
            clock: ClockSource::Realtime,
            delivery_priority: 0,
            schedule: itimerspec_t::new(),
            on_arrived: NotificationQueue::new(),
        }
    }

    /// The identity as an unsigned value; zero means "not created".
    pub fn get_id(&self) -> (r: u64)
        ensures
            r == self.spec_id(),
            r != 0 <==> self.spec_created(),
    {
        self.timer_id
    }

    /// Completes the kernel create call. On success the kernel-assigned
    /// identity (always non-zero), the chosen clock, and the delivery
    /// priority are bound to the handle; on failure the error is returned
    /// and the handle is left exactly as it was, with no partial state.
    pub fn ticker(
        &mut self,
        clock: ClockSource,
        prio: sched_param_t,
        rc: i32,
        errno: i32,
        kernel_id: u64,
    ) -> (r: Result<(), i32>)
        requires
            !old(self).spec_created(),
            rc == 0 ==> kernel_id != 0,
        ensures
            rc == 0 <==> r is Ok,
            rc == 0 <==> final(self).spec_created(),
            rc != 0 ==> r == Result::<(), i32>::Err(errno) && *final(self) == *old(self),
            rc == 0 ==> final(self).spec_id() == kernel_id && final(self).spec_clock() == clock
                && final(self).spec_priority() == prio.sched_priority,
            final(self).spec_schedule() == old(self).spec_schedule(),
            final(self).spec_pending() == old(self).spec_pending(),
    {
        if rc == 0 {
            self.timer_id = kernel_id;
            self.clock = clock;
            self.delivery_priority = prio.sched_priority;
            Ok(())
        } else {
            Err(errno)
        }
    }

    /// Commits a schedule whose start time is a point on the clock. On
    /// kernel success the committed schedule becomes (interval, from); on
    /// failure the previous schedule stays in effect (the kernel call
    /// replaces atomically or not at all). The identity and the queued
    /// notifications are untouched either way.
    pub fn start_abstime(
        &mut self,
        interval: crate::tspec::timespec_t,
        from: crate::tspec::timespec_t,
        rc: i32,
        errno: i32,
    ) -> (r: Result<(), i32>)
        requires
            old(self).spec_created(),
        ensures
            rc == 0 <==> r is Ok,
            rc != 0 ==> r == Result::<(), i32>::Err(errno),
            rc == 0 ==> final(self).spec_schedule() == (itimerspec_t {
                it_interval: interval,
                it_value: from,
            }),
            rc != 0 ==> final(self).spec_schedule() == old(self).spec_schedule(),
            final(self).same_identity(*old(self)),
            final(self).spec_created(),
            final(self).spec_pending() == old(self).spec_pending(),
    {
        if rc == 0 {
            self.schedule = itimerspec_t::with_value(interval, from);
            Ok(())
        } else {
            Err(errno)
        }
    }

    /// Commits a schedule whose start time is an offset from now on the
    /// clock. The committed schedule is the same two-field value as in the
    /// absolute case; only the flag the shell hands the kernel differs.
    pub fn start_reltime(
        &mut self,
        interval: crate::tspec::timespec_t,
        from: crate::tspec::timespec_t,
        rc: i32,
        errno: i32,
    ) -> (r: Result<(), i32>)
        requires
            old(self).spec_created(),
        ensures
            rc == 0 <==> r is Ok,
            rc != 0 ==> r == Result::<(), i32>::Err(errno),
            rc == 0 ==> final(self).spec_schedule() == (itimerspec_t {
                it_interval: interval,
                it_value: from,
            }),
            rc != 0 ==> final(self).spec_schedule() == old(self).spec_schedule(),
            final(self).same_identity(*old(self)),
            final(self).spec_created(),
            final(self).spec_pending() == old(self).spec_pending(),
    {
        if rc == 0 {
            self.schedule = itimerspec_t::with_value(interval, from);
            Ok(())
        } else {
            Err(errno)
        }
    }

    /// Commits the all-zero schedule: stops all future firings while the
    /// kernel object, its identity, and anything already queued are kept.
    /// On failure the previous schedule stays in effect.
    pub fn stop(&mut self, rc: i32, errno: i32) -> (r: Result<(), i32>)
        requires
            old(self).spec_created(),
        ensures
            rc == 0 <==> r is Ok,
            rc != 0 ==> r == Result::<(), i32>::Err(errno),
            rc == 0 ==> final(self).spec_schedule() == itimerspec_t::spec_zero(),
            rc == 0 ==> final(self).spec_schedule().is_disarmed(),
            rc != 0 ==> final(self).spec_schedule() == old(self).spec_schedule(),
            final(self).same_identity(*old(self)),
            final(self).spec_created(),
            final(self).spec_pending() == old(self).spec_pending(),
    {
        if rc == 0 {
            self.schedule = itimerspec_t::new();
            Ok(())
        } else {
            Err(errno)
        }
    }

    /// The schedule last committed to the kernel.
    pub fn schedule(&self) -> (r: itimerspec_t)
        ensures
            r == self.spec_schedule(),
    {
        self.schedule
    }

    /// Runs the decision part of one firing delivery: the overrun count the
    /// shell read from the kernel is queued behind every earlier
    /// notification, FIFO, none dropped and none merged.
    pub fn deliver(&mut self, overrun: u32)
        requires
            old(self).spec_created(),
        ensures
            final(self).spec_pending() == old(self).spec_pending().push(overrun),
            final(self).same_identity(*old(self)),
            final(self).spec_schedule() == old(self).spec_schedule(),
            final(self).spec_created(),
    {
        self.on_arrived.push(overrun);
    }

    /// Drains the oldest pending notification, if any: notifications leave
    /// in the order the firings were delivered.
    pub fn try_receive(&mut self) -> (r: Option<u32>)
        ensures
            old(self).spec_pending().len() == 0 ==> r is None,
            old(self).spec_pending().len() == 0 ==> final(self).spec_pending()
                == old(self).spec_pending(),
            old(self).spec_pending().len() > 0 ==> r == Some(old(self).spec_pending().first()),
            old(self).spec_pending().len() > 0 ==> final(self).spec_pending()
                == old(self).spec_pending().drop_first(),
            final(self).same_identity(*old(self)),
            final(self).spec_schedule() == old(self).spec_schedule(),
    {
        self.on_arrived.try_receive()
    }

    /// The destruction decision: the kernel delete call is owed exactly when
    /// a kernel identity is held. A handle whose creation never succeeded
    /// needs no kernel call at all.
    pub fn needs_delete(&self) -> (r: bool)
        ensures
            r == self.spec_created(),
    {
        self.timer_id != 0
    }
}

/// A handle reports a non-zero identity exactly when creation has succeeded
/// and the handle has not been destroyed; a never-created handle reports
/// zero.
pub proof fn lemma_identity_nonzero_iff_created(t: Timer)
    ensures
        t.spec_created() <==> t.spec_id() != 0,
{
}

} // verus!
