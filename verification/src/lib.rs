//! A process-local software-timer service modeled on the kernel's
//! high-resolution timer facility: clock selection, timer creation with a
//! configurable delivery priority, one-shot and periodic arming, overrun
//! accounting, and deterministic teardown. The kernel calls themselves are
//! made by a thin unverified shell around this crate; every decision and
//! every piece of marshaling they need is verified here.

use vstd::prelude::*;

pub mod channel;
pub mod clock;
pub mod rtc;
pub mod sched;
pub mod timer;
pub mod tspec;

verus! {

/// Interprets the integer status a kernel call returns: zero is success,
/// anything else reports the error code that accompanied it.
pub fn os_result(rc: i32, errno: i32) -> (r: Result<(), i32>)
    ensures
        rc == 0 <==> r is Ok,
        rc != 0 ==> r == Result::<(), i32>::Err(errno),
{
    if rc == 0 {
        Ok(())
    } else {
        Err(errno)
    }
}

} // verus!
