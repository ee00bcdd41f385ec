use ktimer::clock::ClockSource;
use ktimer::sched::sched_param_t;
use ktimer::timer::Timer;
use ktimer::tspec::timespec_t;

fn created_timer(id: u64) -> Timer {
    let mut t = Timer::new();
    let prio = sched_param_t::new(50, 1, 99);
    let r = t.ticker(ClockSource::Monotonic, prio, 0, 0, id);
    assert!(r.is_ok());
    t
}

#[test]
fn never_created_reports_zero_id() {
    let t = Timer::new();
    assert_eq!(t.get_id(), 0);
}

#[test]
fn create_binds_nonzero_identity() {
    let t = created_timer(42);
    assert_ne!(t.get_id(), 0);
    assert_eq!(t.get_id(), 42);
}

#[test]
fn failed_create_leaves_handle_empty() {
    let mut t = Timer::new();
    let prio = sched_param_t::new(50, 1, 99);
    let r = t.ticker(ClockSource::Realtime, prio, -1, 12, 0);
    assert_eq!(r, Err(12));
    assert_eq!(t.get_id(), 0);
    assert!(!t.needs_delete());
}

#[test]
fn never_created_needs_no_delete() {
    let t = Timer::new();
    assert!(!t.needs_delete());
}

#[test]
fn created_handle_needs_delete() {
    let t = created_timer(7);
    assert!(t.needs_delete());
}

#[test]
fn priority_above_max_clamped_on_monotonic_create() {
    let clock = ClockSource::Monotonic;
    assert_eq!(clock.clock_id(), 1);
    let prio = sched_param_t::new(999, 1, 99);
    assert_eq!(prio.sched_priority, 99);
    let mut t = Timer::new();
    let r = t.ticker(clock, prio, 0, 0, 3);
    assert!(r.is_ok());
    assert_ne!(t.get_id(), 0);
}

#[test]
fn priority_below_min_clamped() {
    let prio = sched_param_t::new(0, 1, 99);
    assert_eq!(prio.sched_priority, 1);
}

#[test]
fn priority_in_range_passes_through() {
    let prio = sched_param_t::new(50, 1, 99);
    assert_eq!(prio.sched_priority, 50);
}

#[test]
fn one_shot_schedule_shape() {
    let mut t = created_timer(5);
    let interval = timespec_t::new(0, 0);
    let start = timespec_t::from_duration(0, 500_000_000);
    let r = t.start_reltime(interval, start, 0, 0);
    assert!(r.is_ok());
    let s = t.schedule();
    assert!(s.it_interval.is_zero());
    assert_eq!(s.it_value.tv_sec, 0);
    assert_eq!(s.it_value.tv_nsec, 500_000_000);
}

#[test]
fn periodic_schedule_shape() {
    let mut t = created_timer(5);
    let interval = timespec_t::from_duration(0, 640_000_000);
    let start = timespec_t::from_duration(1, 0);
    let r = t.start_abstime(interval, start, 0, 0);
    assert!(r.is_ok());
    let s = t.schedule();
    assert!(!s.it_interval.is_zero());
    assert_eq!(s.it_interval.tv_nsec, 640_000_000);
    assert_eq!(s.it_value.tv_sec, 1);
}

#[test]
fn disarm_zeroes_schedule_and_rearm_resumes() {
    let mut t = created_timer(5);
    let interval = timespec_t::from_duration(0, 640_000_000);
    let start = timespec_t::from_duration(1, 0);
    assert!(t.start_reltime(interval, start, 0, 0).is_ok());
    assert!(t.stop(0, 0).is_ok());
    let s = t.schedule();
    assert!(s.it_interval.is_zero());
    assert!(s.it_value.is_zero());
    assert!(t.start_reltime(interval, start, 0, 0).is_ok());
    assert!(!t.schedule().it_interval.is_zero());
}

#[test]
fn failed_arm_keeps_previous_schedule() {
    let mut t = created_timer(5);
    let interval = timespec_t::from_duration(2, 0);
    let start = timespec_t::from_duration(1, 0);
    assert!(t.start_abstime(interval, start, 0, 0).is_ok());
    let other = timespec_t::from_duration(9, 0);
    let r = t.start_abstime(other, other, -1, 22);
    assert_eq!(r, Err(22));
    let s = t.schedule();
    assert_eq!(s.it_interval.tv_sec, 2);
    assert_eq!(s.it_value.tv_sec, 1);
}

#[test]
fn failed_disarm_keeps_previous_schedule() {
    let mut t = created_timer(5);
    let interval = timespec_t::from_duration(2, 0);
    let start = timespec_t::from_duration(1, 0);
    assert!(t.start_reltime(interval, start, 0, 0).is_ok());
    let r = t.stop(-1, 16);
    assert_eq!(r, Err(16));
    assert_eq!(t.schedule().it_interval.tv_sec, 2);
}

#[test]
fn notifications_drain_in_firing_order() {
    let mut t = created_timer(9);
    t.deliver(0);
    t.deliver(2);
    t.deliver(1);
    assert_eq!(t.try_receive(), Some(0));
    assert_eq!(t.try_receive(), Some(2));
    assert_eq!(t.try_receive(), Some(1));
    assert_eq!(t.try_receive(), None);
}

#[test]
fn receive_on_empty_channel_yields_nothing() {
    let mut t = created_timer(9);
    assert_eq!(t.try_receive(), None);
}
