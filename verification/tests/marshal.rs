use ktimer::channel::{tally, FiringStats, NotificationQueue};
use ktimer::clock::ClockSource;
use ktimer::os_result;
use ktimer::rtc::{timeval_t, valid_reading};
use ktimer::sched::pthread_attr_t;
use ktimer::tspec::{itimerspec_t, timespec_t};

#[test]
fn clock_identifiers_match_kernel() {
    assert_eq!(ClockSource::Realtime.clock_id(), 0);
    assert_eq!(ClockSource::Monotonic.clock_id(), 1);
    assert_eq!(ClockSource::ProcessCputime.clock_id(), 2);
    assert_eq!(ClockSource::ThreadCputime.clock_id(), 3);
    assert_eq!(ClockSource::MonotonicRaw.clock_id(), 4);
    assert_eq!(ClockSource::RealtimeCoarse.clock_id(), 5);
    assert_eq!(ClockSource::MonotonicCoarse.clock_id(), 6);
    assert_eq!(ClockSource::Boottime.clock_id(), 7);
    assert_eq!(ClockSource::RealtimeAlarm.clock_id(), 8);
    assert_eq!(ClockSource::BoottimeAlarm.clock_id(), 9);
    assert_eq!(ClockSource::Tai.clock_id(), 11);
}

#[test]
fn abstime_flag_value() {
    assert_eq!(ktimer::clock::TIMER_ABSTIME, 1);
}

#[test]
fn duration_marshals_to_timespec() {
    let ts = timespec_t::from_duration(1, 640_000_000);
    assert_eq!(ts.tv_sec, 1);
    assert_eq!(ts.tv_nsec, 640_000_000);
    assert!(!ts.is_zero());
    let z = timespec_t::new(0, 0);
    assert!(z.is_zero());
}

#[test]
fn schedule_builders_fill_both_fields() {
    let z = itimerspec_t::new();
    assert!(z.it_interval.is_zero());
    assert!(z.it_value.is_zero());
    let iv = timespec_t::new(3, 4);
    let st = timespec_t::new(5, 6);
    let s = itimerspec_t::with_value(iv, st);
    assert_eq!(s.it_interval, iv);
    assert_eq!(s.it_value, st);
}

#[test]
fn attribute_block_starts_zeroed() {
    let a = pthread_attr_t::new();
    assert!(a.__pad.iter().all(|b| *b == 0));
}

#[test]
fn os_result_maps_kernel_status() {
    assert_eq!(os_result(0, 0), Ok(()));
    assert_eq!(os_result(-1, 22), Err(22));
    assert_eq!(os_result(1, 95), Err(95));
}

#[test]
fn queue_is_fifo_without_loss() {
    let mut q = NotificationQueue::new();
    assert_eq!(q.len(), 0);
    q.push(4);
    q.push(0);
    q.push(7);
    assert_eq!(q.len(), 3);
    assert_eq!(q.try_receive(), Some(4));
    assert_eq!(q.try_receive(), Some(0));
    assert_eq!(q.try_receive(), Some(7));
    assert_eq!(q.try_receive(), None);
}

#[test]
fn record_accounts_overrun_plus_one() {
    let mut s = FiringStats::new();
    s.record(0);
    assert_eq!(s.notifications, 1);
    assert_eq!(s.firings, 1);
    s.record(3);
    assert_eq!(s.notifications, 2);
    assert_eq!(s.firings, 5);
}

#[test]
fn tally_counts_every_elapsed_period() {
    let log: Vec<u32> = vec![0, 2, 1];
    let stats = tally(&log);
    assert_eq!(stats.notifications, 3);
    assert_eq!(stats.firings, 6);
    let on_time: Vec<u32> = vec![0, 0, 0, 0];
    let s2 = tally(&on_time);
    assert_eq!(s2.notifications, 4);
    assert_eq!(s2.firings, 4);
    let empty: Vec<u32> = vec![];
    let s3 = tally(&empty);
    assert_eq!(s3.notifications, 0);
    assert_eq!(s3.firings, 0);
}

#[test]
fn timeval_builders_are_exact() {
    let tv = timeval_t::new(-2, 300);
    assert_eq!(tv.tv_sec, -2);
    assert_eq!(tv.tv_usec, 300);
    let z = timeval_t::zero();
    assert_eq!(z.tv_sec, 0);
    assert_eq!(z.tv_usec, 0);
}

#[test]
fn realtime_reading_validity() {
    assert!(valid_reading(5, 0));
    assert!(valid_reading(5, 999_999_999));
    assert!(!valid_reading(5, 1_000_000_000));
    assert!(!valid_reading(5, -1));
}

#[test]
fn callback_plan_uses_thread_delivery() {
    let plan = ktimer::sched::sigevent_plan_t::with_callback(999, 1, 99);
    assert_eq!(plan.sigev_notify, ktimer::sched::SIGEV_THREAD);
    assert_eq!(plan.sigev_notify, 2);
    assert_eq!(plan.sigev_signo, 0);
    assert_eq!(plan.priority.sched_priority, 99);
    assert_eq!(ktimer::sched::SCHED_FIFO, 1);
}
