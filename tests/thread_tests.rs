use stats_alloc::{
    AlwaysReport, Event, Flush, IntervalReport, LocalAlwaysReport, LocalIntervalReport,
    NeverReport, Region, Reporter, Rollup, Summary, Target, ThreadStats,
};

const SECOND: u64 = 1_000_000_000;

fn apply(flush: Option<Flush>, global: &Rollup) {
    if let Some(f) = flush {
        f.apply(global);
    }
}

#[test]
fn example_peak_mem_usage() {
    let global = Rollup::new();
    let never = Reporter::Never(NeverReport);
    let mut ts = ThreadStats::new();
    apply(ts.record(Event::Allocate(1_024), &never, 0), &global);
    let s = ts.summary();
    println!("Stats at 1: {:#?}", s);
    assert_eq!(s.total_bytes_allocated(), 1_024);
    assert_eq!(s.outstanding_bytes_allocated(), 1_024);
    assert_eq!(global.summary(), Summary::new());
}

#[test]
fn test_example_using_region() {
    let global = Rollup::new();
    let never = Reporter::Never(NeverReport);
    let mut ts = ThreadStats::new();
    let reg = Region::new(&ts);
    apply(ts.record(Event::Allocate(1_024), &never, 5), &global);
    let change = reg.change(&ts);
    println!("Stats at 1: {:#?}", change);
    assert_eq!(change.allocations, 1);
    assert_eq!(change.bytes_allocated, 1_024);
    assert_eq!(change.deallocations, 0);
}

#[test]
fn nightly_example_using_region() {
    let global = Rollup::new();
    let always = Reporter::Always(AlwaysReport);
    let mut ts = ThreadStats::new();
    let reg = Region::new(&ts);
    apply(ts.record(Event::Allocate(1_024), &always, 5), &global);
    let change = reg.change(&ts);
    println!("Stats at 1: {:#?}", change);
    assert_eq!(change.allocations, 1);
    assert_eq!(change.bytes_allocated, 1_024);
    assert_eq!(change.deallocations, 0);
    assert_eq!(global.summary().bytes_allocated, 1_024);
}

#[test]
fn region_is_empty_right_after_creation() {
    let global = Rollup::new();
    let always = Reporter::Always(AlwaysReport);
    let mut ts = ThreadStats::new();
    apply(ts.record(Event::Allocate(8), &always, 0), &global);
    apply(ts.record(Event::Allocate(9), &Reporter::Never(NeverReport), 0), &global);
    let reg = Region::new(&ts);
    assert_eq!(reg.change(&ts), Summary::new());
    assert_eq!(reg.initial(), ts.summary());
}

#[test]
fn region_change_and_reset_rebases() {
    let global = Rollup::new();
    let never = Reporter::Never(NeverReport);
    let mut ts = ThreadStats::new();
    let mut reg = Region::new(&ts);
    apply(ts.record(Event::Reallocate(100, 60), &never, 0), &global);
    let diff = reg.change_and_reset(&ts);
    assert_eq!(diff.reallocations, 1);
    assert_eq!(diff.bytes_deallocated, 40);
    assert_eq!(diff.bytes_reallocated, -40);
    assert_eq!(diff.bytes_allocated, 0);
    assert_eq!(reg.change(&ts), Summary::new());
    apply(ts.record(Event::Deallocate(60), &never, 0), &global);
    reg.reset(&ts);
    assert_eq!(reg.change(&ts), Summary::new());
    assert_eq!(reg.initial().deallocations, 1);
}

#[test]
fn test1() {
    let global = Rollup::new();
    let never = Reporter::Never(NeverReport);
    let mut ts = ThreadStats::new();
    let s1 = ts.summary();
    apply(ts.record(Event::Allocate(1_024), &never, 0), &global);
    let s2 = ts.summary();
    let diff = s2 - s1;
    assert_eq!(diff.allocations, 1);
    assert_eq!(diff.bytes_allocated, 1_024);
    assert_eq!(diff.deallocations, 0);
}

#[test]
fn test2() {
    let global = Rollup::new();
    let never = Reporter::Never(NeverReport);
    let mut ts = ThreadStats::new();
    let s1 = ts.summary();
    for i in 0..10_000usize {
        apply(ts.record(Event::Allocate(i), &never, 0), &global);
        apply(ts.record(Event::Deallocate(i), &never, 0), &global);
    }
    let diff = ts.summary() - s1;
    assert_eq!(diff.allocations, 10_000);
    assert_eq!(diff.deallocations, 10_000);
    assert_eq!(diff.total_bytes_allocated(), 10_000 * 9_999 / 2);
    assert_eq!(diff.outstanding_bytes_allocated(), 0);
}

#[test]
fn drop_test() {
    // A thread allocates 1024 bytes and ends without an explicit flush: its final
    // drain brings the bytes to the default rollup exactly once.
    let global = Rollup::new();
    let never = Reporter::Never(NeverReport);
    let sg1 = global.summary();
    let mut inner = ThreadStats::new();
    let si1 = inner.summary();
    apply(inner.record(Event::Allocate(1_024), &never, 0), &global);
    let si2 = inner.summary();
    assert_eq!(global.summary(), sg1);
    inner.teardown().apply(&global);
    let sg2 = global.summary();
    assert_eq!((si2 - si1).total_bytes_allocated(), 1_024);
    assert_eq!((si2 - si1).outstanding_bytes_allocated(), 1_024);
    assert_eq!((sg2 - sg1).total_bytes_allocated(), 1_024);
    assert_eq!((sg2 - sg1).allocations, 1);
    // A second drain has nothing left to bring.
    inner.teardown().apply(&global);
    assert_eq!(global.summary(), sg2);
}

#[test]
fn thread_size_test() {
    // Under a local policy that flushes after every event, the events reach the
    // named rollup and not the default one.
    let global = Rollup::new();
    let rollup = Rollup::new();
    let never = Reporter::Never(NeverReport);
    let mut ts = ThreadStats::new();
    ts.set_thread_reporter(Reporter::LocalAlways(LocalAlwaysReport::new(&rollup)), 0)
        .apply(&global);
    apply(ts.record(Event::Allocate(256), &never, 0), &global);
    assert_eq!(rollup.summary().total_bytes_allocated(), 256);
    apply(ts.record(Event::Deallocate(256), &never, 0), &global);
    ts.flush(0).apply(&global);
    let stf = rollup.summary();
    assert_eq!(stf.allocations, 1);
    assert_eq!(stf.deallocations, 1);
    assert_eq!(0, stf.outstanding_bytes_allocated());
    assert_eq!(global.summary(), Summary::new());
}

#[test]
fn always_makes_each_event_visible_at_once() {
    let global = Rollup::new();
    let always = Reporter::Always(AlwaysReport);
    let mut ts = ThreadStats::new();
    for i in 1..=5usize {
        apply(ts.record(Event::Allocate(10), &always, 0), &global);
        assert_eq!(global.summary().allocations, i);
        assert_eq!(global.summary().bytes_allocated, 10 * i);
        assert_eq!(ts.active, Summary::new());
    }
    assert_eq!(ts.summary(), global.summary());
}

#[test]
fn never_keeps_events_local_until_flush() {
    let global = Rollup::new();
    let never = Reporter::Never(NeverReport);
    let mut ts = ThreadStats::new();
    assert!(ts.record(Event::Allocate(10), &never, 0).is_none());
    assert_eq!(global.summary(), Summary::new());
    let f = ts.flush(77);
    assert_eq!(f.delta.bytes_allocated, 10);
    assert!(matches!(f.target, Target::Global));
    f.apply(&global);
    assert_eq!(global.summary().bytes_allocated, 10);
    assert_eq!(ts.last_updated(), Some(77));
    assert_eq!(ts.summary().bytes_allocated, 10);
    assert_eq!(ts.thread_total.bytes_allocated, 10);
}

#[test]
fn interval_flushes_only_after_the_interval() {
    let global = Rollup::new();
    let every_second = Reporter::Interval(IntervalReport::new(SECOND));
    let mut ts = ThreadStats::new();
    // The first event sets the baseline and does not flush.
    assert!(ts.record(Event::Allocate(1), &every_second, 10).is_none());
    assert_eq!(ts.last_updated(), Some(10));
    // Within the interval: no flush.
    assert!(ts.record(Event::Allocate(2), &every_second, 10 + SECOND).is_none());
    // Past the interval: a flush of everything so far.
    let f = ts.record(Event::Allocate(3), &every_second, 11 + SECOND);
    let f = f.expect("the interval has passed");
    assert_eq!(f.delta.bytes_allocated, 6);
    f.apply(&global);
    assert_eq!(global.summary().allocations, 3);
    assert_eq!(ts.last_updated(), Some(11 + SECOND));
    // Right after the flush: no flush again.
    assert!(ts.record(Event::Allocate(4), &every_second, 12 + SECOND).is_none());
    // A clock that reads earlier than the baseline never flushes.
    assert!(ts.record(Event::Allocate(4), &every_second, 0).is_none());
}

#[test]
fn local_interval_reports_to_both_rollups() {
    let global = Rollup::new();
    let rollup = Rollup::new();
    let policy = Reporter::LocalInterval(LocalIntervalReport::new(5, &rollup));
    let never = Reporter::Never(NeverReport);
    let mut ts = ThreadStats::new();
    ts.set_thread_reporter(policy, 100).apply(&global);
    assert!(ts.record(Event::Allocate(32), &never, 103).is_none());
    apply(ts.record(Event::Allocate(32), &never, 106), &global);
    assert_eq!(rollup.summary().bytes_allocated, 64);
    assert_eq!(global.summary().bytes_allocated, 64);
    // An explicit flush goes to the named rollup only.
    apply(ts.record(Event::Allocate(1), &never, 107), &global);
    ts.flush(108).apply(&global);
    assert_eq!(rollup.summary().bytes_allocated, 65);
    assert_eq!(global.summary().bytes_allocated, 64);
}

#[test]
fn set_thread_reporter_flushes_to_the_previous_policy() {
    let global = Rollup::new();
    let first = Rollup::new();
    let second = Rollup::new();
    let never = Reporter::Never(NeverReport);
    let mut ts = ThreadStats::new();
    ts.set_thread_reporter(Reporter::LocalAlways(LocalAlwaysReport::new(&first)), 0)
        .apply(&global);
    ts.set_thread_reporter(Reporter::Never(NeverReport), 0).apply(&global);
    apply(ts.record(Event::Allocate(12), &never, 0), &global);
    assert_eq!(first.summary(), Summary::new());
    ts.set_thread_reporter(Reporter::LocalAlways(LocalAlwaysReport::new(&second)), 1)
        .apply(&global);
    assert_eq!(global.summary().bytes_allocated, 12);
    assert_eq!(second.summary(), Summary::new());
    apply(ts.record(Event::Allocate(3), &never, 2), &global);
    assert_eq!(second.summary().bytes_allocated, 3);
    assert_eq!(ts.summary().bytes_allocated, 15);
}

#[test]
fn thread_policy_overrides_the_default() {
    let global = Rollup::new();
    let always = Reporter::Always(AlwaysReport);
    let mut ts = ThreadStats::new();
    ts.set_thread_reporter(Reporter::Never(NeverReport), 0).apply(&global);
    assert!(ts.record(Event::Allocate(5), &always, 0).is_none());
    assert_eq!(global.summary(), Summary::new());
    assert!(matches!(ts.teardown().target, Target::Global));
}

#[test]
fn rollup_merges_add_up() {
    let rollup = Rollup::new();
    assert_eq!(rollup.summary(), Summary::new());
    let mut a = Summary::new();
    a.allocate(100);
    let mut b = Summary::new();
    b.reallocate(10, 4);
    rollup.merge(&a);
    rollup.merge(&b);
    assert_eq!(rollup.summary(), a + b);
    assert_eq!(rollup.summary().bytes_deallocated, 6);
}
