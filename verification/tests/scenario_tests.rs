use reasonkit::memtrack::MemoryTracker;
use reasonkit::metrics::StressMetrics;
use reasonkit::scenario::{evaluate_run, RunVerdict, Scenario};

fn summary_with(completed: u64, failed: u64) -> reasonkit::metrics::StressTestSummary {
    let mut m = StressMetrics::new();
    for _ in 0..completed {
        m.record_success(1000, 10, false);
    }
    for _ in 0..failed {
        m.record_failure();
    }
    m.summary()
}

#[test]
fn catalog_shapes_are_fixed() {
    let sustained = Scenario::SustainedMixed.workload();
    assert_eq!(sustained.writer_count, 50);
    assert_eq!(sustained.reader_count, 100);
    assert_eq!(sustained.total_operations, 10_000);
    assert_eq!(sustained.max_in_flight, 100);
    assert_eq!(sustained.timeout_secs, 300);

    let burst = Scenario::BurstTraffic.workload();
    assert_eq!(burst.total_operations, 2000);
    assert_eq!(Scenario::BurstTraffic.burst_count(), 5);
    assert_eq!(Scenario::SustainedMixed.burst_count(), 1);

    assert_eq!(Scenario::HighContention.contended_keys(), 10);
    assert_eq!(Scenario::SustainedMixed.contended_keys(), 0);

    assert!(Scenario::LongSoak.opt_in());
    assert!(!Scenario::MemoryPressure.opt_in());
}

#[test]
fn catalog_thresholds_are_fixed() {
    let t = Scenario::SustainedMixed.thresholds();
    assert_eq!(t.rate_floor, Some((95, 100)));
    assert_eq!(t.leak_threshold_hundredths, Some(300));
    assert_eq!(t.growth_cap_hundredths, None);

    let t = Scenario::BurstTraffic.thresholds();
    assert_eq!(t.rate_floor, Some((99, 100)));
    assert_eq!(t.leak_threshold_hundredths, None);

    let t = Scenario::MemoryPressure.thresholds();
    assert_eq!(t.rate_floor, None);
    assert_eq!(t.growth_cap_hundredths, Some(1000));

    let t = Scenario::LongSoak.thresholds();
    assert_eq!(t.rate_floor, Some((999, 1000)));
}

#[test]
fn timeout_is_a_hard_failure() {
    // Even a perfect summary fails the run when the deadline elapsed.
    let s = summary_with(1000, 0);
    let mut tracker = MemoryTracker::new();
    tracker.record_initial(100);
    let leak = tracker.check_for_leaks(300);
    let t = Scenario::SustainedMixed.thresholds();
    let v = evaluate_run(&t, &s, Some(&leak), true);
    assert_eq!(v, RunVerdict::TimedOut);
    let v = evaluate_run(&t, &s, Some(&leak), false);
    assert_eq!(v, RunVerdict::Passed);
}

#[test]
fn low_success_rate_fails_the_run() {
    let s = summary_with(90, 10);
    let mut tracker = MemoryTracker::new();
    tracker.record_initial(100);
    let leak = tracker.check_for_leaks(300);
    let t = Scenario::SustainedMixed.thresholds();
    let v = evaluate_run(&t, &s, Some(&leak), false);
    assert_eq!(v, RunVerdict::SuccessRateTooLow);
}

#[test]
fn flagged_leak_fails_the_run() {
    let s = summary_with(1000, 0);
    let mut tracker = MemoryTracker::new();
    tracker.record_initial(100);
    tracker.sample(500);
    let leak = tracker.check_for_leaks(300);
    assert!(leak.possible_leak);
    let t = Scenario::SustainedMixed.thresholds();
    let v = evaluate_run(&t, &s, Some(&leak), false);
    assert_eq!(v, RunVerdict::LeakDetected);
}

#[test]
fn growth_cap_fails_only_excessive_growth() {
    let s = summary_with(5000, 0);
    let t = Scenario::MemoryPressure.thresholds();

    let mut modest = MemoryTracker::new();
    modest.record_initial(1000);
    modest.sample(8000);
    let leak = modest.check_for_leaks(300);
    assert_eq!(evaluate_run(&t, &s, Some(&leak), false), RunVerdict::Passed);

    let mut runaway = MemoryTracker::new();
    runaway.record_initial(1000);
    runaway.sample(10_000);
    let leak = runaway.check_for_leaks(300);
    assert_eq!(evaluate_run(&t, &s, Some(&leak), false), RunVerdict::ExcessiveGrowth);
}

#[test]
fn verdict_labels_are_readable() {
    assert_eq!(RunVerdict::Passed.label(), "passed");
    assert_eq!(RunVerdict::TimedOut.label(), "timed out");
    assert_eq!(RunVerdict::SuccessRateTooLow.label(), "success rate too low");
    assert_eq!(RunVerdict::LeakDetected.label(), "possible memory leak");
    assert_eq!(RunVerdict::ExcessiveGrowth.label(), "memory grew too much");
}
