use reasonkit::metrics::StressMetrics;
use reasonkit::scenario::Scenario;
use reasonkit::workload::{
    apply_event, make_payload, pressure_payload_size, should_sample, KeyRegistry, WorkerEvent,
};

#[test]
fn readers_skip_an_empty_registry() {
    let reg = KeyRegistry::new();
    assert_eq!(reg.len(), 0);
    assert_eq!(reg.pick(0), None);
    assert_eq!(reg.pick(17), None);
}

#[test]
fn readers_index_modulo_registry_length() {
    let mut reg = KeyRegistry::new();
    reg.publish(10);
    reg.publish(20);
    reg.publish(30);
    assert_eq!(reg.pick(0), Some(10));
    assert_eq!(reg.pick(4), Some(20));
    assert_eq!(reg.pick(5), Some(30));
    assert_eq!(reg.pick(300), Some(10));
}

#[test]
fn completed_write_is_counted_and_published() {
    let mut m = StressMetrics::new();
    let mut reg = KeyRegistry::new();
    let e = WorkerEvent::WriteCompleted { key: 7, latency_ns: 2000, bytes: 128 };
    apply_event(&mut m, &mut reg, &e);
    assert_eq!(m.completed, 1);
    assert_eq!(m.failed, 0);
    assert_eq!(m.bytes_written, 128);
    assert_eq!(reg.len(), 1);
    assert_eq!(reg.pick(0), Some(7));
}

#[test]
fn failures_are_counted_and_do_not_publish() {
    let mut m = StressMetrics::new();
    let mut reg = KeyRegistry::new();
    apply_event(&mut m, &mut reg, &WorkerEvent::WriteFailed);
    apply_event(&mut m, &mut reg, &WorkerEvent::ReadFailed);
    assert_eq!(m.completed, 0);
    assert_eq!(m.failed, 2);
    assert_eq!(reg.len(), 0);
}

#[test]
fn found_read_counts_read_bytes() {
    let mut m = StressMetrics::new();
    let mut reg = KeyRegistry::new();
    apply_event(&mut m, &mut reg, &WorkerEvent::ReadFound { latency_ns: 900, bytes: 64 });
    assert_eq!(m.completed, 1);
    assert_eq!(m.bytes_read, 64);
    assert_eq!(m.bytes_written, 0);
}

#[test]
fn missing_read_is_absorbed() {
    // A read that finds nothing is expected under concurrent access and
    // moves no counter.
    let mut m = StressMetrics::new();
    let mut reg = KeyRegistry::new();
    apply_event(&mut m, &mut reg, &WorkerEvent::ReadMissing);
    assert_eq!(m.completed, 0);
    assert_eq!(m.failed, 0);
    assert_eq!(m.summary().success_rate_bps(), 0);
}

#[test]
fn sampling_cadence_follows_the_interval() {
    assert!(should_sample(0, 1000));
    assert!(!should_sample(1, 1000));
    assert!(!should_sample(999, 1000));
    assert!(should_sample(1000, 1000));
    assert!(should_sample(2000, 1000));
    // A zero interval never samples rather than dividing by zero.
    assert!(!should_sample(0, 0));
}

#[test]
fn payloads_have_the_requested_size_and_pattern() {
    let p = make_payload(300);
    assert_eq!(p.len(), 300);
    assert_eq!(p[0], 0);
    assert_eq!(p[255], 255);
    assert_eq!(p[256], 0);
    assert_eq!(p[299], 43);
    assert!(make_payload(0).is_empty());
}

#[test]
fn pressure_payload_sizes_cycle() {
    assert_eq!(pressure_payload_size(0), 100);
    assert_eq!(pressure_payload_size(1), 110);
    assert_eq!(pressure_payload_size(999), 10090);
    assert_eq!(pressure_payload_size(1000), 100);
}

#[test]
fn operation_budget_splits_evenly() {
    let mut c = Scenario::SustainedMixed.workload();
    c.writer_count = 10;
    c.reader_count = 20;
    c.total_operations = 1000;
    assert_eq!(c.ops_per_writer(), 100);
    assert_eq!(c.ops_per_reader(), 25);
    assert_eq!(c.barrier_size(), 30);
}
