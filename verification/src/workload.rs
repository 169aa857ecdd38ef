//! Planning and per-event decisions for a concurrent workload run.
//!
//! A run launches a set of writer tasks and a set of reader tasks against a
//! storage backend, bounded by a semaphore and joined under a wall-clock
//! deadline. All of that plumbing is asynchronous and lives outside this
//! library; what stands here are the decisions the tasks make: how the
//! operation budget is split, which key a reader picks, what each observed
//! outcome does to the metrics, and when memory is sampled.

use vstd::prelude::*;

use crate::metrics::{OpOutcome, StressMetrics};

verus! {

/// The shape of one workload run: task counts, operation budget, bounds.
#[derive(Clone, Copy, Debug)]
pub struct WorkloadConfig {
    /// Number of concurrent writer tasks.
    pub writer_count: usize,
    /// Number of concurrent reader tasks.
    pub reader_count: usize,
    /// Total operation budget, split between the writers; readers receive
    /// half of it, split between them.
    pub total_operations: usize,
    /// Largest number of operations allowed in flight at once.
    pub max_in_flight: usize,
    /// Wall-clock deadline for the whole run, in seconds.
    pub timeout_secs: u64,
    /// A task samples memory every this many of its own operations.
    pub memory_check_interval: usize,
}

impl WorkloadConfig {
    /// A usable plan: at least one writer, a bound on concurrency, and a
    /// deadline. Readers are optional — write-only scenarios have none.
    pub open spec fn wf(self) -> bool {
        &&& self.writer_count > 0
        &&& self.max_in_flight > 0
        &&& self.timeout_secs > 0
        &&& self.memory_check_interval > 0
    }

    /// Each writer's share of the operation budget (the remainder of the
    /// division is dropped, as the budget split is deliberately coarse).
    pub fn ops_per_writer(&self) -> (r: usize)
        requires
            self.writer_count > 0,
        ensures
            r == self.total_operations as int / self.writer_count as int,
    {
        self.total_operations / self.writer_count
    }

    /// Each reader's share: readers together replay half the budget.
    pub fn ops_per_reader(&self) -> (r: usize)
        requires
            self.reader_count > 0,
        ensures
            r == (self.total_operations as int / 2) / self.reader_count as int,
    {
        (self.total_operations / 2) / self.reader_count
    }

    /// Number of participants that must reach the start barrier before any
    /// operation is issued.
    pub fn barrier_size(&self) -> (r: usize)
        requires
            self.writer_count + self.reader_count <= usize::MAX,
        ensures
            r == self.writer_count + self.reader_count,
    {
        self.writer_count + self.reader_count
    }
}

/// The list of keys successfully written so far, shared with readers.
///
/// Writers append after each successful write; readers index into it.
/// A reader that finds it empty skips its turn, since keys only become
/// available as writers make progress.
pub struct KeyRegistry {
    /// Keys in the order their writes succeeded.
    pub keys: Vec<u128>,
}

impl KeyRegistry {
    /// An empty registry.
    pub fn new() -> (r: KeyRegistry)
        ensures
            r.keys@ == Seq::<u128>::empty(),
    {
        KeyRegistry { keys: Vec::new() }
    }

    /// Number of keys published so far.
    pub fn len(&self) -> (r: usize)
        ensures
            r == self.keys@.len(),
    {
        self.keys.len()
    }

    /// Publish a successfully written key for readers to find.
    pub fn publish(&mut self, key: u128)
        requires
            old(self).keys@.len() < usize::MAX,
        ensures
            final(self).keys@ == old(self).keys@.push(key),
    {
        self.keys.push(key);
    }

    /// The key a reader's `op_index`-th operation targets: none while the
    /// registry is empty (the reader skips its turn), otherwise the key at
    /// `op_index` modulo the registry's length — early keys are re-read
    /// again and again as the registry grows, which concentrates load on
    /// popular keys on purpose.
    pub fn pick(&self, op_index: usize) -> (r: Option<u128>)
        ensures
            r is None <==> self.keys@.len() == 0,
            self.keys@.len() > 0 ==> r == Some(
                self.keys@[op_index as int % self.keys@.len() as int],
            ),
    {
        if self.keys.len() == 0 {
            None
        } else {
            Some(self.keys[op_index % self.keys.len()])
        }
    }
}

/// What one worker observed from one storage call.
#[derive(Clone, Copy, Debug)]
pub enum WorkerEvent {
    /// A write was accepted; the key becomes visible to readers.
    WriteCompleted { key: u128, latency_ns: u64, bytes: u64 },
    /// A write was rejected by the backend.
    WriteFailed,
    /// A read returned a value of `bytes` bytes.
    ReadFound { latency_ns: u64, bytes: u64 },
    /// A read found no value. Expected under concurrent access; counted
    /// neither as a success nor as a failure.
    ReadMissing,
    /// A read was rejected by the backend.
    ReadFailed,
}

/// The outcome an event adds to the metrics history, if any.
pub open spec fn spec_event_outcome(e: WorkerEvent) -> Option<OpOutcome> {
    match e {
        WorkerEvent::WriteCompleted { latency_ns, bytes, .. } => Some(
            OpOutcome::Success { latency_ns, bytes, is_read: false },
        ),
        WorkerEvent::WriteFailed => Some(OpOutcome::Failure),
        WorkerEvent::ReadFound { latency_ns, bytes } => Some(
            OpOutcome::Success { latency_ns, bytes, is_read: true },
        ),
        WorkerEvent::ReadMissing => None,
        WorkerEvent::ReadFailed => Some(OpOutcome::Failure),
    }
}

/// The key an event publishes to the registry, if any.
pub open spec fn spec_event_key(e: WorkerEvent) -> Option<u128> {
    match e {
        WorkerEvent::WriteCompleted { key, .. } => Some(key),
        _ => None,
    }
}

/// Record one observed event: successes and failures feed the metrics, a
/// completed write additionally publishes its key, and a missing read is
/// deliberately absorbed. Operation failures never abort the run; they are
/// only counted.
pub fn apply_event(metrics: &mut StressMetrics, registry: &mut KeyRegistry, e: &WorkerEvent)
    requires
        old(metrics).wf(),
        old(metrics).completed < u64::MAX,
        old(metrics).failed < u64::MAX,
        (match spec_event_outcome(*e) {
            Some(o) => old(metrics).total_latency_ns + crate::metrics::spec_latency(o) <= u64::MAX
                && old(metrics).bytes_written + old(metrics).bytes_read
                + crate::metrics::spec_bytes_written(o) + crate::metrics::spec_bytes_read(o)
                <= u64::MAX,
            None => true,
        }),
        old(registry).keys@.len() < usize::MAX,
    ensures
        final(metrics).wf(),
        final(metrics).history@ == (match spec_event_outcome(*e) {
            Some(o) => old(metrics).history@.push(o),
            None => old(metrics).history@,
        }),
        final(registry).keys@ == (match spec_event_key(*e) {
            Some(k) => old(registry).keys@.push(k),
            None => old(registry).keys@,
        }),
        final(metrics).completed == old(metrics).completed + (match spec_event_outcome(*e) {
            Some(o) => if o is Success {
                1int
            } else {
                0int
            },
            None => 0int,
        }),
        final(metrics).failed == old(metrics).failed + (match spec_event_outcome(*e) {
            Some(o) => if o is Failure {
                1int
            } else {
                0int
            },
            None => 0int,
        }),
        final(metrics).total_latency_ns == old(metrics).total_latency_ns + (match spec_event_outcome(
            *e,
        ) {
            Some(o) => crate::metrics::spec_latency(o),
            None => 0int,
        }),
        final(metrics).bytes_written == old(metrics).bytes_written + (match spec_event_outcome(*e) {
            Some(o) => crate::metrics::spec_bytes_written(o),
            None => 0int,
        }),
        final(metrics).bytes_read == old(metrics).bytes_read + (match spec_event_outcome(*e) {
            Some(o) => crate::metrics::spec_bytes_read(o),
            None => 0int,
        }),
{
    match e {
        WorkerEvent::WriteCompleted { key, latency_ns, bytes } => {
            metrics.record_success(*latency_ns, *bytes, false);
            registry.publish(*key);
        },
        WorkerEvent::WriteFailed => {
            metrics.record_failure();
        },
        WorkerEvent::ReadFound { latency_ns, bytes } => {
            metrics.record_success(*latency_ns, *bytes, true);
        },
        WorkerEvent::ReadMissing => {},
        WorkerEvent::ReadFailed => {
            metrics.record_failure();
        },
    }
}

/// Whether a task samples memory after its `op_index`-th operation:
/// every `interval` operations, starting with the first.
pub fn should_sample(op_index: usize, interval: usize) -> (r: bool)
    ensures
        r == (interval > 0 && op_index as int % interval as int == 0),
{
    interval > 0 && op_index % interval == 0
}

/// A deterministic payload of the requested size: byte `i` holds `i mod 256`.
pub fn make_payload(size: usize) -> (r: Vec<u8>)
    ensures
        r@.len() == size,
        forall|i: int| 0 <= i < size ==> r@[i] == (i % 256) as u8,
{
    let mut payload: Vec<u8> = Vec::new();
    let mut i: usize = 0;
    while i < size
        invariant
            i <= size,
            payload@.len() == i,
            forall|j: int| 0 <= j < i ==> payload@[j] == (j % 256) as u8,
        decreases size - i,
    {
        payload.push((i % 256) as u8);
        i = i + 1;
    }
    payload
}

/// Payload size for the `i`-th allocation of the memory-pressure scenario:
/// cycles from 100 bytes up to just under 10 kilobytes.
pub fn pressure_payload_size(i: usize) -> (r: usize)
    ensures
        r == 100 + (i as int % 1000) * 10,
{
    100 + (i % 1000) * 10
}

} // verus!
