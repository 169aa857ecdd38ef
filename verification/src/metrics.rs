//! Aggregation of per-operation outcomes observed while a workload runs.
//!
//! Workers report each terminal outcome — a success with its latency and
//! byte count, or a failure — and the recorder keeps monotonically growing
//! counters plus the latency extremes. A ghost history of every reported
//! outcome ties the counters to the sequence of calls, which is what the
//! laws at the bottom of this module are stated over. After a run, the
//! counters are condensed into an immutable [`StressTestSummary`].

use vstd::prelude::*;
use vstd::string::*;

use crate::text::decimal_rep;

verus! {

/// One terminal outcome of a storage operation, as a worker reports it.
#[derive(Clone, Copy, Debug)]
pub enum OpOutcome {
    /// The operation finished; `is_read` picks which byte counter grows.
    Success { latency_ns: u64, bytes: u64, is_read: bool },
    /// The storage backend returned an error.
    Failure,
}

/// Latency carried by an outcome; zero for a failure.
pub open spec fn spec_latency(o: OpOutcome) -> int {
    match o {
        OpOutcome::Success { latency_ns, .. } => latency_ns as int,
        OpOutcome::Failure => 0,
    }
}

/// Bytes an outcome adds to the written-bytes counter.
pub open spec fn spec_bytes_written(o: OpOutcome) -> int {
    match o {
        OpOutcome::Success { bytes, is_read, .. } => if is_read {
            0
        } else {
            bytes as int
        },
        OpOutcome::Failure => 0,
    }
}

/// Bytes an outcome adds to the read-bytes counter.
pub open spec fn spec_bytes_read(o: OpOutcome) -> int {
    match o {
        OpOutcome::Success { bytes, is_read, .. } => if is_read {
            bytes as int
        } else {
            0
        },
        OpOutcome::Failure => 0,
    }
}

/// Number of successes in a history.
pub open spec fn count_ok(s: Seq<OpOutcome>) -> nat
    decreases s.len(),
{
    if s.len() == 0 {
        0
    } else {
        count_ok(s.drop_last()) + (if s.last() is Success {
            1nat
        } else {
            0nat
        })
    }
}

/// Number of failures in a history.
pub open spec fn count_err(s: Seq<OpOutcome>) -> nat
    decreases s.len(),
{
    if s.len() == 0 {
        0
    } else {
        count_err(s.drop_last()) + (if s.last() is Failure {
            1nat
        } else {
            0nat
        })
    }
}

/// Sum of the latencies of all successes in a history.
pub open spec fn sum_latency(s: Seq<OpOutcome>) -> int
    decreases s.len(),
{
    if s.len() == 0 {
        0
    } else {
        sum_latency(s.drop_last()) + spec_latency(s.last())
    }
}

/// Sum of the bytes successes wrote.
pub open spec fn sum_bytes_written(s: Seq<OpOutcome>) -> int
    decreases s.len(),
{
    if s.len() == 0 {
        0
    } else {
        sum_bytes_written(s.drop_last()) + spec_bytes_written(s.last())
    }
}

/// Sum of the bytes successes read.
pub open spec fn sum_bytes_read(s: Seq<OpOutcome>) -> int
    decreases s.len(),
{
    if s.len() == 0 {
        0
    } else {
        sum_bytes_read(s.drop_last()) + spec_bytes_read(s.last())
    }
}

/// Smallest success latency in a history; `u64::MAX` when there is none.
pub open spec fn min_latency(s: Seq<OpOutcome>) -> int
    decreases s.len(),
{
    if s.len() == 0 {
        u64::MAX as int
    } else if s.last() is Success && spec_latency(s.last()) < min_latency(s.drop_last()) {
        spec_latency(s.last())
    } else {
        min_latency(s.drop_last())
    }
}

/// Largest success latency in a history; zero when there is none.
pub open spec fn max_latency(s: Seq<OpOutcome>) -> int
    decreases s.len(),
{
    if s.len() == 0 {
        0
    } else if s.last() is Success && spec_latency(s.last()) > max_latency(s.drop_last()) {
        spec_latency(s.last())
    } else {
        max_latency(s.drop_last())
    }
}

/// How every accumulator changes when one outcome is appended.
proof fn lemma_history_push(s: Seq<OpOutcome>, o: OpOutcome)
    ensures
        count_ok(s.push(o)) == count_ok(s) + (if o is Success {
            1nat
        } else {
            0nat
        }),
        count_err(s.push(o)) == count_err(s) + (if o is Failure {
            1nat
        } else {
            0nat
        }),
        sum_latency(s.push(o)) == sum_latency(s) + spec_latency(o),
        sum_bytes_written(s.push(o)) == sum_bytes_written(s) + spec_bytes_written(o),
        sum_bytes_read(s.push(o)) == sum_bytes_read(s) + spec_bytes_read(o),
        min_latency(s.push(o)) == (if o is Success && spec_latency(o) < min_latency(s) {
            spec_latency(o)
        } else {
            min_latency(s)
        }),
        max_latency(s.push(o)) == (if o is Success && spec_latency(o) > max_latency(s) {
            spec_latency(o)
        } else {
            max_latency(s)
        }),
{
    assert(s.push(o).drop_last() =~= s);
    assert(s.push(o).last() == o);
}

/// Counters for one workload run, grown one outcome at a time.
///
/// Every counter is derived from the ghost `history` of reported outcomes;
/// `wf` states the tie and every method preserves it.
pub struct StressMetrics {
    /// Operations that finished successfully.
    pub completed: u64,
    /// Operations the backend failed.
    pub failed: u64,
    /// Bytes carried by successful writes.
    pub bytes_written: u64,
    /// Bytes carried by successful reads.
    pub bytes_read: u64,
    /// Smallest success latency seen; `u64::MAX` until a success arrives.
    pub min_latency_ns: u64,
    /// Largest success latency seen; zero until a success arrives.
    pub max_latency_ns: u64,
    /// Sum of all success latencies, for averaging.
    pub total_latency_ns: u64,
    /// Every outcome reported so far, in order.
    pub history: Ghost<Seq<OpOutcome>>,
}

/// Immutable condensation of a run's counters, taken after all workers join.
///
/// Latencies are reported at microsecond granularity.
#[derive(Clone, Copy, Debug)]
pub struct StressTestSummary {
    /// Operations that finished successfully.
    pub operations_completed: u64,
    /// Operations the backend failed.
    pub operations_failed: u64,
    /// Bytes moved by successful operations, reads and writes together.
    pub bytes_processed: u64,
    /// Mean success latency, in microseconds; zero when nothing completed.
    pub avg_latency_us: u64,
    /// Smallest success latency, in microseconds.
    pub min_latency_us: u64,
    /// Largest success latency, in microseconds.
    pub max_latency_us: u64,
}

impl StressMetrics {
    /// Every counter equals what the history says it should be.
    pub open spec fn wf(self) -> bool {
        &&& self.completed as nat == count_ok(self.history@)
        &&& self.failed as nat == count_err(self.history@)
        &&& self.total_latency_ns as int == sum_latency(self.history@)
        &&& self.bytes_written as int == sum_bytes_written(self.history@)
        &&& self.bytes_read as int == sum_bytes_read(self.history@)
        &&& self.min_latency_ns as int == min_latency(self.history@)
        &&& self.max_latency_ns as int == max_latency(self.history@)
        &&& self.bytes_written + self.bytes_read <= u64::MAX
    }

    /// A fresh recorder: no outcomes, minimum latency saturated high so the
    /// first success lowers it.
    pub fn new() -> (m: StressMetrics)
        ensures
            m.wf(),
            m.history@ == Seq::<OpOutcome>::empty(),
            m.completed == 0,
            m.failed == 0,
            m.bytes_written == 0,
            m.bytes_read == 0,
            m.min_latency_ns == u64::MAX,
            m.max_latency_ns == 0,
            m.total_latency_ns == 0,
    {
        StressMetrics {
            completed: 0,
            failed: 0,
            bytes_written: 0,
            bytes_read: 0,
            min_latency_ns: u64::MAX,
            max_latency_ns: 0,
            total_latency_ns: 0,
            history: Ghost(Seq::empty()),
        }
    }

    /// Record one successful operation: its latency in nanoseconds and the
    /// bytes it moved, counted as read or written as the caller directs.
    /// The latency extremes absorb the new value; everything else grows.
    pub fn record_success(&mut self, latency_ns: u64, bytes: u64, is_read: bool)
        requires
            old(self).wf(),
            old(self).completed < u64::MAX,
            old(self).total_latency_ns + latency_ns <= u64::MAX,
            old(self).bytes_written + old(self).bytes_read + bytes <= u64::MAX,
        ensures
            final(self).wf(),
            final(self).history@ == old(self).history@.push(
                OpOutcome::Success { latency_ns, bytes, is_read },
            ),
            final(self).completed == old(self).completed + 1,
            final(self).failed == old(self).failed,
            final(self).total_latency_ns == old(self).total_latency_ns + latency_ns,
            final(self).bytes_written == old(self).bytes_written + (if is_read {
                0int
            } else {
                bytes as int
            }),
            final(self).bytes_read == old(self).bytes_read + (if is_read {
                bytes as int
            } else {
                0int
            }),
            final(self).min_latency_ns == (if latency_ns < old(self).min_latency_ns {
                latency_ns
            } else {
                old(self).min_latency_ns
            }),
            final(self).max_latency_ns == (if latency_ns > old(self).max_latency_ns {
                latency_ns
            } else {
                old(self).max_latency_ns
            }),
    {
        let outcome = OpOutcome::Success { latency_ns, bytes, is_read };
        proof {
            lemma_history_push(self.history@, outcome);
        }
        self.completed = self.completed + 1;
        self.total_latency_ns = self.total_latency_ns + latency_ns;
        if is_read {
            self.bytes_read = self.bytes_read + bytes;
        } else {
            self.bytes_written = self.bytes_written + bytes;
        }
        if latency_ns < self.min_latency_ns {
            self.min_latency_ns = latency_ns;
        }
        if latency_ns > self.max_latency_ns {
            self.max_latency_ns = latency_ns;
        }
        self.history = Ghost(self.history@.push(outcome));
    }

    /// Record one failed operation. Only the failure counter moves.
    pub fn record_failure(&mut self)
        requires
            old(self).wf(),
            old(self).failed < u64::MAX,
        ensures
            final(self).wf(),
            final(self).history@ == old(self).history@.push(OpOutcome::Failure),
            final(self).failed == old(self).failed + 1,
            final(self).completed == old(self).completed,
            final(self).total_latency_ns == old(self).total_latency_ns,
            final(self).bytes_written == old(self).bytes_written,
            final(self).bytes_read == old(self).bytes_read,
            final(self).min_latency_ns == old(self).min_latency_ns,
            final(self).max_latency_ns == old(self).max_latency_ns,
    {
        proof {
            lemma_history_push(self.history@, OpOutcome::Failure);
        }
        self.failed = self.failed + 1;
        self.history = Ghost(self.history@.push(OpOutcome::Failure));
    }

    /// Condense the counters into a summary. Tolerates a run with no
    /// completed operations: the average is reported as zero rather than
    /// dividing by zero.
    pub fn summary(&self) -> (r: StressTestSummary)
        requires
            self.wf(),
        ensures
            r.operations_completed == self.completed,
            r.operations_failed == self.failed,
            r.bytes_processed == self.bytes_written + self.bytes_read,
            r.avg_latency_us == (if self.completed > 0 {
                (self.total_latency_ns as int / self.completed as int) / 1000
            } else {
                0int
            }),
            r.min_latency_us == self.min_latency_ns as int / 1000,
            r.max_latency_us == self.max_latency_ns as int / 1000,
    {
        StressTestSummary {
            operations_completed: self.completed,
            operations_failed: self.failed,
            bytes_processed: self.bytes_written + self.bytes_read,
            avg_latency_us: if self.completed > 0 {
                (self.total_latency_ns / self.completed) / 1000
            } else {
                0
            },
            min_latency_us: self.min_latency_ns / 1000,
            max_latency_us: self.max_latency_ns / 1000,
        }
    }
}

impl StressTestSummary {
    /// Successes and failures together.
    pub open spec fn total_operations(self) -> int {
        self.operations_completed + self.operations_failed
    }

    /// The success rate is strictly above `num / den`: at least one outcome
    /// was recorded and `completed / total > num / den`. A run with no
    /// outcomes has rate zero and exceeds nothing.
    pub open spec fn spec_rate_exceeds(self, num: int, den: int) -> bool {
        &&& self.total_operations() > 0
        &&& self.operations_completed * den > num * self.total_operations()
    }

    /// Whether the success rate is strictly above the fraction `num / den`,
    /// compared exactly by cross-multiplication.
    pub fn success_rate_exceeds(&self, num: u64, den: u64) -> (r: bool)
        requires
            den > 0,
        ensures
            r == self.spec_rate_exceeds(num as int, den as int),
    {
        let c = self.operations_completed;
        let f = self.operations_failed;
        if c == 0 && f == 0 {
            false
        } else if num >= den {
            // A rate is at most one, so it never exceeds a fraction of one
            // or more.
            proof {
                assert((c as int) * (den as int) <= (num as int) * ((c as int) + (f as int)))
                    by (nonlinear_arith)
                    requires
                        0 <= c,
                        0 <= f,
                        0 < den <= num,
                ;
            }
            false
        } else {
            proof {
                assert(((c as int) * ((den as int) - (num as int)) > (num as int) * (f as int)) == (
                (c as int) * (den as int) > (num as int) * ((c as int) + (f as int))))
                    by (nonlinear_arith)
                    requires
                        0 <= c,
                        0 <= f,
                        0 <= num < den,
                ;
                assert((c as int) * ((den as int) - (num as int)) <= (u64::MAX as int) * (
                u64::MAX as int)) by (nonlinear_arith)
                    requires
                        c <= u64::MAX,
                        0 <= (den as int) - (num as int) <= u64::MAX,
                ;
                assert((num as int) * (f as int) <= (u64::MAX as int) * (u64::MAX as int))
                    by (nonlinear_arith)
                    requires
                        num <= u64::MAX,
                        f <= u64::MAX,
                ;
            }
            (c as u128) * ((den - num) as u128) > (num as u128) * (f as u128)
        }
    }

    /// The success rate in basis points (parts per ten thousand), rounded
    /// down; zero when no outcome was recorded.
    pub fn success_rate_bps(&self) -> (r: u64)
        ensures
            r == (if self.total_operations() > 0 {
                self.operations_completed * 10000 / self.total_operations()
            } else {
                0int
            }),
    {
        let total: u128 = self.operations_completed as u128 + self.operations_failed as u128;
        if total == 0 {
            0
        } else {
            let scaled: u128 = (self.operations_completed as u128) * 10000 / total;
            proof {
                assert((self.operations_completed as int) * 10000 / (total as int) <= 10000)
                    by (nonlinear_arith)
                    requires
                        0 < total as int,
                        self.operations_completed as int <= total as int,
                ;
            }
            scaled as u64
        }
    }

    /// The summary as a readable report: operation counts, the latency
    /// figures in microseconds, and the bytes moved.
    pub fn describe(&self) -> (r: String)
        ensures
            r@ == "Ops: "@ + decimal_rep(self.operations_completed as int) + " completed, "@
                + decimal_rep(self.operations_failed as int) + " failed\nLatency us: avg="@
                + decimal_rep(self.avg_latency_us as int) + ", min="@ + decimal_rep(
                self.min_latency_us as int,
            ) + ", max="@ + decimal_rep(self.max_latency_us as int) + "\nBytes processed: "@
                + decimal_rep(self.bytes_processed as int),
    {
        let mut s = String::from_str("Ops: ");
        s.append(crate::text::u64_decimal(self.operations_completed).as_str());
        s.append(" completed, ");
        s.append(crate::text::u64_decimal(self.operations_failed).as_str());
        s.append(" failed\nLatency us: avg=");
        s.append(crate::text::u64_decimal(self.avg_latency_us).as_str());
        s.append(", min=");
        s.append(crate::text::u64_decimal(self.min_latency_us).as_str());
        s.append(", max=");
        s.append(crate::text::u64_decimal(self.max_latency_us).as_str());
        s.append("\nBytes processed: ");
        s.append(crate::text::u64_decimal(self.bytes_processed).as_str());
        s
    }
}

/// Every success latency in a history lies between the history's extremes.
proof fn lemma_extremes_over(s: Seq<OpOutcome>)
    ensures
        forall|i: int|
            0 <= i < s.len() && (#[trigger] s[i]) is Success ==> min_latency(s) <= spec_latency(
                s[i],
            ) && spec_latency(s[i]) <= max_latency(s),
    decreases s.len(),
{
    if s.len() > 0 {
        lemma_extremes_over(s.drop_last());
        assert forall|i: int|
            0 <= i < s.len() && (#[trigger] s[i]) is Success implies min_latency(s) <= spec_latency(
            s[i],
        ) && spec_latency(s[i]) <= max_latency(s) by {
            if i < s.len() - 1 {
                assert(s.drop_last()[i] == s[i]);
            } else {
                assert(s[i] == s.last());
            }
        }
    }
}

/// In a history with a success, some position holds one.
proof fn lemma_success_position(s: Seq<OpOutcome>)
    requires
        count_ok(s) > 0,
    ensures
        exists|i: int| 0 <= i < s.len() && (#[trigger] s[i]) is Success,
    decreases s.len(),
{
    if s.last() is Success {
        assert(s[s.len() - 1] == s.last());
    } else {
        lemma_success_position(s.drop_last());
        let i = choose|i: int| 0 <= i < s.drop_last().len() && (#[trigger] s.drop_last()[i])
            is Success;
        assert(s[i] == s.drop_last()[i]);
    }
}

/// Law: every recorded success latency lies between the tracked extremes,
/// and once at least one success has been recorded the minimum does not
/// exceed the maximum.
pub proof fn lemma_latency_extremes(m: StressMetrics)
    requires
        m.wf(),
    ensures
        forall|i: int|
            0 <= i < m.history@.len() && (#[trigger] m.history@[i]) is Success
                ==> m.min_latency_ns <= spec_latency(m.history@[i]) && spec_latency(m.history@[i])
                <= m.max_latency_ns,
        m.completed > 0 ==> m.min_latency_ns <= m.max_latency_ns,
{
    lemma_extremes_over(m.history@);
    if m.completed > 0 {
        lemma_success_position(m.history@);
    }
}

/// Successes and failures partition a history.
proof fn lemma_counts_over(s: Seq<OpOutcome>)
    ensures
        count_ok(s) + count_err(s) == s.len(),
    decreases s.len(),
{
    if s.len() > 0 {
        lemma_counts_over(s.drop_last());
    }
}

/// Law: `completed + failed` equals the number of recorded outcomes — no
/// call to `record_success` or `record_failure` is lost or double-counted.
pub proof fn lemma_outcome_conservation(m: StressMetrics)
    requires
        m.wf(),
    ensures
        m.completed + m.failed == m.history@.len(),
{
    lemma_counts_over(m.history@);
}

} // verus!
