//! The catalog of workload shapes and the pass/fail judgement of a run.
//!
//! Each scenario is a fixed recipe: a workload plan, the thresholds its
//! aggregated summary must clear, and — for the burst shape — how many
//! rounds are driven. Judging a run is a strict order of checks: a
//! wall-clock timeout is a hard failure whatever the counters say, then
//! the success-rate floor, then the leak heuristic, then the growth cap.

use vstd::prelude::*;

use crate::memtrack::MemoryLeakResult;
use crate::metrics::StressTestSummary;
use crate::workload::WorkloadConfig;

verus! {

/// The fixed workload shapes the harness can drive.
#[derive(Clone, Copy, Debug, PartialEq, Eq, Structural)]
pub enum Scenario {
    /// Large writer and reader populations over one shared key registry.
    SustainedMixed,
    /// Repeated fully-synchronized bursts separated by quiet intervals.
    BurstTraffic,
    /// Bulk insertion with varying payloads, then a churn phase of re-reads.
    MemoryPressure,
    /// Many tasks hammering one small pre-populated key set.
    HighContention,
    /// A single task looping for a fixed duration; opt-in because of it.
    LongSoak,
}

/// What a run must clear to pass, beyond finishing before its deadline.
#[derive(Clone, Copy, Debug)]
pub struct ScenarioThresholds {
    /// The success rate must strictly exceed this fraction, if set.
    pub rate_floor: Option<(u64, u64)>,
    /// Threshold, in hundredths, handed to the leak heuristic; a flagged
    /// leak fails the run. Unset when the scenario tracks no memory.
    pub leak_threshold_hundredths: Option<u64>,
    /// The reported growth ratio, in hundredths, must stay strictly below
    /// this cap, if set. Looser than the leak flag: used where legitimate
    /// data retention causes real growth.
    pub growth_cap_hundredths: Option<u64>,
}

impl ScenarioThresholds {
    /// Thresholds that look at memory need a tracker's verdict to judge.
    pub open spec fn needs_leak_result(self) -> bool {
        self.leak_threshold_hundredths is Some || self.growth_cap_hundredths is Some
    }
}

/// Why a run passed or failed, in the order the checks are applied.
#[derive(Clone, Copy, Debug, PartialEq, Eq, Structural)]
pub enum RunVerdict {
    /// Every configured check cleared.
    Passed,
    /// The wall-clock deadline elapsed before all tasks joined. A hard
    /// failure regardless of any partial success rate.
    TimedOut,
    /// The success rate did not clear the scenario's floor.
    SuccessRateTooLow,
    /// The leak heuristic flagged the run.
    LeakDetected,
    /// Memory grew beyond the scenario's growth cap.
    ExcessiveGrowth,
}

impl RunVerdict {
    /// A short human-readable label for reports.
    pub fn label(&self) -> (r: &'static str)
        ensures
            *self is Passed ==> r@ == "passed"@,
            *self is TimedOut ==> r@ == "timed out"@,
            *self is SuccessRateTooLow ==> r@ == "success rate too low"@,
            *self is LeakDetected ==> r@ == "possible memory leak"@,
            *self is ExcessiveGrowth ==> r@ == "memory grew too much"@,
    {
        match self {
            RunVerdict::Passed => "passed",
            RunVerdict::TimedOut => "timed out",
            RunVerdict::SuccessRateTooLow => "success rate too low",
            RunVerdict::LeakDetected => "possible memory leak",
            RunVerdict::ExcessiveGrowth => "memory grew too much",
        }
    }
}

/// The verdict the checks produce, applied in their strict order.
pub open spec fn spec_verdict(
    t: ScenarioThresholds,
    summary: StressTestSummary,
    leak: Option<MemoryLeakResult>,
    timed_out: bool,
) -> RunVerdict {
    if timed_out {
        RunVerdict::TimedOut
    } else if t.rate_floor is Some && !summary.spec_rate_exceeds(
        (t.rate_floor->0).0 as int,
        (t.rate_floor->0).1 as int,
    ) {
        RunVerdict::SuccessRateTooLow
    } else if t.leak_threshold_hundredths is Some && leak is Some && leak->0.possible_leak {
        RunVerdict::LeakDetected
    } else if t.growth_cap_hundredths is Some && leak is Some
        && leak->0.growth_ratio_hundredths >= t.growth_cap_hundredths->0 {
        RunVerdict::ExcessiveGrowth
    } else {
        RunVerdict::Passed
    }
}

/// Judge one finished run against a scenario's thresholds.
///
/// A timeout fails the run before anything else is looked at. Threshold
/// violations are reported in check order; a run with no configured check
/// left to fail passes.
pub fn evaluate_run(
    t: &ScenarioThresholds,
    summary: &StressTestSummary,
    leak: Option<&MemoryLeakResult>,
    timed_out: bool,
) -> (v: RunVerdict)
    requires
        t.rate_floor is Some ==> (t.rate_floor->0).1 > 0,
        t.needs_leak_result() ==> leak is Some,
    ensures
        v == spec_verdict(
            *t,
            *summary,
            (match leak {
                Some(l) => Some(*l),
                None => None,
            }),
            timed_out,
        ),
{
    if timed_out {
        return RunVerdict::TimedOut;
    }
    if let Some((num, den)) = t.rate_floor {
        if !summary.success_rate_exceeds(num, den) {
            return RunVerdict::SuccessRateTooLow;
        }
    }
    if t.leak_threshold_hundredths.is_some() {
        if let Some(l) = leak {
            if l.possible_leak {
                return RunVerdict::LeakDetected;
            }
        }
    }
    if let Some(cap) = t.growth_cap_hundredths {
        if let Some(l) = leak {
            if l.growth_ratio_hundredths >= cap {
                return RunVerdict::ExcessiveGrowth;
            }
        }
    }
    RunVerdict::Passed
}

impl Scenario {
    /// The workload plan this scenario drives. For the burst shape the plan
    /// describes one burst; [`Scenario::burst_count`] says how many rounds
    /// are driven with the metrics accumulating across them.
    pub fn workload(&self) -> (r: WorkloadConfig)
        ensures
            r.wf(),
            *self is SustainedMixed ==> r == (WorkloadConfig {
                writer_count: 50usize,
                reader_count: 100usize,
                total_operations: 10000usize,
                max_in_flight: 100usize,
                timeout_secs: 300u64,
                memory_check_interval: 1000usize,
            }),
            *self is BurstTraffic ==> r == (WorkloadConfig {
                writer_count: 100usize,
                reader_count: 0usize,
                total_operations: 2000usize,
                max_in_flight: 100usize,
                timeout_secs: 300u64,
                memory_check_interval: 1000usize,
            }),
            *self is MemoryPressure ==> r == (WorkloadConfig {
                writer_count: 50usize,
                reader_count: 10usize,
                total_operations: 5000usize,
                max_in_flight: 100usize,
                timeout_secs: 300u64,
                memory_check_interval: 500usize,
            }),
            *self is HighContention ==> r == (WorkloadConfig {
                writer_count: 100usize,
                reader_count: 100usize,
                total_operations: 50000usize,
                max_in_flight: 100usize,
                timeout_secs: 300u64,
                memory_check_interval: 1000usize,
            }),
            *self is LongSoak ==> r == (WorkloadConfig {
                writer_count: 1usize,
                reader_count: 1usize,
                total_operations: 0usize,
                max_in_flight: 1usize,
                timeout_secs: 60u64,
                memory_check_interval: 1000usize,
            }),
    {
        match self {
            Scenario::SustainedMixed => WorkloadConfig {
                writer_count: 50,
                reader_count: 100,
                total_operations: 10000,
                max_in_flight: 100,
                timeout_secs: 300,
                memory_check_interval: 1000,
            },
            Scenario::BurstTraffic => WorkloadConfig {
                writer_count: 100,
                reader_count: 0,
                total_operations: 2000,
                max_in_flight: 100,
                timeout_secs: 300,
                memory_check_interval: 1000,
            },
            Scenario::MemoryPressure => WorkloadConfig {
                writer_count: 50,
                reader_count: 10,
                total_operations: 5000,
                max_in_flight: 100,
                timeout_secs: 300,
                memory_check_interval: 500,
            },
            Scenario::HighContention => WorkloadConfig {
                writer_count: 100,
                reader_count: 100,
                total_operations: 50000,
                max_in_flight: 100,
                timeout_secs: 300,
                memory_check_interval: 1000,
            },
            Scenario::LongSoak => WorkloadConfig {
                writer_count: 1,
                reader_count: 1,
                total_operations: 0,
                max_in_flight: 1,
                timeout_secs: 60,
                memory_check_interval: 1000,
            },
        }
    }

    /// How many rounds of the workload are driven: five separated bursts
    /// for the burst shape, a single round for every other.
    pub fn burst_count(&self) -> (r: usize)
        ensures
            *self is BurstTraffic ==> r == 5,
            !(*self is BurstTraffic) ==> r == 1,
            r >= 1,
    {
        match self {
            Scenario::BurstTraffic => 5,
            _ => 1,
        }
    }

    /// Size of the pre-populated key set that contending tasks fight over;
    /// zero for shapes that generate fresh keys.
    pub fn contended_keys(&self) -> (r: usize)
        ensures
            *self is HighContention ==> r == 10,
            !(*self is HighContention) ==> r == 0,
    {
        match self {
            Scenario::HighContention => 10,
            _ => 0,
        }
    }

    /// What the aggregated run must clear to pass.
    ///
    /// Bursts are less contended than sustained mixed load, so their rate
    /// bar is higher; the soak's is higher still. The memory-pressure shape
    /// retains data on purpose, so it trades the leak flag for a loose
    /// growth cap.
    pub fn thresholds(&self) -> (r: ScenarioThresholds)
        ensures
            r.rate_floor is Some ==> (r.rate_floor->0).1 > 0,
            *self is SustainedMixed ==> r == (ScenarioThresholds {
                rate_floor: Some((95u64, 100u64)),
                leak_threshold_hundredths: Some(300u64),
                growth_cap_hundredths: None::<u64>,
            }),
            *self is BurstTraffic ==> r == (ScenarioThresholds {
                rate_floor: Some((99u64, 100u64)),
                leak_threshold_hundredths: None::<u64>,
                growth_cap_hundredths: None::<u64>,
            }),
            *self is MemoryPressure ==> r == (ScenarioThresholds {
                rate_floor: None::<(u64, u64)>,
                leak_threshold_hundredths: None::<u64>,
                growth_cap_hundredths: Some(1000u64),
            }),
            *self is HighContention ==> r == (ScenarioThresholds {
                rate_floor: Some((99u64, 100u64)),
                leak_threshold_hundredths: None::<u64>,
                growth_cap_hundredths: None::<u64>,
            }),
            *self is LongSoak ==> r == (ScenarioThresholds {
                rate_floor: Some((999u64, 1000u64)),
                leak_threshold_hundredths: Some(300u64),
                growth_cap_hundredths: None::<u64>,
            }),
    {
        match self {
            Scenario::SustainedMixed => ScenarioThresholds {
                rate_floor: Some((95, 100)),
                leak_threshold_hundredths: Some(300),
                growth_cap_hundredths: None,
            },
            Scenario::BurstTraffic => ScenarioThresholds {
                rate_floor: Some((99, 100)),
                leak_threshold_hundredths: None,
                growth_cap_hundredths: None,
            },
            Scenario::MemoryPressure => ScenarioThresholds {
                rate_floor: None,
                leak_threshold_hundredths: None,
                growth_cap_hundredths: Some(1000),
            },
            Scenario::HighContention => ScenarioThresholds {
                rate_floor: Some((99, 100)),
                leak_threshold_hundredths: None,
                growth_cap_hundredths: None,
            },
            Scenario::LongSoak => ScenarioThresholds {
                rate_floor: Some((999, 1000)),
                leak_threshold_hundredths: Some(300),
                growth_cap_hundredths: None,
            },
        }
    }

    /// Whether the scenario only runs when explicitly requested.
    pub fn opt_in(&self) -> (r: bool)
        ensures
            r == (*self is LongSoak),
    {
        match self {
            Scenario::LongSoak => true,
            _ => false,
        }
    }
}

} // verus!
