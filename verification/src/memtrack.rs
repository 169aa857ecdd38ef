//! Memory-usage tracking and a heuristic for detecting unbounded growth.
//!
//! The tracker itself never reads process memory: callers sample the
//! process's resident size however their platform allows and hand the
//! byte counts in. On platforms without a cheap memory read a caller may
//! hand in zero; a zero baseline is treated as "no signal" and is never
//! flagged as a leak.

use vstd::prelude::*;
use vstd::string::*;

use crate::text::{bool_text, decimal_rep};

verus! {

/// Accumulates memory-usage samples taken while a workload runs.
///
/// `record_initial` is meant to be called once, before any worker starts;
/// `sample` may then be called from any point of the run; `check_for_leaks`
/// is read once, after the run. The peak never decreases once recorded.
pub struct MemoryTracker {
    /// Baseline taken before the workload started.
    pub initial_bytes: u64,
    /// Highest sample seen so far.
    pub peak_bytes: u64,
    /// Most recent sample.
    pub current_bytes: u64,
    /// Number of `sample` calls since the tracker was created.
    pub sample_count: u64,
}

/// Verdict of the leak heuristic, derived from a tracker's counters.
#[derive(Clone, Copy, Debug)]
pub struct MemoryLeakResult {
    /// Baseline the run started from.
    pub initial_bytes: u64,
    /// Highest sample seen during the run.
    pub peak_bytes: u64,
    /// Last sample taken.
    pub final_bytes: u64,
    /// Peak divided by baseline, in hundredths (100 = no growth).
    /// Defined as 100 when the baseline is zero; saturates at `u64::MAX`.
    pub growth_ratio_hundredths: u64,
    /// Whether the run looks like a leak: memory grew from the baseline
    /// and the peak-to-baseline ratio exceeds the caller's threshold.
    pub possible_leak: bool,
    /// Number of samples the verdict is based on.
    pub samples_taken: u64,
}

impl MemoryLeakResult {
    /// The verdict as a readable report: the three byte counts in
    /// kilobytes, the growth ratio in hundredths, and the flag.
    pub fn describe(&self) -> (r: String)
        ensures
            r@ == "Memory: initial="@ + decimal_rep(self.initial_bytes as int / 1024) + "KB, peak="@
                + decimal_rep(self.peak_bytes as int / 1024) + "KB, final="@ + decimal_rep(
                self.final_bytes as int / 1024,
            ) + "KB, growth="@ + decimal_rep(self.growth_ratio_hundredths as int)
                + " hundredths, leak="@ + bool_text(self.possible_leak),
    {
        let mut s = String::from_str("Memory: initial=");
        s.append(crate::text::u64_decimal(self.initial_bytes / 1024).as_str());
        s.append("KB, peak=");
        s.append(crate::text::u64_decimal(self.peak_bytes / 1024).as_str());
        s.append("KB, final=");
        s.append(crate::text::u64_decimal(self.final_bytes / 1024).as_str());
        s.append("KB, growth=");
        s.append(crate::text::u64_decimal(self.growth_ratio_hundredths).as_str());
        s.append(" hundredths, leak=");
        s.append(crate::text::bool_str(self.possible_leak));
        s
    }
}

/// The growth ratio reported for a tracker, in hundredths.
pub open spec fn spec_growth_ratio_hundredths(initial: u64, peak: u64) -> int {
    if initial > 0 {
        if peak * 100 / (initial as int) > u64::MAX {
            u64::MAX as int
        } else {
            peak * 100 / (initial as int)
        }
    } else {
        100
    }
}

/// The leak heuristic: memory must have grown from a non-zero baseline
/// and the peak-to-baseline ratio must exceed `threshold_hundredths`
/// (compared exactly, by cross-multiplication).
pub open spec fn spec_possible_leak(
    initial: u64,
    peak: u64,
    current: u64,
    threshold_hundredths: u64,
) -> bool {
    &&& initial > 0
    &&& current > initial
    &&& peak * 100 > threshold_hundredths * initial
}

impl MemoryTracker {
    /// The peak dominates both the baseline and the latest sample.
    pub open spec fn wf(self) -> bool {
        &&& self.peak_bytes >= self.initial_bytes
        &&& self.peak_bytes >= self.current_bytes
    }

    /// A fresh tracker with all counters at zero.
    pub fn new() -> (t: MemoryTracker)
        ensures
            t.wf(),
            t.initial_bytes == 0,
            t.peak_bytes == 0,
            t.current_bytes == 0,
            t.sample_count == 0,
    {
        MemoryTracker { initial_bytes: 0, peak_bytes: 0, current_bytes: 0, sample_count: 0 }
    }

    /// Record the memory use measured before the workload starts: baseline,
    /// peak and current all start from this value.
    pub fn record_initial(&mut self, bytes: u64)
        ensures
            final(self).wf(),
            final(self).initial_bytes == bytes,
            final(self).peak_bytes == bytes,
            final(self).current_bytes == bytes,
            final(self).sample_count == old(self).sample_count,
    {
        self.initial_bytes = bytes;
        self.peak_bytes = bytes;
        self.current_bytes = bytes;
    }

    /// Record one memory sample taken during the run. The current reading
    /// is replaced; the peak only ever moves up.
    pub fn sample(&mut self, bytes: u64)
        requires
            old(self).wf(),
            old(self).sample_count < u64::MAX,
        ensures
            final(self).wf(),
            final(self).current_bytes == bytes,
            final(self).peak_bytes == (if bytes > old(self).peak_bytes {
                bytes
            } else {
                old(self).peak_bytes
            }),
            final(self).peak_bytes >= old(self).peak_bytes,
            final(self).initial_bytes == old(self).initial_bytes,
            final(self).sample_count == old(self).sample_count + 1,
    {
        self.current_bytes = bytes;
        if bytes > self.peak_bytes {
            self.peak_bytes = bytes;
        }
        self.sample_count = self.sample_count + 1;
    }

    /// Judge the run against a growth-ratio threshold given in hundredths
    /// (300 means "flag growth beyond 3x the baseline").
    ///
    /// A run is flagged only when memory grew from a non-zero baseline and
    /// the peak-to-baseline ratio exceeds the threshold; a zero baseline
    /// carries no signal and is never flagged.
    pub fn check_for_leaks(&self, threshold_hundredths: u64) -> (r: MemoryLeakResult)
        ensures
            r.initial_bytes == self.initial_bytes,
            r.peak_bytes == self.peak_bytes,
            r.final_bytes == self.current_bytes,
            r.samples_taken == self.sample_count,
            r.growth_ratio_hundredths == spec_growth_ratio_hundredths(
                self.initial_bytes,
                self.peak_bytes,
            ),
            r.possible_leak == spec_possible_leak(
                self.initial_bytes,
                self.peak_bytes,
                self.current_bytes,
                threshold_hundredths,
            ),
            self.initial_bytes == 0 ==> !r.possible_leak,
    {
        let growth_ratio_hundredths: u64 = if self.initial_bytes > 0 {
            let scaled: u128 = (self.peak_bytes as u128) * 100 / (self.initial_bytes as u128);
            if scaled > u64::MAX as u128 {
                u64::MAX
            } else {
                scaled as u64
            }
        } else {
            100
        };
        proof {
            assert((threshold_hundredths as int) * (self.initial_bytes as int) <= (u64::MAX as int)
                * (u64::MAX as int)) by (nonlinear_arith)
                requires
                    threshold_hundredths <= u64::MAX,
                    self.initial_bytes <= u64::MAX,
            ;
        }
        let possible_leak = self.initial_bytes > 0 && self.current_bytes > self.initial_bytes
            && (self.peak_bytes as u128) * 100
                > (threshold_hundredths as u128) * (self.initial_bytes as u128);
        MemoryLeakResult {
            initial_bytes: self.initial_bytes,
            peak_bytes: self.peak_bytes,
            final_bytes: self.current_bytes,
            growth_ratio_hundredths,
            possible_leak,
            samples_taken: self.sample_count,
        }
    }
}

} // verus!
