//! Run configuration and the records a run produces.

use vstd::prelude::*;
use crate::payload::{PayloadSize, TestType};
use crate::retry::PayloadAttemptStats;
use crate::stats::{StatSummary, calc_stats, summary_of};
use crate::trace::Metadata;

verus! {

/// Configuration of one run.
#[derive(Debug, Clone, Copy, PartialEq, Eq, Structural)]
pub struct SpeedTestConfig {
    /// Successful samples wanted per payload size.
    pub nr_tests: u32,
    /// Latency probes to make.
    pub nr_latency_tests: u32,
    pub max_payload_size: PayloadSize,
    pub disable_dynamic_max_payload_size: bool,
    pub download: bool,
    pub upload: bool,
}

impl Default for SpeedTestConfig {
    fn default() -> (r: Self)
        ensures
            r == (SpeedTestConfig {
                nr_tests: 10,
                nr_latency_tests: 25,
                max_payload_size: PayloadSize::M25,
                disable_dynamic_max_payload_size: false,
                download: true,
                upload: true,
            }),
    {
        SpeedTestConfig {
            nr_tests: 10,
            nr_latency_tests: 25,
            max_payload_size: PayloadSize::M25,
            disable_dynamic_max_payload_size: false,
            download: true,
            upload: true,
        }
    }
}

/// One accepted throughput sample.
#[derive(Debug, Clone, Copy, PartialEq, Eq, Structural)]
pub struct Measurement {
    pub test_type: TestType,
    pub payload_size: PayloadSize,
    /// Thousandths of a megabit per second.
    pub mbps: u64,
}

/// Latency probes of a run, in thousandths of a millisecond.
#[derive(Debug, Clone)]
pub struct LatencyResult {
    pub avg_ms: u64,
    pub min_ms: u64,
    pub max_ms: u64,
    pub samples: Vec<u64>,
}

/// Statistics of the samples of one payload size.
#[derive(Debug, Clone, Copy, PartialEq, Eq, Structural)]
pub struct PayloadStats {
    pub test_type: TestType,
    pub payload_size: PayloadSize,
    pub min: u64,
    pub q1: u64,
    pub median: u64,
    pub q3: u64,
    pub max: u64,
    pub avg: u64,
}

/// Attempt counts of one tested payload size.
#[derive(Debug, Clone, Copy, PartialEq, Eq, Structural)]
pub struct SizeAttempts {
    pub payload_size: PayloadSize,
    pub attempts: PayloadAttemptStats,
}

/// Everything one direction produced.
#[derive(Debug, Clone)]
pub struct ThroughputResult {
    /// Mean of the largest payload size that gave samples; zero if none did.
    pub overall_mbps: u64,
    pub measurements: Vec<Measurement>,
    pub stats: Vec<PayloadStats>,
    pub attempts: Vec<SizeAttempts>,
    pub skipped: Vec<PayloadSize>,
}

/// Final result of a complete run.
#[derive(Debug, Clone)]
pub struct SpeedTestResult {
    pub metadata: Metadata,
    pub latency: Option<LatencyResult>,
    pub download: Option<ThroughputResult>,
    pub upload: Option<ThroughputResult>,
}

pub open spec fn payload_stats_of(test_type: TestType, payload_size: PayloadSize, s: StatSummary) -> PayloadStats {
    PayloadStats {
        test_type,
        payload_size,
        min: s.min,
        q1: s.q1,
        median: s.median,
        q3: s.q3,
        max: s.max,
        avg: s.avg,
    }
}

/// Summarises the latency probes; all zero when none succeeded.
pub fn latency_result(samples: Vec<u64>) -> (r: LatencyResult)
    ensures
        r.samples@ == samples@,
        samples@.len() == 0 ==> r.avg_ms == 0 && r.min_ms == 0 && r.max_ms == 0,
        samples@.len() > 0 ==> r.avg_ms == summary_of(samples@).avg && r.min_ms == summary_of(
            samples@,
        ).min && r.max_ms == summary_of(samples@).max,
{
    match calc_stats(samples.as_slice()) {
        Some(s) => LatencyResult { avg_ms: s.avg, min_ms: s.min, max_ms: s.max, samples },
        None => LatencyResult { avg_ms: 0, min_ms: 0, max_ms: 0, samples },
    }
}

/// Gathers the outcome of one direction, size by size.
pub struct ThroughputCollector {
    pub test_type: TestType,
    pub measurements: Vec<Measurement>,
    pub stats: Vec<PayloadStats>,
    pub attempts: Vec<SizeAttempts>,
    pub skipped: Vec<PayloadSize>,
}

impl ThroughputCollector {
    pub fn new(test_type: TestType) -> (r: ThroughputCollector)
        ensures
            r.test_type == test_type,
            r.measurements@ == Seq::<Measurement>::empty(),
            r.stats@ == Seq::<PayloadStats>::empty(),
            r.attempts@ == Seq::<SizeAttempts>::empty(),
            r.skipped@ == Seq::<PayloadSize>::empty(),
    {
        ThroughputCollector {
            test_type,
            measurements: Vec::new(),
            stats: Vec::new(),
            attempts: Vec::new(),
            skipped: Vec::new(),
        }
    }

    /// Records a tested size: a measurement per sample, the statistics when
    /// there is at least one sample, and the attempt counts.
    pub fn add_size(&mut self, payload_size: PayloadSize, samples: &[u64], attempts: PayloadAttemptStats)
        ensures
            final(self).test_type == old(self).test_type,
            final(self).measurements@ == old(self).measurements@ + samples@.map_values(
                |v: u64| Measurement { test_type: old(self).test_type, payload_size, mbps: v },
            ),
            final(self).stats@ == if samples@.len() == 0 {
                old(self).stats@
            } else {
                old(self).stats@.push(
                    payload_stats_of(old(self).test_type, payload_size, summary_of(samples@)),
                )
            },
            final(self).attempts@ == old(self).attempts@.push(SizeAttempts { payload_size, attempts }),
            final(self).skipped@ == old(self).skipped@,
    {
        let ghost before = self.measurements@;
        let mut i: usize = 0;
        while i < samples.len()
            invariant
                i <= samples@.len(),
                self.test_type == old(self).test_type,
                self.stats@ == old(self).stats@,
                self.attempts@ == old(self).attempts@,
                self.skipped@ == old(self).skipped@,
                before == old(self).measurements@,
                self.measurements@ == before + samples@.take(i as int).map_values(
                    |v: u64| Measurement { test_type: old(self).test_type, payload_size, mbps: v },
                ),
            decreases samples.len() - i,
        {
            proof {
                assert(samples@.take(i + 1) =~= samples@.take(i as int).push(samples@[i as int]));
            }
            self.measurements.push(Measurement { test_type: self.test_type, payload_size, mbps: samples[i] });
            i = i + 1;
            proof {
                let f = |v: u64| Measurement { test_type: old(self).test_type, payload_size, mbps: v };
                assert(samples@.take(i as int).map_values(f) =~= samples@.take(i - 1).map_values(f).push(
                    f(samples@[i - 1]),
                ));
                assert(self.measurements@ =~= before + samples@.take(i as int).map_values(f));
            }
        }
        proof {
            assert(samples@.take(samples@.len() as int) =~= samples@);
        }
        match calc_stats(samples) {
            Some(s) => {
                self.stats.push(
                    PayloadStats {
                        test_type: self.test_type,
                        payload_size,
                        min: s.min,
                        q1: s.q1,
                        median: s.median,
                        q3: s.q3,
                        max: s.max,
                        avg: s.avg,
                    },
                );
            },
            None => {},
        }
        self.attempts.push(SizeAttempts { payload_size, attempts });
    }

    /// Records a size that was not tested.
    pub fn add_skipped(&mut self, payload_size: PayloadSize)
        ensures
            final(self).test_type == old(self).test_type,
            final(self).measurements@ == old(self).measurements@,
            final(self).stats@ == old(self).stats@,
            final(self).attempts@ == old(self).attempts@,
            final(self).skipped@ == old(self).skipped@.push(payload_size),
    {
        self.skipped.push(payload_size);
    }

    /// The direction's result. Its overall throughput is the mean of the
    /// last size that gave statistics, the largest one that was tested.
    pub fn finish(self) -> (r: ThroughputResult)
        ensures
            r.overall_mbps == (if self.stats@.len() == 0 {
                0
            } else {
                self.stats@.last().avg
            }),
            r.measurements@ == self.measurements@,
            r.stats@ == self.stats@,
            r.attempts@ == self.attempts@,
            r.skipped@ == self.skipped@,
    {
        let n = self.stats.len();
        let overall_mbps = if n == 0 {
            0
        } else {
            self.stats[n - 1].avg
        };
        ThroughputResult {
            overall_mbps,
            measurements: self.measurements,
            stats: self.stats,
            attempts: self.attempts,
            skipped: self.skipped,
        }
    }
}

} // verus!
