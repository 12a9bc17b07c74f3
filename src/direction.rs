//! One direction of a run: the scheduler hands out payload sizes, each
//! tested size runs a retry loop, and the outcome is collected.
//!
//! The caller performs the transfers and keeps the time:
//! 1. `next_size` says which size to test, or that one was skipped, or that
//!    the direction is done;
//! 2. for a tested size, attempts go to `policy.record` until the policy is
//!    finished, waiting as it says;
//! 3. `finish_size` takes the wall time of that size's whole loop;
//! 4. `finish` gives the direction's result.

use vstd::prelude::*;
use crate::payload::{PayloadSize, TestType};
use crate::results::{SpeedTestConfig, ThroughputCollector, ThroughputResult, payload_stats_of, SizeAttempts, Measurement};
use crate::retry::RetryPolicy;
use crate::scheduler::{ScheduleStep, Scheduler};
use crate::stats::summary_of;

verus! {

/// What `next_size` decided.
#[derive(Debug, Clone, Copy, PartialEq, Eq, Structural)]
pub enum DirectionStep {
    /// Run the retry loop of this size now.
    Test(PayloadSize),
    /// This size is not tested; report it as skipped.
    Skipped(PayloadSize),
    /// No size is left.
    Done,
}

pub struct DirectionRun {
    pub scheduler: Scheduler,
    /// Successful samples wanted per size.
    pub target: u32,
    /// The size under test, if any.
    pub current: Option<PayloadSize>,
    /// The retry loop of the size under test.
    pub policy: RetryPolicy,
    pub collector: ThroughputCollector,
}

impl DirectionRun {
    pub open spec fn wf(&self) -> bool {
        &&& self.scheduler.wf()
        &&& self.policy.wf()
        &&& (self.current is Some) == self.scheduler.awaiting_report
    }

    /// A direction over the sizes that `config` allows.
    pub fn new(test_type: TestType, config: &SpeedTestConfig) -> (r: DirectionRun)
        ensures
            r.wf(),
            r.target == config.nr_tests,
            r.current is None,
            r.scheduler.sizes@ == crate::payload::all_sizes().take(
                config.max_payload_size.rank() + 1 as int,
            ),
            r.scheduler.next == 0,
            r.scheduler.adaptive == !config.disable_dynamic_max_payload_size,
            !r.scheduler.over_threshold,
            r.collector.test_type == test_type,
            r.collector.measurements@.len() == 0,
            r.collector.stats@.len() == 0,
            r.collector.attempts@.len() == 0,
            r.collector.skipped@.len() == 0,
    {
        DirectionRun {
            scheduler: Scheduler::new(config.max_payload_size, config.disable_dynamic_max_payload_size),
            target: config.nr_tests,
            current: None,
            policy: RetryPolicy::new(0),
            collector: ThroughputCollector::new(test_type),
        }
    }

    /// Moves on to the next size, as the scheduler decides. A tested size
    /// gets a fresh retry loop; a skipped one is recorded as skipped.
    pub fn next_size(&mut self) -> (step: DirectionStep)
        requires
            old(self).wf(),
            old(self).current is None,
        ensures
            final(self).wf(),
            final(self).target == old(self).target,
            final(self).collector.test_type == old(self).collector.test_type,
            final(self).collector.measurements@ == old(self).collector.measurements@,
            final(self).collector.stats@ == old(self).collector.stats@,
            final(self).collector.attempts@ == old(self).collector.attempts@,
            final(self).scheduler.sizes@ == old(self).scheduler.sizes@,
            final(self).scheduler.adaptive == old(self).scheduler.adaptive,
            final(self).scheduler.over_threshold == old(self).scheduler.over_threshold,
            match old(self).scheduler.step_spec() {
                ScheduleStep::Test(size) => {
                    &&& step == DirectionStep::Test(size)
                    &&& final(self).current == Some(size)
                    &&& final(self).scheduler.next == old(self).scheduler.next + 1
                    &&& final(self).policy.stats.attempts == 0
                    &&& final(self).policy.stats.target == old(self).target as u64
                    &&& final(self).policy.samples@.len() == 0
                    &&& final(self).policy.finished == (old(self).target == 0)
                    &&& final(self).collector.skipped@ == old(self).collector.skipped@
                },
                ScheduleStep::Skip(size) => {
                    &&& step == DirectionStep::Skipped(size)
                    &&& final(self).current is None
                    &&& final(self).scheduler.next == old(self).scheduler.next + 1
                    &&& final(self).collector.skipped@ == old(self).collector.skipped@.push(size)
                },
                ScheduleStep::Done => {
                    &&& step == DirectionStep::Done
                    &&& final(self).current is None
                    &&& final(self).scheduler.next == old(self).scheduler.next
                    &&& final(self).collector.skipped@ == old(self).collector.skipped@
                },
            },
    {
        match self.scheduler.next_step() {
            ScheduleStep::Test(size) => {
                self.current = Some(size);
                self.policy = RetryPolicy::new(self.target);
                DirectionStep::Test(size)
            },
            ScheduleStep::Skip(size) => {
                self.collector.add_skipped(size);
                DirectionStep::Skipped(size)
            },
            ScheduleStep::Done => DirectionStep::Done,
        }
    }

    /// Closes the size under test once its retry loop is finished: its
    /// samples and attempt counts are collected, and its wall time, waits
    /// included, goes to the scheduler.
    pub fn finish_size(&mut self, elapsed_ms: u64)
        requires
            old(self).wf(),
            old(self).current is Some,
            old(self).policy.finished,
        ensures
            final(self).wf(),
            final(self).current is None,
            final(self).target == old(self).target,
            final(self).scheduler.sizes@ == old(self).scheduler.sizes@,
            final(self).scheduler.next == old(self).scheduler.next,
            final(self).scheduler.adaptive == old(self).scheduler.adaptive,
            final(self).scheduler.over_threshold == (old(self).scheduler.over_threshold
                || elapsed_ms > crate::scheduler::TIME_THRESHOLD_MS),
            final(self).collector.test_type == old(self).collector.test_type,
            final(self).collector.measurements@ == old(self).collector.measurements@
                + old(self).policy.samples@.map_values(
                |v: u64|
                    Measurement {
                        test_type: old(self).collector.test_type,
                        payload_size: old(self).current->Some_0,
                        mbps: v,
                    },
            ),
            final(self).collector.stats@ == if old(self).policy.samples@.len() == 0 {
                old(self).collector.stats@
            } else {
                old(self).collector.stats@.push(
                    payload_stats_of(
                        old(self).collector.test_type,
                        old(self).current->Some_0,
                        summary_of(old(self).policy.samples@),
                    ),
                )
            },
            final(self).collector.attempts@ == old(self).collector.attempts@.push(
                SizeAttempts {
                    payload_size: old(self).current->Some_0,
                    attempts: old(self).policy.stats,
                },
            ),
            final(self).collector.skipped@ == old(self).collector.skipped@,
    {
        let size = match self.current {
            Some(s) => s,
            None => {
                return;
            },
        };
        self.collector.add_size(size, self.policy.samples.as_slice(), self.policy.stats);
        self.scheduler.report_elapsed(elapsed_ms);
        self.current = None;
    }

    /// The direction's result, once every size is handled.
    pub fn finish(self) -> (r: ThroughputResult)
        requires
            self.wf(),
            self.current is None,
        ensures
            r.overall_mbps == (if self.collector.stats@.len() == 0 {
                0
            } else {
                self.collector.stats@.last().avg
            }),
            r.measurements@ == self.collector.measurements@,
            r.stats@ == self.collector.stats@,
            r.attempts@ == self.collector.attempts@,
            r.skipped@ == self.collector.skipped@,
    {
        self.collector.finish()
    }
}

} // verus!
