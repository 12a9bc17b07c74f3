//! Adaptive payload-size scheduling.
//!
//! Sizes are tested in ascending order. Once a tested size took longer than
//! the time threshold in all (its whole retry loop, waits included), the
//! larger sizes are reported as skipped instead of tested, unless adaptive
//! skipping is disabled.

use vstd::prelude::*;
use crate::payload::{PayloadSize, all_sizes};

verus! {

/// Wall time of one size's retry loop above which larger sizes are skipped.
pub const TIME_THRESHOLD_MS: u64 = 5_000;

/// The scheduler's next instruction.
#[derive(Debug, Clone, Copy, PartialEq, Eq, Structural)]
pub enum ScheduleStep {
    /// Run the retry loop for this size, then report its wall time.
    Test(PayloadSize),
    /// Do not test this size; report it as skipped.
    Skip(PayloadSize),
    /// Every size has been handled.
    Done,
}

pub struct Scheduler {
    /// The sizes to handle, smallest first.
    pub sizes: Vec<PayloadSize>,
    /// Index of the next size to hand out.
    pub next: usize,
    /// Whether larger sizes are skipped after a slow one.
    pub adaptive: bool,
    /// Whether a tested size exceeded the threshold.
    pub over_threshold: bool,
    /// Whether a tested size's wall time is still to be reported.
    pub awaiting_report: bool,
}

impl Scheduler {
    pub open spec fn wf(&self) -> bool {
        self.next <= self.sizes@.len()
    }

    /// Whether the next size is skipped rather than tested.
    pub open spec fn skipping(&self) -> bool {
        self.adaptive && self.over_threshold
    }

    /// The step that `next_step` takes from this state.
    pub open spec fn step_spec(&self) -> ScheduleStep {
        if self.next >= self.sizes@.len() {
            ScheduleStep::Done
        } else if self.skipping() {
            ScheduleStep::Skip(self.sizes@[self.next as int])
        } else {
            ScheduleStep::Test(self.sizes@[self.next as int])
        }
    }

    /// A scheduler over all sizes up to and including `max`.
    pub fn new(max: PayloadSize, disable_adaptive: bool) -> (r: Scheduler)
        ensures
            r.wf(),
            r.sizes@ == all_sizes().take(max.rank() + 1 as int),
            r.next == 0,
            r.adaptive == !disable_adaptive,
            !r.over_threshold,
            !r.awaiting_report,
    {
        Scheduler {
            sizes: PayloadSize::sizes_up_to(max),
            next: 0,
            adaptive: !disable_adaptive,
            over_threshold: false,
            awaiting_report: false,
        }
    }

    /// Hands out the next size: to test, or to report as skipped once a
    /// tested size was too slow and adaptive skipping is on.
    pub fn next_step(&mut self) -> (step: ScheduleStep)
        requires
            old(self).wf(),
            !old(self).awaiting_report,
        ensures
            step == old(self).step_spec(),
            final(self).wf(),
            final(self).sizes@ == old(self).sizes@,
            final(self).adaptive == old(self).adaptive,
            final(self).over_threshold == old(self).over_threshold,
            old(self).next == old(self).sizes@.len() ==> {
                &&& step == ScheduleStep::Done
                &&& final(self).next == old(self).next
                &&& !final(self).awaiting_report
            },
            old(self).next < old(self).sizes@.len() ==> {
                &&& final(self).next == old(self).next + 1
                &&& step == if old(self).skipping() {
                    ScheduleStep::Skip(old(self).sizes@[old(self).next as int])
                } else {
                    ScheduleStep::Test(old(self).sizes@[old(self).next as int])
                }
                &&& final(self).awaiting_report == !old(self).skipping()
            },
    {
        if self.next == self.sizes.len() {
            return ScheduleStep::Done;
        }
        let size = self.sizes[self.next];
        self.next = self.next + 1;
        if self.adaptive && self.over_threshold {
            ScheduleStep::Skip(size)
        } else {
            self.awaiting_report = true;
            ScheduleStep::Test(size)
        }
    }

    /// Reports the wall time of the size last handed out for testing.
    pub fn report_elapsed(&mut self, elapsed_ms: u64)
        requires
            old(self).wf(),
            old(self).awaiting_report,
        ensures
            final(self).wf(),
            final(self).sizes@ == old(self).sizes@,
            final(self).next == old(self).next,
            final(self).adaptive == old(self).adaptive,
            final(self).over_threshold == (old(self).over_threshold || elapsed_ms
                > TIME_THRESHOLD_MS),
            !final(self).awaiting_report,
    {
        if elapsed_ms > TIME_THRESHOLD_MS {
            self.over_threshold = true;
        }
        self.awaiting_report = false;
    }
}

/// Once a tested size has taken longer than the threshold with adaptive
/// skipping on, no further size is tested: the next step is a skip or the
/// end, and neither step changes that state.
pub proof fn lemma_slow_size_stops_testing(s: Scheduler)
    requires
        s.wf(),
        s.adaptive,
        s.over_threshold,
    ensures
        !(s.step_spec() is Test),
{
}

} // verus!
