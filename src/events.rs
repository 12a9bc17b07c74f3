//! The run's phases and the events it emits to its consumers.

use vstd::prelude::*;
use crate::payload::{PayloadSize, TestType};
use crate::results::{LatencyResult, SpeedTestConfig, SpeedTestResult, ThroughputResult};
use crate::trace::Metadata;

verus! {

/// Phase of a run: connecting (`Idle`), latency, then download and upload as
/// configured, then done.
#[derive(Debug, Clone, Copy, PartialEq, Eq, Structural)]
pub enum TestPhase {
    Idle,
    Latency,
    Download,
    Upload,
    Completed,
}

/// How an event is handed to a consumer that is behind.
#[derive(Debug, Clone, Copy, PartialEq, Eq, Structural)]
pub enum Delivery {
    /// Dropped when the consumer's queue is full.
    BestEffort,
    /// Waited for, within the queue's bound.
    Reliable,
}

/// Events emitted by a run, in the order the work is done.
#[derive(Debug, Clone)]
pub enum SpeedTestEvent {
    MetadataReady(Metadata),
    LatencySample { rtt_ms: u64, index: u32, total: u32 },
    LatencyComplete(LatencyResult),
    PhaseStart(TestType),
    ThroughputSample { test_type: TestType, payload_size: PayloadSize, mbps: u64, index: u32, total: u32 },
    TransferProgress { test_type: TestType, bytes_so_far: u64, total_bytes: u64, current_mbps: u64 },
    PayloadSkipped { test_type: TestType, payload_size: PayloadSize },
    ThroughputComplete { test_type: TestType, result: ThroughputResult },
    Complete(SpeedTestResult),
    Error(String),
}

impl SpeedTestEvent {
    /// Only in-flight progress ticks may be dropped; every other event is
    /// delivered.
    pub fn delivery(&self) -> (r: Delivery)
        ensures
            r == (if self is TransferProgress {
                Delivery::BestEffort
            } else {
                Delivery::Reliable
            }),
    {
        match self {
            SpeedTestEvent::TransferProgress { .. } => Delivery::BestEffort,
            _ => Delivery::Reliable,
        }
    }
}

/// The phase after `phase` under `config`.
pub open spec fn next_phase_spec(phase: TestPhase, config: SpeedTestConfig) -> TestPhase {
    match phase {
        TestPhase::Idle => TestPhase::Latency,
        TestPhase::Latency => if config.download {
            TestPhase::Download
        } else if config.upload {
            TestPhase::Upload
        } else {
            TestPhase::Completed
        },
        TestPhase::Download => if config.upload {
            TestPhase::Upload
        } else {
            TestPhase::Completed
        },
        _ => TestPhase::Completed,
    }
}

impl TestPhase {
    /// The phase that follows this one: a direction that is not configured
    /// is passed over, and `Completed` stays.
    pub fn next(self, config: &SpeedTestConfig) -> (r: TestPhase)
        ensures
            r == next_phase_spec(self, *config),
    {
        match self {
            TestPhase::Idle => TestPhase::Latency,
            TestPhase::Latency => if config.download {
                TestPhase::Download
            } else if config.upload {
                TestPhase::Upload
            } else {
                TestPhase::Completed
            },
            TestPhase::Download => if config.upload {
                TestPhase::Upload
            } else {
                TestPhase::Completed
            },
            _ => TestPhase::Completed,
        }
    }

    /// The direction measured in this phase, if any.
    pub fn direction(self) -> (r: Option<TestType>)
        ensures
            r == (match self {
                TestPhase::Download => Some(TestType::Download),
                TestPhase::Upload => Some(TestType::Upload),
                _ => None,
            }),
    {
        match self {
            TestPhase::Download => Some(TestType::Download),
            TestPhase::Upload => Some(TestType::Upload),
            _ => None,
        }
    }
}

/// Position of a phase in the run.
pub open spec fn phase_rank(p: TestPhase) -> nat {
    match p {
        TestPhase::Idle => 0,
        TestPhase::Latency => 1,
        TestPhase::Download => 2,
        TestPhase::Upload => 3,
        TestPhase::Completed => 4,
    }
}

/// Phases only move forward, and within four steps every run is complete.
pub proof fn lemma_phases_advance(p: TestPhase, config: SpeedTestConfig)
    ensures
        p != TestPhase::Completed ==> phase_rank(next_phase_spec(p, config)) > phase_rank(p),
        next_phase_spec(
            next_phase_spec(next_phase_spec(next_phase_spec(p, config), config), config),
            config,
        ) == TestPhase::Completed,
{
}

} // verus!
