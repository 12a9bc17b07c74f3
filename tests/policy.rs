use cfspeedtest::direction::{DirectionRun, DirectionStep};
use cfspeedtest::events::{Delivery, SpeedTestEvent, TestPhase};
use cfspeedtest::payload::{PayloadSize, TestType};
use cfspeedtest::results::SpeedTestConfig;
use cfspeedtest::retry::{
    classify_response, classify_transport_error, is_retryable_status, retry_delay_ms,
    AttemptOutcome, FailureReason, RetryDecision, RetryPolicy,
};
use cfspeedtest::sample::{throughput_milli_mbps, LatencyProbe};
use cfspeedtest::scheduler::{ScheduleStep, Scheduler};

/// Runs the policy against a scripted endpoint that answers with `statuses`
/// in turn (the last one repeating). Returns the waits asked for.
fn drive(policy: &mut RetryPolicy, statuses: &[u16]) -> Vec<u64> {
    let mut waits = Vec::new();
    let mut k = 0;
    while policy.wants_attempt() {
        let status = statuses[k.min(statuses.len() - 1)];
        k += 1;
        match policy.record(classify_response(status, 42_000, 10, None)) {
            RetryDecision::Wait(ms) => waits.push(ms),
            RetryDecision::Proceed | RetryDecision::Finished => {}
        }
    }
    waits
}

#[test]
fn retry_once_after_429_then_success() {
    let mut p = RetryPolicy::new(1);
    let waits = drive(&mut p, &[429, 200]);
    assert_eq!(p.stats.attempts, 2);
    assert_eq!(p.stats.successes, 1);
    assert_eq!(p.stats.skipped, 1);
    assert_eq!(p.samples, vec![42_000]);
    assert_eq!(waits, vec![200]);
}

#[test]
fn always_429_spends_the_whole_budget() {
    let mut p = RetryPolicy::new(2);
    let waits = drive(&mut p, &[429]);
    assert_eq!(p.stats.attempts, 8);
    assert_eq!(p.stats.successes, 0);
    assert_eq!(p.stats.skipped, 8);
    assert!(p.samples.is_empty());
    assert_eq!(waits.len(), 7);
}

#[test]
fn not_found_is_fatal_after_one_attempt() {
    let mut p = RetryPolicy::new(3);
    drive(&mut p, &[404]);
    assert_eq!(p.stats.attempts, 1);
    assert_eq!(p.stats.successes, 0);
    assert_eq!(p.stats.skipped, 1);
}

#[test]
fn target_met_stops_the_loop() {
    let mut p = RetryPolicy::new(3);
    drive(&mut p, &[200]);
    assert_eq!(p.stats.attempts, 3);
    assert_eq!(p.samples.len(), 3);
}

#[test]
fn zero_target_makes_no_attempt() {
    let p = RetryPolicy::new(0);
    assert!(!p.wants_attempt());
}

#[test]
fn retry_after_hint_is_used_verbatim() {
    let mut p = RetryPolicy::new(1);
    let d = p.record(classify_response(503, 0, 5, Some(3)));
    assert_eq!(d, RetryDecision::Wait(3_000));
}

#[test]
fn backoff_values() {
    assert_eq!(retry_delay_ms(1, None), 200);
    assert_eq!(retry_delay_ms(2, None), 600);
    assert_eq!(retry_delay_ms(3, None), 800);
    assert_eq!(retry_delay_ms(8, None), 9_600);
    assert_eq!(retry_delay_ms(9, None), 6_400);
    assert_eq!(retry_delay_ms(4, Some(7)), 7_000);
    assert_eq!(retry_delay_ms(4, Some(u64::MAX)), u64::MAX);
}

#[test]
fn status_classification() {
    for s in [408u16, 425, 429, 500, 502, 503, 504] {
        assert!(is_retryable_status(s));
    }
    for s in [400u16, 401, 404, 501, 505, 301] {
        assert!(!is_retryable_status(s));
    }
    assert!(matches!(classify_response(204, 1, 2, None), AttemptOutcome::Success { value: 1, .. }));
    assert!(matches!(
        classify_response(404, 1, 2, None),
        AttemptOutcome::FatalFailure { status: Some(404), .. }
    ));
    assert!(matches!(
        classify_response(502, 1, 2, Some(9)),
        AttemptOutcome::RetryableFailure { retry_after_secs: Some(9), .. }
    ));
    assert!(matches!(
        classify_transport_error(true, 30_000),
        AttemptOutcome::RetryableFailure { reason: FailureReason::Timeout, .. }
    ));
    assert!(matches!(
        classify_transport_error(false, 3),
        AttemptOutcome::FatalFailure { reason: FailureReason::Transport, .. }
    ));
}

#[test]
fn slow_first_size_skips_the_rest() {
    let mut s = Scheduler::new(PayloadSize::M10, false);
    assert_eq!(s.next_step(), ScheduleStep::Test(PayloadSize::K100));
    s.report_elapsed(6_000);
    assert_eq!(s.next_step(), ScheduleStep::Skip(PayloadSize::M1));
    assert_eq!(s.next_step(), ScheduleStep::Skip(PayloadSize::M10));
    assert_eq!(s.next_step(), ScheduleStep::Done);
}

#[test]
fn disabled_adaptive_tests_every_size() {
    let mut s = Scheduler::new(PayloadSize::M1, true);
    assert_eq!(s.next_step(), ScheduleStep::Test(PayloadSize::K100));
    s.report_elapsed(60_000);
    assert_eq!(s.next_step(), ScheduleStep::Test(PayloadSize::M1));
    s.report_elapsed(1);
    assert_eq!(s.next_step(), ScheduleStep::Done);
}

#[test]
fn threshold_is_exclusive() {
    let mut s = Scheduler::new(PayloadSize::M1, false);
    assert_eq!(s.next_step(), ScheduleStep::Test(PayloadSize::K100));
    s.report_elapsed(5_000);
    assert_eq!(s.next_step(), ScheduleStep::Test(PayloadSize::M1));
}

#[test]
fn throughput_and_latency_samples() {
    // 1 MB in one second is 8 Mbps.
    assert_eq!(throughput_milli_mbps(1_000_000, 1_000_000), Some(8_000));
    assert_eq!(throughput_milli_mbps(100_000, 400_000), Some(2_000));
    assert_eq!(throughput_milli_mbps(1, 0), None);
    let mut probe = LatencyProbe::new();
    assert_eq!(probe.latency(10_000, 2_500), (7_500, false));
    assert_eq!(probe.latency(1_000, 2_000), (0, true));
    assert_eq!(probe.latency(1_000, 2_000), (0, false));
}

#[test]
fn phases_follow_the_configuration() {
    let all = SpeedTestConfig::default();
    assert_eq!(TestPhase::Idle.next(&all), TestPhase::Latency);
    assert_eq!(TestPhase::Latency.next(&all), TestPhase::Download);
    assert_eq!(TestPhase::Download.next(&all), TestPhase::Upload);
    assert_eq!(TestPhase::Upload.next(&all), TestPhase::Completed);
    let upload_only = SpeedTestConfig { download: false, ..all };
    assert_eq!(TestPhase::Latency.next(&upload_only), TestPhase::Upload);
    let none = SpeedTestConfig { download: false, upload: false, ..all };
    assert_eq!(TestPhase::Latency.next(&none), TestPhase::Completed);
    assert_eq!(TestPhase::Download.direction(), Some(TestType::Download));
}

#[test]
fn only_progress_events_are_best_effort() {
    let tick = SpeedTestEvent::TransferProgress {
        test_type: TestType::Upload,
        bytes_so_far: 1,
        total_bytes: 2,
        current_mbps: 3,
    };
    assert_eq!(tick.delivery(), Delivery::BestEffort);
    assert_eq!(SpeedTestEvent::PhaseStart(TestType::Download).delivery(), Delivery::Reliable);
}

#[test]
fn direction_run_skips_after_slow_size() {
    let config = SpeedTestConfig { nr_tests: 1, max_payload_size: PayloadSize::M10, ..SpeedTestConfig::default() };
    let mut run = DirectionRun::new(TestType::Download, &config);
    let mut attempted = Vec::new();
    let mut skipped = Vec::new();
    loop {
        match run.next_size() {
            DirectionStep::Test(size) => {
                attempted.push(size);
                while run.policy.wants_attempt() {
                    run.policy.record(classify_response(200, 9_000, 6_000, None));
                }
                run.finish_size(6_000);
            }
            DirectionStep::Skipped(size) => skipped.push(size),
            DirectionStep::Done => break,
        }
    }
    let r = run.finish();
    assert_eq!(attempted, vec![PayloadSize::K100]);
    assert_eq!(skipped, vec![PayloadSize::M1, PayloadSize::M10]);
    assert_eq!(r.skipped, vec![PayloadSize::M1, PayloadSize::M10]);
    assert_eq!(r.overall_mbps, 9_000);
}
