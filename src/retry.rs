//! Outcome classification and the bounded retry policy that turns attempts
//! at one payload size into accepted samples.
//!
//! The policy is a state machine: the caller performs an attempt, hands its
//! outcome to [`RetryPolicy::record`], and follows the returned decision
//! (attempt again, wait and then attempt again, or stop).

use vstd::prelude::*;

verus! {

/// Base of the exponential backoff, in milliseconds.
pub const BASE_DELAY_MS: u64 = 250;

/// Largest exponent of the backoff: the delay stops doubling there.
pub const MAX_BACKOFF_EXPONENT: u64 = 6;

/// Largest backoff delay before jitter, in milliseconds.
pub const MAX_DELAY_MS: u64 = 8_000;

/// Attempts allowed per wanted sample.
pub const ATTEMPTS_PER_SAMPLE: u64 = 4;

/// Why an attempt failed.
#[derive(Debug, Clone, Copy, PartialEq, Eq, Structural)]
pub enum FailureReason {
    /// The server answered with a status outside `2xx`.
    HttpStatus,
    /// The request timed out.
    Timeout,
    /// The connection could not be made or broke (DNS, TLS, reset).
    Transport,
}

/// Result of a single attempt. `value` is the measured sample (see the
/// fixed-point convention of `stats`); `wall_ms` the attempt's duration.
#[allow(inconsistent_fields)]
#[derive(Debug, Clone, Copy, PartialEq, Eq, Structural)]
pub enum AttemptOutcome {
    Success { value: u64, wall_ms: u64, status: u16 },
    RetryableFailure {
        wall_ms: u64,
        status: Option<u16>,
        retry_after_secs: Option<u64>,
        reason: FailureReason,
    },
    FatalFailure { wall_ms: u64, status: Option<u16>, reason: FailureReason },
}

pub open spec fn is_success_status(status: u16) -> bool {
    200 <= status <= 299
}

pub open spec fn is_retryable_status_spec(status: u16) -> bool {
    status == 408 || status == 425 || status == 429 || status == 500 || status == 502
        || status == 503 || status == 504
}

/// Whether a non-success status is worth another attempt.
pub fn is_retryable_status(status: u16) -> (r: bool)
    ensures
        r == is_retryable_status_spec(status),
{
    status == 408 || status == 425 || status == 429 || status == 500 || status == 502
        || status == 503 || status == 504
}

/// Classifies a completed HTTP exchange. `value` is the sample it would give
/// on success; `retry_after_secs` the parsed `Retry-After` header, if any.
pub fn classify_response(status: u16, value: u64, wall_ms: u64, retry_after_secs: Option<u64>) -> (r:
    AttemptOutcome)
    ensures
        is_success_status(status) ==> r == (AttemptOutcome::Success { value, wall_ms, status }),
        !is_success_status(status) && is_retryable_status_spec(status) ==> r == (
        AttemptOutcome::RetryableFailure {
            wall_ms,
            status: Some(status),
            retry_after_secs,
            reason: FailureReason::HttpStatus,
        }),
        !is_success_status(status) && !is_retryable_status_spec(status) ==> r == (
        AttemptOutcome::FatalFailure {
            wall_ms,
            status: Some(status),
            reason: FailureReason::HttpStatus,
        }),
{
    if 200 <= status && status <= 299 {
        AttemptOutcome::Success { value, wall_ms, status }
    } else if is_retryable_status(status) {
        AttemptOutcome::RetryableFailure {
            wall_ms,
            status: Some(status),
            retry_after_secs,
            reason: FailureReason::HttpStatus,
        }
    } else {
        AttemptOutcome::FatalFailure { wall_ms, status: Some(status), reason: FailureReason::HttpStatus }
    }
}

/// Classifies a request that failed below HTTP: only a timeout is retried.
pub fn classify_transport_error(is_timeout: bool, wall_ms: u64) -> (r: AttemptOutcome)
    ensures
        is_timeout ==> r == (AttemptOutcome::RetryableFailure {
            wall_ms,
            status: None,
            retry_after_secs: None,
            reason: FailureReason::Timeout,
        }),
        !is_timeout ==> r == (AttemptOutcome::FatalFailure {
            wall_ms,
            status: None,
            reason: FailureReason::Transport,
        }),
{
    if is_timeout {
        AttemptOutcome::RetryableFailure {
            wall_ms,
            status: None,
            retry_after_secs: None,
            reason: FailureReason::Timeout,
        }
    } else {
        AttemptOutcome::FatalFailure { wall_ms, status: None, reason: FailureReason::Transport }
    }
}

pub open spec fn pow2(e: nat) -> nat
    decreases e,
{
    if e == 0 {
        1
    } else {
        2 * pow2((e - 1) as nat)
    }
}

pub open spec fn min_nat(a: nat, b: nat) -> nat {
    if a <= b {
        a
    } else {
        b
    }
}

/// Backoff after the `attempt`-th attempt (counting from one) failed:
/// doubling from the base up to the capped exponent, clamped to the maximum,
/// then 20% added on even attempts and taken off on odd ones.
pub open spec fn backoff_ms(attempt: nat) -> nat {
    let exponent = if attempt == 0 { 0 } else { min_nat((attempt - 1) as nat, MAX_BACKOFF_EXPONENT as nat) };
    let capped = min_nat((BASE_DELAY_MS * pow2(exponent)) as nat, MAX_DELAY_MS as nat);
    if attempt % 2 == 0 {
        capped + capped / 5
    } else {
        (capped - capped / 5) as nat
    }
}

/// Delay before the next attempt: the server's hint when it gave one, else
/// the backoff.
pub open spec fn retry_delay_spec(attempt: nat, retry_after_secs: Option<u64>) -> nat {
    match retry_after_secs {
        Some(secs) => min_nat((secs * 1000) as nat, u64::MAX as nat),
        None => backoff_ms(attempt),
    }
}

/// Milliseconds to wait after the `attempt`-th attempt failed in a retryable
/// way.
pub fn retry_delay_ms(attempt: u64, retry_after_secs: Option<u64>) -> (r: u64)
    ensures
        r as nat == retry_delay_spec(attempt as nat, retry_after_secs),
{
    match retry_after_secs {
        Some(secs) => if secs <= u64::MAX / 1000 {
            secs * 1000
        } else {
            u64::MAX
        },
        None => {
            let exponent: u64 = if attempt == 0 {
                0
            } else if attempt - 1 <= MAX_BACKOFF_EXPONENT {
                attempt - 1
            } else {
                MAX_BACKOFF_EXPONENT
            };
            let mut raw: u64 = BASE_DELAY_MS;
            let mut k: u64 = 0;
            while k < exponent
                invariant
                    k <= exponent <= MAX_BACKOFF_EXPONENT,
                    raw == BASE_DELAY_MS * pow2(k as nat),
                    raw <= BASE_DELAY_MS * 64,
                decreases exponent - k,
            {
                proof {
                    assert(pow2((k + 1) as nat) == 2 * pow2(k as nat));
                    assert(pow2(k as nat) <= 32) by {
                        lemma_pow2_le(k as nat, 5);
                        reveal_with_fuel(pow2, 6);
                    }
                }
                raw = raw * 2;
                k = k + 1;
            }
            let capped = if raw <= MAX_DELAY_MS {
                raw
            } else {
                MAX_DELAY_MS
            };
            if attempt % 2 == 0 {
                capped + capped / 5
            } else {
                capped - capped / 5
            }
        },
    }
}

proof fn lemma_pow2_le(a: nat, b: nat)
    requires
        a <= b,
    ensures
        pow2(a) <= pow2(b),
    decreases b,
{
    if a < b {
        lemma_pow2_le(a, (b - 1) as nat);
    }
}

/// Attempt statistics of one payload size.
#[derive(Debug, Clone, Copy, PartialEq, Eq, Structural)]
pub struct PayloadAttemptStats {
    pub attempts: u64,
    pub successes: u64,
    pub skipped: u64,
    pub target: u64,
}

/// What the caller does after an attempt was recorded.
#[derive(Debug, Clone, Copy, PartialEq, Eq, Structural)]
pub enum RetryDecision {
    /// Attempt again at once.
    Proceed,
    /// Wait this many milliseconds, then attempt again.
    Wait(u64),
    /// Stop: the target was met, the budget is spent, or the failure was fatal.
    Finished,
}

/// The retry loop of one payload size.
pub struct RetryPolicy {
    pub stats: PayloadAttemptStats,
    /// Attempts allowed in all.
    pub budget: u64,
    /// Accepted samples, in the order they came.
    pub samples: Vec<u64>,
    pub finished: bool,
}

/// Attempts allowed for `target` wanted samples: four per sample, which is
/// never fewer than the target itself.
pub open spec fn attempt_budget(target: nat) -> nat {
    (target * ATTEMPTS_PER_SAMPLE) as nat
}

impl RetryPolicy {
    pub open spec fn wf(&self) -> bool {
        &&& self.stats.attempts == self.stats.successes + self.stats.skipped
        &&& self.samples@.len() == self.stats.successes
        &&& self.budget == attempt_budget(self.stats.target as nat)
        &&& self.stats.attempts <= self.budget
        &&& self.stats.successes <= self.stats.target
        &&& !self.finished ==> self.stats.successes < self.stats.target && self.stats.attempts
            < self.budget
    }

    /// A loop that wants `target` successful samples. With a target of zero
    /// there is nothing to do and the loop is finished from the start.
    pub fn new(target: u32) -> (r: RetryPolicy)
        ensures
            r.wf(),
            r.stats == (PayloadAttemptStats {
                attempts: 0,
                successes: 0,
                skipped: 0,
                target: target as u64,
            }),
            r.samples@ == Seq::<u64>::empty(),
            r.finished == (target == 0),
    {
        let target = target as u64;
        RetryPolicy {
            stats: PayloadAttemptStats { attempts: 0, successes: 0, skipped: 0, target },
            budget: target * ATTEMPTS_PER_SAMPLE,
            samples: Vec::new(),
            finished: target == 0,
        }
    }

    /// Whether another attempt is due.
    pub fn wants_attempt(&self) -> (r: bool)
        ensures
            r == !self.finished,
    {
        !self.finished
    }

    /// Records the outcome of the attempt just made and says what comes next.
    ///
    /// A success adds its sample; the loop stops once the target is met or
    /// the budget is spent. A retryable failure counts as skipped and asks
    /// for a wait (the server's `Retry-After` hint, else the backoff) while
    /// attempts remain. A fatal failure counts as skipped and stops the loop.
    pub fn record(&mut self, outcome: AttemptOutcome) -> (d: RetryDecision)
        requires
            old(self).wf(),
            !old(self).finished,
        ensures
            final(self).wf(),
            final(self).budget == old(self).budget,
            final(self).stats.target == old(self).stats.target,
            final(self).stats.attempts == old(self).stats.attempts + 1,
            match outcome {
                AttemptOutcome::Success { value, .. } => {
                    &&& final(self).stats.successes == old(self).stats.successes + 1
                    &&& final(self).stats.skipped == old(self).stats.skipped
                    &&& final(self).samples@ == old(self).samples@.push(value)
                    &&& final(self).finished == (final(self).stats.successes
                        == final(self).stats.target || final(self).stats.attempts
                        == final(self).budget)
                    &&& d == if final(self).finished {
                        RetryDecision::Finished
                    } else {
                        RetryDecision::Proceed
                    }
                },
                AttemptOutcome::RetryableFailure { retry_after_secs, .. } => {
                    &&& final(self).stats.successes == old(self).stats.successes
                    &&& final(self).stats.skipped == old(self).stats.skipped + 1
                    &&& final(self).samples@ == old(self).samples@
                    &&& final(self).finished == (final(self).stats.attempts
                        == final(self).budget)
                    &&& d == if final(self).finished {
                        RetryDecision::Finished
                    } else {
                        RetryDecision::Wait(
                            retry_delay_spec(final(self).stats.attempts as nat, retry_after_secs)
                                as u64,
                        )
                    }
                },
                AttemptOutcome::FatalFailure { .. } => {
                    &&& final(self).stats.successes == old(self).stats.successes
                    &&& final(self).stats.skipped == old(self).stats.skipped + 1
                    &&& final(self).samples@ == old(self).samples@
                    &&& final(self).finished
                    &&& d == RetryDecision::Finished
                },
            },
    {
        self.stats.attempts = self.stats.attempts + 1;
        match outcome {
            AttemptOutcome::Success { value, .. } => {
                self.stats.successes = self.stats.successes + 1;
                self.samples.push(value);
                self.finished = self.stats.successes == self.stats.target || self.stats.attempts
                    == self.budget;
                if self.finished {
                    RetryDecision::Finished
                } else {
                    RetryDecision::Proceed
                }
            },
            AttemptOutcome::RetryableFailure { retry_after_secs, .. } => {
                self.stats.skipped = self.stats.skipped + 1;
                self.finished = self.stats.attempts == self.budget;
                if self.finished {
                    RetryDecision::Finished
                } else {
                    RetryDecision::Wait(retry_delay_ms(self.stats.attempts, retry_after_secs))
                }
            },
            AttemptOutcome::FatalFailure { .. } => {
                self.stats.skipped = self.stats.skipped + 1;
                self.finished = true;
                RetryDecision::Finished
            },
        }
    }
}

} // verus!
