//! Retry decisions of the worker: exponential backoff with bounded jitter for
//! transient failures of an export call, and the doubling delay between
//! connection attempts.
use vstd::arithmetic::power2::{lemma_pow2_strictly_increases, lemma_pow2_unfold, pow2};
use vstd::prelude::*;

verus! {

/// Configuration for retry policy.
#[derive(Debug, Clone, Copy, PartialEq, Eq, Structural)]
pub struct RetryPolicy {
    /// Maximum number of retry attempts.
    pub max_retries: usize,
    /// Initial delay in milliseconds before the first retry.
    pub initial_delay_ms: u64,
    /// Maximum delay in milliseconds between retries.
    pub max_delay_ms: u64,
    /// Maximum jitter in milliseconds to add to the delay.
    pub jitter_ms: u64,
}

impl Default for RetryPolicy {
    /// Three retries, starting at 100 ms and doubling up to 1600 ms, with up to
    /// 100 ms of jitter.
    fn default() -> (r: RetryPolicy)
        ensures
            r.max_retries == 3,
            r.initial_delay_ms == 100,
            r.max_delay_ms == 1600,
            r.jitter_ms == 100,
    {
        RetryPolicy { max_retries: 3, initial_delay_ms: 100, max_delay_ms: 1600, jitter_ms: 100 }
    }
}

/// The policy used when none is set: the one `default` returns.
pub open spec fn policy_or_default(policy: Option<RetryPolicy>) -> RetryPolicy {
    match policy {
        Some(p) => p,
        None => RetryPolicy { max_retries: 3, initial_delay_ms: 100, max_delay_ms: 1600, jitter_ms: 100 },
    }
}

/// How one export call ended.
#[derive(Clone, Copy, Debug, PartialEq, Eq, Structural)]
pub enum CallOutcome {
    /// The collector replied; it may have rejected some spans.
    Delivered { rejected_spans: u64 },
    /// No reply came within the per-call timeout.
    TimedOut,
    /// The transport failed during the call.
    TransportFailed,
    /// The batch could not be encoded.
    EncodingFailed,
}

/// What the worker does after an export call.
#[derive(Clone, Copy, Debug, PartialEq, Eq, Structural)]
pub enum RetryDecision {
    /// The batch is delivered.
    Done,
    /// Call again after waiting `delay_ms` milliseconds.
    RetryAfter { delay_ms: u64 },
    /// Drop the batch.
    GiveUp,
}

pub open spec fn min_int(a: int, b: int) -> int {
    if a <= b {
        a
    } else {
        b
    }
}

/// The backoff before retry number `attempt + 1`: the initial delay doubled
/// `attempt` times, capped at the maximum delay.
pub open spec fn backoff_ms(initial: u64, cap: u64, attempt: nat) -> int {
    min_int(initial * pow2(attempt), cap as int)
}

/// The jitter drawn from a uniform sample: the sample reduced to
/// `0..=jitter_ms`.
pub open spec fn jitter_of(sample: u64, jitter_ms: u64) -> int {
    if jitter_ms == u64::MAX {
        sample as int
    } else {
        sample as int % (jitter_ms as int + 1)
    }
}

pub open spec fn is_transient(outcome: CallOutcome) -> bool {
    outcome is TimedOut || outcome is TransportFailed
}

impl RetryPolicy {
    /// The decision after the call numbered `attempt` (0 for the first call)
    /// ended with `outcome`: a reply ends the work whatever the collector
    /// rejected; an encoding failure is never retried; a timeout or transport
    /// failure is retried while fewer than `max_retries` retries were made.
    pub open spec fn spec_decide(&self, attempt: nat, outcome: CallOutcome, sample: u64) -> RetryDecision {
        if outcome is Delivered {
            RetryDecision::Done
        } else if !is_transient(outcome) || attempt >= self.max_retries {
            RetryDecision::GiveUp
        } else {
            RetryDecision::RetryAfter {
                delay_ms: min_int(
                    backoff_ms(self.initial_delay_ms, self.max_delay_ms, attempt) + jitter_of(
                        sample,
                        self.jitter_ms,
                    ),
                    u64::MAX as int,
                ) as u64,
            }
        }
    }

    /// The backoff before retry number `attempt + 1`, without jitter.
    pub fn backoff_delay_ms(&self, attempt: usize) -> (r: u64)
        ensures
            r == backoff_ms(self.initial_delay_ms, self.max_delay_ms, attempt as nat),
    {
        let cap = self.max_delay_ms;
        let mut delay: u64 = if self.initial_delay_ms < cap {
            self.initial_delay_ms
        } else {
            cap
        };
        let mut i: usize = 0;
        proof {
            assert(pow2(0) == 1) by {
                vstd::arithmetic::power2::lemma_pow2(0);
                vstd::arithmetic::power::lemma_pow0(2);
            }
        }
        while i < attempt && delay < cap && delay > 0
            invariant
                i <= attempt,
                cap == self.max_delay_ms,
                delay == backoff_ms(self.initial_delay_ms, cap, i as nat),
            decreases attempt - i,
        {
            proof {
                lemma_pow2_unfold((i + 1) as nat);
                let p = pow2(i as nat);
                assert(self.initial_delay_ms * pow2((i + 1) as nat) == 2 * (self.initial_delay_ms
                    * p)) by (nonlinear_arith)
                    requires
                        pow2((i + 1) as nat) == 2 * p,
                ;
            }
            delay = if delay >= cap - delay {
                cap
            } else {
                2 * delay
            };
            i += 1;
        }
        proof {
            if i < attempt {
                let x = self.initial_delay_ms as int;
                if delay == 0 {
                    vstd::arithmetic::power2::lemma_pow2_pos(i as nat);
                    vstd::arithmetic::power2::lemma_pow2_pos(attempt as nat);
                    assert(x * pow2(attempt as nat) >= 0) by (nonlinear_arith)
                        requires
                            x >= 0,
                            pow2(attempt as nat) > 0,
                    {}
                    if cap > 0 {
                        assert(x == 0) by (nonlinear_arith)
                            requires
                                x * pow2(i as nat) == 0,
                                pow2(i as nat) > 0,
                        {}
                        assert(x * pow2(attempt as nat) == 0) by (nonlinear_arith)
                            requires
                                x == 0,
                        {}
                    }
                } else {
                    lemma_pow2_strictly_increases(i as nat, attempt as nat);
                    assert(x * pow2(attempt as nat) >= x * pow2(i as nat)) by (nonlinear_arith)
                        requires
                            pow2(attempt as nat) > pow2(i as nat),
                            x >= 0,
                    {}
                }
            }
        }
        delay
    }

    /// The decision after the call numbered `attempt` (0 for the first call)
    /// ended with `outcome`; `jitter_sample` is a uniformly drawn number.
    pub fn decide(&self, attempt: usize, outcome: CallOutcome, jitter_sample: u64) -> (r: RetryDecision)
        ensures
            r == self.spec_decide(attempt as nat, outcome, jitter_sample),
    {
        match outcome {
            CallOutcome::Delivered { .. } => RetryDecision::Done,
            CallOutcome::EncodingFailed => RetryDecision::GiveUp,
            CallOutcome::TimedOut | CallOutcome::TransportFailed => {
                if attempt >= self.max_retries {
                    RetryDecision::GiveUp
                } else {
                    let jitter = if self.jitter_ms == u64::MAX {
                        jitter_sample
                    } else {
                        jitter_sample % (self.jitter_ms + 1)
                    };
                    let base = self.backoff_delay_ms(attempt);
                    RetryDecision::RetryAfter { delay_ms: base.saturating_add(jitter) }
                }
            },
        }
    }
}

/// The delay before the first connection attempt, in milliseconds.
pub const CONNECT_INITIAL_DELAY_MS: u64 = 1;

/// What the worker does after a failed connection attempt.
#[derive(Clone, Copy, Debug, PartialEq, Eq, Structural)]
pub enum ConnectStep {
    /// Try again after waiting `delay_ms` milliseconds.
    RetryAfter { delay_ms: u64 },
    /// Stop trying: the retry window is exhausted.
    GiveUp,
}

/// After an attempt that followed a wait of `delay_ms` failed: give up once
/// the wait exceeded `timeout_ms`, else double the wait.
pub fn connect_retry_step(delay_ms: u64, timeout_ms: u64) -> (r: ConnectStep)
    ensures
        delay_ms > timeout_ms ==> r == ConnectStep::GiveUp,
        delay_ms <= timeout_ms ==> r == (ConnectStep::RetryAfter {
            delay_ms: min_int(2 * delay_ms, u64::MAX as int) as u64,
        }),
{
    if delay_ms > timeout_ms {
        ConnectStep::GiveUp
    } else {
        let doubled = if delay_ms > u64::MAX / 2 {
            u64::MAX
        } else {
            2 * delay_ms
        };
        ConnectStep::RetryAfter { delay_ms: doubled }
    }
}

} // verus!
