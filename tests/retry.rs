use opentelemetry_otlp_capnp::retry::{
    connect_retry_step, CallOutcome, ConnectStep, RetryDecision, RetryPolicy, CONNECT_INITIAL_DELAY_MS,
};

#[test]
fn timeouts_are_retried_then_dropped() {
    let policy = RetryPolicy::default();
    assert_eq!(policy.decide(0, CallOutcome::TimedOut, 7), RetryDecision::RetryAfter { delay_ms: 107 });
    assert_eq!(policy.decide(1, CallOutcome::TimedOut, 7), RetryDecision::RetryAfter { delay_ms: 207 });
    assert_eq!(policy.decide(2, CallOutcome::TransportFailed, 7), RetryDecision::RetryAfter { delay_ms: 407 });
    assert_eq!(policy.decide(3, CallOutcome::TimedOut, 7), RetryDecision::GiveUp);
}

#[test]
fn jitter_is_bounded() {
    let policy = RetryPolicy::default();
    assert_eq!(policy.decide(0, CallOutcome::TimedOut, 100), RetryDecision::RetryAfter { delay_ms: 200 });
    assert_eq!(policy.decide(0, CallOutcome::TimedOut, 101), RetryDecision::RetryAfter { delay_ms: 100 });
    let no_jitter = RetryPolicy { jitter_ms: 0, ..policy };
    assert_eq!(no_jitter.decide(0, CallOutcome::TimedOut, 12345), RetryDecision::RetryAfter { delay_ms: 100 });
}

#[test]
fn backoff_doubles_up_to_the_cap() {
    let policy = RetryPolicy::default();
    assert_eq!(policy.backoff_delay_ms(0), 100);
    assert_eq!(policy.backoff_delay_ms(3), 800);
    assert_eq!(policy.backoff_delay_ms(4), 1600);
    assert_eq!(policy.backoff_delay_ms(5), 1600);
    assert_eq!(policy.backoff_delay_ms(usize::MAX), 1600);
    let zero = RetryPolicy { initial_delay_ms: 0, ..policy };
    assert_eq!(zero.backoff_delay_ms(10), 0);
    let above_cap = RetryPolicy { initial_delay_ms: 5000, ..policy };
    assert_eq!(above_cap.backoff_delay_ms(0), 1600);
}

#[test]
fn replies_and_encoding_failures_are_not_retried() {
    let policy = RetryPolicy::default();
    assert_eq!(policy.decide(0, CallOutcome::Delivered { rejected_spans: 5 }, 0), RetryDecision::Done);
    assert_eq!(policy.decide(0, CallOutcome::EncodingFailed, 0), RetryDecision::GiveUp);
}

#[test]
fn saturating_delay() {
    let policy = RetryPolicy { max_retries: 1, initial_delay_ms: u64::MAX, max_delay_ms: u64::MAX, jitter_ms: u64::MAX };
    assert_eq!(policy.decide(0, CallOutcome::TimedOut, 9), RetryDecision::RetryAfter { delay_ms: u64::MAX });
}

#[test]
fn connect_backoff_doubles_until_the_window_passes() {
    let mut delay = CONNECT_INITIAL_DELAY_MS;
    let mut attempts = 1;
    while let ConnectStep::RetryAfter { delay_ms } = connect_retry_step(delay, 30_000) {
        delay = delay_ms;
        attempts += 1;
    }
    assert_eq!(delay, 32_768);
    assert_eq!(attempts, 16);
    assert_eq!(connect_retry_step(4, 10), ConnectStep::RetryAfter { delay_ms: 8 });
    assert_eq!(connect_retry_step(11, 10), ConnectStep::GiveUp);
    assert_eq!(connect_retry_step(u64::MAX - 1, u64::MAX), ConnectStep::RetryAfter { delay_ms: u64::MAX });
}
