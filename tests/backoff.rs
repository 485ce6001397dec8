use gossip_glomers::backoff_policy::{ExponentialBackoff, RetryStep};

#[test]
fn permanent_failure_gets_exactly_n_retries_with_doubling_waits() {
    let mut policy = ExponentialBackoff::new(3, 100);
    let mut waits = Vec::new();
    while let Some(RetryStep { wait_ms, next }) = policy.retry(false) {
        waits.push(wait_ms);
        policy = next;
    }
    assert_eq!(waits, vec![100, 200, 400]);
    assert_eq!(policy.attempts_remaining, 0);
    assert_eq!(policy.delay_ms, 800);
}

#[test]
fn success_stops_retrying() {
    let policy = ExponentialBackoff::new(3, 100);
    assert_eq!(policy.retry(true), None);
}

#[test]
fn no_attempts_means_no_retry() {
    let policy = ExponentialBackoff::new(0, 100);
    assert_eq!(policy.retry(false), None);
}

#[test]
fn one_retry_step() {
    let policy = ExponentialBackoff::new(2, 250);
    assert_eq!(
        policy.retry(false),
        Some(RetryStep { wait_ms: 250, next: ExponentialBackoff::new(1, 500) })
    );
}
