use vstd::arithmetic::mul::lemma_mul_inequality;
use vstd::arithmetic::power::lemma_pow0;
use vstd::arithmetic::power2::{lemma_pow2, lemma_pow2_strictly_increases, lemma_pow2_unfold, pow2};
use vstd::prelude::*;

verus! {

/// Bounded exponential backoff: after a failure, wait `delay_ms` and try
/// again while attempts remain, doubling the wait each time.
#[derive(Debug, Clone, Copy, PartialEq, Eq, Structural)]
pub struct ExponentialBackoff {
    pub attempts_remaining: usize,
    pub delay_ms: u64,
}

/// A granted retry: how long to wait first, and the policy for what follows.
#[derive(Debug, Clone, Copy, PartialEq, Eq, Structural)]
pub struct RetryStep {
    pub wait_ms: u64,
    pub next: ExponentialBackoff,
}

/// The decision after an attempt: none after a success or once attempts
/// are used up; otherwise a wait of the current delay, then one attempt
/// fewer and twice the delay.
pub open spec fn retry_decision(policy: ExponentialBackoff, succeeded: bool) -> Option<RetryStep> {
    if succeeded || policy.attempts_remaining == 0 {
        None
    } else {
        Some(
            RetryStep {
                wait_ms: policy.delay_ms,
                next: ExponentialBackoff {
                    attempts_remaining: (policy.attempts_remaining - 1) as usize,
                    delay_ms: (policy.delay_ms * 2) as u64,
                },
            },
        )
    }
}

/// The policy in force after `k` failed attempts in a row, if the earlier
/// ones were all granted a retry.
pub open spec fn policy_after_failures(policy: ExponentialBackoff, k: nat) -> Option<
    ExponentialBackoff,
>
    decreases k,
{
    if k == 0 {
        Some(policy)
    } else {
        match policy_after_failures(policy, (k - 1) as nat) {
            Some(p) => match retry_decision(p, false) {
                Some(step) => Some(step.next),
                None => None,
            },
            None => None,
        }
    }
}

impl ExponentialBackoff {
    pub fn new(attempts: usize, delay_ms: u64) -> (r: ExponentialBackoff)
        ensures
            r.attempts_remaining == attempts,
            r.delay_ms == delay_ms,
    {
        ExponentialBackoff { attempts_remaining: attempts, delay_ms }
    }

    /// Decides whether to try again after an attempt that `succeeded` or not.
    pub fn retry(&self, succeeded: bool) -> (r: Option<RetryStep>)
        requires
            succeeded || self.attempts_remaining == 0 || self.delay_ms <= u64::MAX / 2,
        ensures
            r == retry_decision(*self, succeeded),
    {
        if succeeded || self.attempts_remaining == 0 {
            None
        } else {
            Some(
                RetryStep {
                    wait_ms: self.delay_ms,
                    next: ExponentialBackoff {
                        attempts_remaining: self.attempts_remaining - 1,
                        delay_ms: self.delay_ms * 2,
                    },
                },
            )
        }
    }
}

/// The policy after `k` failures, from one of `n` attempts and delay `d`,
/// has `n - k` attempts left and delay `d * 2^k`.
proof fn lemma_policy_after(policy: ExponentialBackoff, k: nat)
    requires
        k <= policy.attempts_remaining,
        policy.delay_ms * pow2(policy.attempts_remaining as nat) <= u64::MAX,
    ensures
        policy_after_failures(policy, k) == Some(
            ExponentialBackoff {
                attempts_remaining: (policy.attempts_remaining - k) as usize,
                delay_ms: (policy.delay_ms * pow2(k)) as u64,
            },
        ),
        policy.delay_ms * pow2(k) <= u64::MAX,
    decreases k,
{
    let n = policy.attempts_remaining as nat;
    let d = policy.delay_ms as int;
    if k < n {
        lemma_pow2_strictly_increases(k, n);
    }
    lemma_mul_inequality(pow2(k) as int, pow2(n) as int, d);
    assert(d * pow2(k) <= d * pow2(n)) by (nonlinear_arith)
        requires
            pow2(k) * d <= pow2(n) * d,
    ;
    if k == 0 {
        lemma_pow2(k);
        lemma_pow0(2);
        assert(d * pow2(k) == d) by (nonlinear_arith)
            requires
                pow2(k) == 1,
        ;
    } else {
        lemma_policy_after(policy, (k - 1) as nat);
        lemma_pow2_unfold(k);
        assert(d * pow2(k) == d * pow2((k - 1) as nat) * 2) by (nonlinear_arith)
            requires
                pow2(k) == 2 * pow2((k - 1) as nat),
        ;
    }
}

/// The wait before the retry that follows `k` failed attempts in a row,
/// or `None` when the policy gives up there.
pub open spec fn wait_before_retry(policy: ExponentialBackoff, k: nat) -> Option<u64> {
    match policy_after_failures(policy, k) {
        Some(p) => match retry_decision(p, false) {
            Some(step) => Some(step.wait_ms),
            None => None,
        },
        None => None,
    }
}

/// Against a destination that fails every time, a policy of `n` attempts
/// and delay `d` grants exactly `n` retries, the `k`-th of them (from zero)
/// after a wait of `d * 2^k`, and then reports the failure.
pub proof fn lemma_retry_bound(policy: ExponentialBackoff)
    requires
        policy.delay_ms * pow2(policy.attempts_remaining as nat) <= u64::MAX,
    ensures
        forall|k: nat|
            k < policy.attempts_remaining ==> #[trigger] wait_before_retry(policy, k) == Some(
                (policy.delay_ms * pow2(k)) as u64,
            ),
        wait_before_retry(policy, policy.attempts_remaining as nat) is None,
{
    assert forall|k: nat| k < policy.attempts_remaining implies #[trigger] wait_before_retry(
        policy,
        k,
    ) == Some((policy.delay_ms * pow2(k)) as u64) by {
        lemma_policy_after(policy, k);
    }
    lemma_policy_after(policy, policy.attempts_remaining as nat);
}

} // verus!
