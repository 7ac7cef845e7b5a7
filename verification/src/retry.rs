//! Retry with capped binary exponential backoff.
//!
//! A fallible operation is attempted up to `max_retries` times (at least
//! once).  Every failure is retried alike; after the final attempt the last
//! error is handed back unchanged.  The delay before re-attempting after the
//! `n`-th failure is `min(base_delay_ms * 2^(n-1), max_delay_ms)`, without
//! jitter.  The synchronous combinator here does not sleep; a driver that
//! wants the delays takes them from [`delay_after_failure`].

use vstd::prelude::*;

verus! {

use vstd::arithmetic::power2::{pow2, lemma_pow2_strictly_increases, lemma2_to64};
use vstd::bits::lemma_u64_shl_is_mul;
use crate::config::TaskArgs;
use crate::operation::FetchOperation;

/// How many attempts a policy allows in all: its retry bound, and at least
/// one.
pub open spec fn attempt_bound(policy: TaskArgs) -> nat {
    if policy.max_retries == 0 {
        1
    } else {
        policy.max_retries as nat
    }
}

/// The backoff delay before re-attempting after the `attempt`-th failure:
/// `base * 2^(attempt-1)`, capped at `max`.
pub open spec fn backoff_spec(base: u32, max: u32, attempt: nat) -> int
    recommends
        1 <= attempt,
{
    let raw = base * pow2((attempt - 1) as nat);
    if raw < max {
        raw
    } else {
        max as int
    }
}

/// The delay, in milliseconds, before re-attempting after the `attempt`-th
/// failure.
pub fn backoff_delay_ms(policy: &TaskArgs, attempt: u32) -> (d: u32)
    requires
        1 <= attempt,
    ensures
        d == backoff_spec(policy.base_delay_ms, policy.max_delay_ms, attempt as nat),
{
    let base = policy.base_delay_ms;
    let max = policy.max_delay_ms;
    if base == 0 {
        proof {
            assert(0 * pow2((attempt - 1) as nat) == 0);
        }
        0
    } else if attempt >= 33 {
        proof {
            lemma2_to64();
            if (attempt - 1) as nat > 32 {
                lemma_pow2_strictly_increases(32, (attempt - 1) as nat);
            }
            assert(base * pow2((attempt - 1) as nat) >= pow2((attempt - 1) as nat)) by (nonlinear_arith)
                requires
                    base >= 1,
            ;
        }
        max
    } else {
        let shift: u64 = (attempt - 1) as u64;
        proof {
            lemma2_to64();
            if (shift as nat) < 32 {
                lemma_pow2_strictly_increases(shift as nat, 32);
            }
            assert((base as u64) * pow2(shift as nat) <= 0xffff_ffff * 0x1_0000_0000)
                by (nonlinear_arith)
                requires
                    base <= 0xffff_ffff,
                    pow2(shift as nat) <= 0x1_0000_0000,
            ;
            lemma_u64_shl_is_mul(base as u64, shift);
        }
        let raw: u64 = (base as u64) << shift;
        if raw < max as u64 {
            raw as u32
        } else {
            max
        }
    }
}

/// What a driver does after the `attempt`-th failure: sleep for the backoff
/// delay and try again, or stop and hand the error back.
#[derive(Debug, PartialEq, Eq, Structural)]
pub enum RetryDecision {
    /// Sleep this many milliseconds, then attempt again.
    SleepThenRetry(u32),
    /// The attempt bound is reached: return the error unchanged.
    Stop,
}

/// Decides, after the `attempt`-th failure, whether to retry; failures are
/// never told apart, only counted.
pub fn delay_after_failure(policy: &TaskArgs, attempt: u32) -> (d: RetryDecision)
    requires
        1 <= attempt,
    ensures
        (attempt as nat) < attempt_bound(*policy) ==> d == RetryDecision::SleepThenRetry(
            backoff_spec(policy.base_delay_ms, policy.max_delay_ms, attempt as nat) as u32,
        ),
        (attempt as nat) >= attempt_bound(*policy) ==> d == RetryDecision::Stop,
{
    if attempt < policy.max_retries {
        RetryDecision::SleepThenRetry(backoff_delay_ms(policy, attempt))
    } else {
        RetryDecision::Stop
    }
}

/// How many attempts run before the combinator stops, counting from the
/// state after `base` invocations: the first attempt within the bound whose
/// outcome is a success, or the bound itself when every attempt fails.
pub open spec fn attempts_used<T, E, O: FetchOperation<T, E>>(op: O, base: nat, max: nat) -> nat
    decreases max,
{
    if max <= 1 {
        1
    } else if op.outcome(base + 1) is Ok {
        1
    } else {
        1 + attempts_used(op, base + 1, (max - 1) as nat)
    }
}

/// Pins `attempts_used` down: if the first `a - 1` outcomes are failures and
/// the `a`-th is a success or `a` is the bound, the combinator stops after
/// exactly `a` attempts.
pub proof fn lemma_attempts_used_pin<T, E, O: FetchOperation<T, E>>(
    op: O,
    base: nat,
    max: nat,
    a: nat,
)
    requires
        1 <= max,
        1 <= a <= max,
        forall|k: nat| 1 <= k < a ==> (#[trigger] op.outcome(base + k)) is Err,
        a < max ==> op.outcome(base + a) is Ok,
    ensures
        attempts_used(op, base, max) == a,
    decreases max,
{
    if a == 1 {
    } else {
        assert(op.outcome(base + 1) is Err);
        assert forall|k: nat| 1 <= k < a - 1 implies (#[trigger] op.outcome(base + 1 + k)) is Err by {
            assert(op.outcome(base + (k + 1)) is Err);
        }
        lemma_attempts_used_pin(op, base + 1, (max - 1) as nat, (a - 1) as nat);
    }
}

/// Attempts the operation until it succeeds or the policy's attempt bound is
/// reached, and returns the last outcome unchanged.  Delays are a driver's
/// concern ([`delay_after_failure`]); this combinator retries immediately.
#[verifier::loop_isolation(false)]
pub fn retry<T, E, O: FetchOperation<T, E>>(policy: &TaskArgs, op: &mut O) -> (r: Result<T, E>)
    requires
        old(op).inv(),
        old(op).calls() + attempt_bound(*policy) <= old(op).limit(),
    ensures
        final(op).inv(),
        final(op).limit() == old(op).limit(),
        forall|n: nat| final(op).outcome(n) == old(op).outcome(n),
        final(op).calls() == old(op).calls() + attempts_used(
            *old(op),
            old(op).calls(),
            attempt_bound(*policy),
        ),
        r == old(op).outcome(
            old(op).calls() + attempts_used(*old(op), old(op).calls(), attempt_bound(*policy)),
        ),
{
    let ghost op0 = *old(op);
    let ghost base = old(op).calls();
    let ghost maxe = attempt_bound(*policy);
    let max: u32 = if policy.max_retries == 0 {
        1
    } else {
        policy.max_retries
    };
    let mut attempt: u32 = 1;
    loop
        invariant
            op.inv(),
            op.limit() == op0.limit(),
            forall|n: nat| op.outcome(n) == op0.outcome(n),
            max as nat == maxe,
            base == op0.calls(),
            maxe == attempt_bound(*policy),
            base + maxe <= op.limit(),
            1 <= attempt <= max,
            op.calls() == base + attempt - 1,
            forall|k: nat| 1 <= k < attempt ==> (#[trigger] op0.outcome(base + k)) is Err,
        decreases max - attempt,
    {
        let r = op.invoke();
        let failed = r.is_err();
        if !failed || attempt >= max {
            proof {
                assert(r == op0.outcome(base + attempt as nat));
                if !failed {
                    assert(op0.outcome(base + attempt as nat) is Ok);
                }
                lemma_attempts_used_pin(op0, base, maxe, attempt as nat);
                assert(op.calls() == base + attempt as nat);
            }
            return r;
        }
        attempt = attempt + 1;
    }
}

/// LAW (retry exhaustion): when every attempt within the bound fails, the
/// operation is invoked exactly `attempt_bound` times and the combinator's
/// result is the final error, unchanged.
pub proof fn lemma_retry_exhaustion<T, E, O: FetchOperation<T, E>>(op: O, base: nat, max: nat)
    requires
        1 <= max,
        forall|k: nat| 1 <= k <= max ==> (#[trigger] op.outcome(base + k)) is Err,
    ensures
        attempts_used(op, base, max) == max,
{
    lemma_attempts_used_pin(op, base, max, max);
}

/// LAW (retry success): when the first `k` attempts fail and attempt `k + 1`
/// lies within the bound and succeeds, the operation is invoked exactly
/// `k + 1` times and the combinator's result is that success.
pub proof fn lemma_retry_success<T, E, O: FetchOperation<T, E>>(
    op: O,
    base: nat,
    k: nat,
    max: nat,
)
    requires
        k < max,
        forall|j: nat| 1 <= j <= k ==> (#[trigger] op.outcome(base + j)) is Err,
        op.outcome(base + k + 1) is Ok,
    ensures
        attempts_used(op, base, max) == k + 1,
{
    lemma_attempts_used_pin(op, base, max, k + 1);
}

} // verus!
