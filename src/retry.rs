//! Retry-with-backoff policy shared by uploads and retrieval.

use vstd::prelude::*;
use crate::text::{contains_str, seq_contains};

verus! {

/// How often a call is tried and how long to wait between tries.
#[derive(Clone, Copy, Debug)]
pub struct RetryPolicy {
    /// Attempts in all, the first one included.
    pub max_attempts: usize,
    /// Wait after the first failed attempt; it doubles after each further one.
    pub base_delay_ms: u64,
}

/// What to do after an attempt failed.
#[derive(Clone, Copy, Debug, PartialEq, Eq, Structural)]
pub enum RetryStep {
    /// Wait this long, then try again.
    Retry { delay_ms: u64 },
    /// Report the failure.
    GiveUp,
}

/// Transient failures are the ones whose message names a timeout, the
/// connection, the network, or a temporary condition.
pub open spec fn transient(message: Seq<char>) -> bool {
    seq_contains(message, "timeout"@) || seq_contains(message, "connection"@) || seq_contains(
        message,
        "network"@,
    ) || seq_contains(message, "temporary"@)
}

pub open spec fn pow2(n: nat) -> nat
    decreases n,
{
    if n == 0 {
        1
    } else {
        2 * pow2((n - 1) as nat)
    }
}

/// Wait after the `failures`-th failed attempt: `base * 2^(failures - 1)`,
/// capped at `u64::MAX`.
pub open spec fn backoff_ms(base: u64, failures: nat) -> nat {
    let d: nat = (base as nat) * pow2((failures - 1) as nat);
    if d > u64::MAX {
        u64::MAX as nat
    } else {
        d
    }
}

/// Whether a failure with this message is worth another attempt.
pub fn is_retryable(message: &str) -> (r: bool)
    ensures
        r == transient(message@),
{
    contains_str(message, "timeout") || contains_str(message, "connection") || contains_str(
        message,
        "network",
    ) || contains_str(message, "temporary")
}

impl RetryPolicy {
    /// The policy of uploads: three attempts, one second apart at first.
    pub fn for_upload() -> (r: RetryPolicy)
        ensures
            r.max_attempts == 3 && r.base_delay_ms == 1000,
    {
        RetryPolicy { max_attempts: 3, base_delay_ms: 1000 }
    }

    /// The policy of retrieval: three attempts, two seconds apart at first.
    pub fn for_retrieval() -> (r: RetryPolicy)
        ensures
            r.max_attempts == 3 && r.base_delay_ms == 2000,
    {
        RetryPolicy { max_attempts: 3, base_delay_ms: 2000 }
    }

    /// The wait after the `failures`-th failed attempt.
    pub fn delay_ms(&self, failures: usize) -> (r: u64)
        requires
            failures >= 1,
        ensures
            r == backoff_ms(self.base_delay_ms, failures as nat),
    {
        let mut d: u64 = self.base_delay_ms;
        let mut k: usize = 1;
        assert(pow2(0) == 1);
        assert((self.base_delay_ms as nat) * 1 == self.base_delay_ms);
        while k < failures
            invariant
                1 <= k <= failures,
                d == backoff_ms(self.base_delay_ms, k as nat),
            decreases failures - k,
        {
            proof {
                lemma_backoff_step(self.base_delay_ms, k as nat);
            }
            if d > u64::MAX / 2 {
                d = u64::MAX;
            } else {
                d = d * 2;
            }
            k += 1;
        }
        d
    }

    /// Decides what follows the `failures`-th failed attempt, whose error
    /// reads `message`: another attempt only while attempts remain and the
    /// failure is transient.
    pub fn after_failure(&self, failures: usize, message: &str) -> (r: RetryStep)
        requires
            failures >= 1,
        ensures
            failures < self.max_attempts && transient(message@) ==> r == (RetryStep::Retry {
                delay_ms: backoff_ms(self.base_delay_ms, failures as nat) as u64,
            }),
            !(failures < self.max_attempts && transient(message@)) ==> r == RetryStep::GiveUp,
    {
        if failures >= self.max_attempts || !is_retryable(message) {
            RetryStep::GiveUp
        } else {
            RetryStep::Retry { delay_ms: self.delay_ms(failures) }
        }
    }
}

proof fn lemma_backoff_step(base: u64, k: nat)
    requires
        k >= 1,
    ensures
        backoff_ms(base, k + 1) == if backoff_ms(base, k) > u64::MAX / 2 {
            u64::MAX as nat
        } else {
            2 * backoff_ms(base, k)
        },
{
    let p = pow2((k - 1) as nat);
    assert(pow2(k) == 2 * p);
    assert(base * (2 * p) == 2 * (base * p)) by (nonlinear_arith);
}

/// The wait never shrinks from one failure to the next, and doubles until it
/// reaches the cap.
pub proof fn lemma_backoff_grows(base: u64, k: nat)
    requires
        k >= 1,
    ensures
        backoff_ms(base, k) <= backoff_ms(base, k + 1),
        backoff_ms(base, k) <= u64::MAX / 2 ==> backoff_ms(base, k + 1) == 2 * backoff_ms(base, k),
        base > 0 && backoff_ms(base, k) <= u64::MAX / 2 ==> backoff_ms(base, k) < backoff_ms(base, k + 1),
{
    lemma_backoff_step(base, k);
    lemma_pow2_positive((k - 1) as nat);
    assert((base as nat) * pow2((k - 1) as nat) >= base) by (nonlinear_arith)
        requires pow2((k - 1) as nat) >= 1;
}

proof fn lemma_pow2_positive(n: nat)
    ensures
        pow2(n) >= 1,
    decreases n,
{
    if n > 0 {
        lemma_pow2_positive((n - 1) as nat);
    }
}

/// A transient failure is retried while attempts remain, after a wait that
/// does not shrink; any other failure ends the call at once.
pub proof fn lemma_retry_classification(policy: RetryPolicy, failures: nat, message: Seq<char>)
    requires
        failures >= 1,
    ensures
        !transient(message) ==> !(failures < policy.max_attempts && transient(message)),
        transient(message) && failures + 1 < policy.max_attempts ==> backoff_ms(
            policy.base_delay_ms,
            failures,
        ) <= backoff_ms(policy.base_delay_ms, failures + 1),
{
    lemma_backoff_grows(policy.base_delay_ms, failures);
}

} // verus!
