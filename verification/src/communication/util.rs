//! Retry pacing: exponential backoff with jitter, and the schedule that a
//! retrying caller follows.

use crate::random::random_up_to;
use vstd::arithmetic::power2::{lemma_pow2_strictly_increases, pow2};
use vstd::bits::lemma_u64_shl_is_mul;
use vstd::prelude::*;

verus! {

/// The largest exponent that the backoff grows by.
pub const MAX_BACKOFF_EXPONENT: usize = 31;

/// The exponent used for an attempt: the attempt itself, held at 31.
pub open spec fn backoff_exponent(attempt: nat) -> nat {
    if attempt < 31 {
        attempt
    } else {
        31
    }
}

/// The delay before jitter: `base * 2^attempt`, the exponent held at 31, and
/// the product held at `max`.
pub open spec fn capped_backoff(attempt: nat, base: nat, max: nat) -> nat {
    let grown = base * pow2(backoff_exponent(attempt));
    if grown <= max {
        grown
    } else {
        max
    }
}

/// The largest jitter that is added to a capped delay: a fifth of it.
pub open spec fn max_jitter(capped: nat) -> nat {
    capped / 5
}

/// A capped delay with its jitter on top, held at the top of the 64-bit
/// range.
pub open spec fn jittered_delay(capped: nat, jitter: nat) -> nat {
    if capped + jitter <= u64::MAX {
        capped + jitter
    } else {
        u64::MAX as nat
    }
}

/// Twice the mean of the delays drawn for an attempt, where the jitter is
/// uniform over the whole numbers from 0 to `max_jitter` and no delay
/// reaches the top of the 64-bit range.
pub open spec fn mean_delay_doubled(attempt: nat, base: nat, max: nat) -> nat {
    2 * capped_backoff(attempt, base, max) + max_jitter(capped_backoff(attempt, base, max))
}

/// The delay in milliseconds before jitter.
pub fn capped_backoff_ms(attempt: usize, base_delay_ms: u64, max_delay_ms: u64) -> (r: u64)
    ensures
        r == capped_backoff(attempt as nat, base_delay_ms as nat, max_delay_ms as nat),
{
    let exponent: u64 = if attempt < MAX_BACKOFF_EXPONENT {
        attempt as u64
    } else {
        31
    };
    proof {
        vstd::arithmetic::power2::lemma2_to64();
        lemma_pow2_strictly_increases(exponent as nat, 32);
        lemma_u64_shl_is_mul(1, exponent);
    }
    let factor: u64 = 1u64 << exponent;
    match base_delay_ms.checked_mul(factor) {
        Some(grown) => if grown <= max_delay_ms {
            grown
        } else {
            max_delay_ms
        },
        None => max_delay_ms,
    }
}

/// The delay in milliseconds for a given jitter: the capped delay and the
/// jitter on top, held at the top of the 64-bit range.
pub fn backoff_delay(attempt: usize, base_delay_ms: u64, max_delay_ms: u64, jitter: u64) -> (r:
    u64)
    requires
        jitter <= max_jitter(
            capped_backoff(attempt as nat, base_delay_ms as nat, max_delay_ms as nat),
        ),
    ensures
        r == jittered_delay(
            capped_backoff(attempt as nat, base_delay_ms as nat, max_delay_ms as nat),
            jitter as nat,
        ),
{
    capped_backoff_ms(attempt, base_delay_ms, max_delay_ms).saturating_add(jitter)
}

/// Calculate the exponential backoff delay with jitter, in milliseconds: the
/// capped delay, and on top of it a random share of at most 20% of it.
pub fn backoff_with_jitter(attempt: usize, base_delay_ms: u64, max_delay_ms: u64) -> (r: u64)
    ensures
        capped_backoff(attempt as nat, base_delay_ms as nat, max_delay_ms as nat) <= r,
        r <= capped_backoff(attempt as nat, base_delay_ms as nat, max_delay_ms as nat)
            + max_jitter(capped_backoff(attempt as nat, base_delay_ms as nat, max_delay_ms as nat)),
        5 * r <= 6 * max_delay_ms,
{
    let capped = capped_backoff_ms(attempt, base_delay_ms, max_delay_ms);
    let jitter = random_up_to(capped / 5);
    backoff_delay(attempt, base_delay_ms, max_delay_ms, jitter)
}

/// The capped delay never shrinks from one attempt to the next, and never
/// passes `max`.
pub proof fn lemma_capped_backoff_monotonic(attempt: nat, base: nat, max: nat)
    ensures
        capped_backoff(attempt, base, max) <= capped_backoff(attempt + 1, base, max),
        capped_backoff(attempt, base, max) <= max,
{
    let e1 = backoff_exponent(attempt);
    let e2 = backoff_exponent(attempt + 1);
    if e1 < e2 {
        lemma_pow2_strictly_increases(e1, e2);
    }
    assert(base * pow2(e1) <= base * pow2(e2)) by (nonlinear_arith)
        requires
            pow2(e1) <= pow2(e2),
    ;
}

/// Backoff is monotonic in expectation: the mean delay never shrinks from
/// one attempt to the next. Every delay stays within 1.2 times `max`.
pub proof fn lemma_backoff_monotonic_in_expectation(attempt: nat, base: nat, max: nat)
    ensures
        mean_delay_doubled(attempt, base, max) <= mean_delay_doubled(attempt + 1, base, max),
        5 * (capped_backoff(attempt, base, max) + max_jitter(capped_backoff(attempt, base, max)))
            <= 6 * max,
{
    lemma_capped_backoff_monotonic(attempt, base, max);
}

/// What a retrying caller does after a failed attempt.
#[derive(Debug, Clone, Copy, PartialEq, Eq, Structural)]
pub enum RetryStep {
    /// Wait for this many milliseconds, then try again.
    RetryAfter(u64),
    /// The attempts are used up.
    GiveUp,
}

/// The pacing of a sequence of attempts: how many may fail, how many have
/// failed, and the wait before the next one.
#[derive(Debug, Clone, Copy, PartialEq, Eq, Structural)]
pub struct RetrySchedule {
    pub max_attempts: usize,
    pub failures: usize,
    pub delay_ms: u64,
}

/// Twice a delay, held at the top of the 64-bit range.
pub open spec fn doubled(delay_ms: u64) -> u64 {
    if 2 * delay_ms <= u64::MAX {
        (2 * delay_ms) as u64
    } else {
        u64::MAX
    }
}

impl RetrySchedule {
    /// A schedule on which nothing has failed yet.
    pub open spec fn fresh(max_attempts: usize, initial_delay_ms: u64) -> RetrySchedule {
        RetrySchedule { max_attempts, failures: 0, delay_ms: initial_delay_ms }
    }

    /// The number of failures once one more attempt has failed.
    pub open spec fn failures_after(self) -> usize {
        if self.failures < usize::MAX {
            (self.failures + 1) as usize
        } else {
            self.failures
        }
    }

    /// What follows one more failed attempt: giving up once `max_attempts`
    /// attempts have failed, and else the current wait.
    pub open spec fn step_on_failure(self) -> RetryStep {
        if self.failures_after() >= self.max_attempts {
            RetryStep::GiveUp
        } else {
            RetryStep::RetryAfter(self.delay_ms)
        }
    }

    /// The schedule after one more failed attempt: the wait doubles each
    /// time that it is used.
    pub open spec fn after_failure(self) -> RetrySchedule {
        RetrySchedule {
            max_attempts: self.max_attempts,
            failures: self.failures_after(),
            delay_ms: if self.failures_after() >= self.max_attempts {
                self.delay_ms
            } else {
                doubled(self.delay_ms)
            },
        }
    }

    /// The schedule after `n` more failed attempts.
    pub open spec fn after_failures(self, n: nat) -> RetrySchedule
        decreases n,
    {
        if n == 0 {
            self
        } else {
            self.after_failures((n - 1) as nat).after_failure()
        }
    }

    /// Whether another attempt may be made.
    pub open spec fn spec_may_attempt(self) -> bool {
        self.failures < self.max_attempts
    }

    /// A schedule of at most `max_attempts` attempts that first waits for
    /// `initial_delay_ms`.
    pub fn new(max_attempts: usize, initial_delay_ms: u64) -> (r: RetrySchedule)
        ensures
            r == RetrySchedule::fresh(max_attempts, initial_delay_ms),
    {
        RetrySchedule { max_attempts, failures: 0, delay_ms: initial_delay_ms }
    }

    /// Whether another attempt may be made.
    pub fn may_attempt(&self) -> (r: bool)
        ensures
            r == self.spec_may_attempt(),
    {
        self.failures < self.max_attempts
    }

    /// Records a failed attempt and says what follows.
    pub fn failed(&mut self) -> (r: RetryStep)
        ensures
            r == old(self).step_on_failure(),
            *final(self) == old(self).after_failure(),
    {
        if self.failures < usize::MAX {
            self.failures = self.failures + 1;
        }
        if self.failures >= self.max_attempts {
            RetryStep::GiveUp
        } else {
            let wait = self.delay_ms;
            self.delay_ms = match self.delay_ms.checked_mul(2) {
                Some(d) => d,
                None => u64::MAX,
            };
            RetryStep::RetryAfter(wait)
        }
    }
}

/// The schedule for retrying an operation: the operation is tried at once,
/// and after each failure `RetrySchedule::failed` says whether to wait and
/// try again or to hand the last error back. It gives up once `max_retries`
/// attempts have failed, and after the first where `max_retries` is 0.
pub fn retry_with_backoff(max_retries: usize, initial_delay_ms: u64) -> (r: RetrySchedule)
    ensures
        r == RetrySchedule::fresh(max_retries, initial_delay_ms),
{
    RetrySchedule::new(max_retries, initial_delay_ms)
}

/// Where every attempt fails, a fresh schedule of `max_attempts` asks for a
/// retry after each of the first `max_attempts - 1` failures and gives up at
/// failure number `max_attempts`: exactly `max_attempts` attempts are made.
pub proof fn lemma_gives_up_after_max_attempts(max_attempts: usize, initial_delay_ms: u64, k: nat)
    requires
        k < max_attempts,
    ensures
        RetrySchedule::fresh(max_attempts, initial_delay_ms).after_failures(k).failures == k,
        RetrySchedule::fresh(max_attempts, initial_delay_ms).after_failures(k).max_attempts
            == max_attempts,
        RetrySchedule::fresh(max_attempts, initial_delay_ms).after_failures(k).spec_may_attempt(),
        RetrySchedule::fresh(max_attempts, initial_delay_ms).after_failures(k).step_on_failure()
            is GiveUp <==> k + 1 == max_attempts,
    decreases k,
{
    if k > 0 {
        lemma_gives_up_after_max_attempts(max_attempts, initial_delay_ms, (k - 1) as nat);
    }
}

/// The waits double: before retry number `k + 1` a fresh schedule waits for
/// `initial_delay_ms * 2^k`, held at the top of the 64-bit range.
pub proof fn lemma_waits_double(max_attempts: usize, initial_delay_ms: u64, k: nat)
    requires
        k < max_attempts,
    ensures
        RetrySchedule::fresh(max_attempts, initial_delay_ms).after_failures(k).delay_ms == (if
            initial_delay_ms * pow2(k) <= u64::MAX {
            initial_delay_ms * pow2(k)
        } else {
            u64::MAX as int
        }),
    decreases k,
{
    let start = RetrySchedule::fresh(max_attempts, initial_delay_ms);
    if k == 0 {
        vstd::arithmetic::power2::lemma2_to64();
        assert(initial_delay_ms * pow2(0) == initial_delay_ms) by (nonlinear_arith)
            requires
                pow2(0) == 1,
        ;
    } else {
        let j = (k - 1) as nat;
        lemma_waits_double(max_attempts, initial_delay_ms, j);
        lemma_gives_up_after_max_attempts(max_attempts, initial_delay_ms, j);
        vstd::arithmetic::power2::lemma_pow2_unfold(k);
        assert(initial_delay_ms * pow2(k) == 2 * (initial_delay_ms * pow2(j))) by (nonlinear_arith)
            requires
                pow2(k) == 2 * pow2(j),
        ;
    }
}

} // verus!
