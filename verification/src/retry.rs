//! Bounded retry with Fibonacci backoff: the policy decides, after each
//! failed polling cycle, whether another attempt is allowed and how long to
//! wait before it. Delays follow a saturating Fibonacci sequence from a base
//! unit; the caller may perturb each returned delay by bounded jitter and
//! performs the actual sleeping and retrying.

use vstd::prelude::*;

verus! {

/// The base delay of a Fibonacci backoff after `n` recorded failures:
/// `base, base, 2*base, 3*base, 5*base, ...`, saturating at the largest
/// 64-bit value.
pub open spec fn fib_delay(base: nat, n: nat) -> nat
    decreases n,
{
    if n == 0 {
        base
    } else if n == 1 {
        base
    } else {
        let s = fib_delay(base, (n - 1) as nat) + fib_delay(base, (n - 2) as nat);
        if s > u64::MAX {
            u64::MAX as nat
        } else {
            s
        }
    }
}

/// Bounded-attempt retry state for one scheduled tick: at most
/// `max_attempts` attempts in all, with a Fibonacci base delay before each
/// retry.
#[derive(Clone, Copy, Debug, PartialEq, Eq, Structural)]
pub struct RetryPolicy {
    pub base_ms: u64,
    pub max_attempts: u64,
    pub failures: u64,
    pub fib_prev: u64,
    pub fib_curr: u64,
}

/// Well-formedness: the two carried Fibonacci values agree with the delay
/// sequence at the current failure count.
pub open spec fn wf(p: RetryPolicy) -> bool {
    &&& p.max_attempts >= 1
    &&& p.failures <= p.max_attempts
    &&& p.fib_curr == fib_delay(p.base_ms as nat, p.failures as nat)
    &&& (p.failures == 0 ==> p.fib_prev == 0)
    &&& (p.failures >= 1 ==> p.fib_prev == fib_delay(p.base_ms as nat, (p.failures - 1) as nat))
}

pub proof fn lemma_fib_delay_le_max(base: nat, n: nat)
    requires
        base <= u64::MAX,
    ensures
        fib_delay(base, n) <= u64::MAX,
    decreases n,
{
    if n > 1 {
        lemma_fib_delay_le_max(base, (n - 1) as nat);
        lemma_fib_delay_le_max(base, (n - 2) as nat);
    }
}

/// Backoff delays never shrink: each base delay is at least the one before
/// it.
pub proof fn lemma_fib_delay_monotone(base: nat, n: nat)
    requires
        base <= u64::MAX,
    ensures
        fib_delay(base, n) <= fib_delay(base, n + 1),
    decreases n,
{
    if n > 0 {
        lemma_fib_delay_monotone(base, (n - 1) as nat);
        lemma_fib_delay_le_max(base, n);
    }
}

/// Backoff delays never shrink, across any span of the sequence.
pub proof fn lemma_fib_delay_monotone_general(base: nat, m: nat, n: nat)
    requires
        base <= u64::MAX,
        m <= n,
    ensures
        fib_delay(base, m) <= fib_delay(base, n),
    decreases n,
{
    if m < n {
        lemma_fib_delay_monotone_general(base, m, (n - 1) as nat);
        lemma_fib_delay_monotone(base, (n - 1) as nat);
    }
}

impl RetryPolicy {
    /// A fresh policy for one tick: no failures yet, delays starting at
    /// `base_ms`.
    pub fn new(base_ms: u64, max_attempts: u64) -> (r: RetryPolicy)
        requires
            max_attempts >= 1,
        ensures
            wf(r),
            r.base_ms == base_ms,
            r.max_attempts == max_attempts,
            r.failures == 0,
    {
        RetryPolicy { base_ms, max_attempts, failures: 0, fib_prev: 0, fib_curr: base_ms }
    }

    /// Records one failed attempt. Returns the base delay to wait before the
    /// next attempt while attempts remain, and `None` exactly when the
    /// configured attempt count is exhausted — after `max_attempts` recorded
    /// failures in all.
    pub fn on_failure(&mut self) -> (r: Option<u64>)
        requires
            wf(*old(self)),
            old(self).failures < old(self).max_attempts,
        ensures
            wf(*final(self)),
            final(self).base_ms == old(self).base_ms,
            final(self).max_attempts == old(self).max_attempts,
            final(self).failures == old(self).failures + 1,
            old(self).failures + 1 < old(self).max_attempts ==> r == Some(
                fib_delay(old(self).base_ms as nat, old(self).failures as nat) as u64,
            ),
            old(self).failures + 1 == old(self).max_attempts ==> r is None,
    {
        proof {
            lemma_fib_delay_le_max(self.base_ms as nat, self.failures as nat);
        }
        let d = self.fib_curr;
        let next: u64 = if self.fib_prev <= u64::MAX - self.fib_curr {
            self.fib_prev + self.fib_curr
        } else {
            u64::MAX
        };
        self.fib_prev = self.fib_curr;
        self.fib_curr = next;
        self.failures = self.failures + 1;
        if self.failures < self.max_attempts {
            Some(d)
        } else {
            None
        }
    }
}

} // verus!
