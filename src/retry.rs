use vstd::prelude::*;

verus! {

/// `2^e`.
pub open spec fn pow2(e: nat) -> nat
    decreases e,
{
    if e == 0 {
        1
    } else {
        2 * pow2((e - 1) as nat)
    }
}

pub open spec fn min_nat(a: nat, b: nat) -> nat {
    if a <= b { a } else { b }
}

/// Exponential backoff without jitter: after the `n`-th failure of a unit of
/// work, wait `min(base * 2^(n-1), max)` and try again, up to `max_retries`
/// retries (so at most `max_retries + 1` attempts).
#[derive(Clone, Copy, Debug, PartialEq, Eq, Structural)]
pub struct RetryPolicy {
    pub base_delay_ms: u64,
    pub max_delay_ms: u64,
    pub max_retries: u32,
}

/// What to do after a failed attempt.
#[derive(Clone, Copy, Debug, PartialEq, Eq, Structural)]
pub enum RetryDecision {
    RetryAfter(u64),
    GiveUp,
}

impl RetryPolicy {
    pub open spec fn max_attempts(self) -> nat {
        self.max_retries as nat + 1
    }

    /// The wait after the `n`-th consecutive failure (`n >= 1`).
    pub open spec fn delay_for(self, n: nat) -> nat {
        min_nat(self.base_delay_ms as nat * pow2((n - 1) as nat), self.max_delay_ms as nat)
    }

    pub open spec fn decide(self, failures: nat) -> RetryDecision {
        if failures <= self.max_retries as u64 {
            RetryDecision::RetryAfter(self.delay_for(failures) as u64)
        } else {
            RetryDecision::GiveUp
        }
    }

    /// An exponential policy that starts at `base_delay_ms`, is capped at
    /// `max_delay_ms` and retries at most `max_retries` times.
    pub fn exponential(base_delay_ms: u64, max_delay_ms: u64, max_retries: u32) -> (r: RetryPolicy)
        ensures
            r.base_delay_ms == base_delay_ms,
            r.max_delay_ms == max_delay_ms,
            r.max_retries == max_retries,
    {
        RetryPolicy { base_delay_ms, max_delay_ms, max_retries }
    }

    /// The wait after the `failures`-th consecutive failure.
    pub fn delay_after(&self, failures: u64) -> (r: u64)
        requires
            failures >= 1,
        ensures
            r as nat == self.delay_for(failures as nat),
    {
        let base = self.base_delay_ms;
        let max = self.max_delay_ms;
        let mut d: u64 = if base <= max { base } else { max };
        let mut i: u64 = 1;
        assert(pow2(0) == 1);
        assert(base as nat * pow2(0) == base as nat);
        while i < failures
            invariant
                1 <= i <= failures,
                base == self.base_delay_ms,
                max == self.max_delay_ms,
                d as nat == min_nat(base as nat * pow2((i - 1) as nat), max as nat),
            decreases failures - i,
        {
            let ghost p = pow2((i - 1) as nat);
            assert(pow2(i as nat) == 2 * p);
            assert(base as nat * pow2(i as nat) == 2 * (base as nat * p)) by (nonlinear_arith)
                requires
                    pow2(i as nat) == 2 * p,
            ;
            if d > max / 2 {
                d = max;
            } else {
                d = d * 2;
            }
            i = i + 1;
        }
        d
    }

    /// Whether, and after what wait, to try again after the `failures`-th
    /// consecutive failure.
    pub fn on_failure(&self, failures: u64) -> (r: RetryDecision)
        requires
            failures >= 1,
        ensures
            r == self.decide(failures as nat),
    {
        if failures <= self.max_retries as u64 {
            RetryDecision::RetryAfter(self.delay_after(failures))
        } else {
            RetryDecision::GiveUp
        }
    }
}

} // verus!
