//! Bounded backoff: how long a loop waits after consecutive failures.

use vstd::prelude::*;
use vstd::arithmetic::power2::pow2;
use vstd::arithmetic::power2::lemma2_to64;
use vstd::arithmetic::power2::lemma_pow2_unfold;
use vstd::arithmetic::power2::lemma_pow2_pos;
use vstd::arithmetic::power2::lemma_pow2_strictly_increases;

verus! {

/// Delay, in milliseconds, before a read is retried after a device fault.
pub const READ_BACKOFF_MS: u64 = 10;

/// Delay, in milliseconds, before the next frame after a write or flush fault.
pub const WRITE_BACKOFF_MS: u64 = 5;

/// A capped exponential delay: `base_ms` after the first failure, doubling
/// with each further consecutive failure, never above `cap_ms`. With the
/// cap equal to the base the delay is fixed.
#[derive(Clone, Copy, Debug, PartialEq, Eq, Structural)]
pub struct BackoffPolicy {
    pub base_ms: u64,
    pub cap_ms: u64,
}

/// The smaller of two naturals.
pub open spec fn smaller(a: nat, b: nat) -> nat {
    if a <= b {
        a
    } else {
        b
    }
}

impl BackoffPolicy {
    /// The delay after `failures` earlier consecutive failures.
    pub open spec fn delay(self, failures: nat) -> nat {
        smaller(self.base_ms as nat * pow2(failures), self.cap_ms as nat)
    }

    /// The same delay after every failure.
    pub fn fixed(ms: u64) -> (p: BackoffPolicy)
        ensures
            p.base_ms == ms,
            p.cap_ms == ms,
    {
        BackoffPolicy { base_ms: ms, cap_ms: ms }
    }

    /// A delay that starts at `base_ms` and doubles up to `cap_ms`.
    pub fn capped_exponential(base_ms: u64, cap_ms: u64) -> (p: BackoffPolicy)
        ensures
            p.base_ms == base_ms,
            p.cap_ms == cap_ms,
    {
        BackoffPolicy { base_ms, cap_ms }
    }

    /// The delay in milliseconds after `failures` earlier consecutive failures.
    pub fn delay_ms(&self, failures: u32) -> (ms: u64)
        ensures
            ms == self.delay(failures as nat),
            ms <= self.cap_ms,
    {
        if self.base_ms == 0 {
            return 0;
        }
        proof {
            lemma2_to64();
        }
        let mut ms: u64 = if self.base_ms < self.cap_ms {
            self.base_ms
        } else {
            self.cap_ms
        };
        let mut round: u32 = 0;
        while round < failures && ms < self.cap_ms
            invariant
                round <= failures,
                self.base_ms > 0,
                ms == self.delay(round as nat),
            decreases failures - round,
        {
            proof {
                lemma_pow2_unfold((round + 1) as nat);
                assert(self.base_ms as nat * pow2((round + 1) as nat) == 2 * (self.base_ms as nat
                    * pow2(round as nat))) by (nonlinear_arith)
                    requires
                        pow2((round + 1) as nat) == 2 * pow2(round as nat),
                ;
            }
            if ms > self.cap_ms - ms {
                ms = self.cap_ms;
            } else {
                ms = 2 * ms;
            }
            round = round + 1;
        }
        proof {
            if round < failures {
                lemma_delay_grows(*self, round as nat, failures as nat);
            }
        }
        ms
    }
}

/// No delay exceeds the cap, and the first one is the base where that is
/// within the cap.
pub proof fn lemma_delay_bounded(p: BackoffPolicy, failures: nat)
    ensures
        p.delay(failures) <= p.cap_ms,
        p.delay(0) == smaller(p.base_ms as nat, p.cap_ms as nat),
{
    lemma2_to64();
}

/// More consecutive failures never shorten the delay.
pub proof fn lemma_delay_grows(p: BackoffPolicy, fewer: nat, more: nat)
    requires
        fewer <= more,
    ensures
        p.delay(fewer) <= p.delay(more),
{
    lemma_pow2_pos(fewer);
    if fewer < more {
        lemma_pow2_strictly_increases(fewer, more);
    }
    assert(p.base_ms as nat * pow2(fewer) <= p.base_ms as nat * pow2(more)) by (nonlinear_arith)
        requires
            pow2(fewer) <= pow2(more),
    ;
}

/// A policy whose cap equals its base waits the same time after every
/// failure.
pub proof fn lemma_fixed_delay(p: BackoffPolicy, failures: nat)
    requires
        p.base_ms == p.cap_ms,
    ensures
        p.delay(failures) == p.base_ms,
{
    lemma_pow2_pos(failures);
    assert(p.base_ms as nat * pow2(failures) >= p.base_ms) by (nonlinear_arith)
        requires
            pow2(failures) >= 1,
    ;
}

} // verus!
