//! Jittered exponential backoff for control-plane reconnection.
//!
//! The edge always initiates the connection. On failure it waits about
//! `min(cap, base * 2^attempt)` with full jitter, so a fleet-wide outage
//! does not produce a thundering herd when the cloud returns.

use crate::clock::{duration_from_millis, duration_millis, millis_of};
use rand::rngs::ThreadRng;
use rand::Rng;
use std::time::Duration;
use vstd::prelude::*;

verus! {

#[verifier::external_type_specification]
#[verifier::external_body]
pub struct ExThreadRng(ThreadRng);

/// Two to the power `k`.
pub open spec fn two_pow(k: nat) -> nat
    decreases k,
{
    if k == 0 {
        1
    } else {
        2 * two_pow((k - 1) as nat)
    }
}

/// `base_ms * 2^attempt`, saturating at `u128::MAX`.
pub open spec fn exp_delay_ms(base_ms: u128, attempt: u32) -> u128 {
    if base_ms * two_pow(attempt as nat) > u128::MAX {
        u128::MAX
    } else {
        (base_ms * two_pow(attempt as nat)) as u128
    }
}

/// The un-jittered delay for an attempt: the exponential delay, capped.
pub open spec fn capped_delay_ms(base_ms: u128, cap_ms: u128, attempt: u32) -> u128 {
    if exp_delay_ms(base_ms, attempt) < cap_ms {
        exp_delay_ms(base_ms, attempt)
    } else {
        cap_ms
    }
}

/// Full jitter: half the capped delay plus half a random draw from
/// `0..=max(capped, 1)`, never above the capped delay, in whole
/// milliseconds (the conversion to `u64` truncates as `as` does).
pub open spec fn jittered_delay_ms(capped: u128, jitter: u128) -> u64 {
    let half_sum = capped / 2 + jitter / 2;
    (if half_sum < capped { half_sum } else { capped as int }) as u64
}

/// The largest jitter draw for a capped delay.
pub open spec fn jitter_bound(capped: u128) -> u128 {
    if capped > 1 { capped } else { 1 }
}

/// `ThreadRng::default` (what `rand::thread_rng` returns); nothing is
/// stated of a random generator.
#[verifier::external_body]
fn thread_rng() -> ThreadRng {
    rand::thread_rng()
}

/// `Rng::gen_range` over `0..=hi`: a random value that is at most `hi`.
/// The range is never empty, so the call does not panic.
#[verifier::external_body]
fn random_up_to(rng: &mut ThreadRng, hi: u128) -> (r: u128)
    ensures
        r <= hi,
{
    rng.gen_range(0..=hi)
}

proof fn lemma_exp_step(base_ms: u128, i: u32)
    requires
        i < u32::MAX,
    ensures
        exp_delay_ms(base_ms, (i + 1) as u32) == if exp_delay_ms(base_ms, i) == u128::MAX
            || exp_delay_ms(base_ms, i) > u128::MAX / 2 {
            u128::MAX
        } else {
            (2 * exp_delay_ms(base_ms, i)) as u128
        },
{
    let t = two_pow(i as nat) as int;
    let b = base_ms as int;
    assert(two_pow((i + 1) as nat) == 2 * two_pow(i as nat));
    assert(b * (2 * t) == 2 * (b * t)) by (nonlinear_arith);
    assert(b * t >= 0) by (nonlinear_arith)
        requires
            b >= 0,
            t >= 0,
    ;
}

proof fn lemma_exp_monotone(base_ms: u128, a: u32, b: u32)
    requires
        a <= b,
    ensures
        exp_delay_ms(base_ms, a) <= exp_delay_ms(base_ms, b),
{
    lemma_two_pow_monotone(a as nat, b as nat);
    vstd::arithmetic::mul::lemma_mul_inequality(
        two_pow(a as nat) as int,
        two_pow(b as nat) as int,
        base_ms as int,
    );
    vstd::arithmetic::mul::lemma_mul_is_commutative(base_ms as int, two_pow(a as nat) as int);
    vstd::arithmetic::mul::lemma_mul_is_commutative(base_ms as int, two_pow(b as nat) as int);
}

/// Jittered exponential backoff state.
#[derive(Debug)]
pub struct Backoff {
    base: Duration,
    cap: Duration,
    attempt: u32,
}

impl Clone for Backoff {
    fn clone(&self) -> (r: Self)
        ensures
            r == *self,
    {
        Backoff { base: self.base, cap: self.cap, attempt: self.attempt }
    }
}

impl Backoff {
    pub closed spec fn base_ms(&self) -> u128 {
        duration_millis(self.base)
    }

    pub closed spec fn cap_ms(&self) -> u128 {
        duration_millis(self.cap)
    }

    pub closed spec fn attempt_count(&self) -> u32 {
        self.attempt
    }

    pub fn new(base: Duration, cap: Duration) -> (r: Self)
        ensures
            r.base_ms() == duration_millis(base),
            r.cap_ms() == duration_millis(cap),
            r.attempt_count() == 0,
    {
        Backoff { base, cap, attempt: 0 }
    }

    fn capped_millis(base: &Duration, cap: &Duration, attempt: u32) -> (r: u128)
        ensures
            r == capped_delay_ms(duration_millis(*base), duration_millis(*cap), attempt),
    {
        let base_ms = millis_of(base);
        let cap_ms = millis_of(cap);
        proof {
            assert(two_pow(0) == 1);
        }
        let mut v = base_ms;
        let mut i: u32 = 0;
        while i < attempt && v < cap_ms && v > 0
            invariant
                i <= attempt,
                v == exp_delay_ms(base_ms, i),
            decreases attempt - i,
        {
            proof {
                lemma_exp_step(base_ms, i);
            }
            v = if v > u128::MAX / 2 { u128::MAX } else { v * 2 };
            i = i + 1;
        }
        proof {
            lemma_exp_monotone(base_ms, i, attempt);
            if v == 0 {
                lemma_two_pow_monotone(0, i as nat);
                let t = two_pow(i as nat) as int;
                let b = base_ms as int;
                assert(b == 0) by (nonlinear_arith)
                    requires
                        t >= 1,
                        b >= 0,
                        b * t == 0,
                ;
                let ta = two_pow(attempt as nat) as int;
                assert(b * ta == 0) by (nonlinear_arith)
                    requires
                        b == 0,
                ;
            }
        }
        if v < cap_ms { v } else { cap_ms }
    }

    /// The delay after a given number of failed attempts, without jitter:
    /// `min(cap, base * 2^attempt)` in whole milliseconds.
    pub fn delay_for_attempt(base: Duration, cap: Duration, attempt: u32) -> (d: Duration)
        ensures
            duration_millis(d) == capped_delay_ms(duration_millis(base), duration_millis(cap), attempt) as u64 as u128,
    {
        let capped = Self::capped_millis(&base, &cap, attempt);
        duration_from_millis(capped as u64)
    }

    /// The delay for a capped delay and a jitter draw from
    /// `0..=max(capped, 1)`.
    pub fn jittered(capped: u128, jitter: u128) -> (d: Duration)
        requires
            jitter <= jitter_bound(capped),
        ensures
            duration_millis(d) == jittered_delay_ms(capped, jitter) as u128,
            capped <= u64::MAX ==> duration_millis(d) <= capped,
    {
        let half_sum = capped / 2 + jitter / 2;
        let ms = if half_sum < capped { half_sum } else { capped };
        duration_from_millis(ms as u64)
    }

    /// Compute the next delay and advance the attempt counter (saturating).
    pub fn next_delay(&mut self) -> (d: Duration)
        ensures
            final(self).base_ms() == old(self).base_ms(),
            final(self).cap_ms() == old(self).cap_ms(),
            final(self).attempt_count() == if old(self).attempt_count() < u32::MAX {
                (old(self).attempt_count() + 1) as u32
            } else {
                u32::MAX
            },
            exists|jitter: u128|
                jitter <= jitter_bound(capped_delay_ms(old(self).base_ms(), old(self).cap_ms(), old(self).attempt_count()))
                && duration_millis(d) == jittered_delay_ms(
                    capped_delay_ms(old(self).base_ms(), old(self).cap_ms(), old(self).attempt_count()),
                    jitter,
                ) as u128,
            old(self).cap_ms() <= u64::MAX ==> duration_millis(d) <= old(self).cap_ms(),
    {
        let capped = Self::capped_millis(&self.base, &self.cap, self.attempt);
        self.attempt = self.attempt.saturating_add(1);
        let mut rng = thread_rng();
        let hi = if capped > 1 { capped } else { 1 };
        let jitter = random_up_to(&mut rng, hi);
        let d = Self::jittered(capped, jitter);
        assert(jitter <= jitter_bound(capped) && duration_millis(d) == jittered_delay_ms(capped, jitter) as u128);
        d
    }

    pub fn reset(&mut self)
        ensures
            final(self).base_ms() == old(self).base_ms(),
            final(self).cap_ms() == old(self).cap_ms(),
            final(self).attempt_count() == 0,
    {
        self.attempt = 0;
    }

    pub fn attempts(&self) -> (r: u32)
        ensures
            r == self.attempt_count(),
    {
        self.attempt
    }
}

/// The un-jittered delay never exceeds the cap.
pub proof fn lemma_delay_within_cap(base_ms: u128, cap_ms: u128, attempt: u32)
    ensures
        capped_delay_ms(base_ms, cap_ms, attempt) <= cap_ms,
{
}

proof fn lemma_two_pow_monotone(a: nat, b: nat)
    requires
        a <= b,
    ensures
        two_pow(a) <= two_pow(b),
    decreases b,
{
    if a < b {
        lemma_two_pow_monotone(a, (b - 1) as nat);
    }
}

/// The delay grows with the attempt number, until the cap.
pub proof fn lemma_delay_grows(base_ms: u128, cap_ms: u128, a: u32, b: u32)
    requires
        a <= b,
    ensures
        capped_delay_ms(base_ms, cap_ms, a) <= capped_delay_ms(base_ms, cap_ms, b),
{
    lemma_exp_monotone(base_ms, a, b);
}

/// Below the cap, each attempt doubles the delay: it is
/// `base * 2^attempt`.
pub proof fn lemma_delay_doubles(base_ms: u128, cap_ms: u128, attempt: u32)
    requires
        attempt < u32::MAX,
        exp_delay_ms(base_ms, (attempt + 1) as u32) < cap_ms,
    ensures
        capped_delay_ms(base_ms, cap_ms, (attempt + 1) as u32) == 2 * capped_delay_ms(base_ms, cap_ms, attempt),
        capped_delay_ms(base_ms, cap_ms, attempt) == base_ms * two_pow(attempt as nat),
{
    lemma_exp_step(base_ms, attempt);
    lemma_exp_monotone(base_ms, attempt, (attempt + 1) as u32);
}

} // verus!
