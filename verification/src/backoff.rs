//! Reconnect delays: one second doubled per failed attempt, at most a minute.

use vstd::prelude::*;

verus! {

/// Delay before the first reconnect attempt, in milliseconds.
pub const BASE_DELAY_MS: u64 = 1000;

/// No reconnect waits longer than this many milliseconds.
pub const MAX_DELAY_MS: u64 = 60_000;

/// The backoff exponent never grows beyond this value.
pub const MAX_BACKOFF_EXP: u32 = 6;

/// Two to the power `n`.
pub open spec fn pow2(n: nat) -> nat
    decreases n,
{
    if n == 0 {
        1
    } else {
        2 * pow2((n - 1) as nat)
    }
}

/// The exponent that is actually used for an exponent `exp`.
pub open spec fn capped_exp(exp: nat) -> nat {
    if exp <= MAX_BACKOFF_EXP as nat {
        exp
    } else {
        MAX_BACKOFF_EXP as nat
    }
}

/// `min(1000 ms * 2^exp, 60 000 ms)`, with the exponent capped at six.
pub open spec fn backoff_delay_ms(exp: nat) -> nat {
    let raw = BASE_DELAY_MS as nat * pow2(capped_exp(exp));
    if raw <= MAX_DELAY_MS as nat {
        raw
    } else {
        MAX_DELAY_MS as nat
    }
}

/// The exponent that follows `exp` after one more failed attempt.
pub open spec fn next_backoff_exp(exp: nat) -> nat {
    capped_exp(exp + 1)
}

/// The exponent after `failures` failed attempts that started at exponent zero.
pub open spec fn exp_after_failures(failures: nat) -> nat
    decreases failures,
{
    if failures == 0 {
        0
    } else {
        next_backoff_exp(exp_after_failures((failures - 1) as nat))
    }
}

/// The values of `pow2` up to the cap.
pub proof fn lemma_pow2_values()
    ensures
        pow2(0) == 1,
        pow2(1) == 2,
        pow2(2) == 4,
        pow2(3) == 8,
        pow2(4) == 16,
        pow2(5) == 32,
        pow2(6) == 64,
{
    reveal_with_fuel(pow2, 8);
}

/// The delay in milliseconds before a reconnect at backoff exponent `exp`.
pub fn compute_backoff_delay(exp: u32) -> (delay_ms: u64)
    ensures
        delay_ms == backoff_delay_ms(exp as nat),
        BASE_DELAY_MS <= delay_ms <= MAX_DELAY_MS,
{
    let capped: u32 = if exp <= MAX_BACKOFF_EXP { exp } else { MAX_BACKOFF_EXP };
    let mut multiplier: u64 = 1;
    let mut i: u32 = 0;
    while i < capped
        invariant
            i <= capped <= MAX_BACKOFF_EXP,
            multiplier == pow2(i as nat),
            1 <= multiplier <= 64,
        decreases capped - i,
    {
        proof {
            lemma_pow2_values();
        }
        multiplier = multiplier * 2;
        i = i + 1;
    }
    let raw: u64 = BASE_DELAY_MS * multiplier;
    if raw <= MAX_DELAY_MS {
        raw
    } else {
        MAX_DELAY_MS
    }
}

/// The exponent that follows `exp` after one more failed attempt.
pub fn bump_backoff_exp(exp: u32) -> (next: u32)
    ensures
        next == next_backoff_exp(exp as nat),
        next <= MAX_BACKOFF_EXP,
{
    if exp < MAX_BACKOFF_EXP {
        exp + 1
    } else {
        MAX_BACKOFF_EXP
    }
}

/// Repeated failures from exponent zero wait 1, 2, 4, 8, 16 and 32 seconds,
/// and a minute from the seventh failure on.
pub proof fn lemma_backoff_sequence(failures: nat)
    ensures
        exp_after_failures(failures) == capped_exp(failures),
        failures == 0 ==> backoff_delay_ms(exp_after_failures(failures)) == 1000,
        failures == 1 ==> backoff_delay_ms(exp_after_failures(failures)) == 2000,
        failures == 2 ==> backoff_delay_ms(exp_after_failures(failures)) == 4000,
        failures == 3 ==> backoff_delay_ms(exp_after_failures(failures)) == 8000,
        failures == 4 ==> backoff_delay_ms(exp_after_failures(failures)) == 16000,
        failures == 5 ==> backoff_delay_ms(exp_after_failures(failures)) == 32000,
        failures >= 6 ==> backoff_delay_ms(exp_after_failures(failures)) == 60000,
    decreases failures,
{
    lemma_pow2_values();
    if failures > 0 {
        lemma_backoff_sequence((failures - 1) as nat);
    }
}

/// A longer run of failures never waits less.
pub proof fn lemma_backoff_monotonic(a: nat, b: nat)
    requires
        a <= b,
    ensures
        backoff_delay_ms(a) <= backoff_delay_ms(b),
{
    lemma_pow2_values();
    let ca = capped_exp(a);
    let cb = capped_exp(b);
    assert(ca <= cb <= 6);
    assert(pow2(ca) <= pow2(cb)) by {
        lemma_pow2_values();
        if ca == 0 {
        } else if ca == 1 {
        } else if ca == 2 {
        } else if ca == 3 {
        } else if ca == 4 {
        } else if ca == 5 {
        } else {
        }
    }
    assert(1000 * pow2(ca) <= 1000 * pow2(cb)) by (nonlinear_arith)
        requires
            pow2(ca) <= pow2(cb),
    ;
}

} // verus!
