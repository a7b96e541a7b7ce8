//! The odds: how a hash becomes a roll, and what a winning guess pays.

use vstd::prelude::*;

use vstd::arithmetic::div_mod::{lemma_mod_add_multiples_vanish, lemma_small_mod};

use crate::constants::HOUSE_EDGE_BASIS_POINTS;
use crate::error::{dice, DiceError, ProgramError};

verus! {

/// The number that `s` spells in little-endian order.
pub open spec fn le_value(s: Seq<u8>) -> nat
    decreases s.len(),
{
    if s.len() == 0 {
        0
    } else {
        s[0] as nat + 256 * le_value(s.drop_first())
    }
}

/// `256^n`.
pub open spec fn pow256(n: nat) -> nat
    decreases n,
{
    if n == 0 {
        1
    } else {
        256 * pow256((n - 1) as nat)
    }
}

/// `2^128`, the modulus of `u128` arithmetic.
pub open spec fn u128_modulus() -> int {
    u128::MAX + 1
}

/// The roll (1..=100) a 32-byte hash yields: its two little-endian 128-bit
/// halves, added modulo `2^128`, taken modulo 100, plus one.
pub open spec fn spec_roll(hash: Seq<u8>) -> int {
    let sum = le_value(hash.subrange(0, 16)) + le_value(hash.subrange(16, 32));
    (sum as int % u128_modulus()) % 100 + 1
}

/// What a winning `guess` pays on a stake of `amount`: the stake scaled by the
/// odds `1 / (guess - 1)` (in percent), less the house edge, rounded down.
pub open spec fn spec_payout(amount: u64, guess: u8) -> int {
    amount * (10_000 - HOUSE_EDGE_BASIS_POINTS) / (guess - 1) / 100
}

proof fn lemma_le_value_step(s: Seq<u8>, i: int)
    requires
        0 < i <= s.len(),
    ensures
        le_value(s.subrange(i - 1, s.len() as int)) == s[i - 1] + 256 * le_value(
            s.subrange(i, s.len() as int),
        ),
{
    assert(s.subrange(i - 1, s.len() as int).drop_first() =~= s.subrange(i, s.len() as int));
}

/// The little-endian `u128` in the 16 bytes of `bytes` at `start`.
fn le_u128(bytes: &[u8; 32], start: usize) -> (v: u128)
    requires
        start + 16 <= 32,
    ensures
        v == le_value(bytes@.subrange(start as int, start + 16)),
{
    let ghost s = bytes@.subrange(start as int, start + 16);
    let mut acc: u128 = 0;
    let mut i: usize = 16;
    assert(s.subrange(16, 16) =~= Seq::<u8>::empty());
    proof {
        reveal_with_fuel(pow256, 17);
    }
    while i > 0
        invariant
            i <= 16,
            start + 16 <= 32,
            s == bytes@.subrange(start as int, start + 16),
            acc == le_value(s.subrange(i as int, 16)),
            acc < pow256((16 - i) as nat),
            pow256(16) == u128_modulus(),
        decreases i,
    {
        proof {
            lemma_le_value_step(s, i as int);
            lemma_pow256_monotone((17 - i) as nat, 16);
        }
        let b = bytes[start + i - 1];
        assert(s[i - 1] == b);
        acc = acc * 256 + b as u128;
        i = i - 1;
    }
    assert(s.subrange(0, 16) =~= s);
    acc
}

proof fn lemma_pow256_monotone(m: nat, n: nat)
    requires
        m <= n,
    ensures
        pow256(m) <= pow256(n),
    decreases n,
{
    if m < n {
        lemma_pow256_monotone(m, (n - 1) as nat);
    }
}

/// The roll a 32-byte hash yields, in `1..=100`.
pub fn roll_from_hash(roll_hash: &[u8; 32]) -> (roll: u8)
    ensures
        roll == spec_roll(roll_hash@),
        1 <= roll <= 100,
{
    let lower = le_u128(roll_hash, 0);
    let upper = le_u128(roll_hash, 16);
    let sum = lower.wrapping_add(upper);
    proof {
        let m = u128_modulus();
        let t = lower + upper;
        if t > u128::MAX {
            lemma_small_mod((t - m) as nat, m as nat);
            lemma_mod_add_multiples_vanish(t - m, m);
        } else {
            lemma_small_mod(t as nat, m as nat);
        }
    }
    assert(sum == (lower + upper) % u128_modulus());
    ((sum % 100) as u8) + 1
}

/// The payout of a winning `guess` on a stake of `amount`, or `Overflow` when
/// it does not fit in a `u64`.
pub fn winning_payout(amount: u64, guess: u8) -> (r: Result<u64, ProgramError>)
    requires
        guess >= 2,
    ensures
        spec_payout(amount, guess) <= u64::MAX ==> r == Ok::<u64, ProgramError>(
            spec_payout(amount, guess) as u64,
        ),
        spec_payout(amount, guess) > u64::MAX ==> r == Err::<u64, ProgramError>(
            dice(DiceError::Overflow),
        ),
{
    let winning_numbers = guess as u128 - 1;
    let edge_factor = 10_000 - HOUSE_EDGE_BASIS_POINTS as u128;
    assert(amount * edge_factor <= u128::MAX) by (nonlinear_arith)
        requires
            edge_factor == 9850,
            amount <= u64::MAX,
    ;
    let scaled = match (amount as u128).checked_mul(edge_factor) {
        Some(v) => v,
        None => return Err(DiceError::Overflow.into()),
    };
    let per_number = match scaled.checked_div(winning_numbers) {
        Some(v) => v,
        None => return Err(DiceError::Overflow.into()),
    };
    let payout = match per_number.checked_div(100) {
        Some(v) => v,
        None => return Err(DiceError::Overflow.into()),
    };
    if payout > u64::MAX as u128 {
        return Err(DiceError::Overflow.into());
    }
    Ok(payout as u64)
}

} // verus!
