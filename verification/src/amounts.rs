//! Overflow-safe fee and payout arithmetic.
//!
//! Fees are a basis-point share of an amount, rounded down; a winner's share
//! is proportional to their stake within the winning pool, computed through a
//! 128-bit intermediate so the multiplication itself can never overflow.

use vstd::arithmetic::div_mod::{
    lemma_div_is_ordered, lemma_div_multiples_vanish, lemma_div_pos_is_pos, lemma_dividing_sums,
    lemma_mod_adds,
};
use vstd::arithmetic::mul::{lemma_mul_inequality, lemma_mul_upper_bound};
use vstd::prelude::*;

use crate::errors::Error;
use crate::BPS_DENOMINATOR;
use crate::MAX_BPS;

verus! {

/// The fee a rate of `bps` basis points takes from `amount`: the product
/// divided by the basis-point denominator, rounded down.
pub open spec fn fee_of(amount: int, bps: u16) -> int {
    amount * (bps as int) / (BPS_DENOMINATOR as int)
}

/// A fee at a rate of at most the whole never exceeds the amount it is taken
/// from, and is never negative.
pub proof fn lemma_fee_of_bounds(amount: int, bps: u16)
    requires
        amount >= 0,
        bps <= MAX_BPS,
    ensures
        0 <= fee_of(amount, bps) <= amount,
{
    let a = amount;
    let b = bps as int;
    let d = BPS_DENOMINATOR as int;
    lemma_mul_inequality(b, d, a);
    assert(a * b == b * a) by (nonlinear_arith);
    assert(a * d == d * a) by (nonlinear_arith);
    lemma_div_is_ordered(a * b, a * d, d);
    lemma_div_multiples_vanish(a, d);
    assert(a * b >= 0) by (nonlinear_arith)
        requires
            a >= 0 && b >= 0,
    ;
    lemma_div_is_ordered(0, a * b, d);
}

/// Computes the fee a rate of `bps` basis points takes from `amount`.
/// The 128-bit intermediate cannot overflow, so every amount and admissible
/// rate has a fee.
pub fn fee_amount(amount: u64, bps: u16) -> (r: u64)
    requires
        bps <= MAX_BPS,
    ensures
        r == fee_of(amount as int, bps),
        r <= amount,
{
    proof {
        lemma_mul_upper_bound(amount as int, u64::MAX as int, bps as int, MAX_BPS as int);
        lemma_fee_of_bounds(amount as int, bps);
    }
    let wide: u128 = (amount as u128) * (bps as u128);
    (wide / (BPS_DENOMINATOR as u128)) as u64
}

/// Rounding down loses at a division, never gains: the quotients of two
/// nonnegative numerators add up to at most the quotient of their sum.
pub proof fn lemma_div_superadditive(x: int, y: int, d: int)
    requires
        x >= 0,
        y >= 0,
        d > 0,
    ensures
        x / d + y / d <= (x + y) / d,
{
    let r = x % d + y % d - (x + y) % d;
    lemma_dividing_sums(x, y, d, r);
    lemma_mod_adds(x, y, d);
    lemma_div_pos_is_pos(x % d + y % d, d);
    assert(r == d * ((x % d + y % d) / d));
    assert(r >= 0) by (nonlinear_arith)
        requires
            d > 0 && r == d * ((x % d + y % d) / d) && (x % d + y % d) / d >= 0,
    ;
    assert(d * ((x + y) / d) >= d * (x / d) + d * (y / d));
    assert(x / d + y / d <= (x + y) / d) by (nonlinear_arith)
        requires
            d > 0 && d * ((x + y) / d) >= d * (x / d) + d * (y / d),
    ;
}

/// The share of `avail` owed to a stake of `amount` within a winning pool of
/// `winning`: proportional, rounded down.
pub open spec fn share_of(avail: u64, amount: u64, winning: u64) -> int
    recommends
        winning > 0,
{
    (avail as int) * (amount as int) / (winning as int)
}

/// Computes a winner's proportional share of `avail`.  The product is taken
/// in 128 bits, so the only failure is a quotient beyond the value range,
/// which is reported as an overflow and never silently truncated.
pub fn share_amount(avail: u64, amount: u64, winning: u64) -> (r: Result<u64, Error>)
    requires
        winning > 0,
    ensures
        r matches Ok(s) ==> s == share_of(avail, amount, winning) && share_of(
            avail,
            amount,
            winning,
        ) <= u64::MAX,
        r matches Err(e) ==> e == Error::Overflow && share_of(avail, amount, winning) > u64::MAX,
{
    proof {
        lemma_mul_upper_bound(avail as int, u64::MAX as int, amount as int, u64::MAX as int);
        assert((avail as int) * (amount as int) >= 0) by (nonlinear_arith);
        lemma_div_is_ordered(0, (avail as int) * (amount as int), winning as int);
    }
    let wide: u128 = (avail as u128) * (amount as u128);
    let q: u128 = wide / (winning as u128);
    if q > u64::MAX as u128 {
        Err(Error::Overflow)
    } else {
        Ok(q as u64)
    }
}

} // verus!
