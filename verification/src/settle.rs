//! Fixed-point settlement arithmetic.
//!
//! All payout math promotes to a double-width intermediate before
//! multiplying, floors every division, and treats a division by zero as a
//! zero result rather than an error.

use vstd::prelude::*;
use vstd::arithmetic::div_mod::lemma_div_is_ordered;
use vstd::arithmetic::div_mod::lemma_div_multiples_vanish;
use vstd::arithmetic::mul::lemma_mul_inequality;
use crate::state::BPS_DENOMINATOR;

verus! {

/// `floor(amount * total / pool)`, with a zero pool yielding zero: the share
/// of `total` owed to a stake of `amount` out of `pool`.
pub open spec fn spec_share(amount: u64, total: int, pool: u64) -> int {
    if pool == 0 {
        0
    } else {
        (amount * total) / (pool as int)
    }
}

/// `floor(gross * fee_bps / 10000)`: the protocol fee withheld from a gross
/// payout.
pub open spec fn spec_fee(gross: int, fee_bps: u16) -> int {
    (gross * fee_bps) / (BPS_DENOMINATOR as int)
}

/// A stake of `amount` out of `pool` is worth the same share of `total`:
/// `floor(amount * total / pool)`, computed through a 128-bit intermediate so
/// the multiplication cannot overflow.  A zero pool yields zero.
///
/// Because the stake never exceeds its pool, the share never exceeds `total`,
/// so the result fits the pool type.
pub fn share_of_total(amount: u64, total: u64, pool: u64) -> (r: u64)
    requires
        amount <= pool,
    ensures
        r == spec_share(amount, total as int, pool),
        r <= total,
{
    if pool == 0 {
        0
    } else {
        proof {
            lemma_mul_inequality(amount as int, u64::MAX as int, total as int);
        }
        let wide: u128 = (amount as u128) * (total as u128);
        let q: u128 = wide / (pool as u128);
        proof {
            lemma_mul_inequality(amount as int, pool as int, total as int);
            lemma_div_is_ordered(
                (amount as int) * (total as int),
                (pool as int) * (total as int),
                pool as int,
            );
            lemma_div_multiples_vanish(total as int, pool as int);
        }
        q as u64
    }
}

/// `floor(gross * fee_bps / 10000)` through a 128-bit intermediate.  For a
/// genuine basis-point rate the fee never exceeds the gross amount.
pub fn fee_of(gross: u64, fee_bps: u16) -> (r: u64)
    requires
        fee_bps <= BPS_DENOMINATOR,
    ensures
        r == spec_fee(gross as int, fee_bps),
        r <= gross,
{
    proof {
        lemma_mul_inequality(gross as int, u64::MAX as int, fee_bps as int);
    }
    let wide: u128 = (gross as u128) * (fee_bps as u128);
    let q: u128 = wide / (BPS_DENOMINATOR as u128);
    proof {
        lemma_mul_inequality(fee_bps as int, BPS_DENOMINATOR as int, gross as int);
        lemma_div_is_ordered(
            (gross as int) * (fee_bps as int),
            (BPS_DENOMINATOR as int) * (gross as int),
            BPS_DENOMINATOR as int,
        );
        lemma_div_multiples_vanish(gross as int, BPS_DENOMINATOR as int);
    }
    q as u64
}

} // verus!
