use vstd::prelude::*;
use vstd::arithmetic::div_mod::lemma_div_is_ordered_by_denominator;
use crate::errors::DiceError;

verus! {

/// The house edge in basis points: 150 is 1.5 %.
pub const HOUSE_EDGE: u16 = 150;

/// One whole, in basis points.
pub const BASIS_POINTS: u16 = 10_000;

/// What a winning wager of `amount` at threshold `roll` is paid: the stake
/// times the share the house leaves, divided by the number of winning
/// outcomes `roll - 1`, then by one whole in basis points. Both divisions
/// round down.
pub open spec fn payout_value(amount: int, roll: int) -> int
    recommends
        amount >= 0,
        roll >= 2,
{
    amount * (BASIS_POINTS - HOUSE_EDGE) / (roll - 1) / (BASIS_POINTS as int)
}

/// A payout never exceeds the stake times the share the house leaves, so it
/// is below the stake itself whenever the stake is positive.
pub proof fn lemma_payout_bounded(amount: int, roll: int)
    requires
        amount >= 0,
        roll >= 2,
    ensures
        0 <= payout_value(amount, roll) <= amount * (BASIS_POINTS - HOUSE_EDGE) / (
        BASIS_POINTS as int) <= amount,
{
    let product = amount * (BASIS_POINTS - HOUSE_EDGE);
    let outcomes = roll - 1;
    assert(product == amount * 9850);
    assert(0 <= product / outcomes <= product) by (nonlinear_arith)
        requires
            product >= 0,
            outcomes >= 1,
    ;
    assert(0 <= product / outcomes / 10_000 <= product / 10_000);
}

/// Why the arithmetic is 128 bits wide: the product of stake and share
/// exceeds 64 bits for every stake above the 9850th part of the largest, yet
/// never 128 bits, and the payout is back within 64. So no stake makes a
/// step of the computation fail or wrap.
pub proof fn lemma_product_needs_wide_arithmetic(amount: u64, roll: u8)
    requires
        roll >= 2,
    ensures
        amount * (BASIS_POINTS - HOUSE_EDGE) <= u128::MAX,
        amount > u64::MAX / 9850 ==> amount * (BASIS_POINTS - HOUSE_EDGE) > u64::MAX,
        0 <= payout_value(amount as int, roll as int) <= u64::MAX,
{
    lemma_payout_bounded(amount as int, roll as int);
}

/// With the stake fixed, a higher threshold never pays more: the better the
/// odds, the smaller the multiplier.
pub proof fn lemma_payout_decreasing(amount: int, low: int, high: int)
    requires
        amount >= 0,
        2 <= low <= high,
    ensures
        payout_value(amount, high) <= payout_value(amount, low),
{
    let product = amount * (BASIS_POINTS - HOUSE_EDGE);
    assert(product == amount * 9850);
    lemma_div_is_ordered_by_denominator(product, low - 1, high - 1);
    assert(product / (high - 1) / 10_000 <= product / (low - 1) / 10_000);
}

/// Computes the payout of a winning wager in 128-bit arithmetic, each step
/// checked.
///
/// A threshold of 1 has no winning outcome to divide by and is refused with
/// `Overflow`. For every other threshold the product fits in 128 bits and the
/// payout in 64, whatever the stake.
pub fn payout(amount: u64, roll: u8) -> (result: Result<u64, DiceError>)
    requires
        roll >= 1,
    ensures
        roll == 1 ==> result == Err::<u64, DiceError>(DiceError::Overflow),
        roll >= 2 ==> result == Ok::<u64, DiceError>(payout_value(amount as int, roll as int) as u64),
        roll >= 2 ==> payout_value(amount as int, roll as int) <= amount,
{
    let share: u128 = (BASIS_POINTS - HOUSE_EDGE) as u128;
    let outcomes: u128 = (roll - 1) as u128;
    let product: u128 = match (amount as u128).checked_mul(share) {
        Some(p) => p,
        None => {
            return Err(DiceError::Overflow);
        },
    };
    let per_outcome: u128 = match product.checked_div(outcomes) {
        Some(q) => q,
        None => {
            return Err(DiceError::Overflow);
        },
    };
    let paid: u128 = match per_outcome.checked_div(BASIS_POINTS as u128) {
        Some(q) => q,
        None => {
            return Err(DiceError::Overflow);
        },
    };
    proof {
        lemma_payout_bounded(amount as int, roll as int);
    }
    Ok(paid as u64)
}

} // verus!
