//! Platform fee arithmetic: `fee = floor(amount * fee_bps / 10000)`.

use vstd::prelude::*;

use vstd::arithmetic::div_mod::lemma_div_is_ordered;
use vstd::arithmetic::div_mod::lemma_div_multiples_vanish;
use vstd::arithmetic::div_mod::lemma_div_pos_is_pos;
use vstd::arithmetic::mul::lemma_mul_inequality;
use vstd::arithmetic::mul::lemma_mul_is_commutative;
use vstd::arithmetic::mul::lemma_mul_nonnegative;

use crate::errors::ContractError;

verus! {

/// The platform takes `fee_bps` basis points of the gross amount, rounded
/// down: `floor(amount * fee_bps / 10000)`.
pub open spec fn fee_of(amount: int, fee_bps: int) -> int {
    (amount * fee_bps) / 10000
}

/// The fee is never negative and never exceeds the gross amount, for any
/// positive amount and any rate within 0 to 10000 basis points.
pub proof fn lemma_fee_bounds(amount: int, fee_bps: int)
    requires
        amount > 0,
        0 <= fee_bps <= 10000,
    ensures
        0 <= fee_of(amount, fee_bps) <= amount,
{
    lemma_mul_nonnegative(amount, fee_bps);
    lemma_div_pos_is_pos(amount * fee_bps, 10000);
    lemma_mul_inequality(fee_bps, 10000, amount);
    lemma_mul_is_commutative(amount, fee_bps);
    lemma_mul_is_commutative(amount, 10000);
    lemma_div_is_ordered(amount * fee_bps, amount * 10000, 10000);
    lemma_div_multiples_vanish(amount, 10000);
    lemma_mul_is_commutative(10000, amount);
}

/// Computes the platform fee with checked arithmetic. Fails with `Overflow`
/// exactly when the intermediate product `amount * fee_bps` does not fit in
/// an `i128`.
pub fn compute_fee(amount: i128, fee_bps: u32) -> (r: Result<i128, ContractError>)
    requires
        amount > 0,
        fee_bps <= 10000,
    ensures
        r is Ok <==> amount * (fee_bps as int) <= i128::MAX,
        r matches Ok(f) ==> f == fee_of(amount as int, fee_bps as int) && 0 <= f <= amount,
        r is Err ==> r == Err::<i128, ContractError>(ContractError::Overflow),
{
    proof {
        lemma_mul_nonnegative(amount as int, fee_bps as int);
    }
    let product = match amount.checked_mul(fee_bps as i128) {
        Some(p) => p,
        None => {
            return Err(ContractError::Overflow);
        },
    };
    match product.checked_div(10000) {
        Some(f) => {
            proof {
                lemma_fee_bounds(amount as int, fee_bps as int);
            }
            Ok(f)
        },
        None => Err(ContractError::Overflow),
    }
}

} // verus!
