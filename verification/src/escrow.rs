//! What a trade costs to fund: its amount and the marketplace fee, a rate in
//! basis points of the amount, truncated toward zero.

use vstd::prelude::*;
use crate::errors::ContractError;

verus! {

/// One whole, in basis points.
pub const BASIS_POINTS: i128 = 10000;

/// The highest fee rate that can be configured: ten percent.
pub const MAX_FEE_RATE: u32 = 1000;

/// The fee rate that holds while none is configured: a quarter percent.
pub const DEFAULT_FEE_RATE: u32 = 25;

/// The quotient of `a` by a positive `b`, truncated toward zero.
pub open spec fn truncated_quotient(a: int, b: int) -> int
    recommends
        b > 0,
{
    if a >= 0 {
        a / b
    } else {
        -((-a) / b)
    }
}

/// The fee on `amount` at `rate` basis points.
pub open spec fn marketplace_fee(amount: int, rate: int) -> int {
    truncated_quotient(amount * rate, BASIS_POINTS as int)
}

/// The amount to put in escrow and the fee in it, as `(total, fee)`, or the
/// overflow error where `amount * rate` or the total leaves 128 signed bits.
pub open spec fn escrow_cost(amount: i128, rate: u32) -> Result<(i128, i128), ContractError> {
    let fee = marketplace_fee(amount as int, rate as int);
    if amount * rate > i128::MAX || amount * rate < i128::MIN {
        Err(ContractError::OverflowError)
    } else if amount + fee > i128::MAX || amount + fee < i128::MIN {
        Err(ContractError::OverflowError)
    } else {
        Ok(((amount + fee) as i128, fee as i128))
    }
}

/// Computes what a trade of `amount` costs to fund at `marketplace_fee_rate`
/// basis points.
pub fn required_escrow(amount: i128, marketplace_fee_rate: u32) -> (r: Result<
    (i128, i128),
    ContractError,
>)
    ensures
        r == escrow_cost(amount, marketplace_fee_rate),
{
    let product: i128 = match amount.checked_mul(marketplace_fee_rate as i128) {
        Some(product) => product,
        None => {
            return Err(ContractError::OverflowError);
        },
    };
    let fee: i128 = product / BASIS_POINTS;
    let total: i128 = match amount.checked_add(fee) {
        Some(total) => total,
        None => {
            return Err(ContractError::OverflowError);
        },
    };
    Ok((total, fee))
}

} // verus!
