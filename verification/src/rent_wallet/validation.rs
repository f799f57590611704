//! Bounds on amounts.

use vstd::prelude::*;

use crate::rent_wallet::ContractError;

verus! {

/// What a check of `amount` against the largest allowed amount answers.
pub open spec fn amount_outcome(amount: i128, max_amount: i128) -> Result<(), ContractError> {
    if amount <= 0 {
        Err(ContractError::InvalidAmount)
    } else if amount > max_amount {
        Err(ContractError::AmountTooLarge)
    } else {
        Ok(())
    }
}

/// Check that `amount` is positive and no larger than allowed.
pub fn validate_amount(amount: i128, max_amount: i128) -> (r: Result<(), ContractError>)
    ensures
        r == amount_outcome(amount, max_amount),
{
    if amount <= 0 {
        Err(ContractError::InvalidAmount)
    } else if amount > max_amount {
        Err(ContractError::AmountTooLarge)
    } else {
        Ok(())
    }
}

} // verus!
