//! Validation of reward requests.

use crate::address::Address;
use vstd::prelude::*;

verus! {

/// Validation error types.
#[derive(Debug, Clone, Copy, PartialEq, Eq, Structural)]
pub enum ValidationError {
    /// Invalid reward amount
    InvalidAmount,
    /// Invalid recipient address
    InvalidRecipient,
}

/// The largest reward that one request may carry: half the largest amount.
pub open spec fn max_reward() -> i128 {
    (i128::MAX / 2) as i128
}

/// Whether `amount` is a valid reward: positive and at most `max_reward()`.
pub open spec fn amount_is_valid(amount: i128) -> bool {
    0 < amount <= max_reward()
}

/// Validates a recipient address. Every address is a valid recipient.
pub fn validate_address(_address: &Address) -> (verdict: Result<(), ValidationError>)
    ensures
        verdict is Ok,
{
    Ok(())
}

/// Validates a reward amount.
/// Ensures the amount is positive and within reasonable bounds.
pub fn validate_amount(amount: i128) -> (verdict: Result<(), ValidationError>)
    ensures
        amount_is_valid(amount) ==> verdict is Ok,
        !amount_is_valid(amount) ==> verdict == Err::<(), ValidationError>(
            ValidationError::InvalidAmount,
        ),
{
    if amount <= 0 {
        return Err(ValidationError::InvalidAmount);
    }
    if amount > i128::MAX / 2 {
        return Err(ValidationError::InvalidAmount);
    }
    Ok(())
}

} // verus!
