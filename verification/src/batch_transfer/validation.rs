//! Validation of transfer requests.

use crate::address::Address;
use vstd::prelude::*;

verus! {

/// Validation error types.
#[derive(Debug, Clone, Copy, PartialEq, Eq, Structural)]
pub enum ValidationError {
    /// Invalid transfer amount
    InvalidAmount,
}

/// Validates a recipient address. Every address is a valid recipient.
pub fn validate_address(_address: &Address) -> (verdict: Result<(), ValidationError>)
    ensures
        verdict is Ok,
{
    Ok(())
}

/// Validates a transfer amount: it must be positive.
pub fn validate_amount(amount: i128) -> (verdict: Result<(), ValidationError>)
    ensures
        amount > 0 ==> verdict is Ok,
        amount <= 0 ==> verdict == Err::<(), ValidationError>(ValidationError::InvalidAmount),
{
    if amount <= 0 {
        return Err(ValidationError::InvalidAmount);
    }
    Ok(())
}

} // verus!
