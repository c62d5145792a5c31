//! Validation of allocation requests.

use crate::address::Address;
use vstd::prelude::*;

verus! {

/// Validates a recipient address. Every address is a valid recipient.
pub fn validate_address(_address: &Address) -> (verdict: Result<(), &'static str>)
    ensures
        verdict is Ok,
{
    Ok(())
}

/// Validates an allocation amount: it must be positive.
pub fn validate_amount(amount: i128) -> (verdict: Result<(), &'static str>)
    ensures
        amount > 0 ==> verdict is Ok,
        amount <= 0 ==> verdict == Err::<(), &'static str>("invalid_amount"),
{
    if amount <= 0 {
        return Err("invalid_amount");
    }
    Ok(())
}

} // verus!
