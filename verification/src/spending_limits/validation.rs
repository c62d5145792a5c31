//! Validation of spending limit update requests.

use crate::address::Address;
use crate::spending_limits::error_code;
use crate::spending_limits::types::{
    SpendingLimitRequest, MAX_SPENDING_LIMIT, MIN_SPENDING_LIMIT,
};
use vstd::prelude::*;

verus! {

/// Whether `limit` is an acceptable monthly limit: at least
/// `MIN_SPENDING_LIMIT` and at most `MAX_SPENDING_LIMIT`.
pub open spec fn limit_is_valid(limit: i128) -> bool {
    MIN_SPENDING_LIMIT <= limit <= MAX_SPENDING_LIMIT
}

/// Validates a spending limit update request: its monthly limit must be
/// within bounds. An invalid request is answered with the error code
/// `INVALID_LIMIT`.
pub fn validate_limit_request(request: &SpendingLimitRequest) -> (verdict: Result<(), u32>)
    ensures
        limit_is_valid(request.monthly_limit) ==> verdict is Ok,
        !limit_is_valid(request.monthly_limit) ==> verdict == Err::<(), u32>(
            error_code::INVALID_LIMIT,
        ),
{
    if !is_valid_address(&request.user) {
        return Err(error_code::INVALID_USER_ADDRESS);
    }
    if !is_valid_limit(request.monthly_limit) {
        return Err(error_code::INVALID_LIMIT);
    }
    Ok(())
}

/// Validates that an address is valid. Every address is.
fn is_valid_address(_address: &Address) -> (valid: bool)
    ensures
        valid,
{
    true
}

/// Validates that a spending limit is within acceptable bounds.
pub fn is_valid_limit(limit: i128) -> (valid: bool)
    ensures
        valid == limit_is_valid(limit),
{
    limit >= MIN_SPENDING_LIMIT && limit <= MAX_SPENDING_LIMIT
}

} // verus!
