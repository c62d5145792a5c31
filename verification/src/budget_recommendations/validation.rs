//! Validation of user profiles.

use crate::budget_recommendations::types::{UserProfile, MAX_BATCH_SIZE};
use vstd::prelude::*;

verus! {

/// Validation error types.
#[derive(Debug, Clone, Copy, PartialEq, Eq, Structural)]
pub enum ValidationError {
    /// Invalid user ID
    InvalidUserId,
    /// Invalid income amount
    InvalidIncome,
    /// Invalid expenses amount
    InvalidExpenses,
    /// Invalid savings balance
    InvalidSavings,
    /// Invalid risk tolerance
    InvalidRiskTolerance,
}

/// The verdict on a profile: the first rule that fails, in this order. The
/// user identifier is not zero; the income is positive; the expenses are not
/// negative; the savings are not negative; the risk tolerance is 1 to 5.
pub open spec fn profile_verdict(profile: UserProfile) -> Result<(), ValidationError> {
    if profile.user_id == 0 {
        Err(ValidationError::InvalidUserId)
    } else if profile.monthly_income <= 0 {
        Err(ValidationError::InvalidIncome)
    } else if profile.monthly_expenses < 0 {
        Err(ValidationError::InvalidExpenses)
    } else if profile.savings_balance < 0 {
        Err(ValidationError::InvalidSavings)
    } else if profile.risk_tolerance < 1 || profile.risk_tolerance > 5 {
        Err(ValidationError::InvalidRiskTolerance)
    } else {
        Ok(())
    }
}

/// The verdict on a batch of profiles: it is not empty, it holds at most
/// `MAX_BATCH_SIZE` profiles, and every profile is valid.
pub open spec fn batch_verdict(profiles: Seq<UserProfile>) -> Result<(), &'static str> {
    if profiles.len() == 0 {
        Err("Batch cannot be empty")
    } else if profiles.len() > MAX_BATCH_SIZE {
        Err("Batch exceeds maximum size")
    } else if exists|i: int| 0 <= i < profiles.len() && profile_verdict(#[trigger] profiles[i]) is Err {
        Err("Invalid user profile in batch")
    } else {
        Ok(())
    }
}

/// Validates a user profile for budget recommendations.
pub fn validate_user_profile(profile: &UserProfile) -> (verdict: Result<(), ValidationError>)
    ensures
        verdict == profile_verdict(*profile),
{
    if profile.user_id == 0 {
        return Err(ValidationError::InvalidUserId);
    }
    if profile.monthly_income <= 0 {
        return Err(ValidationError::InvalidIncome);
    }
    if profile.monthly_expenses < 0 {
        return Err(ValidationError::InvalidExpenses);
    }
    if profile.savings_balance < 0 {
        return Err(ValidationError::InvalidSavings);
    }
    if profile.risk_tolerance < 1 || profile.risk_tolerance > 5 {
        return Err(ValidationError::InvalidRiskTolerance);
    }
    Ok(())
}

/// Validates a batch of user profiles.
pub fn validate_batch(profiles: &Vec<UserProfile>) -> (verdict: Result<(), &'static str>)
    ensures
        verdict == batch_verdict(profiles@),
{
    let count = profiles.len();
    if count == 0 {
        return Err("Batch cannot be empty");
    }
    if count > MAX_BATCH_SIZE as usize {
        return Err("Batch exceeds maximum size");
    }
    let mut i: usize = 0;
    while i < count
        invariant
            count == profiles.len(),
            0 < count <= MAX_BATCH_SIZE,
            i <= count,
            forall|j: int| 0 <= j < i ==> profile_verdict(#[trigger] profiles@[j]) is Ok,
        decreases count - i,
    {
        if validate_user_profile(&profiles[i]).is_err() {
            return Err("Invalid user profile in batch");
        }
        i = i + 1;
    }
    Ok(())
}

} // verus!
