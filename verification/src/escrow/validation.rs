//! Validation of escrow reversals and releases.

use crate::address::Address;
use crate::escrow::error_code;
use crate::escrow::types::{Escrow, EscrowStatus};
use vstd::prelude::*;

verus! {

/// Why an escrow cannot leave the `Active` state.
#[derive(Debug, Clone, Copy, PartialEq, Eq, Structural)]
pub enum ValidationError {
    /// Escrow does not exist
    EscrowNotFound,
    /// Escrow has already been released
    AlreadyReleased,
    /// Escrow has already been reversed
    AlreadyReversed,
    /// Caller is not authorized
    Unauthorized,
    /// Deadline has not been reached yet
    DeadlineNotReached,
}

impl ValidationError {
    /// The stable numeric code of this error.
    pub open spec fn code(self) -> u32 {
        match self {
            ValidationError::EscrowNotFound => 0,
            ValidationError::AlreadyReleased => 1,
            ValidationError::AlreadyReversed => 2,
            ValidationError::Unauthorized => 3,
            ValidationError::DeadlineNotReached => 4,
        }
    }

    /// Convert to error code for result tracking.
    pub fn to_error_code(&self) -> (code: u32)
        ensures
            code == self.code(),
    {
        match self {
            ValidationError::EscrowNotFound => error_code::ESCROW_NOT_FOUND,
            ValidationError::AlreadyReleased => error_code::ALREADY_RELEASED,
            ValidationError::AlreadyReversed => error_code::ALREADY_REVERSED,
            ValidationError::Unauthorized => error_code::UNAUTHORIZED,
            ValidationError::DeadlineNotReached => error_code::DEADLINE_NOT_REACHED,
        }
    }
}

/// The verdict on returning an escrow's funds to its depositor: the first
/// rule that fails, in this order. The escrow must exist; it must still be
/// active; the caller must be the administrator or the depositor; and, where
/// the deadline is enforced, a caller who is not the administrator must wait
/// until the ledger sequence has reached it.
pub open spec fn reversal_verdict(
    escrow: Option<Escrow>,
    caller: Address,
    admin: Address,
    check_deadline: bool,
    current_ledger: u64,
) -> Result<(), ValidationError> {
    match escrow {
        None => Err(ValidationError::EscrowNotFound),
        Some(e) => if e.status == EscrowStatus::Released {
            Err(ValidationError::AlreadyReleased)
        } else if e.status == EscrowStatus::Reversed {
            Err(ValidationError::AlreadyReversed)
        } else if caller != admin && caller != e.depositor {
            Err(ValidationError::Unauthorized)
        } else if check_deadline && caller != admin && current_ledger < e.deadline {
            Err(ValidationError::DeadlineNotReached)
        } else {
            Ok(())
        },
    }
}

/// The verdict on paying an escrow out to its recipient: the escrow must
/// exist, must still be active, and the caller must be the administrator or
/// the depositor. The first rule that fails is reported.
pub open spec fn release_verdict(escrow: Option<Escrow>, caller: Address, admin: Address) -> Result<
    (),
    ValidationError,
> {
    reversal_verdict(escrow, caller, admin, false, 0)
}

/// Validates whether an escrow can be reversed.
///
/// `escrow` is the record, if there is one; `caller` attempts the reversal;
/// `check_deadline` says whether the deadline binds a caller who is not the
/// administrator; `current_ledger` is the ledger sequence it is compared to.
pub fn validate_reversal(
    escrow: Option<&Escrow>,
    caller: &Address,
    admin: &Address,
    check_deadline: bool,
    current_ledger: u64,
) -> (verdict: Result<(), ValidationError>)
    ensures
        verdict == reversal_verdict(
            match escrow {
                Some(e) => Some(*e),
                None => None,
            },
            *caller,
            *admin,
            check_deadline,
            current_ledger,
        ),
{
    let escrow = match escrow {
        Some(e) => e,
        None => {
            return Err(ValidationError::EscrowNotFound);
        },
    };
    match escrow.status {
        EscrowStatus::Released => {
            return Err(ValidationError::AlreadyReleased);
        },
        EscrowStatus::Reversed => {
            return Err(ValidationError::AlreadyReversed);
        },
        EscrowStatus::Active => {},
    }
    let is_admin = caller.id == admin.id;
    let is_depositor = caller.id == escrow.depositor.id;
    if !is_admin && !is_depositor {
        return Err(ValidationError::Unauthorized);
    }
    if check_deadline && !is_admin && current_ledger < escrow.deadline {
        return Err(ValidationError::DeadlineNotReached);
    }
    Ok(())
}

/// Validates whether an escrow can be released to its recipient.
pub fn validate_release(escrow: Option<&Escrow>, caller: &Address, admin: &Address) -> (verdict:
    Result<(), ValidationError>)
    ensures
        verdict == release_verdict(
            match escrow {
                Some(e) => Some(*e),
                None => None,
            },
            *caller,
            *admin,
        ),
{
    validate_reversal(escrow, caller, admin, false, 0)
}

} // verus!
