//! The numeric codes carried by a failed reversal.

use vstd::prelude::*;

verus! {

/// Escrow not found
pub const ESCROW_NOT_FOUND: u32 = 0;

/// Escrow already released
pub const ALREADY_RELEASED: u32 = 1;

/// Escrow already reversed
pub const ALREADY_REVERSED: u32 = 2;

/// Caller not authorized to reverse
pub const UNAUTHORIZED: u32 = 3;

/// Deadline not yet reached (for time-based reversals)
pub const DEADLINE_NOT_REACHED: u32 = 4;

/// The ledger refused to pay the funds out
pub const TRANSFER_FAILED: u32 = 5;

} // verus!
