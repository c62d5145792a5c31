//! The numeric codes carried by a failed balance update.

use vstd::prelude::*;

verus! {

/// Invalid balance amount (negative or exceeds max)
pub const INVALID_AMOUNT: u32 = 0;

/// User address is invalid
pub const INVALID_USER_ADDRESS: u32 = 1;

/// Currency identifier is invalid or empty
pub const INVALID_CURRENCY: u32 = 2;

/// Invalid operation type
pub const INVALID_OPERATION: u32 = 3;

/// Insufficient balance for subtract operation
pub const INSUFFICIENT_BALANCE: u32 = 4;

/// Arithmetic overflow
pub const ARITHMETIC_OVERFLOW: u32 = 5;

} // verus!
