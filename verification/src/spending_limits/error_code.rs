//! The numeric codes carried by a failed limit update.

use vstd::prelude::*;

verus! {

/// Invalid limit amount (too low, too high, or negative)
pub const INVALID_LIMIT: u32 = 0;

/// User address is invalid
pub const INVALID_USER_ADDRESS: u32 = 1;

/// Category name is invalid
pub const INVALID_CATEGORY: u32 = 2;

/// Limit already exists and cannot be overwritten
pub const LIMIT_ALREADY_EXISTS: u32 = 3;

} // verus!
