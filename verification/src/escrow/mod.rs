//! Escrows with batch reversal: funds are locked by a depositor and later
//! either released to the recipient or returned to the depositor.

pub mod contract;
pub mod error_code;
pub mod laws;
pub mod types;
pub mod validation;
