//! Batch creation of wallets, one per owner.

pub mod contract;
pub mod laws;
pub mod types;
pub mod validation;
