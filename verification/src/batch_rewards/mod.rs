//! Batch distribution of rewards from the administrator's balance.

pub mod contract;
pub mod laws;
pub mod types;
pub mod validation;
