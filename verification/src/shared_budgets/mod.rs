//! Batch allocation of a shared budget to several recipients.

pub mod contract;
pub mod laws;
pub mod types;
pub mod validation;
