//! Batch updates of monthly spending limits.

pub mod contract;
pub mod error_code;
pub mod laws;
pub mod types;
pub mod validation;
