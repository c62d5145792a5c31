//! Batch updates of users' balances in several currencies.

pub mod book;
pub mod contract;
pub mod error_code;
pub mod laws;
pub mod types;
pub mod validation;
