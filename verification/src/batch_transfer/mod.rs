//! Batch transfers.

pub mod validation;
