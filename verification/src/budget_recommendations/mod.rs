//! Budget recommendations from users' financial profiles.

pub mod contract;
pub mod recommendations;
pub mod types;
pub mod validation;
