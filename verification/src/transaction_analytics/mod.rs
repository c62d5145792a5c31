//! Transaction analytics: batch metrics, and the refund of failed
//! transactions, each at most once.

pub mod analytics;
pub mod budget;
pub mod bundling;
pub mod categories;
pub mod contract;
pub mod events;
pub mod refund;
pub mod refund_laws;
pub mod statuses;
pub mod types;
