//! Batch ledger-mutation services.
//!
//! Every service applies an ordered list of requests to its own keyed record
//! store. A call either aborts as a whole, leaving the service untouched, or
//! visits every request in order: a request that fails validation or
//! settlement is recorded as a failure and changes nothing, while every other
//! request is carried out and recorded as a success. Lifetime counters are
//! written once per call and the audit events of the call are appended to the
//! service's event log.

pub mod address;
pub mod batch_rewards;
pub mod batch_transfer;
pub mod batch_wallet_creation;
pub mod budget_recommendations;
pub mod dedup;
pub mod escrow;
pub mod host_error;
pub mod ledger;
pub mod multi_currency_wallet;
pub mod shared_budgets;
pub mod spending_limits;
pub mod tally;
pub mod transaction_analytics;
