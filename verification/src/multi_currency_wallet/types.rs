//! Data types and events of the multi-currency wallet service.

use crate::address::Address;
use crate::tally::Outcome;
use vstd::prelude::*;

verus! {

/// Maximum number of balance updates in a single batch for optimization.
pub const MAX_BATCH_SIZE: u32 = 100;

/// Minimum balance value (preventing dust)
pub const MIN_BALANCE: i128 = 1;

/// Maximum balance value (preventing overflow)
pub const MAX_BALANCE: i128 = i128::MAX;

/// The balance from which an update is reported as a large balance update.
pub const LARGE_BALANCE: i128 = 1_000_000;

/// Represents a balance update request for a user in a specific currency.
#[derive(Clone, Debug, PartialEq, Eq)]
pub struct BalanceUpdateRequest {
    /// User's address
    pub user: Address,
    /// Currency identifier (e.g., "USDC", "XLM", "EURC")
    pub currency: String,
    /// New balance amount (in smallest unit)
    pub amount: i128,
    /// Update type: "set", "add", or "subtract"
    pub operation: String,
}

/// Represents a user's balance in a specific currency.
#[derive(Clone, Debug, PartialEq, Eq)]
pub struct CurrencyBalance {
    /// User's address
    pub user: Address,
    /// Currency identifier
    pub currency: String,
    /// Current balance amount
    pub balance: i128,
    /// Last update timestamp
    pub updated_at: u64,
}

/// Result of processing a single balance update.
#[derive(Clone, Debug, PartialEq, Eq)]
pub enum BalanceUpdateResult {
    /// The balance as it was stored
    Success(CurrencyBalance),
    /// User address, currency, error code
    Failure(Address, String, u32),
}

impl Outcome for BalanceUpdateResult {
    open spec fn succeeded(&self) -> bool {
        self is Success
    }

    open spec fn moved(&self) -> int {
        match self {
            BalanceUpdateResult::Success(balance) => balance.balance as int,
            BalanceUpdateResult::Failure(_, _, _) => 0,
        }
    }
}

/// Aggregated metrics for a batch of balance updates.
#[derive(Clone, Copy, Debug, PartialEq, Eq, Structural)]
pub struct BatchBalanceMetrics {
    /// Total number of update requests
    pub total_requests: u32,
    /// Number of successful updates
    pub successful_updates: u32,
    /// Number of failed updates
    pub failed_updates: u32,
    /// Number of unique users affected
    pub unique_users: u32,
    /// Number of unique currencies updated
    pub unique_currencies: u32,
    /// Batch processing timestamp
    pub processed_at: u64,
}

/// Result of batch balance updates.
#[derive(Clone, Debug, PartialEq, Eq)]
pub struct BatchBalanceResult {
    /// Batch ID
    pub batch_id: u64,
    /// Total number of requests
    pub total_requests: u32,
    /// Number of successful updates
    pub successful: u32,
    /// Number of failed updates
    pub failed: u32,
    /// Individual update results
    pub results: Vec<BalanceUpdateResult>,
    /// Aggregated metrics
    pub metrics: BatchBalanceMetrics,
}

/// One entry of the wallet service's audit log.
#[derive(Clone, Debug, PartialEq, Eq)]
pub enum WalletEvent {
    /// A batch started.
    BatchStarted { batch_id: u64, request_count: u32 },
    /// A balance was stored.
    BalanceUpdated { batch_id: u64, user: Address, currency: String, balance: i128 },
    /// A balance update was refused.
    BalanceUpdateFailed { batch_id: u64, user: Address, currency: String, error_code: u32 },
    /// A batch completed.
    BatchCompleted { batch_id: u64, successful: u32, failed: u32 },
    /// A stored balance is a large balance.
    LargeBalanceUpdate { batch_id: u64, user: Address, currency: String, amount: i128 },
}

/// Builders of the wallet service's audit events.
pub struct WalletEvents;

impl WalletEvents {
    /// Event emitted when batch balance update starts.
    pub fn batch_started(batch_id: u64, request_count: u32) -> (event: WalletEvent)
        ensures
            event == (WalletEvent::BatchStarted { batch_id, request_count }),
    {
        WalletEvent::BatchStarted { batch_id, request_count }
    }

    /// Event emitted when a balance is successfully updated.
    pub fn balance_updated(batch_id: u64, balance: &CurrencyBalance) -> (event: WalletEvent)
        ensures
            event == (WalletEvent::BalanceUpdated {
                batch_id,
                user: balance.user,
                currency: balance.currency,
                balance: balance.balance,
            }),
    {
        WalletEvent::BalanceUpdated {
            batch_id,
            user: balance.user,
            currency: balance.currency.clone(),
            balance: balance.balance,
        }
    }

    /// Event emitted when balance update fails.
    pub fn balance_update_failed(
        batch_id: u64,
        user: &Address,
        currency: &String,
        error_code: u32,
    ) -> (event: WalletEvent)
        ensures
            event == (WalletEvent::BalanceUpdateFailed {
                batch_id,
                user: *user,
                currency: *currency,
                error_code,
            }),
    {
        WalletEvent::BalanceUpdateFailed {
            batch_id,
            user: *user,
            currency: currency.clone(),
            error_code,
        }
    }

    /// Event emitted when batch balance update completes.
    pub fn batch_completed(batch_id: u64, successful: u32, failed: u32) -> (event: WalletEvent)
        ensures
            event == (WalletEvent::BatchCompleted { batch_id, successful, failed }),
    {
        WalletEvent::BatchCompleted { batch_id, successful, failed }
    }

    /// Event emitted for large balance updates (>= 1,000,000 units).
    pub fn large_balance_update(
        batch_id: u64,
        user: &Address,
        currency: &String,
        amount: i128,
    ) -> (event: WalletEvent)
        ensures
            event == (WalletEvent::LargeBalanceUpdate {
                batch_id,
                user: *user,
                currency: *currency,
                amount,
            }),
    {
        WalletEvent::LargeBalanceUpdate { batch_id, user: *user, currency: currency.clone(), amount }
    }
}

} // verus!
