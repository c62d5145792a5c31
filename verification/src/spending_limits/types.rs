//! Data types and events of the spending limits service.

use crate::address::Address;
use crate::tally::Outcome;
use vstd::prelude::*;

verus! {

/// Maximum number of user-limit pairs in a single batch for optimization.
pub const MAX_BATCH_SIZE: u32 = 100;

/// Minimum monthly spending limit (0.1 XLM in stroops)
pub const MIN_SPENDING_LIMIT: i128 = 1_000_000;

/// Maximum monthly spending limit (10 million XLM in stroops)
pub const MAX_SPENDING_LIMIT: i128 = 100_000_000_000_000_000;

/// The monthly limit from which an update is reported as a high-value limit
/// (1 million XLM in stroops).
pub const HIGH_VALUE_LIMIT: i128 = 10_000_000_000_000_000;

/// Represents a spending limit update request for a user.
#[derive(Clone, Debug, PartialEq, Eq)]
pub struct SpendingLimitRequest {
    /// User's address
    pub user: Address,
    /// New monthly spending limit (in stroops)
    pub monthly_limit: i128,
    /// Optional category-specific limit (e.g., "food", "entertainment")
    pub category: Option<String>,
}

/// Represents a user's spending limit configuration.
#[derive(Clone, Debug, PartialEq, Eq)]
pub struct SpendingLimit {
    /// User's address
    pub user: Address,
    /// Monthly spending limit (in stroops)
    pub monthly_limit: i128,
    /// Current month's spending (in stroops)
    pub current_spending: i128,
    /// Optional category
    pub category: Option<String>,
    /// Last update timestamp
    pub updated_at: u64,
    /// Whether the limit is active
    pub is_active: bool,
}

/// Result of processing a single limit update.
#[derive(Clone, Debug, PartialEq, Eq)]
pub enum LimitUpdateResult {
    /// The limit as it was stored
    Success(SpendingLimit),
    /// User address, error code
    Failure(Address, u32),
}

impl Outcome for LimitUpdateResult {
    open spec fn succeeded(&self) -> bool {
        self is Success
    }

    open spec fn moved(&self) -> int {
        match self {
            LimitUpdateResult::Success(limit) => limit.monthly_limit as int,
            LimitUpdateResult::Failure(_, _) => 0,
        }
    }
}

/// Aggregated metrics for a batch of limit updates.
#[derive(Clone, Copy, Debug, PartialEq, Eq, Structural)]
pub struct BatchLimitMetrics {
    /// Total number of update requests
    pub total_requests: u32,
    /// Number of successful updates
    pub successful_updates: u32,
    /// Number of failed updates
    pub failed_updates: u32,
    /// Total limits value across all updates
    pub total_limits_value: i128,
    /// Average limit amount
    pub avg_limit_amount: i128,
    /// Batch processing timestamp
    pub processed_at: u64,
}

/// Result of batch limit updates.
#[derive(Clone, Debug, PartialEq, Eq)]
pub struct BatchLimitResult {
    /// Batch ID
    pub batch_id: u64,
    /// Total number of requests
    pub total_requests: u32,
    /// Number of successful updates
    pub successful: u32,
    /// Number of failed updates
    pub failed: u32,
    /// Individual update results
    pub results: Vec<LimitUpdateResult>,
    /// Aggregated metrics
    pub metrics: BatchLimitMetrics,
}

/// One entry of the spending limits service's audit log.
#[derive(Clone, Copy, Debug, PartialEq, Eq, Structural)]
pub enum LimitEvent {
    /// A batch started.
    BatchStarted { batch_id: u64, request_count: u32 },
    /// A limit was stored.
    LimitUpdated { batch_id: u64, user: Address, monthly_limit: i128 },
    /// A limit update was refused.
    LimitUpdateFailed { batch_id: u64, user: Address, error_code: u32 },
    /// A batch completed.
    BatchCompleted { batch_id: u64, successful: u32, failed: u32, total_limits: i128 },
    /// A stored limit is a high-value limit.
    HighValueLimit { batch_id: u64, user: Address, amount: i128 },
}

/// Builders of the spending limits service's audit events.
pub struct LimitEvents;

impl LimitEvents {
    /// Event emitted when batch limit update starts.
    pub fn batch_started(batch_id: u64, request_count: u32) -> (event: LimitEvent)
        ensures
            event == (LimitEvent::BatchStarted { batch_id, request_count }),
    {
        LimitEvent::BatchStarted { batch_id, request_count }
    }

    /// Event emitted when a limit is successfully updated.
    pub fn limit_updated(batch_id: u64, limit: &SpendingLimit) -> (event: LimitEvent)
        ensures
            event == (LimitEvent::LimitUpdated {
                batch_id,
                user: limit.user,
                monthly_limit: limit.monthly_limit,
            }),
    {
        LimitEvent::LimitUpdated { batch_id, user: limit.user, monthly_limit: limit.monthly_limit }
    }

    /// Event emitted when limit update fails.
    pub fn limit_update_failed(batch_id: u64, user: &Address, error_code: u32) -> (event: LimitEvent)
        ensures
            event == (LimitEvent::LimitUpdateFailed { batch_id, user: *user, error_code }),
    {
        LimitEvent::LimitUpdateFailed { batch_id, user: *user, error_code }
    }

    /// Event emitted when batch limit update completes.
    pub fn batch_completed(
        batch_id: u64,
        successful: u32,
        failed: u32,
        total_limits: i128,
    ) -> (event: LimitEvent)
        ensures
            event == (LimitEvent::BatchCompleted { batch_id, successful, failed, total_limits }),
    {
        LimitEvent::BatchCompleted { batch_id, successful, failed, total_limits }
    }

    /// Event emitted for high-value limits (>= 1,000,000 XLM).
    pub fn high_value_limit(batch_id: u64, user: &Address, amount: i128) -> (event: LimitEvent)
        ensures
            event == (LimitEvent::HighValueLimit { batch_id, user: *user, amount }),
    {
        LimitEvent::HighValueLimit { batch_id, user: *user, amount }
    }
}

} // verus!
