//! Data types and events of the rewards service.

use crate::address::Address;
use crate::tally::Outcome;
use vstd::prelude::*;

verus! {

/// Maximum number of rewards in a single batch.
pub const MAX_BATCH_SIZE: u32 = 100;

/// One reward to pay: who receives it and how much.
#[derive(Clone, Copy, Debug, PartialEq, Eq, Structural)]
pub struct RewardRequest {
    pub recipient: Address,
    pub amount: i128,
}

/// Result of a single reward.
#[derive(Clone, Copy, Debug, PartialEq, Eq, Structural)]
pub enum RewardResult {
    /// Paid: recipient, amount
    Success(Address, i128),
    /// Not paid: recipient, requested amount, error code
    Failure(Address, i128, u32),
}

impl Outcome for RewardResult {
    open spec fn succeeded(&self) -> bool {
        self is Success
    }

    open spec fn moved(&self) -> int {
        match self {
            RewardResult::Success(_, amount) => *amount as int,
            RewardResult::Failure(_, _, _) => 0,
        }
    }
}

/// Summary result of one batch of rewards.
#[derive(Clone, Debug, PartialEq, Eq)]
pub struct BatchRewardResult {
    pub batch_id: u64,
    pub total_requests: u32,
    pub successful: u32,
    pub failed: u32,
    pub total_distributed: i128,
    pub results: Vec<RewardResult>,
}

/// One entry of the rewards service's audit log.
#[derive(Clone, Copy, Debug, PartialEq, Eq, Structural)]
pub enum RewardEvent {
    /// The administrator was replaced.
    AdminChanged { new_admin: Address },
    /// A batch started.
    BatchStarted { batch_id: u64, request_count: u32 },
    /// One reward was paid.
    RewardSuccess { batch_id: u64, recipient: Address, amount: i128 },
    /// One reward was not paid.
    RewardFailure { batch_id: u64, recipient: Address, amount: i128, error_code: u32 },
    /// A batch completed.
    BatchCompleted { batch_id: u64, successful: u32, failed: u32, total_distributed: i128 },
}

/// Builders of the rewards service's audit events.
pub struct RewardEvents;

impl RewardEvents {
    /// Emitted when a batch starts.
    pub fn batch_started(batch_id: u64, request_count: u32) -> (event: RewardEvent)
        ensures
            event == (RewardEvent::BatchStarted { batch_id, request_count }),
    {
        RewardEvent::BatchStarted { batch_id, request_count }
    }

    /// Emitted when one reward is paid.
    pub fn reward_success(batch_id: u64, recipient: &Address, amount: i128) -> (event: RewardEvent)
        ensures
            event == (RewardEvent::RewardSuccess { batch_id, recipient: *recipient, amount }),
    {
        RewardEvent::RewardSuccess { batch_id, recipient: *recipient, amount }
    }

    /// Emitted when one reward is not paid.
    pub fn reward_failure(
        batch_id: u64,
        recipient: &Address,
        amount: i128,
        error_code: u32,
    ) -> (event: RewardEvent)
        ensures
            event == (RewardEvent::RewardFailure {
                batch_id,
                recipient: *recipient,
                amount,
                error_code,
            }),
    {
        RewardEvent::RewardFailure { batch_id, recipient: *recipient, amount, error_code }
    }

    /// Emitted when a batch completes.
    pub fn batch_completed(
        batch_id: u64,
        successful: u32,
        failed: u32,
        total_distributed: i128,
    ) -> (event: RewardEvent)
        ensures
            event == (RewardEvent::BatchCompleted {
                batch_id,
                successful,
                failed,
                total_distributed,
            }),
    {
        RewardEvent::BatchCompleted { batch_id, successful, failed, total_distributed }
    }
}

} // verus!
