//! Data types and events of the shared budget service.

use crate::address::Address;
use crate::tally::Outcome;
use vstd::prelude::*;

verus! {

/// Maximum number of allocation entries in a single batch.
pub const MAX_BATCH_SIZE: u32 = 100;

/// The largest amount one allocation may take from the shared budget.
pub const MAX_ALLOCATION: i128 = 1_000_000_000_000;

/// The code of a failed allocation whose recipient is not valid.
pub const INVALID_ADDRESS: u32 = 0;

/// The code of a failed allocation whose amount is not positive.
pub const INVALID_AMOUNT: u32 = 1;

/// The code of a failed allocation that the shared budget cannot cover.
pub const INSUFFICIENT_BUDGET: u32 = 2;

/// A single allocation request from a shared budget to a recipient.
#[derive(Clone, Copy, Debug, PartialEq, Eq, Structural)]
pub struct AllocationRequest {
    /// Recipient address
    pub recipient: Address,
    /// Amount to allocate to the recipient
    pub amount: i128,
}

/// Result of processing a single allocation.
#[derive(Clone, Copy, Debug, PartialEq, Eq, Structural)]
pub enum AllocationResult {
    /// Allocated: recipient, amount
    Success(Address, i128),
    /// Not allocated: recipient, requested amount, error code
    Failure(Address, i128, u32),
}

impl Outcome for AllocationResult {
    open spec fn succeeded(&self) -> bool {
        self is Success
    }

    open spec fn moved(&self) -> int {
        match self {
            AllocationResult::Success(_, amount) => *amount as int,
            AllocationResult::Failure(_, _, _) => 0,
        }
    }
}

/// Aggregated result for a batch of allocations.
#[derive(Clone, Debug, PartialEq, Eq)]
pub struct AllocationBatchResult {
    /// Identifier of the batch
    pub batch_id: u64,
    /// Total allocation requests in the batch
    pub total_requests: u32,
    /// Number of successful allocations
    pub successful: u32,
    /// Number of failed allocations
    pub failed: u32,
    /// Total amount successfully allocated
    pub total_allocated: i128,
    /// Individual allocation results
    pub results: Vec<AllocationResult>,
}

/// One entry of the shared budget service's audit log.
#[derive(Clone, Copy, Debug, PartialEq, Eq, Structural)]
pub enum SharedBudgetEvent {
    /// A batch started.
    BatchStarted { batch_id: u64, request_count: u32 },
    /// One allocation was made.
    AllocationSuccess { batch_id: u64, recipient: Address, amount: i128 },
    /// One allocation was refused.
    AllocationFailure { batch_id: u64, recipient: Address, amount: i128, error_code: u32 },
    /// A batch completed.
    BatchCompleted { batch_id: u64, successful: u32, failed: u32, total_allocated: i128 },
}

/// Builders of the shared budget service's audit events.
pub struct SharedBudgetEvents;

impl SharedBudgetEvents {
    /// Event emitted when allocation batch processing starts.
    pub fn batch_started(batch_id: u64, request_count: u32) -> (event: SharedBudgetEvent)
        ensures
            event == (SharedBudgetEvent::BatchStarted { batch_id, request_count }),
    {
        SharedBudgetEvent::BatchStarted { batch_id, request_count }
    }

    /// Event emitted when an allocation succeeds for a recipient.
    pub fn allocation_success(batch_id: u64, recipient: &Address, amount: i128) -> (event:
        SharedBudgetEvent)
        ensures
            event == (SharedBudgetEvent::AllocationSuccess {
                batch_id,
                recipient: *recipient,
                amount,
            }),
    {
        SharedBudgetEvent::AllocationSuccess { batch_id, recipient: *recipient, amount }
    }

    /// Event emitted when an allocation fails for a recipient.
    pub fn allocation_failure(
        batch_id: u64,
        recipient: &Address,
        amount: i128,
        error_code: u32,
    ) -> (event: SharedBudgetEvent)
        ensures
            event == (SharedBudgetEvent::AllocationFailure {
                batch_id,
                recipient: *recipient,
                amount,
                error_code,
            }),
    {
        SharedBudgetEvent::AllocationFailure { batch_id, recipient: *recipient, amount, error_code }
    }

    /// Event emitted when allocation batch processing completes.
    pub fn batch_completed(
        batch_id: u64,
        successful: u32,
        failed: u32,
        total_allocated: i128,
    ) -> (event: SharedBudgetEvent)
        ensures
            event == (SharedBudgetEvent::BatchCompleted {
                batch_id,
                successful,
                failed,
                total_allocated,
            }),
    {
        SharedBudgetEvent::BatchCompleted { batch_id, successful, failed, total_allocated }
    }
}

} // verus!
