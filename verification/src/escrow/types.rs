//! Data types and events of the escrow service.

use crate::address::Address;
use crate::tally::Outcome;
use vstd::prelude::*;

verus! {

/// Maximum number of escrows in a single batch operation.
pub const MAX_BATCH_SIZE: u32 = 100;

/// Where an escrow stands in its life: `Active` first, then exactly one of
/// the two final states, for good.
#[derive(Clone, Copy, Debug, PartialEq, Eq, Structural)]
pub enum EscrowStatus {
    /// Funds locked, awaiting release or reversal
    Active,
    /// Funds released to recipient
    Released,
    /// Funds returned to depositor (reversed)
    Reversed,
}

/// An escrow record.
#[derive(Clone, Copy, Debug, PartialEq, Eq, Structural)]
pub struct Escrow {
    pub escrow_id: u64,
    pub depositor: Address,
    pub recipient: Address,
    pub token: Address,
    pub amount: i128,
    pub status: EscrowStatus,
    pub created_at: u64,
    pub deadline: u64,
}

/// Request to reverse an escrow.
#[derive(Clone, Copy, Debug, PartialEq, Eq, Structural)]
pub struct ReversalRequest {
    pub escrow_id: u64,
}

/// Result of a single escrow reversal.
#[derive(Clone, Copy, Debug, PartialEq, Eq, Structural)]
pub enum ReversalResult {
    /// Successful reversal: escrow_id, depositor, amount
    Success(u64, Address, i128),
    /// Failed reversal: escrow_id, error_code
    Failure(u64, u32),
}

impl Outcome for ReversalResult {
    open spec fn succeeded(&self) -> bool {
        self is Success
    }

    open spec fn moved(&self) -> int {
        match self {
            ReversalResult::Success(_, _, amount) => *amount as int,
            ReversalResult::Failure(_, _) => 0,
        }
    }
}

/// Summary result of a batch reversal operation.
#[derive(Clone, Debug, PartialEq, Eq)]
pub struct BatchReversalResult {
    pub batch_id: u64,
    pub total_requests: u32,
    pub successful: u32,
    pub failed: u32,
    pub total_reversed: i128,
    pub results: Vec<ReversalResult>,
}

/// One entry of the escrow service's audit log.
#[derive(Clone, Copy, Debug, PartialEq, Eq, Structural)]
pub enum EscrowEvent {
    /// An escrow was created.
    Created { escrow_id: u64, depositor: Address, recipient: Address, amount: i128 },
    /// A batch reversal started.
    ReversalStarted { batch_id: u64, request_count: u32 },
    /// A single escrow was reversed.
    ReversalSuccess { batch_id: u64, escrow_id: u64, depositor: Address, amount: i128 },
    /// A single escrow reversal failed.
    ReversalFailure { batch_id: u64, escrow_id: u64, error_code: u32 },
    /// A batch reversal completed.
    ReversalCompleted { batch_id: u64, successful: u32, failed: u32, total_reversed: i128 },
    /// An escrow was released to its recipient.
    Released { escrow_id: u64, recipient: Address, amount: i128 },
}

/// Builders of the escrow service's audit events.
pub struct EscrowEvents;

impl EscrowEvents {
    /// Emitted when an escrow is created.
    pub fn escrow_created(
        escrow_id: u64,
        depositor: &Address,
        recipient: &Address,
        amount: i128,
    ) -> (event: EscrowEvent)
        ensures
            event == (EscrowEvent::Created {
                escrow_id,
                depositor: *depositor,
                recipient: *recipient,
                amount,
            }),
    {
        EscrowEvent::Created { escrow_id, depositor: *depositor, recipient: *recipient, amount }
    }

    /// Emitted when a batch reversal starts.
    pub fn batch_reversal_started(batch_id: u64, request_count: u32) -> (event: EscrowEvent)
        ensures
            event == (EscrowEvent::ReversalStarted { batch_id, request_count }),
    {
        EscrowEvent::ReversalStarted { batch_id, request_count }
    }

    /// Emitted when a single escrow is successfully reversed.
    pub fn reversal_success(
        batch_id: u64,
        escrow_id: u64,
        depositor: &Address,
        amount: i128,
    ) -> (event: EscrowEvent)
        ensures
            event == (EscrowEvent::ReversalSuccess {
                batch_id,
                escrow_id,
                depositor: *depositor,
                amount,
            }),
    {
        EscrowEvent::ReversalSuccess { batch_id, escrow_id, depositor: *depositor, amount }
    }

    /// Emitted when a single escrow reversal fails.
    pub fn reversal_failure(batch_id: u64, escrow_id: u64, error_code: u32) -> (event: EscrowEvent)
        ensures
            event == (EscrowEvent::ReversalFailure { batch_id, escrow_id, error_code }),
    {
        EscrowEvent::ReversalFailure { batch_id, escrow_id, error_code }
    }

    /// Emitted when a batch reversal completes.
    pub fn batch_reversal_completed(
        batch_id: u64,
        successful: u32,
        failed: u32,
        total_reversed: i128,
    ) -> (event: EscrowEvent)
        ensures
            event == (EscrowEvent::ReversalCompleted {
                batch_id,
                successful,
                failed,
                total_reversed,
            }),
    {
        EscrowEvent::ReversalCompleted { batch_id, successful, failed, total_reversed }
    }

    /// Emitted when an escrow is released to recipient.
    pub fn escrow_released(escrow_id: u64, recipient: &Address, amount: i128) -> (event:
        EscrowEvent)
        ensures
            event == (EscrowEvent::Released { escrow_id, recipient: *recipient, amount }),
    {
        EscrowEvent::Released { escrow_id, recipient: *recipient, amount }
    }
}

} // verus!
