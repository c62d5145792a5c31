//! Data types and events of the wallet creation service.

use crate::address::Address;
use crate::tally::Outcome;
use vstd::prelude::*;

verus! {

/// Maximum number of wallets in a single batch.
pub const MAX_BATCH_SIZE: u32 = 100;

/// The code of a failed creation whose owner is not a valid address.
pub const INVALID_ADDRESS: u32 = 0;

/// The code of a failed creation whose owner already has a wallet.
pub const WALLET_EXISTS: u32 = 1;

/// A wallet.
#[derive(Clone, Copy, Debug, PartialEq, Eq, Structural)]
pub struct Wallet {
    /// Identifier of the wallet
    pub id: u64,
    /// Owner of the wallet
    pub owner: Address,
    /// Ledger time at which the wallet was created
    pub created_at: u64,
}

/// Request to create a wallet for an owner.
#[derive(Clone, Copy, Debug, PartialEq, Eq, Structural)]
pub struct WalletCreateRequest {
    pub owner: Address,
}

/// Result of a single wallet creation.
#[derive(Clone, Copy, Debug, PartialEq, Eq, Structural)]
pub enum WalletCreateResult {
    /// Created: owner
    Success(Address),
    /// Not created: owner, error code
    Failure(Address, u32),
}

impl Outcome for WalletCreateResult {
    open spec fn succeeded(&self) -> bool {
        self is Success
    }

    open spec fn moved(&self) -> int {
        0
    }
}

/// Summary result of one batch of wallet creations.
#[derive(Clone, Debug, PartialEq, Eq)]
pub struct BatchCreateResult {
    pub batch_id: u64,
    pub total_requests: u32,
    pub successful: u32,
    pub failed: u32,
    pub results: Vec<WalletCreateResult>,
}

/// One entry of the wallet creation service's audit log.
#[derive(Clone, Copy, Debug, PartialEq, Eq, Structural)]
pub enum WalletCreationEvent {
    /// A batch started.
    BatchStarted { batch_id: u64, request_count: u32 },
    /// A wallet was created.
    WalletCreated { batch_id: u64, owner: Address, wallet_id: u64 },
    /// A wallet was not created.
    WalletCreationFailure { batch_id: u64, owner: Address, error_code: u32 },
    /// A batch completed.
    BatchCompleted { batch_id: u64, successful: u32, failed: u32 },
}

/// Builders of the wallet creation service's audit events.
pub struct WalletEvents;

impl WalletEvents {
    /// Emitted when a batch starts.
    pub fn batch_started(batch_id: u64, request_count: u32) -> (event: WalletCreationEvent)
        ensures
            event == (WalletCreationEvent::BatchStarted { batch_id, request_count }),
    {
        WalletCreationEvent::BatchStarted { batch_id, request_count }
    }

    /// Emitted when a wallet is created.
    pub fn wallet_created(batch_id: u64, owner: &Address, wallet_id: u64) -> (event:
        WalletCreationEvent)
        ensures
            event == (WalletCreationEvent::WalletCreated { batch_id, owner: *owner, wallet_id }),
    {
        WalletCreationEvent::WalletCreated { batch_id, owner: *owner, wallet_id }
    }

    /// Emitted when a wallet is not created.
    pub fn wallet_creation_failure(batch_id: u64, owner: &Address, error_code: u32) -> (event:
        WalletCreationEvent)
        ensures
            event == (WalletCreationEvent::WalletCreationFailure {
                batch_id,
                owner: *owner,
                error_code,
            }),
    {
        WalletCreationEvent::WalletCreationFailure { batch_id, owner: *owner, error_code }
    }

    /// Emitted when a batch completes.
    pub fn batch_completed(batch_id: u64, successful: u32, failed: u32) -> (event:
        WalletCreationEvent)
        ensures
            event == (WalletCreationEvent::BatchCompleted { batch_id, successful, failed }),
    {
        WalletCreationEvent::BatchCompleted { batch_id, successful, failed }
    }
}

} // verus!
