//! The wallet creation service: its state and the batch creation engine.

use crate::address::Address;
use crate::batch_wallet_creation::types::{
    BatchCreateResult, Wallet, WalletCreateRequest, WalletCreateResult, WalletCreationEvent,
    WalletEvents, INVALID_ADDRESS, MAX_BATCH_SIZE, WALLET_EXISTS,
};
use crate::batch_wallet_creation::validation::{validate_address, wallet_exists};
use crate::host_error::{contract_error, host_error_of};
use crate::tally::{failures, lemma_counts_partition, lemma_tally_push, successes};
use std::collections::HashMap;
use vstd::prelude::*;

verus! {

/// Errors that abort a call to the wallet creation service as a whole. An
/// aborted call changes nothing.
#[derive(Copy, Clone, Debug, Eq, PartialEq, Structural)]
pub enum BatchWalletError {
    /// Contract not initialized
    NotInitialized,
    /// Caller is not authorized
    Unauthorized,
    /// Invalid batch data
    InvalidBatch,
    /// Batch is empty
    EmptyBatch,
    /// Batch exceeds maximum size
    BatchTooLarge,
    /// Contract already initialized
    AlreadyInitialized,
    /// A lifetime counter has no room left for this call
    CounterOverflow,
}

impl BatchWalletError {
    /// The stable numeric code of this error.
    pub open spec fn code_of(self) -> u32 {
        match self {
            BatchWalletError::NotInitialized => 1,
            BatchWalletError::Unauthorized => 2,
            BatchWalletError::InvalidBatch => 3,
            BatchWalletError::EmptyBatch => 4,
            BatchWalletError::BatchTooLarge => 5,
            BatchWalletError::AlreadyInitialized => 6,
            BatchWalletError::CounterOverflow => 7,
        }
    }

    /// The stable numeric code of this error.
    pub fn code(&self) -> (code: u32)
        ensures
            code == self.code_of(),
    {
        match self {
            BatchWalletError::NotInitialized => 1,
            BatchWalletError::Unauthorized => 2,
            BatchWalletError::InvalidBatch => 3,
            BatchWalletError::EmptyBatch => 4,
            BatchWalletError::BatchTooLarge => 5,
            BatchWalletError::AlreadyInitialized => 6,
            BatchWalletError::CounterOverflow => 7,
        }
    }
}

impl From<BatchWalletError> for soroban_sdk::Error {
    fn from(e: BatchWalletError) -> (error: soroban_sdk::Error) {
        host_error_of(e.code())
    }
}

impl vstd::std_specs::convert::FromSpecImpl<BatchWalletError> for soroban_sdk::Error {
    open spec fn obeys_from_spec() -> bool {
        true
    }

    open spec fn from_spec(e: BatchWalletError) -> soroban_sdk::Error {
        contract_error(e.code_of())
    }
}

/// The wallets, the result and the audit event after one creation was
/// attempted.
pub struct Creation {
    pub wallets: Map<u64, Wallet>,
    pub result: WalletCreateResult,
    pub event: WalletCreationEvent,
}

/// The wallets, the results and the audit events after a list of creations
/// was attempted.
pub struct CreationRun {
    pub wallets: Map<u64, Wallet>,
    pub results: Seq<WalletCreateResult>,
    pub events: Seq<WalletCreationEvent>,
}

/// One creation, attempted at the ledger time `now` against the wallets as
/// they stand: an owner who has a wallet keeps it, and the request fails
/// with `WALLET_EXISTS`; any other owner gets a wallet with the identifier
/// `wallet_id`.
pub open spec fn create_one(
    wallets: Map<u64, Wallet>,
    batch_id: u64,
    wallet_id: u64,
    now: u64,
    owner: Address,
) -> Creation {
    if wallets.contains_key(owner.id) {
        Creation {
            wallets,
            result: WalletCreateResult::Failure(owner, WALLET_EXISTS),
            event: WalletCreationEvent::WalletCreationFailure {
                batch_id,
                owner,
                error_code: WALLET_EXISTS,
            },
        }
    } else {
        Creation {
            wallets: wallets.insert(owner.id, Wallet { id: wallet_id, owner, created_at: now }),
            result: WalletCreateResult::Success(owner),
            event: WalletCreationEvent::WalletCreated { batch_id, owner, wallet_id },
        }
    }
}

/// The requests of a batch attempted one after the other, in their order,
/// each against the wallets that the one before it left. The wallets created
/// get consecutive identifiers from `first_id` on.
pub open spec fn create_all(
    wallets: Map<u64, Wallet>,
    batch_id: u64,
    first_id: u64,
    now: u64,
    requests: Seq<WalletCreateRequest>,
) -> CreationRun
    decreases requests.len(),
{
    if requests.len() == 0 {
        CreationRun { wallets, results: Seq::empty(), events: Seq::empty() }
    } else {
        let before = create_all(wallets, batch_id, first_id, now, requests.drop_last());
        let step = create_one(
            before.wallets,
            batch_id,
            (first_id + successes(before.results)) as u64,
            now,
            requests.last().owner,
        );
        CreationRun {
            wallets: step.wallets,
            results: before.results.push(step.result),
            events: before.events.push(step.event),
        }
    }
}

/// The reason, if any, for which a batch of creations aborts as a whole. The
/// rules are tried in this order: the service is initialized; the caller is
/// the administrator; the batch is not empty; it holds at most
/// `MAX_BATCH_SIZE` requests; the lifetime counters have room for it.
pub open spec fn creation_batch_refusal(
    admin: Option<Address>,
    total_batches: u64,
    total_wallets_created: u64,
    caller: Address,
    request_count: nat,
) -> Option<BatchWalletError> {
    if admin is None {
        Some(BatchWalletError::NotInitialized)
    } else if admin != Some(caller) {
        Some(BatchWalletError::Unauthorized)
    } else if request_count == 0 {
        Some(BatchWalletError::EmptyBatch)
    } else if request_count > MAX_BATCH_SIZE {
        Some(BatchWalletError::BatchTooLarge)
    } else if total_batches == u64::MAX || total_wallets_created + request_count > u64::MAX {
        Some(BatchWalletError::CounterOverflow)
    } else {
        None
    }
}

/// Attempts the creations of a batch in order, appending one audit event per
/// request.
fn create_each(
    wallets: &mut HashMap<u64, Wallet>,
    events: &mut Vec<WalletCreationEvent>,
    batch_id: u64,
    first_id: u64,
    now: u64,
    requests: &Vec<WalletCreateRequest>,
) -> (tally: (Vec<WalletCreateResult>, u32))
    requires
        requests.len() <= MAX_BATCH_SIZE,
        first_id + requests.len() <= u64::MAX + 1,
    ensures
        ({
            let run = create_all(old(wallets)@, batch_id, first_id, now, requests@);
            &&& final(wallets)@ == run.wallets
            &&& tally.0@ == run.results
            &&& final(events)@ == old(events)@ + run.events
        }),
        tally.0@.len() == requests@.len(),
        tally.1 == successes(tally.0@),
{
    let n = requests.len();
    let mut results: Vec<WalletCreateResult> = Vec::new();
    let mut successful: u32 = 0;
    let mut i: usize = 0;
    assert(requests@.take(0) =~= Seq::<WalletCreateRequest>::empty());
    assert(events@ =~= old(events)@ + Seq::<WalletCreationEvent>::empty());
    while i < n
        invariant
            n == requests.len(),
            n <= MAX_BATCH_SIZE,
            first_id + n <= u64::MAX + 1,
            i <= n,
            results@.len() == i,
            wallets@ == create_all(
                old(wallets)@,
                batch_id,
                first_id,
                now,
                requests@.take(i as int),
            ).wallets,
            results@ == create_all(
                old(wallets)@,
                batch_id,
                first_id,
                now,
                requests@.take(i as int),
            ).results,
            events@ == old(events)@ + create_all(
                old(wallets)@,
                batch_id,
                first_id,
                now,
                requests@.take(i as int),
            ).events,
            successful == successes(results@),
            successful <= i,
        decreases n - i,
    {
        let ghost before_results = results@;
        let owner = requests[i].owner;
        proof {
            assert(requests@.take(i + 1).drop_last() =~= requests@.take(i as int));
            assert(requests@.take(i + 1).last() == requests@[i as int]);
        }
        let result = if validate_address(&owner).is_err() {
            events.push(WalletEvents::wallet_creation_failure(batch_id, &owner, INVALID_ADDRESS));
            WalletCreateResult::Failure(owner, INVALID_ADDRESS)
        } else if wallet_exists(wallets, &owner) {
            events.push(WalletEvents::wallet_creation_failure(batch_id, &owner, WALLET_EXISTS));
            WalletCreateResult::Failure(owner, WALLET_EXISTS)
        } else {
            let wallet_id = first_id + successful as u64;
            wallets.insert(owner.id, Wallet { id: wallet_id, owner, created_at: now });
            successful = successful + 1;
            events.push(WalletEvents::wallet_created(batch_id, &owner, wallet_id));
            WalletCreateResult::Success(owner)
        };
        proof {
            lemma_tally_push(before_results, result);
        }
        results.push(result);
        i = i + 1;
        proof {
            let run = create_all(old(wallets)@, batch_id, first_id, now, requests@.take(i as int));
            assert(events@ =~= old(events)@ + run.events);
        }
    }
    assert(requests@.take(n as int) =~= requests@);
    (results, successful)
}

/// The wallet creation service: its administrator, the wallets, its lifetime
/// counters and its audit log.
#[derive(Debug)]
pub struct BatchWalletContract {
    admin: Option<Address>,
    total_batches: u64,
    total_wallets_created: u64,
    wallets: HashMap<u64, Wallet>,
    events: Vec<WalletCreationEvent>,
}

impl BatchWalletContract {
    /// The administrator, once the service is initialized.
    pub closed spec fn admin(&self) -> Option<Address> {
        self.admin
    }

    /// The number of batches processed.
    pub closed spec fn total_batches(&self) -> u64 {
        self.total_batches
    }

    /// The number of wallets created, which is also the last identifier
    /// given out.
    pub closed spec fn total_wallets_created(&self) -> u64 {
        self.total_wallets_created
    }

    /// The wallets by the identifier of the owner's address.
    pub closed spec fn wallets(&self) -> Map<u64, Wallet> {
        self.wallets@
    }

    /// The audit log, oldest event first.
    pub closed spec fn events(&self) -> Seq<WalletCreationEvent> {
        self.events@
    }

    /// Whether `other` has the wallets, the counters and the audit log of
    /// this service.
    pub open spec fn same_books(&self, other: &BatchWalletContract) -> bool {
        &&& self.total_batches() == other.total_batches()
        &&& self.total_wallets_created() == other.total_wallets_created()
        &&& self.wallets() == other.wallets()
        &&& self.events() == other.events()
    }

    /// What `require_admin` answers to `caller`.
    pub open spec fn require_admin_verdict(&self, caller: Address) -> Result<(), BatchWalletError> {
        if self.admin() is None {
            Err(BatchWalletError::NotInitialized)
        } else if self.admin() != Some(caller) {
            Err(BatchWalletError::Unauthorized)
        } else {
            Ok(())
        }
    }

    /// A service that is not yet initialized.
    pub fn new() -> (contract: BatchWalletContract)
        ensures
            contract.admin() is None,
            contract.total_batches() == 0,
            contract.total_wallets_created() == 0,
            contract.wallets() == Map::<u64, Wallet>::empty(),
            contract.events() == Seq::<WalletCreationEvent>::empty(),
    {
        BatchWalletContract {
            admin: None,
            total_batches: 0,
            total_wallets_created: 0,
            wallets: HashMap::new(),
            events: Vec::new(),
        }
    }

    /// A service as it was persisted: with its administrator and its
    /// counters, and without wallets and events; `load_wallet` brings the
    /// wallets back one by one.
    pub fn restore(admin: Option<Address>, total_batches: u64, total_wallets_created: u64) -> (contract:
        BatchWalletContract)
        ensures
            contract.admin() == admin,
            contract.total_batches() == total_batches,
            contract.total_wallets_created() == total_wallets_created,
            contract.wallets() == Map::<u64, Wallet>::empty(),
            contract.events() == Seq::<WalletCreationEvent>::empty(),
    {
        BatchWalletContract {
            admin,
            total_batches,
            total_wallets_created,
            wallets: HashMap::new(),
            events: Vec::new(),
        }
    }

    /// Brings back one persisted wallet, as the wallet of its owner.
    pub fn load_wallet(&mut self, wallet: Wallet)
        ensures
            final(self).wallets() == old(self).wallets().insert(wallet.owner.id, wallet),
            final(self).admin() == old(self).admin(),
            final(self).total_batches() == old(self).total_batches(),
            final(self).total_wallets_created() == old(self).total_wallets_created(),
            final(self).events() == old(self).events(),
    {
        self.wallets.insert(wallet.owner.id, wallet);
    }

    /// Initializes the contract with an admin address. A service is
    /// initialized once.
    pub fn initialize(&mut self, admin: Address) -> (r: Result<(), BatchWalletError>)
        ensures
            old(self).admin() is Some ==> r == Err::<(), BatchWalletError>(
                BatchWalletError::AlreadyInitialized,
            ) && *final(self) == *old(self),
            old(self).admin() is None ==> r is Ok && final(self).admin() == Some(admin) && final(self).same_books(old(self)),
    {
        if self.admin.is_some() {
            return Err(BatchWalletError::AlreadyInitialized);
        }
        self.admin = Some(admin);
        Ok(())
    }

    /// Checks that the service is initialized and that `caller` is its
    /// administrator.
    pub fn require_admin(&self, caller: &Address) -> (r: Result<(), BatchWalletError>)
        ensures
            r == self.require_admin_verdict(*caller),
    {
        match self.admin {
            None => Err(BatchWalletError::NotInitialized),
            Some(admin) => if admin.id == caller.id {
                Ok(())
            } else {
                Err(BatchWalletError::Unauthorized)
            },
        }
    }

    /// Executes batch creation of wallets for multiple owners.
    ///
    /// The call aborts as a whole, changing nothing, when
    /// `creation_batch_refusal` gives a reason. Otherwise the batch gets the
    /// next batch identifier and every request is attempted in its order
    /// against the wallets as the requests before it left them, so that an
    /// owner listed twice gets one wallet. The wallets created get the
    /// identifiers that follow the last one given out. The lifetime counters
    /// are then advanced once. The audit log receives the start of the
    /// batch, one event per request, and its completion.
    pub fn batch_create_wallets(
        &mut self,
        caller: &Address,
        requests: &Vec<WalletCreateRequest>,
        timestamp: u64,
    ) -> (r: Result<BatchCreateResult, BatchWalletError>)
        ensures
            match creation_batch_refusal(
                old(self).admin(),
                old(self).total_batches(),
                old(self).total_wallets_created(),
                *caller,
                requests@.len(),
            ) {
                Some(e) => r == Err::<BatchCreateResult, BatchWalletError>(e) && *final(self)
                    == *old(self),
                None => r matches Ok(batch) && {
                    let run = create_all(
                        old(self).wallets(),
                        (old(self).total_batches() + 1) as u64,
                        (old(self).total_wallets_created() + 1) as u64,
                        timestamp,
                        requests@,
                    );
                    &&& final(self).wallets() == run.wallets
                    &&& batch.results@ == run.results
                    &&& batch.batch_id == old(self).total_batches() + 1
                    &&& batch.total_requests == requests@.len()
                    &&& batch.results@.len() == requests@.len()
                    &&& batch.successful == successes(batch.results@)
                    &&& batch.failed == failures(batch.results@)
                    &&& batch.successful + batch.failed == batch.total_requests
                    &&& final(self).admin() == old(self).admin()
                    &&& final(self).total_batches() == old(self).total_batches() + 1
                    &&& final(self).total_wallets_created() == old(self).total_wallets_created()
                        + batch.successful
                    &&& final(self).events() == old(self).events().push(
                        WalletCreationEvent::BatchStarted {
                            batch_id: batch.batch_id,
                            request_count: batch.total_requests,
                        },
                    ) + run.events.push(
                        WalletCreationEvent::BatchCompleted {
                            batch_id: batch.batch_id,
                            successful: batch.successful,
                            failed: batch.failed,
                        },
                    )
                },
            },
    {
        let admin = match self.admin {
            Some(a) => a,
            None => {
                return Err(BatchWalletError::NotInitialized);
            },
        };
        if admin.id != caller.id {
            return Err(BatchWalletError::Unauthorized);
        }
        let n = requests.len();
        if n == 0 {
            return Err(BatchWalletError::EmptyBatch);
        }
        if n > MAX_BATCH_SIZE as usize {
            return Err(BatchWalletError::BatchTooLarge);
        }
        let request_count = n as u32;
        if self.total_batches == u64::MAX || self.total_wallets_created > u64::MAX
            - request_count as u64 {
            return Err(BatchWalletError::CounterOverflow);
        }
        let batch_id = self.total_batches + 1;
        let first_id = self.total_wallets_created + 1;
        self.events.push(WalletEvents::batch_started(batch_id, request_count));
        let (results, successful) = create_each(
            &mut self.wallets,
            &mut self.events,
            batch_id,
            first_id,
            timestamp,
            requests,
        );
        proof {
            lemma_counts_partition(results@);
        }
        let failed = request_count - successful;
        self.total_batches = batch_id;
        self.total_wallets_created = self.total_wallets_created + successful as u64;
        self.events.push(WalletEvents::batch_completed(batch_id, successful, failed));
        proof {
            let run = create_all(old(self).wallets(), batch_id, first_id, timestamp, requests@);
            assert(self.events@ =~= old(self).events().push(
                WalletCreationEvent::BatchStarted { batch_id, request_count },
            ) + run.events.push(
                WalletCreationEvent::BatchCompleted { batch_id, successful, failed },
            ));
        }
        Ok(BatchCreateResult { batch_id, total_requests: request_count, successful, failed, results })
    }

    /// Returns the admin address.
    pub fn get_admin(&self) -> (r: Result<Address, BatchWalletError>)
        ensures
            r == (match self.admin() {
                Some(a) => Ok::<Address, BatchWalletError>(a),
                None => Err::<Address, BatchWalletError>(BatchWalletError::NotInitialized),
            }),
    {
        match self.admin {
            Some(a) => Ok(a),
            None => Err(BatchWalletError::NotInitialized),
        }
    }

    /// Updates the admin address. Only the administrator in office may name
    /// the next one.
    pub fn set_admin(&mut self, current_admin: &Address, new_admin: Address) -> (r: Result<
        (),
        BatchWalletError,
    >)
        ensures
            r == old(self).require_admin_verdict(*current_admin),
            r is Err ==> *final(self) == *old(self),
            r is Ok ==> final(self).admin() == Some(new_admin) && final(self).same_books(
                old(self),
            ),
    {
        match self.require_admin(current_admin) {
            Err(e) => Err(e),
            Ok(()) => {
                self.admin = Some(new_admin);
                Ok(())
            },
        }
    }

    /// Returns the total number of batches processed.
    pub fn get_total_batches(&self) -> (n: u64)
        ensures
            n == self.total_batches(),
    {
        self.total_batches
    }

    /// Returns the total number of wallets created.
    pub fn get_total_wallets_created(&self) -> (n: u64)
        ensures
            n == self.total_wallets_created(),
    {
        self.total_wallets_created
    }

    /// Returns wallet information for a given address.
    pub fn get_wallet(&self, address: &Address) -> (found: Option<Wallet>)
        ensures
            found == (if self.wallets().contains_key(address.id) {
                Some(self.wallets()[address.id])
            } else {
                None
            }),
    {
        match self.wallets.get(&address.id) {
            Some(w) => Some(*w),
            None => None,
        }
    }

    /// The audit log, oldest event first.
    pub fn event_log(&self) -> (log: &Vec<WalletCreationEvent>)
        ensures
            log@ == self.events(),
    {
        &self.events
    }
}

} // verus!
