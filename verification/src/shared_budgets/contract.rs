//! The shared budget service: its state and the batch allocation engine.

use crate::address::Address;
use crate::host_error::{contract_error, host_error_of};
use crate::shared_budgets::types::{
    AllocationBatchResult, AllocationRequest, AllocationResult, SharedBudgetEvent,
    SharedBudgetEvents, INSUFFICIENT_BUDGET, INVALID_ADDRESS, INVALID_AMOUNT, MAX_ALLOCATION,
    MAX_BATCH_SIZE,
};
use crate::shared_budgets::validation::{validate_address, validate_amount};
use crate::tally::{
    failures, lemma_counts_partition, lemma_tally_push, saturate, saturating_add, successes,
    volume,
};
use vstd::prelude::*;

verus! {

/// Errors that abort a call to the shared budget service as a whole. An
/// aborted call changes nothing.
#[derive(Copy, Clone, Debug, Eq, PartialEq, Structural)]
pub enum SharedBudgetError {
    /// Contract not initialized
    NotInitialized,
    /// Caller is not authorized
    Unauthorized,
    /// Batch is empty
    EmptyBatch,
    /// Batch exceeds maximum size
    BatchTooLarge,
    /// Contract already initialized
    AlreadyInitialized,
    /// A lifetime counter has no room left for this call
    CounterOverflow,
}

impl SharedBudgetError {
    /// The stable numeric code of this error.
    pub open spec fn code_of(self) -> u32 {
        match self {
            SharedBudgetError::NotInitialized => 1,
            SharedBudgetError::Unauthorized => 2,
            SharedBudgetError::EmptyBatch => 3,
            SharedBudgetError::BatchTooLarge => 4,
            SharedBudgetError::AlreadyInitialized => 5,
            SharedBudgetError::CounterOverflow => 6,
        }
    }

    /// The stable numeric code of this error.
    pub fn code(&self) -> (code: u32)
        ensures
            code == self.code_of(),
    {
        match self {
            SharedBudgetError::NotInitialized => 1,
            SharedBudgetError::Unauthorized => 2,
            SharedBudgetError::EmptyBatch => 3,
            SharedBudgetError::BatchTooLarge => 4,
            SharedBudgetError::AlreadyInitialized => 5,
            SharedBudgetError::CounterOverflow => 6,
        }
    }
}

impl From<SharedBudgetError> for soroban_sdk::Error {
    fn from(e: SharedBudgetError) -> (error: soroban_sdk::Error) {
        host_error_of(e.code())
    }
}

impl vstd::std_specs::convert::FromSpecImpl<SharedBudgetError> for soroban_sdk::Error {
    open spec fn obeys_from_spec() -> bool {
        true
    }

    open spec fn from_spec(e: SharedBudgetError) -> soroban_sdk::Error {
        contract_error(e.code_of())
    }
}

/// The result of one allocation request: an amount that is not positive
/// fails with `INVALID_AMOUNT`; one above `MAX_ALLOCATION` fails with
/// `INSUFFICIENT_BUDGET`; any other is allocated.
pub open spec fn allocate_one(request: AllocationRequest) -> AllocationResult {
    if request.amount <= 0 {
        AllocationResult::Failure(request.recipient, request.amount, INVALID_AMOUNT)
    } else if request.amount > MAX_ALLOCATION {
        AllocationResult::Failure(request.recipient, request.amount, INSUFFICIENT_BUDGET)
    } else {
        AllocationResult::Success(request.recipient, request.amount)
    }
}

/// The results of a batch: that of each request, in the order of the
/// requests.
pub open spec fn allocate_all(requests: Seq<AllocationRequest>) -> Seq<AllocationResult> {
    Seq::new(requests.len(), |i: int| allocate_one(requests[i]))
}

/// The audit event of one allocation result.
pub open spec fn allocation_event(batch_id: u64, result: AllocationResult) -> SharedBudgetEvent {
    match result {
        AllocationResult::Success(recipient, amount) => SharedBudgetEvent::AllocationSuccess {
            batch_id,
            recipient,
            amount,
        },
        AllocationResult::Failure(
            recipient,
            amount,
            error_code,
        ) => SharedBudgetEvent::AllocationFailure { batch_id, recipient, amount, error_code },
    }
}

/// The audit events of the results of a batch, one per result and in the same
/// order.
pub open spec fn allocation_events(batch_id: u64, results: Seq<AllocationResult>) -> Seq<
    SharedBudgetEvent,
> {
    Seq::new(results.len(), |i: int| allocation_event(batch_id, results[i]))
}

/// The reason, if any, for which an allocation batch aborts as a whole. The
/// rules are tried in this order: the service is initialized; the caller is
/// the administrator; the batch is not empty; it holds at most
/// `MAX_BATCH_SIZE` requests; the lifetime counters have room for it.
pub open spec fn allocation_refusal(
    admin: Option<Address>,
    total_batches: u64,
    total_processed: u64,
    caller: Address,
    request_count: nat,
) -> Option<SharedBudgetError> {
    if admin is None {
        Some(SharedBudgetError::NotInitialized)
    } else if admin != Some(caller) {
        Some(SharedBudgetError::Unauthorized)
    } else if request_count == 0 {
        Some(SharedBudgetError::EmptyBatch)
    } else if request_count > MAX_BATCH_SIZE {
        Some(SharedBudgetError::BatchTooLarge)
    } else if total_batches == u64::MAX || total_processed + request_count > u64::MAX {
        Some(SharedBudgetError::CounterOverflow)
    } else {
        None
    }
}

/// Decides one allocation request.
fn allocate_item(request: &AllocationRequest) -> (result: AllocationResult)
    ensures
        result == allocate_one(*request),
{
    if validate_address(&request.recipient).is_err() {
        return AllocationResult::Failure(request.recipient, request.amount, INVALID_ADDRESS);
    }
    if validate_amount(request.amount).is_err() {
        return AllocationResult::Failure(request.recipient, request.amount, INVALID_AMOUNT);
    }
    if request.amount > MAX_ALLOCATION {
        return AllocationResult::Failure(request.recipient, request.amount, INSUFFICIENT_BUDGET);
    }
    AllocationResult::Success(request.recipient, request.amount)
}

/// Decides the requests of a batch in order, appending one audit event per
/// request.
fn allocate_each(
    events: &mut Vec<SharedBudgetEvent>,
    batch_id: u64,
    requests: &Vec<AllocationRequest>,
) -> (tally: (Vec<AllocationResult>, u32, i128))
    requires
        requests.len() <= MAX_BATCH_SIZE,
    ensures
        tally.0@ == allocate_all(requests@),
        tally.1 == successes(tally.0@),
        tally.2 == volume(tally.0@),
        0 <= volume(tally.0@) <= requests@.len() * MAX_ALLOCATION,
        final(events)@ == old(events)@ + allocation_events(batch_id, tally.0@),
{
    let n = requests.len();
    let mut results: Vec<AllocationResult> = Vec::new();
    let mut successful: u32 = 0;
    let mut total: i128 = 0;
    let mut i: usize = 0;
    assert(events@ =~= old(events)@ + allocation_events(batch_id, results@));
    while i < n
        invariant
            n == requests.len(),
            n <= MAX_BATCH_SIZE,
            i <= n,
            results@ == allocate_all(requests@.take(i as int)),
            successful == successes(results@),
            successful <= i,
            total == volume(results@),
            0 <= total <= i * MAX_ALLOCATION,
            events@ == old(events)@ + allocation_events(batch_id, results@),
        decreases n - i,
    {
        let ghost before_results = results@;
        let result = allocate_item(&requests[i]);
        proof {
            lemma_tally_push(before_results, result);
        }
        match result {
            AllocationResult::Success(recipient, amount) => {
                successful = successful + 1;
                total = total + amount;
                events.push(SharedBudgetEvents::allocation_success(batch_id, &recipient, amount));
            },
            AllocationResult::Failure(recipient, amount, code) => {
                events.push(
                    SharedBudgetEvents::allocation_failure(batch_id, &recipient, amount, code),
                );
            },
        }
        results.push(result);
        i = i + 1;
        proof {
            assert(results@ =~= allocate_all(requests@.take(i as int)));
            assert(allocation_events(batch_id, results@) =~= allocation_events(
                batch_id,
                before_results,
            ).push(allocation_event(batch_id, result)));
            assert(events@ =~= old(events)@ + allocation_events(batch_id, results@));
        }
    }
    assert(requests@.take(n as int) =~= requests@);
    (results, successful, total)
}

/// The shared budget service: its administrator, its lifetime counters and
/// its audit log.
#[derive(Clone, Debug, PartialEq, Eq)]
pub struct SharedBudgetContract {
    admin: Option<Address>,
    total_batches: u64,
    total_allocations_processed: u64,
    total_allocated_volume: i128,
    events: Vec<SharedBudgetEvent>,
}

impl SharedBudgetContract {
    /// The administrator, once the service is initialized.
    pub closed spec fn admin(&self) -> Option<Address> {
        self.admin
    }

    /// The number of batches processed.
    pub closed spec fn total_batches(&self) -> u64 {
        self.total_batches
    }

    /// The number of allocation requests processed, allocated or not.
    pub closed spec fn total_allocations_processed(&self) -> u64 {
        self.total_allocations_processed
    }

    /// The amount allocated, capped at the largest amount.
    pub closed spec fn total_allocated_volume(&self) -> i128 {
        self.total_allocated_volume
    }

    /// The audit log, oldest event first.
    pub closed spec fn events(&self) -> Seq<SharedBudgetEvent> {
        self.events@
    }

    /// Whether `other` has the lifetime counters and the audit log of this
    /// service.
    pub open spec fn same_books(&self, other: &SharedBudgetContract) -> bool {
        &&& self.total_batches() == other.total_batches()
        &&& self.total_allocations_processed() == other.total_allocations_processed()
        &&& self.total_allocated_volume() == other.total_allocated_volume()
        &&& self.events() == other.events()
    }

    /// What `require_admin` answers to `caller`.
    pub open spec fn require_admin_verdict(&self, caller: Address) -> Result<(), SharedBudgetError> {
        if self.admin() is None {
            Err(SharedBudgetError::NotInitialized)
        } else if self.admin() != Some(caller) {
            Err(SharedBudgetError::Unauthorized)
        } else {
            Ok(())
        }
    }

    /// A service that is not yet initialized.
    pub fn new() -> (contract: SharedBudgetContract)
        ensures
            contract.admin() is None,
            contract.total_batches() == 0,
            contract.total_allocations_processed() == 0,
            contract.total_allocated_volume() == 0,
            contract.events() == Seq::<SharedBudgetEvent>::empty(),
    {
        SharedBudgetContract {
            admin: None,
            total_batches: 0,
            total_allocations_processed: 0,
            total_allocated_volume: 0,
            events: Vec::new(),
        }
    }

    /// A service as it was persisted: with its administrator and its
    /// counters, and with an empty audit log.
    pub fn restore(
        admin: Option<Address>,
        total_batches: u64,
        total_allocations_processed: u64,
        total_allocated_volume: i128,
    ) -> (contract: SharedBudgetContract)
        ensures
            contract.admin() == admin,
            contract.total_batches() == total_batches,
            contract.total_allocations_processed() == total_allocations_processed,
            contract.total_allocated_volume() == total_allocated_volume,
            contract.events() == Seq::<SharedBudgetEvent>::empty(),
    {
        SharedBudgetContract {
            admin,
            total_batches,
            total_allocations_processed,
            total_allocated_volume,
            events: Vec::new(),
        }
    }

    /// Initializes the contract with an admin address. A service is
    /// initialized once.
    pub fn initialize(&mut self, admin: Address) -> (r: Result<(), SharedBudgetError>)
        ensures
            old(self).admin() is Some ==> r == Err::<(), SharedBudgetError>(
                SharedBudgetError::AlreadyInitialized,
            ) && *final(self) == *old(self),
            old(self).admin() is None ==> r is Ok && final(self).admin() == Some(admin) && final(self).same_books(old(self)),
    {
        if self.admin.is_some() {
            return Err(SharedBudgetError::AlreadyInitialized);
        }
        self.admin = Some(admin);
        Ok(())
    }

    /// Checks that the service is initialized and that `caller` is its
    /// administrator.
    pub fn require_admin(&self, caller: &Address) -> (r: Result<(), SharedBudgetError>)
        ensures
            r == self.require_admin_verdict(*caller),
    {
        match self.admin {
            None => Err(SharedBudgetError::NotInitialized),
            Some(admin) => if admin.id == caller.id {
                Ok(())
            } else {
                Err(SharedBudgetError::Unauthorized)
            },
        }
    }

    /// Allocates a shared budget to multiple recipients in batch.
    ///
    /// The call aborts as a whole, changing nothing, when
    /// `allocation_refusal` gives a reason. Otherwise the batch gets the next
    /// batch identifier and every request is decided in its order; a request
    /// that fails leaves the others untouched. The lifetime counters are
    /// then advanced once: one more batch, the requests processed, and the
    /// amount allocated, capped at the largest amount. The audit log
    /// receives the start of the batch, one event per request, and its
    /// completion.
    pub fn allocate_shared_budget_batch(
        &mut self,
        caller: &Address,
        allocations: &Vec<AllocationRequest>,
    ) -> (r: Result<AllocationBatchResult, SharedBudgetError>)
        ensures
            match allocation_refusal(
                old(self).admin(),
                old(self).total_batches(),
                old(self).total_allocations_processed(),
                *caller,
                allocations@.len(),
            ) {
                Some(e) => r == Err::<AllocationBatchResult, SharedBudgetError>(e) && *final(self)
                    == *old(self),
                None => r matches Ok(batch) && {
                    &&& batch.results@ == allocate_all(allocations@)
                    &&& batch.batch_id == old(self).total_batches() + 1
                    &&& batch.total_requests == allocations@.len()
                    &&& batch.results@.len() == allocations@.len()
                    &&& batch.successful == successes(batch.results@)
                    &&& batch.failed == failures(batch.results@)
                    &&& batch.successful + batch.failed == batch.total_requests
                    &&& batch.total_allocated == volume(batch.results@)
                    &&& final(self).admin() == old(self).admin()
                    &&& final(self).total_batches() == old(self).total_batches() + 1
                    &&& final(self).total_allocations_processed() == old(self).total_allocations_processed() + batch.total_requests
                    &&& final(self).total_allocated_volume() == saturate(
                        old(self).total_allocated_volume() + batch.total_allocated,
                    )
                    &&& final(self).events() == old(self).events().push(
                        SharedBudgetEvent::BatchStarted {
                            batch_id: batch.batch_id,
                            request_count: batch.total_requests,
                        },
                    ) + allocation_events(batch.batch_id, batch.results@).push(
                        SharedBudgetEvent::BatchCompleted {
                            batch_id: batch.batch_id,
                            successful: batch.successful,
                            failed: batch.failed,
                            total_allocated: batch.total_allocated,
                        },
                    )
                },
            },
    {
        let admin = match self.admin {
            Some(a) => a,
            None => {
                return Err(SharedBudgetError::NotInitialized);
            },
        };
        if admin.id != caller.id {
            return Err(SharedBudgetError::Unauthorized);
        }
        let n = allocations.len();
        if n == 0 {
            return Err(SharedBudgetError::EmptyBatch);
        }
        if n > MAX_BATCH_SIZE as usize {
            return Err(SharedBudgetError::BatchTooLarge);
        }
        let request_count = n as u32;
        if self.total_batches == u64::MAX || self.total_allocations_processed > u64::MAX
            - request_count as u64 {
            return Err(SharedBudgetError::CounterOverflow);
        }
        let batch_id = self.total_batches + 1;
        self.events.push(SharedBudgetEvents::batch_started(batch_id, request_count));
        let (results, successful, total_allocated) = allocate_each(
            &mut self.events,
            batch_id,
            allocations,
        );
        proof {
            lemma_counts_partition(results@);
        }
        let failed = request_count - successful;
        self.total_batches = batch_id;
        self.total_allocations_processed = self.total_allocations_processed
            + request_count as u64;
        self.total_allocated_volume = saturating_add(self.total_allocated_volume, total_allocated);
        self.events.push(
            SharedBudgetEvents::batch_completed(batch_id, successful, failed, total_allocated),
        );
        proof {
            assert(self.events@ =~= old(self).events().push(
                SharedBudgetEvent::BatchStarted { batch_id, request_count },
            ) + allocation_events(batch_id, results@).push(
                SharedBudgetEvent::BatchCompleted {
                    batch_id,
                    successful,
                    failed,
                    total_allocated,
                },
            ));
        }
        Ok(
            AllocationBatchResult {
                batch_id,
                total_requests: request_count,
                successful,
                failed,
                total_allocated,
                results,
            },
        )
    }

    /// Returns the admin address.
    pub fn get_admin(&self) -> (r: Result<Address, SharedBudgetError>)
        ensures
            r == (match self.admin() {
                Some(a) => Ok::<Address, SharedBudgetError>(a),
                None => Err::<Address, SharedBudgetError>(SharedBudgetError::NotInitialized),
            }),
    {
        match self.admin {
            Some(a) => Ok(a),
            None => Err(SharedBudgetError::NotInitialized),
        }
    }

    /// Updates the admin address. Only the administrator in office may name
    /// the next one.
    pub fn set_admin(&mut self, current_admin: &Address, new_admin: Address) -> (r: Result<
        (),
        SharedBudgetError,
    >)
        ensures
            r == old(self).require_admin_verdict(*current_admin),
            r is Err ==> *final(self) == *old(self),
            r is Ok ==> final(self).admin() == Some(new_admin) && final(self).same_books(
                old(self),
            ),
    {
        match self.require_admin(current_admin) {
            Err(e) => Err(e),
            Ok(()) => {
                self.admin = Some(new_admin);
                Ok(())
            },
        }
    }

    /// Returns the total number of batches processed.
    pub fn get_total_batches(&self) -> (n: u64)
        ensures
            n == self.total_batches(),
    {
        self.total_batches
    }

    /// Returns the total number of allocation entries processed.
    pub fn get_total_allocations_processed(&self) -> (n: u64)
        ensures
            n == self.total_allocations_processed(),
    {
        self.total_allocations_processed
    }

    /// Returns the total volume allocated across all batches.
    pub fn get_total_allocated_volume(&self) -> (amount: i128)
        ensures
            amount == self.total_allocated_volume(),
    {
        self.total_allocated_volume
    }

    /// The audit log, oldest event first.
    pub fn event_log(&self) -> (log: &Vec<SharedBudgetEvent>)
        ensures
            log@ == self.events(),
    {
        &self.events
    }
}

} // verus!
