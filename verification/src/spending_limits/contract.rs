//! The spending limits service: its state and the batch update engine.

use crate::address::Address;
use crate::host_error::{contract_error, host_error_of};
use crate::spending_limits::error_code;
use crate::spending_limits::types::{
    BatchLimitMetrics, BatchLimitResult, LimitEvent, LimitEvents, LimitUpdateResult,
    SpendingLimit, SpendingLimitRequest, HIGH_VALUE_LIMIT, MAX_BATCH_SIZE, MAX_SPENDING_LIMIT,
};
use crate::spending_limits::validation::{limit_is_valid, validate_limit_request};
use crate::tally::{failures, lemma_counts_partition, lemma_tally_push, successes, volume};
use std::collections::HashMap;
use vstd::prelude::*;

verus! {

/// Errors that abort a call to the spending limits service as a whole. An
/// aborted call changes nothing.
#[derive(Copy, Clone, Debug, Eq, PartialEq, Structural)]
pub enum SpendingLimitError {
    /// Contract not initialized
    NotInitialized,
    /// Caller is not authorized
    Unauthorized,
    /// Invalid batch data
    InvalidBatch,
    /// Batch is empty
    EmptyBatch,
    /// Batch exceeds maximum size
    BatchTooLarge,
    /// Contract already initialized
    AlreadyInitialized,
    /// A lifetime counter has no room left for this call
    CounterOverflow,
}

impl SpendingLimitError {
    /// The stable numeric code of this error.
    pub open spec fn code_of(self) -> u32 {
        match self {
            SpendingLimitError::NotInitialized => 1,
            SpendingLimitError::Unauthorized => 2,
            SpendingLimitError::InvalidBatch => 3,
            SpendingLimitError::EmptyBatch => 4,
            SpendingLimitError::BatchTooLarge => 5,
            SpendingLimitError::AlreadyInitialized => 6,
            SpendingLimitError::CounterOverflow => 7,
        }
    }

    /// The stable numeric code of this error.
    pub fn code(&self) -> (code: u32)
        ensures
            code == self.code_of(),
    {
        match self {
            SpendingLimitError::NotInitialized => 1,
            SpendingLimitError::Unauthorized => 2,
            SpendingLimitError::InvalidBatch => 3,
            SpendingLimitError::EmptyBatch => 4,
            SpendingLimitError::BatchTooLarge => 5,
            SpendingLimitError::AlreadyInitialized => 6,
            SpendingLimitError::CounterOverflow => 7,
        }
    }
}

impl From<SpendingLimitError> for soroban_sdk::Error {
    fn from(e: SpendingLimitError) -> (error: soroban_sdk::Error) {
        host_error_of(e.code())
    }
}

impl vstd::std_specs::convert::FromSpecImpl<SpendingLimitError> for soroban_sdk::Error {
    open spec fn obeys_from_spec() -> bool {
        true
    }

    open spec fn from_spec(e: SpendingLimitError) -> soroban_sdk::Error {
        contract_error(e.code_of())
    }
}

/// The limit that an accepted request stores at the ledger sequence `now`:
/// active, with nothing spent yet.
pub open spec fn limit_of(request: SpendingLimitRequest, now: u64) -> SpendingLimit {
    SpendingLimit {
        user: request.user,
        monthly_limit: request.monthly_limit,
        current_spending: 0,
        category: request.category,
        updated_at: now,
        is_active: true,
    }
}

/// The stored limits and the result after one update was attempted.
pub struct LimitUpdate {
    pub limits: Map<u64, SpendingLimit>,
    pub result: LimitUpdateResult,
}

/// The stored limits and the results after a list of updates was attempted.
pub struct LimitUpdateRun {
    pub limits: Map<u64, SpendingLimit>,
    pub results: Seq<LimitUpdateResult>,
}

/// One update: a request whose limit is out of bounds fails with
/// `INVALID_LIMIT` and changes nothing; any other replaces whatever limit the
/// user had.
pub open spec fn update_one(
    limits: Map<u64, SpendingLimit>,
    now: u64,
    request: SpendingLimitRequest,
) -> LimitUpdate {
    if limit_is_valid(request.monthly_limit) {
        LimitUpdate {
            limits: limits.insert(request.user.id, limit_of(request, now)),
            result: LimitUpdateResult::Success(limit_of(request, now)),
        }
    } else {
        LimitUpdate {
            limits,
            result: LimitUpdateResult::Failure(request.user, error_code::INVALID_LIMIT),
        }
    }
}

/// The requests of a batch attempted one after the other, in their order.
pub open spec fn update_all(
    limits: Map<u64, SpendingLimit>,
    now: u64,
    requests: Seq<SpendingLimitRequest>,
) -> LimitUpdateRun
    decreases requests.len(),
{
    if requests.len() == 0 {
        LimitUpdateRun { limits, results: Seq::empty() }
    } else {
        let before = update_all(limits, now, requests.drop_last());
        let step = update_one(before.limits, now, requests.last());
        LimitUpdateRun { limits: step.limits, results: before.results.push(step.result) }
    }
}

/// The audit events of one result: a stored limit is reported, and reported
/// once more as a high-value limit from `HIGH_VALUE_LIMIT` on; a refused
/// update is reported with its code.
pub open spec fn limit_events_of(batch_id: u64, result: LimitUpdateResult) -> Seq<LimitEvent> {
    match result {
        LimitUpdateResult::Success(limit) => {
            let updated = seq![
                LimitEvent::LimitUpdated {
                    batch_id,
                    user: limit.user,
                    monthly_limit: limit.monthly_limit,
                },
            ];
            if limit.monthly_limit >= HIGH_VALUE_LIMIT {
                updated.push(
                    LimitEvent::HighValueLimit {
                        batch_id,
                        user: limit.user,
                        amount: limit.monthly_limit,
                    },
                )
            } else {
                updated
            }
        },
        LimitUpdateResult::Failure(user, error_code) => seq![
            LimitEvent::LimitUpdateFailed { batch_id, user, error_code },
        ],
    }
}

/// The audit events of the results of a batch, in the order of the results.
pub open spec fn limit_events(batch_id: u64, results: Seq<LimitUpdateResult>) -> Seq<LimitEvent>
    decreases results.len(),
{
    if results.len() == 0 {
        Seq::empty()
    } else {
        limit_events(batch_id, results.drop_last()) + limit_events_of(batch_id, results.last())
    }
}

/// The metrics of a batch with the given results, processed at the ledger
/// sequence `processed_at`: the numbers of requests, of limits stored and of
/// updates refused; the sum of the limits stored; and that sum divided by
/// their number, or zero where none was stored.
pub open spec fn limit_metrics_of(results: Seq<LimitUpdateResult>, processed_at: u64) -> BatchLimitMetrics {
    BatchLimitMetrics {
        total_requests: results.len() as u32,
        successful_updates: successes(results) as u32,
        failed_updates: failures(results) as u32,
        total_limits_value: volume(results) as i128,
        avg_limit_amount: if successes(results) > 0 {
            (volume(results) / successes(results) as int) as i128
        } else {
            0
        },
        processed_at,
    }
}

/// The reason, if any, for which a batch of limit updates aborts as a whole.
/// The rules are tried in this order: the service is initialized; the caller
/// is the administrator; the batch is not empty; it holds at most
/// `MAX_BATCH_SIZE` requests; the lifetime counters have room for it.
pub open spec fn limit_batch_refusal(
    admin: Option<Address>,
    last_batch_id: u64,
    total_limits_updated: u64,
    total_batches_processed: u64,
    caller: Address,
    request_count: nat,
) -> Option<SpendingLimitError> {
    if admin is None {
        Some(SpendingLimitError::NotInitialized)
    } else if admin != Some(caller) {
        Some(SpendingLimitError::Unauthorized)
    } else if request_count == 0 {
        Some(SpendingLimitError::EmptyBatch)
    } else if request_count > MAX_BATCH_SIZE {
        Some(SpendingLimitError::BatchTooLarge)
    } else if last_batch_id == u64::MAX || total_batches_processed == u64::MAX
        || total_limits_updated + request_count > u64::MAX {
        Some(SpendingLimitError::CounterOverflow)
    } else {
        None
    }
}

/// A copy of an optional category.
fn copy_category(category: &Option<String>) -> (copy: Option<String>)
    ensures
        copy == *category,
{
    match category {
        Some(c) => Some(c.clone()),
        None => None,
    }
}

/// A copy of a stored limit.
fn copy_limit(limit: &SpendingLimit) -> (copy: SpendingLimit)
    ensures
        copy == *limit,
{
    SpendingLimit {
        user: limit.user,
        monthly_limit: limit.monthly_limit,
        current_spending: limit.current_spending,
        category: copy_category(&limit.category),
        updated_at: limit.updated_at,
        is_active: limit.is_active,
    }
}

/// Attempts one update on the stored limits.
fn update_item(
    limits: &mut HashMap<u64, SpendingLimit>,
    now: u64,
    request: &SpendingLimitRequest,
) -> (result: LimitUpdateResult)
    ensures
        (LimitUpdate { limits: final(limits)@, result }) == update_one(
            old(limits)@,
            now,
            *request,
        ),
{
    match validate_limit_request(request) {
        Ok(()) => {
            let limit = SpendingLimit {
                user: request.user,
                monthly_limit: request.monthly_limit,
                current_spending: 0,
                category: copy_category(&request.category),
                updated_at: now,
                is_active: true,
            };
            limits.insert(request.user.id, copy_limit(&limit));
            LimitUpdateResult::Success(limit)
        },
        Err(code) => LimitUpdateResult::Failure(request.user, code),
    }
}

/// Attempts the updates of a batch in order, appending the audit events of
/// every request.
fn update_each(
    limits: &mut HashMap<u64, SpendingLimit>,
    events: &mut Vec<LimitEvent>,
    now: u64,
    batch_id: u64,
    requests: &Vec<SpendingLimitRequest>,
) -> (tally: (Vec<LimitUpdateResult>, u32, i128))
    requires
        requests.len() <= MAX_BATCH_SIZE,
    ensures
        (LimitUpdateRun { limits: final(limits)@, results: tally.0@ }) == update_all(
            old(limits)@,
            now,
            requests@,
        ),
        tally.0@.len() == requests@.len(),
        tally.1 == successes(tally.0@),
        tally.2 == volume(tally.0@),
        0 <= volume(tally.0@) <= requests@.len() * MAX_SPENDING_LIMIT,
        final(events)@ == old(events)@ + limit_events(batch_id, tally.0@),
{
    let n = requests.len();
    let mut results: Vec<LimitUpdateResult> = Vec::new();
    let mut successful: u32 = 0;
    let mut total: i128 = 0;
    let mut i: usize = 0;
    assert(requests@.take(0) =~= Seq::<SpendingLimitRequest>::empty());
    assert(events@ =~= old(events)@ + limit_events(batch_id, results@));
    while i < n
        invariant
            n == requests.len(),
            n <= MAX_BATCH_SIZE,
            i <= n,
            results@.len() == i,
            (LimitUpdateRun { limits: limits@, results: results@ }) == update_all(
                old(limits)@,
                now,
                requests@.take(i as int),
            ),
            successful == successes(results@),
            successful <= i,
            total == volume(results@),
            0 <= total <= i * MAX_SPENDING_LIMIT,
            events@ == old(events)@ + limit_events(batch_id, results@),
        decreases n - i,
    {
        let ghost before_results = results@;
        let ghost before_events = events@;
        let result = update_item(limits, now, &requests[i]);
        proof {
            assert(requests@.take(i + 1).drop_last() =~= requests@.take(i as int));
            assert(requests@.take(i + 1).last() == requests@[i as int]);
            lemma_tally_push(before_results, result);
        }
        match &result {
            LimitUpdateResult::Success(limit) => {
                successful = successful + 1;
                total = total + limit.monthly_limit;
                events.push(LimitEvents::limit_updated(batch_id, limit));
                if limit.monthly_limit >= HIGH_VALUE_LIMIT {
                    events.push(
                        LimitEvents::high_value_limit(batch_id, &limit.user, limit.monthly_limit),
                    );
                }
            },
            LimitUpdateResult::Failure(user, code) => {
                events.push(LimitEvents::limit_update_failed(batch_id, user, *code));
            },
        }
        proof {
            assert(events@ =~= before_events + limit_events_of(batch_id, result));
            assert(before_results.push(result).drop_last() =~= before_results);
            assert(limit_events(batch_id, before_results.push(result)) =~= limit_events(
                batch_id,
                before_results,
            ) + limit_events_of(batch_id, result));
        }
        results.push(result);
        i = i + 1;
        proof {
            assert(events@ =~= old(events)@ + limit_events(batch_id, results@));
        }
    }
    assert(requests@.take(n as int) =~= requests@);
    (results, successful, total)
}

/// The spending limits service: its administrator, the stored limits, its
/// lifetime counters and its audit log.
#[derive(Debug)]
pub struct SpendingLimitsContract {
    admin: Option<Address>,
    last_batch_id: u64,
    total_limits_updated: u64,
    total_batches_processed: u64,
    limits: HashMap<u64, SpendingLimit>,
    events: Vec<LimitEvent>,
}

impl SpendingLimitsContract {
    /// The administrator, once the service is initialized.
    pub closed spec fn admin(&self) -> Option<Address> {
        self.admin
    }

    /// The identifier of the last batch.
    pub closed spec fn last_batch_id(&self) -> u64 {
        self.last_batch_id
    }

    /// The number of limits stored by batches.
    pub closed spec fn total_limits_updated(&self) -> u64 {
        self.total_limits_updated
    }

    /// The number of batches processed.
    pub closed spec fn total_batches_processed(&self) -> u64 {
        self.total_batches_processed
    }

    /// The stored limits by the identifier of the user's address.
    pub closed spec fn limits(&self) -> Map<u64, SpendingLimit> {
        self.limits@
    }

    /// The audit log, oldest event first.
    pub closed spec fn events(&self) -> Seq<LimitEvent> {
        self.events@
    }

    /// Whether `other` has the stored limits, the counters and the audit log
    /// of this service.
    pub open spec fn same_books(&self, other: &SpendingLimitsContract) -> bool {
        &&& self.last_batch_id() == other.last_batch_id()
        &&& self.total_limits_updated() == other.total_limits_updated()
        &&& self.total_batches_processed() == other.total_batches_processed()
        &&& self.limits() == other.limits()
        &&& self.events() == other.events()
    }

    /// What `require_admin` answers to `caller`.
    pub open spec fn require_admin_verdict(&self, caller: Address) -> Result<
        (),
        SpendingLimitError,
    > {
        if self.admin() is None {
            Err(SpendingLimitError::NotInitialized)
        } else if self.admin() != Some(caller) {
            Err(SpendingLimitError::Unauthorized)
        } else {
            Ok(())
        }
    }

    /// A service that is not yet initialized.
    pub fn new() -> (contract: SpendingLimitsContract)
        ensures
            contract.admin() is None,
            contract.last_batch_id() == 0,
            contract.total_limits_updated() == 0,
            contract.total_batches_processed() == 0,
            contract.limits() == Map::<u64, SpendingLimit>::empty(),
            contract.events() == Seq::<LimitEvent>::empty(),
    {
        SpendingLimitsContract {
            admin: None,
            last_batch_id: 0,
            total_limits_updated: 0,
            total_batches_processed: 0,
            limits: HashMap::new(),
            events: Vec::new(),
        }
    }

    /// A service as it was persisted: with its administrator and its
    /// counters, and without limits and events; `load_limit` brings the
    /// limits back one by one.
    pub fn restore(
        admin: Option<Address>,
        last_batch_id: u64,
        total_limits_updated: u64,
        total_batches_processed: u64,
    ) -> (contract: SpendingLimitsContract)
        ensures
            contract.admin() == admin,
            contract.last_batch_id() == last_batch_id,
            contract.total_limits_updated() == total_limits_updated,
            contract.total_batches_processed() == total_batches_processed,
            contract.limits() == Map::<u64, SpendingLimit>::empty(),
            contract.events() == Seq::<LimitEvent>::empty(),
    {
        SpendingLimitsContract {
            admin,
            last_batch_id,
            total_limits_updated,
            total_batches_processed,
            limits: HashMap::new(),
            events: Vec::new(),
        }
    }

    /// Brings back one persisted limit, as the limit of its user.
    pub fn load_limit(&mut self, limit: SpendingLimit)
        ensures
            final(self).limits() == old(self).limits().insert(limit.user.id, limit),
            final(self).admin() == old(self).admin(),
            final(self).last_batch_id() == old(self).last_batch_id(),
            final(self).total_limits_updated() == old(self).total_limits_updated(),
            final(self).total_batches_processed() == old(self).total_batches_processed(),
            final(self).events() == old(self).events(),
    {
        self.limits.insert(limit.user.id, limit);
    }

    /// Initializes the contract with an admin address. A service is
    /// initialized once.
    pub fn initialize(&mut self, admin: Address) -> (r: Result<(), SpendingLimitError>)
        ensures
            old(self).admin() is Some ==> r == Err::<(), SpendingLimitError>(
                SpendingLimitError::AlreadyInitialized,
            ) && *final(self) == *old(self),
            old(self).admin() is None ==> r is Ok && final(self).admin() == Some(admin) && final(self).same_books(old(self)),
    {
        if self.admin.is_some() {
            return Err(SpendingLimitError::AlreadyInitialized);
        }
        self.admin = Some(admin);
        Ok(())
    }

    /// Checks that the service is initialized and that `caller` is its
    /// administrator.
    pub fn require_admin(&self, caller: &Address) -> (r: Result<(), SpendingLimitError>)
        ensures
            r == self.require_admin_verdict(*caller),
    {
        match self.admin {
            None => Err(SpendingLimitError::NotInitialized),
            Some(admin) => if admin.id == caller.id {
                Ok(())
            } else {
                Err(SpendingLimitError::Unauthorized)
            },
        }
    }

    /// Updates monthly spending limits for multiple users in a batch.
    ///
    /// The call aborts as a whole, changing nothing, when
    /// `limit_batch_refusal` gives a reason. Otherwise the batch gets the
    /// next batch identifier and every request is attempted in its order; a
    /// request that fails leaves the others untouched, and of two accepted
    /// requests for one user the later one stands. The lifetime counters are
    /// then advanced once. The audit log receives the start of the batch,
    /// the events of every request, and its completion.
    pub fn batch_update_spending_limits(
        &mut self,
        caller: &Address,
        requests: &Vec<SpendingLimitRequest>,
        current_ledger: u64,
    ) -> (r: Result<BatchLimitResult, SpendingLimitError>)
        ensures
            match limit_batch_refusal(
                old(self).admin(),
                old(self).last_batch_id(),
                old(self).total_limits_updated(),
                old(self).total_batches_processed(),
                *caller,
                requests@.len(),
            ) {
                Some(e) => r == Err::<BatchLimitResult, SpendingLimitError>(e) && *final(self)
                    == *old(self),
                None => r matches Ok(batch) && {
                    let run = update_all(old(self).limits(), current_ledger, requests@);
                    &&& final(self).limits() == run.limits
                    &&& batch.results@ == run.results
                    &&& batch.batch_id == old(self).last_batch_id() + 1
                    &&& batch.total_requests == requests@.len()
                    &&& batch.results@.len() == requests@.len()
                    &&& batch.successful == successes(batch.results@)
                    &&& batch.failed == failures(batch.results@)
                    &&& batch.successful + batch.failed == batch.total_requests
                    &&& batch.metrics == limit_metrics_of(batch.results@, current_ledger)
                    &&& final(self).admin() == old(self).admin()
                    &&& final(self).last_batch_id() == batch.batch_id
                    &&& final(self).total_batches_processed() == old(self).total_batches_processed() + 1
                    &&& final(self).total_limits_updated() == old(self).total_limits_updated()
                        + batch.successful
                    &&& final(self).events() == old(self).events().push(
                        LimitEvent::BatchStarted {
                            batch_id: batch.batch_id,
                            request_count: batch.total_requests,
                        },
                    ) + limit_events(batch.batch_id, batch.results@).push(
                        LimitEvent::BatchCompleted {
                            batch_id: batch.batch_id,
                            successful: batch.successful,
                            failed: batch.failed,
                            total_limits: batch.metrics.total_limits_value,
                        },
                    )
                },
            },
    {
        let admin = match self.admin {
            Some(a) => a,
            None => {
                return Err(SpendingLimitError::NotInitialized);
            },
        };
        if admin.id != caller.id {
            return Err(SpendingLimitError::Unauthorized);
        }
        let n = requests.len();
        if n == 0 {
            return Err(SpendingLimitError::EmptyBatch);
        }
        if n > MAX_BATCH_SIZE as usize {
            return Err(SpendingLimitError::BatchTooLarge);
        }
        let request_count = n as u32;
        if self.last_batch_id == u64::MAX || self.total_batches_processed == u64::MAX
            || self.total_limits_updated > u64::MAX - request_count as u64 {
            return Err(SpendingLimitError::CounterOverflow);
        }
        let batch_id = self.last_batch_id + 1;
        self.events.push(LimitEvents::batch_started(batch_id, request_count));
        let (results, successful, total_limits_value) = update_each(
            &mut self.limits,
            &mut self.events,
            current_ledger,
            batch_id,
            requests,
        );
        proof {
            lemma_counts_partition(results@);
        }
        let failed = request_count - successful;
        let avg_limit_amount = if successful > 0 {
            total_limits_value / (successful as i128)
        } else {
            0
        };
        let metrics = BatchLimitMetrics {
            total_requests: request_count,
            successful_updates: successful,
            failed_updates: failed,
            total_limits_value,
            avg_limit_amount,
            processed_at: current_ledger,
        };
        self.last_batch_id = batch_id;
        self.total_limits_updated = self.total_limits_updated + successful as u64;
        self.total_batches_processed = self.total_batches_processed + 1;
        self.events.push(
            LimitEvents::batch_completed(batch_id, successful, failed, total_limits_value),
        );
        proof {
            assert(self.events@ =~= old(self).events().push(
                LimitEvent::BatchStarted { batch_id, request_count },
            ) + limit_events(batch_id, results@).push(
                LimitEvent::BatchCompleted {
                    batch_id,
                    successful,
                    failed,
                    total_limits: total_limits_value,
                },
            ));
        }
        Ok(
            BatchLimitResult {
                batch_id,
                total_requests: request_count,
                successful,
                failed,
                results,
                metrics,
            },
        )
    }

    /// Retrieves a user's spending limit.
    pub fn get_spending_limit(&self, user: &Address) -> (found: Option<SpendingLimit>)
        ensures
            found == (if self.limits().contains_key(user.id) {
                Some(self.limits()[user.id])
            } else {
                None
            }),
    {
        match self.limits.get(&user.id) {
            Some(limit) => Some(copy_limit(limit)),
            None => None,
        }
    }

    /// Returns the admin address.
    pub fn get_admin(&self) -> (r: Result<Address, SpendingLimitError>)
        ensures
            r == (match self.admin() {
                Some(a) => Ok::<Address, SpendingLimitError>(a),
                None => Err::<Address, SpendingLimitError>(SpendingLimitError::NotInitialized),
            }),
    {
        match self.admin {
            Some(a) => Ok(a),
            None => Err(SpendingLimitError::NotInitialized),
        }
    }

    /// Updates the admin address. Only the administrator in office may name
    /// the next one.
    pub fn set_admin(&mut self, current_admin: &Address, new_admin: Address) -> (r: Result<
        (),
        SpendingLimitError,
    >)
        ensures
            r == old(self).require_admin_verdict(*current_admin),
            r is Err ==> *final(self) == *old(self),
            r is Ok ==> final(self).admin() == Some(new_admin) && final(self).same_books(
                old(self),
            ),
    {
        match self.require_admin(current_admin) {
            Err(e) => Err(e),
            Ok(()) => {
                self.admin = Some(new_admin);
                Ok(())
            },
        }
    }

    /// Returns the last created batch ID.
    pub fn get_last_batch_id(&self) -> (id: u64)
        ensures
            id == self.last_batch_id(),
    {
        self.last_batch_id
    }

    /// Returns the total number of limits updated.
    pub fn get_total_limits_updated(&self) -> (n: u64)
        ensures
            n == self.total_limits_updated(),
    {
        self.total_limits_updated
    }

    /// Returns the total number of batches processed.
    pub fn get_total_batches_processed(&self) -> (n: u64)
        ensures
            n == self.total_batches_processed(),
    {
        self.total_batches_processed
    }

    /// The audit log, oldest event first.
    pub fn event_log(&self) -> (log: &Vec<LimitEvent>)
        ensures
            log@ == self.events(),
    {
        &self.events
    }
}

} // verus!
