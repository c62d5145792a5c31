//! The budget recommendations service: its state and its batch operation.

use crate::address::Address;
use crate::budget_recommendations::recommendations::{
    self, generate_recommendation, generated, metrics_of, recommendation_verdict, results_of,
};
use crate::budget_recommendations::types::{
    BatchRecommendationResult, BudgetRecommendation, RecommendationEvent, RecommendationEvents,
    RecommendationResult, UserProfile, HIGH_CONFIDENCE, MAX_BATCH_SIZE,
};
use crate::budget_recommendations::validation::{profile_verdict, validate_batch};
use crate::host_error::{contract_error, host_error_of};
use std::collections::HashMap;
use vstd::prelude::*;

verus! {

/// Errors that abort a call to the recommendations service as a whole. An
/// aborted call changes nothing.
#[derive(Copy, Clone, Debug, Eq, PartialEq, Structural)]
pub enum BudgetRecommendationError {
    /// Contract not initialized
    NotInitialized,
    /// Caller is not authorized
    Unauthorized,
    /// Invalid batch data
    InvalidBatch,
    /// Batch is empty
    EmptyBatch,
    /// Batch exceeds maximum size
    BatchTooLarge,
    /// Invalid user profile
    InvalidUserProfile,
    /// Contract already initialized
    AlreadyInitialized,
    /// A lifetime counter has no room left for this call
    CounterOverflow,
}

impl BudgetRecommendationError {
    /// The stable numeric code of this error.
    pub open spec fn code_of(self) -> u32 {
        match self {
            BudgetRecommendationError::NotInitialized => 1,
            BudgetRecommendationError::Unauthorized => 2,
            BudgetRecommendationError::InvalidBatch => 3,
            BudgetRecommendationError::EmptyBatch => 4,
            BudgetRecommendationError::BatchTooLarge => 5,
            BudgetRecommendationError::InvalidUserProfile => 6,
            BudgetRecommendationError::AlreadyInitialized => 7,
            BudgetRecommendationError::CounterOverflow => 8,
        }
    }

    /// The stable numeric code of this error.
    pub fn code(&self) -> (code: u32)
        ensures
            code == self.code_of(),
    {
        match self {
            BudgetRecommendationError::NotInitialized => 1,
            BudgetRecommendationError::Unauthorized => 2,
            BudgetRecommendationError::InvalidBatch => 3,
            BudgetRecommendationError::EmptyBatch => 4,
            BudgetRecommendationError::BatchTooLarge => 5,
            BudgetRecommendationError::InvalidUserProfile => 6,
            BudgetRecommendationError::AlreadyInitialized => 7,
            BudgetRecommendationError::CounterOverflow => 8,
        }
    }
}

impl From<BudgetRecommendationError> for soroban_sdk::Error {
    fn from(e: BudgetRecommendationError) -> (error: soroban_sdk::Error) {
        host_error_of(e.code())
    }
}

impl vstd::std_specs::convert::FromSpecImpl<BudgetRecommendationError> for soroban_sdk::Error {
    open spec fn obeys_from_spec() -> bool {
        true
    }

    open spec fn from_spec(e: BudgetRecommendationError) -> soroban_sdk::Error {
        contract_error(e.code_of())
    }
}

/// The audit events of one result: a recommendation is reported, and
/// reported once more as a high-confidence recommendation from
/// `HIGH_CONFIDENCE` on; a failure is reported with its message.
pub open spec fn recommendation_events_of(batch_id: u64, result: RecommendationResult) -> Seq<
    RecommendationEvent,
> {
    match result {
        RecommendationResult::Success(recommendation) => {
            let reported = seq![
                RecommendationEvent::RecommendationGenerated {
                    batch_id,
                    user_id: recommendation.user_id,
                    recommendation,
                },
            ];
            if recommendation.confidence_score >= HIGH_CONFIDENCE {
                reported.push(
                    RecommendationEvent::HighConfidence {
                        batch_id,
                        user_id: recommendation.user_id,
                        confidence_score: recommendation.confidence_score,
                    },
                )
            } else {
                reported
            }
        },
        RecommendationResult::Failure(user_id, error) => seq![
            RecommendationEvent::RecommendationFailed { batch_id, user_id, error },
        ],
    }
}

/// The audit events of the results of a batch, in the order of the results.
pub open spec fn recommendation_events(batch_id: u64, results: Seq<RecommendationResult>) -> Seq<
    RecommendationEvent,
>
    decreases results.len(),
{
    if results.len() == 0 {
        Seq::empty()
    } else {
        recommendation_events(batch_id, results.drop_last()) + recommendation_events_of(
            batch_id,
            results.last(),
        )
    }
}

/// The reason, if any, for which a batch of recommendations aborts as a
/// whole. The rules are tried in this order: the service is initialized; the
/// caller is the administrator; the batch is not empty; it holds at most
/// `MAX_BATCH_SIZE` profiles; every profile is valid; the lifetime counters
/// have room for the batch.
pub open spec fn recommendation_batch_refusal(
    admin: Option<Address>,
    last_batch_id: u64,
    total_users_processed: u64,
    total_recommendations: u64,
    caller: Address,
    profiles: Seq<UserProfile>,
) -> Option<BudgetRecommendationError> {
    if admin is None {
        Some(BudgetRecommendationError::NotInitialized)
    } else if admin != Some(caller) {
        Some(BudgetRecommendationError::Unauthorized)
    } else if profiles.len() == 0 {
        Some(BudgetRecommendationError::EmptyBatch)
    } else if profiles.len() > MAX_BATCH_SIZE {
        Some(BudgetRecommendationError::BatchTooLarge)
    } else if exists|i: int| 0 <= i < profiles.len() && profile_verdict(#[trigger] profiles[i]) is Err {
        Some(BudgetRecommendationError::InvalidBatch)
    } else if last_batch_id == u64::MAX || total_users_processed + profiles.len() > u64::MAX
        || total_recommendations + profiles.len() > u64::MAX {
        Some(BudgetRecommendationError::CounterOverflow)
    } else {
        None
    }
}

/// A copy of a list of results.
fn copy_results(results: &Vec<RecommendationResult>) -> (copy: Vec<RecommendationResult>)
    ensures
        copy@ == results@,
{
    let n = results.len();
    let mut copy: Vec<RecommendationResult> = Vec::new();
    let mut i: usize = 0;
    while i < n
        invariant
            n == results.len(),
            i <= n,
            copy@ == results@.take(i as int),
        decreases n - i,
    {
        copy.push(results[i]);
        i = i + 1;
        assert(copy@ =~= results@.take(i as int));
    }
    assert(results@.take(n as int) =~= results@);
    copy
}

/// Appends the audit events of the results, in their order.
fn log_results(events: &mut Vec<RecommendationEvent>, batch_id: u64, results: &Vec<RecommendationResult>)
    ensures
        final(events)@ == old(events)@ + recommendation_events(batch_id, results@),
{
    let n = results.len();
    let mut i: usize = 0;
    assert(results@.take(0) =~= Seq::<RecommendationResult>::empty());
    assert(events@ =~= old(events)@ + recommendation_events(batch_id, results@.take(0)));
    while i < n
        invariant
            n == results.len(),
            i <= n,
            events@ == old(events)@ + recommendation_events(batch_id, results@.take(i as int)),
        decreases n - i,
    {
        let ghost before_events = events@;
        match &results[i] {
            RecommendationResult::Success(recommendation) => {
                events.push(
                    RecommendationEvents::recommendation_generated(
                        batch_id,
                        recommendation.user_id,
                        recommendation,
                    ),
                );
                if recommendation.confidence_score >= HIGH_CONFIDENCE {
                    events.push(
                        RecommendationEvents::high_confidence_recommendation(
                            batch_id,
                            recommendation.user_id,
                            recommendation.confidence_score,
                        ),
                    );
                }
            },
            RecommendationResult::Failure(user_id, error) => {
                events.push(RecommendationEvents::recommendation_failed(batch_id, *user_id, error));
            },
        }
        proof {
            assert(events@ =~= before_events + recommendation_events_of(
                batch_id,
                results@[i as int],
            ));
            assert(results@.take(i + 1).drop_last() =~= results@.take(i as int));
            assert(results@.take(i + 1).last() == results@[i as int]);
            assert(events@ =~= old(events)@ + recommendation_events(
                batch_id,
                results@.take(i + 1),
            ));
        }
        i = i + 1;
    }
    assert(results@.take(n as int) =~= results@);
}

/// The recommendations service: its administrator, the results of its
/// batches, its lifetime counters and its audit log.
#[derive(Debug)]
pub struct BudgetRecommendationsContract {
    admin: Option<Address>,
    last_batch_id: u64,
    total_users_processed: u64,
    total_recommendations_generated: u64,
    batches: HashMap<u64, Vec<RecommendationResult>>,
    events: Vec<RecommendationEvent>,
}

impl BudgetRecommendationsContract {
    /// The administrator, once the service is initialized.
    pub closed spec fn admin(&self) -> Option<Address> {
        self.admin
    }

    /// The identifier of the last batch.
    pub closed spec fn last_batch_id(&self) -> u64 {
        self.last_batch_id
    }

    /// The number of profiles processed.
    pub closed spec fn total_users_processed(&self) -> u64 {
        self.total_users_processed
    }

    /// The number of recommendations generated.
    pub closed spec fn total_recommendations(&self) -> u64 {
        self.total_recommendations_generated
    }

    /// The results stored for the batch `batch_id`, if there is such a batch.
    pub closed spec fn batch_results(&self, batch_id: u64) -> Option<Seq<RecommendationResult>> {
        if self.batches@.contains_key(batch_id) {
            Some(self.batches@[batch_id]@)
        } else {
            None
        }
    }

    /// The audit log, oldest event first.
    pub closed spec fn events(&self) -> Seq<RecommendationEvent> {
        self.events@
    }

    /// Whether `other` has the stored results, the counters and the audit
    /// log of this service.
    pub open spec fn same_books(&self, other: &BudgetRecommendationsContract) -> bool {
        &&& self.last_batch_id() == other.last_batch_id()
        &&& self.total_users_processed() == other.total_users_processed()
        &&& self.total_recommendations() == other.total_recommendations()
        &&& forall|batch_id: u64| #[trigger]
            self.batch_results(batch_id) == other.batch_results(batch_id)
        &&& self.events() == other.events()
    }

    /// What `require_admin` answers to `caller`.
    pub open spec fn require_admin_verdict(&self, caller: Address) -> Result<
        (),
        BudgetRecommendationError,
    > {
        if self.admin() is None {
            Err(BudgetRecommendationError::NotInitialized)
        } else if self.admin() != Some(caller) {
            Err(BudgetRecommendationError::Unauthorized)
        } else {
            Ok(())
        }
    }

    /// A service that is not yet initialized.
    pub fn new() -> (contract: BudgetRecommendationsContract)
        ensures
            contract.admin() is None,
            contract.last_batch_id() == 0,
            contract.total_users_processed() == 0,
            contract.total_recommendations() == 0,
            forall|batch_id: u64| contract.batch_results(batch_id) is None,
            contract.events() == Seq::<RecommendationEvent>::empty(),
    {
        BudgetRecommendationsContract {
            admin: None,
            last_batch_id: 0,
            total_users_processed: 0,
            total_recommendations_generated: 0,
            batches: HashMap::new(),
            events: Vec::new(),
        }
    }

    /// A service as it was persisted: with its administrator and its
    /// counters, and without stored results and events.
    pub fn restore(
        admin: Option<Address>,
        last_batch_id: u64,
        total_users_processed: u64,
        total_recommendations_generated: u64,
    ) -> (contract: BudgetRecommendationsContract)
        ensures
            contract.admin() == admin,
            contract.last_batch_id() == last_batch_id,
            contract.total_users_processed() == total_users_processed,
            contract.total_recommendations() == total_recommendations_generated,
            forall|batch_id: u64| contract.batch_results(batch_id) is None,
            contract.events() == Seq::<RecommendationEvent>::empty(),
    {
        BudgetRecommendationsContract {
            admin,
            last_batch_id,
            total_users_processed,
            total_recommendations_generated,
            batches: HashMap::new(),
            events: Vec::new(),
        }
    }

    /// Initializes the contract with an admin address. A service is
    /// initialized once.
    pub fn initialize(&mut self, admin: Address) -> (r: Result<(), BudgetRecommendationError>)
        ensures
            old(self).admin() is Some ==> r == Err::<(), BudgetRecommendationError>(
                BudgetRecommendationError::AlreadyInitialized,
            ) && *final(self) == *old(self),
            old(self).admin() is None ==> r is Ok && final(self).admin() == Some(admin) && final(self).same_books(old(self)),
    {
        if self.admin.is_some() {
            return Err(BudgetRecommendationError::AlreadyInitialized);
        }
        self.admin = Some(admin);
        Ok(())
    }

    /// Checks that the service is initialized and that `caller` is its
    /// administrator.
    pub fn require_admin(&self, caller: &Address) -> (r: Result<(), BudgetRecommendationError>)
        ensures
            r == self.require_admin_verdict(*caller),
    {
        match self.admin {
            None => Err(BudgetRecommendationError::NotInitialized),
            Some(admin) => if admin.id == caller.id {
                Ok(())
            } else {
                Err(BudgetRecommendationError::Unauthorized)
            },
        }
    }

    /// Generates batch budget recommendations for multiple users.
    ///
    /// The call aborts as a whole, changing nothing, when
    /// `recommendation_batch_refusal` gives a reason. Otherwise the batch
    /// gets the next batch identifier, every profile gets its result, the
    /// results are stored under the batch identifier, and the lifetime
    /// counters are advanced once. The audit log receives the start of the
    /// batch, the events of every result, and its completion.
    pub fn generate_batch_recommendations(
        &mut self,
        caller: &Address,
        user_profiles: &Vec<UserProfile>,
        current_ledger: u64,
    ) -> (r: Result<BatchRecommendationResult, BudgetRecommendationError>)
        ensures
            match recommendation_batch_refusal(
                old(self).admin(),
                old(self).last_batch_id(),
                old(self).total_users_processed(),
                old(self).total_recommendations(),
                *caller,
                user_profiles@,
            ) {
                Some(e) => r == Err::<BatchRecommendationResult, BudgetRecommendationError>(e)
                    && *final(self) == *old(self),
                None => r matches Ok(batch) && {
                    &&& batch.results@ == results_of(user_profiles@)
                    &&& batch.metrics == metrics_of(batch.results@, current_ledger)
                    &&& batch.batch_id == old(self).last_batch_id() + 1
                    &&& batch.total_users == user_profiles@.len()
                    &&& batch.results@.len() == user_profiles@.len()
                    &&& batch.successful == generated(batch.results@)
                    &&& batch.successful + batch.failed == batch.total_users
                    &&& final(self).admin() == old(self).admin()
                    &&& final(self).last_batch_id() == batch.batch_id
                    &&& final(self).total_users_processed() == old(self).total_users_processed()
                        + batch.total_users
                    &&& final(self).total_recommendations() == old(self).total_recommendations()
                        + batch.successful
                    &&& final(self).batch_results(batch.batch_id) == Some(batch.results@)
                    &&& forall|other: u64|
                        other != batch.batch_id ==> #[trigger] final(self).batch_results(other)
                            == old(self).batch_results(other)
                    &&& final(self).events() == old(self).events().push(
                        RecommendationEvent::BatchStarted {
                            batch_id: batch.batch_id,
                            user_count: batch.total_users,
                        },
                    ) + recommendation_events(batch.batch_id, batch.results@).push(
                        RecommendationEvent::BatchCompleted {
                            batch_id: batch.batch_id,
                            metrics: batch.metrics,
                        },
                    )
                },
            },
    {
        let admin = match self.admin {
            Some(a) => a,
            None => {
                return Err(BudgetRecommendationError::NotInitialized);
            },
        };
        if admin.id != caller.id {
            return Err(BudgetRecommendationError::Unauthorized);
        }
        let n = user_profiles.len();
        if n == 0 {
            return Err(BudgetRecommendationError::EmptyBatch);
        }
        if n > MAX_BATCH_SIZE as usize {
            return Err(BudgetRecommendationError::BatchTooLarge);
        }
        if validate_batch(user_profiles).is_err() {
            return Err(BudgetRecommendationError::InvalidBatch);
        }
        let user_count = n as u32;
        if self.last_batch_id == u64::MAX || self.total_users_processed > u64::MAX
            - user_count as u64 || self.total_recommendations_generated > u64::MAX
            - user_count as u64 {
            return Err(BudgetRecommendationError::CounterOverflow);
        }
        let batch_id = self.last_batch_id + 1;
        let (results, metrics) = recommendations::generate_batch_recommendations(
            user_profiles,
            current_ledger,
        );
        self.events.push(RecommendationEvents::batch_started(batch_id, user_count));
        log_results(&mut self.events, batch_id, &results);
        self.events.push(RecommendationEvents::batch_completed(batch_id, &metrics));
        self.last_batch_id = batch_id;
        self.total_users_processed = self.total_users_processed + user_count as u64;
        self.total_recommendations_generated = self.total_recommendations_generated
            + metrics.successful_recommendations as u64;
        self.batches.insert(batch_id, copy_results(&results));
        proof {
            assert(self.events@ =~= old(self).events().push(
                RecommendationEvent::BatchStarted { batch_id, user_count },
            ) + recommendation_events(batch_id, results@).push(
                RecommendationEvent::BatchCompleted { batch_id, metrics },
            ));
        }
        Ok(
            BatchRecommendationResult {
                batch_id,
                total_users: user_count,
                successful: metrics.successful_recommendations,
                failed: metrics.failed_recommendations,
                results,
                metrics,
            },
        )
    }

    /// Retrieves stored recommendations for a specific batch.
    pub fn get_batch_recommendations(&self, batch_id: u64) -> (found: Option<
        Vec<RecommendationResult>,
    >)
        ensures
            match self.batch_results(batch_id) {
                Some(results) => found matches Some(v) && v@ == results,
                None => found is None,
            },
    {
        match self.batches.get(&batch_id) {
            Some(results) => Some(copy_results(results)),
            None => None,
        }
    }

    /// Generates a recommendation for a single user, storing nothing.
    pub fn simulate_recommendation(&self, user_profile: &UserProfile) -> (r: Option<
        BudgetRecommendation,
    >)
        ensures
            r == (match recommendation_verdict(*user_profile) {
                Ok(recommendation) => Some(recommendation),
                Err(_) => None,
            }),
    {
        match generate_recommendation(user_profile) {
            Ok(rec) => Some(rec),
            Err(_) => None,
        }
    }

    /// Returns the admin address.
    pub fn get_admin(&self) -> (r: Result<Address, BudgetRecommendationError>)
        ensures
            r == (match self.admin() {
                Some(a) => Ok::<Address, BudgetRecommendationError>(a),
                None => Err::<Address, BudgetRecommendationError>(
                    BudgetRecommendationError::NotInitialized,
                ),
            }),
    {
        match self.admin {
            Some(a) => Ok(a),
            None => Err(BudgetRecommendationError::NotInitialized),
        }
    }

    /// Updates the admin address. Only the administrator in office may name
    /// the next one.
    pub fn set_admin(&mut self, current_admin: &Address, new_admin: Address) -> (r: Result<
        (),
        BudgetRecommendationError,
    >)
        ensures
            r == old(self).require_admin_verdict(*current_admin),
            r is Err ==> *final(self) == *old(self),
            r is Ok ==> final(self).admin() == Some(new_admin) && final(self).same_books(
                old(self),
            ),
    {
        match self.require_admin(current_admin) {
            Err(e) => Err(e),
            Ok(()) => {
                self.admin = Some(new_admin);
                Ok(())
            },
        }
    }

    /// Returns the last processed batch ID.
    pub fn get_last_batch_id(&self) -> (id: u64)
        ensures
            id == self.last_batch_id(),
    {
        self.last_batch_id
    }

    /// Returns the total number of users processed.
    pub fn get_total_users_processed(&self) -> (n: u64)
        ensures
            n == self.total_users_processed(),
    {
        self.total_users_processed
    }

    /// Returns the total number of recommendations generated.
    pub fn get_total_recommendations(&self) -> (n: u64)
        ensures
            n == self.total_recommendations(),
    {
        self.total_recommendations_generated
    }

    /// The audit log, oldest event first.
    pub fn event_log(&self) -> (log: &Vec<RecommendationEvent>)
        ensures
            log@ == self.events(),
    {
        &self.events
    }
}

} // verus!
