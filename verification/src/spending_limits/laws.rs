//! What holds of every batch of limit updates.

use crate::address::Address;
use crate::spending_limits::contract::{limit_batch_refusal, update_all, update_one};
use crate::spending_limits::types::{
    LimitUpdateResult, SpendingLimit, SpendingLimitRequest, MAX_BATCH_SIZE,
};
use crate::tally::{failures, lemma_counts_partition, successes};
use crate::spending_limits::validation::limit_is_valid;
use vstd::prelude::*;

verus! {

/// The user that a result names.
pub open spec fn answered_user(result: LimitUpdateResult) -> Address {
    match result {
        LimitUpdateResult::Success(limit) => limit.user,
        LimitUpdateResult::Failure(user, _) => user,
    }
}

/// Whether every stored limit is within bounds, active, and stored under its
/// own user.
pub open spec fn limits_in_order(limits: Map<u64, SpendingLimit>) -> bool {
    forall|key: u64| #[trigger]
        limits.contains_key(key) ==> limit_is_valid(limits[key].monthly_limit)
            && limits[key].user.id == key
}

/// A batch answers every request, in the order of the requests; a refused
/// request leaves the stored limits as they are; and stored limits that were
/// in order are in order after the batch.
pub proof fn lemma_results_follow_requests(
    limits: Map<u64, SpendingLimit>,
    now: u64,
    requests: Seq<SpendingLimitRequest>,
)
    ensures
        ({
            let run = update_all(limits, now, requests);
            &&& run.results.len() == requests.len()
            &&& forall|i: int|
                0 <= i < requests.len() ==> answered_user(#[trigger] run.results[i])
                    == requests[i].user
            &&& limits_in_order(limits) ==> limits_in_order(run.limits)
        }),
        forall|request: SpendingLimitRequest|
            (#[trigger] update_one(limits, now, request)).result is Failure ==> update_one(
                limits,
                now,
                request,
            ).limits == limits,
    decreases requests.len(),
{
    if requests.len() > 0 {
        lemma_results_follow_requests(limits, now, requests.drop_last());
    }
}

/// Every batch of one to `MAX_BATCH_SIZE` requests from the administrator is
/// taken up while the lifetime counters have room, whatever the requests
/// are, valid or not, all of them or none; and its counts add up: every
/// request is answered, as a success or as a failure.
pub proof fn lemma_admin_batch_is_answered(
    admin: Address,
    last_batch_id: u64,
    total_limits_updated: u64,
    total_batches_processed: u64,
    limits: Map<u64, SpendingLimit>,
    now: u64,
    requests: Seq<SpendingLimitRequest>,
)
    requires
        0 < requests.len() <= MAX_BATCH_SIZE,
        last_batch_id < u64::MAX,
        total_batches_processed < u64::MAX,
        total_limits_updated + requests.len() <= u64::MAX,
    ensures
        limit_batch_refusal(
            Some(admin),
            last_batch_id,
            total_limits_updated,
            total_batches_processed,
            admin,
            requests.len(),
        ) is None,
        ({
            let run = update_all(limits, now, requests);
            &&& run.results.len() == requests.len()
            &&& successes(run.results) + failures(run.results) == requests.len()
        }),
{
    lemma_results_follow_requests(limits, now, requests);
    lemma_counts_partition(update_all(limits, now, requests).results);
}

} // verus!
