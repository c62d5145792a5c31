//! What holds of every batch of allocations.

use crate::address::Address;
use crate::shared_budgets::contract::{allocate_all, allocation_refusal};
use crate::shared_budgets::types::{AllocationRequest, MAX_BATCH_SIZE};
use crate::tally::{failures, lemma_counts_partition, successes};
use vstd::prelude::*;

verus! {

/// Every batch of one to `MAX_BATCH_SIZE` requests from the administrator is
/// taken up while the lifetime counters have room, whatever the requests
/// are; and its counts add up: every request is answered, as a success or as
/// a failure.
pub proof fn lemma_admin_batch_is_answered(
    admin: Address,
    total_batches: u64,
    total_processed: u64,
    requests: Seq<AllocationRequest>,
)
    requires
        0 < requests.len() <= MAX_BATCH_SIZE,
        total_batches < u64::MAX,
        total_processed + requests.len() <= u64::MAX,
    ensures
        allocation_refusal(Some(admin), total_batches, total_processed, admin, requests.len())
            is None,
        allocate_all(requests).len() == requests.len(),
        successes(allocate_all(requests)) + failures(allocate_all(requests)) == requests.len(),
{
    lemma_counts_partition(allocate_all(requests));
}

} // verus!
