//! What holds of every batch of refunds.

use crate::address::Address;
use crate::tally::{failures, lemma_counts_partition, lemma_tally_push, successes, volume};
use crate::transaction_analytics::contract::refund_batch_refusal;
use crate::transaction_analytics::refund::{refund_all, refund_one, Refund};
use crate::transaction_analytics::types::{
    RefundRequest, RefundResult, RefundStatus, Transaction, MAX_BATCH_SIZE,
};
use vstd::prelude::*;

verus! {

/// A refund that was made cannot be repeated: the transaction is marked, a
/// second attempt fails with `AlreadyRefunded`, refunds nothing and leaves the
/// marks as they are.
pub proof fn lemma_refund_happens_once(
    lookup: Map<u64, Transaction>,
    refunded: Set<u64>,
    tx_id: u64,
    later_lookup: Map<u64, Transaction>,
)
    requires
        refund_one(lookup, refunded, tx_id).result.success,
        later_lookup.contains_key(tx_id),
    ensures
        ({
            let first = refund_one(lookup, refunded, tx_id);
            &&& first.refunded.contains(tx_id)
            &&& refund_one(later_lookup, first.refunded, tx_id) == (Refund {
                refunded: first.refunded,
                result: RefundResult {
                    tx_id,
                    success: false,
                    status: RefundStatus::AlreadyRefunded,
                    amount_refunded: 0,
                },
            })
        }),
{
}

/// A refund is made exactly when the result says so: a successful result
/// carries the transaction's amount and marks the transaction; a failed one
/// carries nothing and marks nothing.
pub proof fn lemma_result_tells_the_refund(
    lookup: Map<u64, Transaction>,
    refunded: Set<u64>,
    tx_id: u64,
)
    ensures
        ({
            let step = refund_one(lookup, refunded, tx_id);
            &&& step.result.tx_id == tx_id
            &&& step.result.success <==> step.result.status == RefundStatus::Eligible
            &&& step.result.success ==> step.refunded == refunded.insert(tx_id)
                && !refunded.contains(tx_id) && step.result.amount_refunded
                == lookup[tx_id].amount && step.result.amount_refunded >= 0
            &&& !step.result.success ==> step.refunded == refunded
                && step.result.amount_refunded == 0
        }),
{
}

/// A batch answers every request, in the order of the requests, and a mark
/// once set is never removed.
pub proof fn lemma_results_follow_requests(
    lookup: Map<u64, Transaction>,
    refunded: Set<u64>,
    requests: Seq<RefundRequest>,
)
    ensures
        ({
            let run = refund_all(lookup, refunded, requests);
            &&& run.results.len() == requests.len()
            &&& forall|i: int|
                0 <= i < requests.len() ==> (#[trigger] run.results[i]).tx_id
                    == requests[i].tx_id
            &&& refunded.subset_of(run.refunded)
            &&& volume(run.results) >= 0
        }),
    decreases requests.len(),
{
    if requests.len() > 0 {
        lemma_results_follow_requests(lookup, refunded, requests.drop_last());
        let before = refund_all(lookup, refunded, requests.drop_last());
        lemma_tally_push(
            before.results,
            refund_one(lookup, before.refunded, requests.last().tx_id).result,
        );
    }
}

/// The result of the request at `index` is that of one refund attempted on
/// the marks that the requests before it left.
pub proof fn lemma_result_at(
    lookup: Map<u64, Transaction>,
    refunded: Set<u64>,
    requests: Seq<RefundRequest>,
    index: int,
)
    requires
        0 <= index < requests.len(),
    ensures
        ({
            let before = refund_all(lookup, refunded, requests.take(index));
            let after = refund_all(lookup, refunded, requests.take(index + 1));
            let step = refund_one(lookup, before.refunded, requests[index].tx_id);
            &&& refund_all(lookup, refunded, requests).results[index] == step.result
            &&& after.refunded == step.refunded
        }),
    decreases requests.len(),
{
    assert(requests.take(index + 1).drop_last() =~= requests.take(index));
    lemma_results_follow_requests(lookup, refunded, requests.drop_last());
    if index == requests.len() - 1 {
        assert(requests.take(index) =~= requests.drop_last());
    } else {
        lemma_result_at(lookup, refunded, requests.drop_last(), index);
        assert(requests.drop_last().take(index) =~= requests.take(index));
        assert(requests.drop_last().take(index + 1) =~= requests.take(index + 1));
    }
}

/// Once the request at `first` has been refunded, its transaction is marked
/// after every longer prefix of the batch.
proof fn lemma_mark_persists(
    lookup: Map<u64, Transaction>,
    refunded: Set<u64>,
    requests: Seq<RefundRequest>,
    first: int,
    upto: int,
)
    requires
        0 <= first < upto <= requests.len(),
        refund_all(lookup, refunded, requests).results[first].success,
    ensures
        refund_all(lookup, refunded, requests.take(upto)).refunded.contains(
            requests[first].tx_id,
        ),
    decreases upto,
{
    if upto == first + 1 {
        lemma_result_at(lookup, refunded, requests, first);
    } else {
        lemma_mark_persists(lookup, refunded, requests, first, upto - 1);
        lemma_result_at(lookup, refunded, requests, upto - 1);
    }
}

/// A transaction listed twice in one batch is refunded at most once: if the
/// earlier request was refunded, the later one fails with `AlreadyRefunded`
/// and refunds nothing.
pub proof fn lemma_listed_twice_refunded_once(
    lookup: Map<u64, Transaction>,
    refunded: Set<u64>,
    requests: Seq<RefundRequest>,
    first: int,
    second: int,
)
    requires
        0 <= first < second < requests.len(),
        requests[first].tx_id == requests[second].tx_id,
        refund_all(lookup, refunded, requests).results[first].success,
    ensures
        refund_all(lookup, refunded, requests).results[second] == (RefundResult {
            tx_id: requests[second].tx_id,
            success: false,
            status: RefundStatus::AlreadyRefunded,
            amount_refunded: 0,
        }),
{
    lemma_mark_persists(lookup, refunded, requests, first, second);
    lemma_result_at(lookup, refunded, requests, second);
    lemma_result_at(lookup, refunded, requests, first);
}

/// A transaction that is marked when a batch starts is not refunded by it:
/// every request that names it fails, with `AlreadyRefunded` where the lookup
/// knows the transaction and with `NotFound` where it does not.
pub proof fn lemma_marked_is_refused(
    lookup: Map<u64, Transaction>,
    refunded: Set<u64>,
    requests: Seq<RefundRequest>,
    index: int,
)
    requires
        0 <= index < requests.len(),
        refunded.contains(requests[index].tx_id),
    ensures
        ({
            let result = refund_all(lookup, refunded, requests).results[index];
            &&& !result.success
            &&& result.amount_refunded == 0
            &&& result.status == if lookup.contains_key(requests[index].tx_id) {
                RefundStatus::AlreadyRefunded
            } else {
                RefundStatus::NotFound
            }
        }),
{
    lemma_results_follow_requests(lookup, refunded, requests.take(index));
    lemma_result_at(lookup, refunded, requests, index);
}

/// Every batch of one to `MAX_BATCH_SIZE` refund requests from the
/// administrator is taken up while the counter of batches has room, whatever
/// is known and whatever is marked; and its counts add up: every request is
/// answered, as a refund or as a failure.
pub proof fn lemma_admin_batch_is_answered(
    admin: Address,
    last_refund_batch_id: u64,
    lookup: Map<u64, Transaction>,
    refunded: Set<u64>,
    requests: Seq<RefundRequest>,
)
    requires
        0 < requests.len() <= MAX_BATCH_SIZE,
        last_refund_batch_id < u64::MAX,
    ensures
        refund_batch_refusal(Some(admin), last_refund_batch_id, admin, requests.len()) is None,
        ({
            let run = refund_all(lookup, refunded, requests);
            &&& run.results.len() == requests.len()
            &&& successes(run.results) + failures(run.results) == requests.len()
        }),
{
    lemma_results_follow_requests(lookup, refunded, requests);
    lemma_counts_partition(refund_all(lookup, refunded, requests).results);
}

} // verus!
