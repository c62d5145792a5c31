//! The refund engine: each transaction is refunded at most once.

use crate::dedup::DedupGuard;
use crate::tally::{lemma_tally_push, saturate, saturating_add, successes, volume};
use crate::transaction_analytics::types::{
    RefundRequest, RefundResult, RefundStatus, Transaction, MAX_BATCH_SIZE,
};
use std::collections::HashMap;
use vstd::prelude::*;

verus! {

/// The standing of the transaction `tx_id` with regard to a refund, by the
/// first rule that applies: a transaction that `lookup` does not know is
/// `NotFound`; one that is marked in `refunded` is `AlreadyRefunded`; one with
/// an even identifier (identifiers of failed transactions are odd) or with a
/// negative amount is `NotEligible`; any other is `Eligible`.
pub open spec fn refund_verdict(
    lookup: Map<u64, Transaction>,
    refunded: Set<u64>,
    tx_id: u64,
) -> RefundStatus {
    if !lookup.contains_key(tx_id) {
        RefundStatus::NotFound
    } else if refunded.contains(tx_id) {
        RefundStatus::AlreadyRefunded
    } else if tx_id % 2 == 0 || lookup[tx_id].amount < 0 {
        RefundStatus::NotEligible
    } else {
        RefundStatus::Eligible
    }
}

/// The marked transactions and the result after one refund was attempted.
pub struct Refund {
    pub refunded: Set<u64>,
    pub result: RefundResult,
}

/// The marked transactions and the results after a list of refunds was
/// attempted.
pub struct RefundRun {
    pub refunded: Set<u64>,
    pub results: Seq<RefundResult>,
}

/// One refund, attempted against the marks as they stand: an eligible
/// transaction is refunded its amount and marked; any other fails with its
/// standing, refunds nothing and marks nothing.
pub open spec fn refund_one(lookup: Map<u64, Transaction>, refunded: Set<u64>, tx_id: u64) -> Refund {
    let status = refund_verdict(lookup, refunded, tx_id);
    if status == RefundStatus::Eligible {
        Refund {
            refunded: refunded.insert(tx_id),
            result: RefundResult {
                tx_id,
                success: true,
                status,
                amount_refunded: lookup[tx_id].amount,
            },
        }
    } else {
        Refund {
            refunded,
            result: RefundResult { tx_id, success: false, status, amount_refunded: 0 },
        }
    }
}

/// The requests of a batch attempted one after the other, in their order,
/// each against the marks that the one before it left.
pub open spec fn refund_all(
    lookup: Map<u64, Transaction>,
    refunded: Set<u64>,
    requests: Seq<RefundRequest>,
) -> RefundRun
    decreases requests.len(),
{
    if requests.len() == 0 {
        RefundRun { refunded, results: Seq::empty() }
    } else {
        let before = refund_all(lookup, refunded, requests.drop_last());
        let step = refund_one(lookup, before.refunded, requests.last().tx_id);
        RefundRun { refunded: step.refunded, results: before.results.push(step.result) }
    }
}

/// Attempts one refund against the guard.
pub(crate) fn refund_item(
    guard: &mut DedupGuard,
    lookup: &HashMap<u64, Transaction>,
    tx_id: u64,
) -> (result: RefundResult)
    ensures
        (Refund { refunded: final(guard)@, result }) == refund_one(lookup@, old(guard)@, tx_id),
{
    let amount = match lookup.get(&tx_id) {
        None => {
            return RefundResult {
                tx_id,
                success: false,
                status: RefundStatus::NotFound,
                amount_refunded: 0,
            };
        },
        Some(tx) => tx.amount,
    };
    if guard.is_marked(tx_id) {
        return RefundResult {
            tx_id,
            success: false,
            status: RefundStatus::AlreadyRefunded,
            amount_refunded: 0,
        };
    }
    if tx_id % 2 == 0 || amount < 0 {
        return RefundResult {
            tx_id,
            success: false,
            status: RefundStatus::NotEligible,
            amount_refunded: 0,
        };
    }
    guard.mark(tx_id);
    RefundResult { tx_id, success: true, status: RefundStatus::Eligible, amount_refunded: amount }
}

/// Attempts the refunds of a batch in order. Returns the results, the number
/// of refunds made, and their amount, capped at the largest amount.
pub(crate) fn refund_each(
    guard: &mut DedupGuard,
    lookup: &HashMap<u64, Transaction>,
    requests: &Vec<RefundRequest>,
) -> (tally: (Vec<RefundResult>, u32, i128))
    requires
        requests.len() <= MAX_BATCH_SIZE,
    ensures
        (RefundRun { refunded: final(guard)@, results: tally.0@ }) == refund_all(
            lookup@,
            old(guard)@,
            requests@,
        ),
        tally.0@.len() == requests@.len(),
        tally.1 == successes(tally.0@),
        tally.2 == saturate(volume(tally.0@)),
        volume(tally.0@) >= 0,
        old(guard)@.subset_of(final(guard)@),
{
    let n = requests.len();
    let mut results: Vec<RefundResult> = Vec::new();
    let mut successful: u32 = 0;
    let mut total: i128 = 0;
    let mut i: usize = 0;
    assert(requests@.take(0) =~= Seq::<RefundRequest>::empty());
    while i < n
        invariant
            n == requests.len(),
            n <= MAX_BATCH_SIZE,
            i <= n,
            results@.len() == i,
            (RefundRun { refunded: guard@, results: results@ }) == refund_all(
                lookup@,
                old(guard)@,
                requests@.take(i as int),
            ),
            successful == successes(results@),
            successful <= i,
            total == saturate(volume(results@)),
            volume(results@) >= 0,
            old(guard)@.subset_of(guard@),
        decreases n - i,
    {
        let ghost before_results = results@;
        let result = refund_item(guard, lookup, requests[i].tx_id);
        proof {
            assert(requests@.take(i + 1).drop_last() =~= requests@.take(i as int));
            assert(requests@.take(i + 1).last() == requests@[i as int]);
            lemma_tally_push(before_results, result);
        }
        if result.success {
            successful = successful + 1;
            total = saturating_add(total, result.amount_refunded);
        }
        results.push(result);
        i = i + 1;
    }
    assert(requests@.take(n as int) =~= requests@);
    (results, successful, total)
}

} // verus!
