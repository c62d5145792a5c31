//! What holds of every batch of balance updates.

use crate::address::Address;
use crate::multi_currency_wallet::book::{lemma_position, position, stored};
use crate::multi_currency_wallet::contract::{balance_batch_refusal, update_all, update_one};
use crate::multi_currency_wallet::types::{
    BalanceUpdateRequest, BalanceUpdateResult, CurrencyBalance, MAX_BATCH_SIZE,
};
use crate::tally::{failures, lemma_counts_partition, successes};
use vstd::prelude::*;

verus! {

/// The user that a result names.
pub open spec fn answered_user(result: BalanceUpdateResult) -> Address {
    match result {
        BalanceUpdateResult::Success(entry) => entry.user,
        BalanceUpdateResult::Failure(user, _, _) => user,
    }
}

/// The currency that a result names.
pub open spec fn answered_currency(result: BalanceUpdateResult) -> Seq<char> {
    match result {
        BalanceUpdateResult::Success(entry) => entry.currency@,
        BalanceUpdateResult::Failure(_, currency, _) => currency@,
    }
}

/// Whether no balance of the book is negative.
pub open spec fn no_negative_balance(entries: Seq<CurrencyBalance>) -> bool {
    forall|i: int| 0 <= i < entries.len() ==> (#[trigger] entries[i]).balance >= 0
}

/// Storing a balance that is not negative keeps the book free of negative
/// balances.
proof fn lemma_stored_keeps_order(entries: Seq<CurrencyBalance>, balance: CurrencyBalance)
    requires
        no_negative_balance(entries),
        balance.balance >= 0,
    ensures
        no_negative_balance(stored(entries, balance)),
{
    lemma_position(entries, balance.user, balance.currency@);
    let after = stored(entries, balance);
    assert forall|i: int| 0 <= i < after.len() implies (#[trigger] after[i]).balance >= 0 by {
        match position(entries, balance.user, balance.currency@) {
            Some(k) => {
                if i != k {
                    assert(after[i] == entries[i]);
                }
            },
            None => {
                if i < entries.len() {
                    assert(after[i] == entries[i]);
                }
            },
        }
    }
}

/// A batch answers every request, in the order of the requests, with the
/// user and the currency of the request; and a book without negative
/// balances has none after the batch.
pub proof fn lemma_results_follow_requests(
    entries: Seq<CurrencyBalance>,
    now: u64,
    requests: Seq<BalanceUpdateRequest>,
)
    ensures
        ({
            let run = update_all(entries, now, requests);
            &&& run.results.len() == requests.len()
            &&& forall|i: int|
                0 <= i < requests.len() ==> answered_user(#[trigger] run.results[i])
                    == requests[i].user && answered_currency(run.results[i])
                    == requests[i].currency@
            &&& no_negative_balance(entries) ==> no_negative_balance(run.entries)
        }),
    decreases requests.len(),
{
    if requests.len() > 0 {
        lemma_results_follow_requests(entries, now, requests.drop_last());
        let before = update_all(entries, now, requests.drop_last());
        let step = update_one(before.entries, now, requests.last());
        if no_negative_balance(entries) {
            match step.result {
                BalanceUpdateResult::Success(entry) => {
                    lemma_stored_keeps_order(before.entries, entry);
                },
                BalanceUpdateResult::Failure(_, _, _) => {},
            }
        }
    }
}

/// A refused update changes nothing in the book.
pub proof fn lemma_failure_changes_nothing(
    entries: Seq<CurrencyBalance>,
    now: u64,
    request: BalanceUpdateRequest,
)
    ensures
        update_one(entries, now, request).result is Failure ==> update_one(
            entries,
            now,
            request,
        ).entries == entries,
{
}

/// Every batch of one to `MAX_BATCH_SIZE` requests from the administrator is
/// taken up while the lifetime counters have room, whatever the book holds
/// and whatever the requests are; and its counts add up: every request is
/// answered, as a success or as a failure.
pub proof fn lemma_admin_batch_is_answered(
    admin: Address,
    last_batch_id: u64,
    total_balances_updated: u64,
    total_batches_processed: u64,
    entries: Seq<CurrencyBalance>,
    now: u64,
    requests: Seq<BalanceUpdateRequest>,
)
    requires
        0 < requests.len() <= MAX_BATCH_SIZE,
        last_batch_id < u64::MAX,
        total_batches_processed < u64::MAX,
        total_balances_updated + requests.len() <= u64::MAX,
    ensures
        balance_batch_refusal(
            Some(admin),
            last_batch_id,
            total_balances_updated,
            total_batches_processed,
            admin,
            requests.len(),
        ) is None,
        ({
            let run = update_all(entries, now, requests);
            &&& run.results.len() == requests.len()
            &&& successes(run.results) + failures(run.results) == requests.len()
        }),
{
    lemma_results_follow_requests(entries, now, requests);
    lemma_counts_partition(update_all(entries, now, requests).results);
}

} // verus!
