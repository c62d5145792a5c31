//! What holds of every batch of wallet creations.

use crate::address::Address;
use crate::batch_wallet_creation::contract::{create_all, create_one, creation_batch_refusal};
use crate::batch_wallet_creation::types::{
    Wallet, WalletCreateRequest, WalletCreateResult, MAX_BATCH_SIZE, WALLET_EXISTS,
};
use crate::tally::{failures, lemma_counts_partition, successes};
use vstd::prelude::*;

verus! {

/// The owner that a result names.
pub open spec fn answered_owner(result: WalletCreateResult) -> Address {
    match result {
        WalletCreateResult::Success(owner) => owner,
        WalletCreateResult::Failure(owner, _) => owner,
    }
}

/// An owner keeps the wallet they have: a request in their name fails with
/// `WALLET_EXISTS` and changes nothing; and once a wallet is created, a
/// second request for the same owner fails in this way.
pub proof fn lemma_wallet_is_created_once(
    wallets: Map<u64, Wallet>,
    batch_id: u64,
    wallet_id: u64,
    now: u64,
    owner: Address,
    later_batch_id: u64,
    later_wallet_id: u64,
    later: u64,
)
    ensures
        ({
            let first = create_one(wallets, batch_id, wallet_id, now, owner);
            let second = create_one(first.wallets, later_batch_id, later_wallet_id, later, owner);
            &&& first.wallets.contains_key(owner.id)
            &&& second.wallets == first.wallets
            &&& second.result == WalletCreateResult::Failure(owner, WALLET_EXISTS)
            &&& wallets.contains_key(owner.id) ==> first.wallets == wallets && first.result
                == WalletCreateResult::Failure(owner, WALLET_EXISTS)
        }),
{
}

/// A batch answers every request, in the order of the requests; it keeps
/// every wallet that existed as it was; and every owner it names has a
/// wallet afterwards.
pub proof fn lemma_results_follow_requests(
    wallets: Map<u64, Wallet>,
    batch_id: u64,
    first_id: u64,
    now: u64,
    requests: Seq<WalletCreateRequest>,
)
    ensures
        ({
            let run = create_all(wallets, batch_id, first_id, now, requests);
            &&& run.results.len() == requests.len()
            &&& run.events.len() == requests.len()
            &&& forall|i: int|
                0 <= i < requests.len() ==> answered_owner(#[trigger] run.results[i])
                    == requests[i].owner
            &&& forall|key: u64| #[trigger]
                wallets.contains_key(key) ==> run.wallets.contains_key(key) && run.wallets[key]
                    == wallets[key]
            &&& forall|i: int|
                0 <= i < requests.len() ==> run.wallets.contains_key(
                    (#[trigger] requests[i]).owner.id,
                )
        }),
    decreases requests.len(),
{
    if requests.len() > 0 {
        let front = requests.drop_last();
        lemma_results_follow_requests(wallets, batch_id, first_id, now, front);
        let run = create_all(wallets, batch_id, first_id, now, requests);
        assert forall|i: int| 0 <= i < requests.len() implies run.wallets.contains_key(
            (#[trigger] requests[i]).owner.id,
        ) by {
            if i < requests.len() - 1 {
                assert(front[i] == requests[i]);
            }
        }
    }
}

/// Every batch of one to `MAX_BATCH_SIZE` requests from the administrator is
/// taken up while the lifetime counters have room, whatever wallets exist;
/// and its counts add up: every request is answered, as a success or as a
/// failure.
pub proof fn lemma_admin_batch_is_answered(
    admin: Address,
    total_batches: u64,
    total_wallets_created: u64,
    wallets: Map<u64, Wallet>,
    now: u64,
    requests: Seq<WalletCreateRequest>,
)
    requires
        0 < requests.len() <= MAX_BATCH_SIZE,
        total_batches < u64::MAX,
        total_wallets_created + requests.len() <= u64::MAX,
    ensures
        creation_batch_refusal(
            Some(admin),
            total_batches,
            total_wallets_created,
            admin,
            requests.len(),
        ) is None,
        ({
            let run = create_all(
                wallets,
                (total_batches + 1) as u64,
                (total_wallets_created + 1) as u64,
                now,
                requests,
            );
            &&& run.results.len() == requests.len()
            &&& successes(run.results) + failures(run.results) == requests.len()
        }),
{
    let run = create_all(
        wallets,
        (total_batches + 1) as u64,
        (total_wallets_created + 1) as u64,
        now,
        requests,
    );
    lemma_results_follow_requests(
        wallets,
        (total_batches + 1) as u64,
        (total_wallets_created + 1) as u64,
        now,
        requests,
    );
    lemma_counts_partition(run.results);
}

} // verus!
