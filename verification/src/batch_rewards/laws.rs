//! What holds of every batch of rewards.

use crate::address::Address;
use crate::batch_rewards::contract::{
    distribution_refusal, pay_all, pay_one, settle_one,
};
use crate::batch_rewards::types::{RewardRequest, RewardResult, MAX_BATCH_SIZE};
use crate::batch_rewards::validation::amount_is_valid;
use crate::ledger::{balance_in, transfer_refusal};
use crate::tally::{failures, lemma_counts_partition, lemma_tally_push, successes, volume};
use vstd::prelude::*;

verus! {

/// The recipient that a result names.
pub open spec fn answered_recipient(result: RewardResult) -> Address {
    match result {
        RewardResult::Success(recipient, _) => recipient,
        RewardResult::Failure(recipient, _, _) => recipient,
    }
}

/// The amount that a result names.
pub open spec fn answered_amount(result: RewardResult) -> i128 {
    match result {
        RewardResult::Success(_, amount) => amount,
        RewardResult::Failure(_, amount, _) => amount,
    }
}

/// A reward that fails changes no balance.
pub proof fn lemma_failure_changes_nothing(
    balances: Map<u64, i128>,
    payer: Address,
    reward: RewardRequest,
)
    ensures
        pay_one(balances, payer, reward).result is Failure ==> pay_one(
            balances,
            payer,
            reward,
        ).balances == balances,
{
}

/// A batch answers every reward, in the order of the rewards, with the
/// recipient and the amount of the reward.
pub proof fn lemma_results_follow_requests(
    balances: Map<u64, i128>,
    payer: Address,
    rewards: Seq<RewardRequest>,
)
    ensures
        ({
            let run = pay_all(balances, payer, rewards);
            &&& run.results.len() == rewards.len()
            &&& forall|i: int|
                0 <= i < rewards.len() ==> answered_recipient(#[trigger] run.results[i])
                    == rewards[i].recipient && answered_amount(run.results[i])
                    == rewards[i].amount
        }),
    decreases rewards.len(),
{
    if rewards.len() > 0 {
        lemma_results_follow_requests(balances, payer, rewards.drop_last());
    }
}

/// What a batch reports as distributed has left the payer's account, and
/// nothing else has, where the payer rewards nobody but others.
pub proof fn lemma_volume_leaves_the_payer(
    balances: Map<u64, i128>,
    payer: Address,
    rewards: Seq<RewardRequest>,
)
    requires
        forall|i: int| 0 <= i < rewards.len() ==> (#[trigger] rewards[i]).recipient != payer,
    ensures
        ({
            let run = pay_all(balances, payer, rewards);
            balance_in(run.balances, payer) == balance_in(balances, payer) - volume(run.results)
        }),
    decreases rewards.len(),
{
    if rewards.len() > 0 {
        let front = rewards.drop_last();
        assert forall|i: int| 0 <= i < front.len() implies (#[trigger] front[i]).recipient
            != payer by {
            assert(front[i] == rewards[i]);
        }
        lemma_volume_leaves_the_payer(balances, payer, front);
        let before = pay_all(balances, payer, front);
        let step = pay_one(before.balances, payer, rewards.last());
        lemma_tally_push(before.results, step.result);
        assert(rewards.last() == rewards[rewards.len() - 1]);
    }
}

/// A reward paid on the ledger is a reward settled with the ledger's answer:
/// its result is that of `settle_one`, told whether the ledger accepts the
/// payment.
pub proof fn lemma_payment_is_settlement(
    balances: Map<u64, i128>,
    payer: Address,
    reward: RewardRequest,
)
    ensures
        pay_one(balances, payer, reward).result == settle_one(
            reward,
            transfer_refusal(balances, payer, reward.recipient, reward.amount) is None,
        ),
        pay_one(balances, payer, reward).result is Success <==> amount_is_valid(reward.amount)
            && transfer_refusal(balances, payer, reward.recipient, reward.amount) is None,
{
}

/// Every batch of one to `MAX_BATCH_SIZE` rewards from the administrator is
/// taken up while the lifetime counters have room, whatever the payer holds
/// and whatever the rewards are; and its counts add up: every reward is
/// answered, as a success or as a failure.
pub proof fn lemma_admin_batch_is_answered(
    admin: Address,
    total_batches: u64,
    total_processed: u64,
    balances: Map<u64, i128>,
    rewards: Seq<RewardRequest>,
)
    requires
        0 < rewards.len() <= MAX_BATCH_SIZE,
        total_batches < u64::MAX,
        total_processed + rewards.len() <= u64::MAX,
    ensures
        distribution_refusal(Some(admin), total_batches, total_processed, admin, rewards.len())
            is None,
        ({
            let run = pay_all(balances, admin, rewards);
            &&& run.results.len() == rewards.len()
            &&& successes(run.results) + failures(run.results) == rewards.len()
        }),
{
    lemma_results_follow_requests(balances, admin, rewards);
    lemma_counts_partition(pay_all(balances, admin, rewards).results);
}

} // verus!
