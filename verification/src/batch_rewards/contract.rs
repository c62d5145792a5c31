//! The rewards service: its state and the batch distribution engine.

use crate::address::Address;
use crate::host_error::{contract_error, host_error_of};
use crate::batch_rewards::types::{
    BatchRewardResult, RewardEvent, RewardEvents, RewardRequest, RewardResult, MAX_BATCH_SIZE,
};
use crate::batch_rewards::validation::{amount_is_valid, validate_address, validate_amount};
use crate::ledger::{after_transfer, transfer_refusal, Ledger};
use crate::tally::{
    failures, lemma_counts_partition, lemma_tally_push, saturate, saturating_add, successes,
    volume,
};
use vstd::prelude::*;

verus! {

/// Errors of the rewards service. As the reason of an aborted call, an error
/// means that nothing was changed; `InvalidAmount`, `InvalidBatch` and
/// `InvalidToken` also give their codes to failed items.
#[derive(Copy, Clone, Debug, Eq, PartialEq, Structural)]
pub enum BatchRewardsError {
    /// Contract not initialized
    NotInitialized,
    /// Caller is not authorized
    Unauthorized,
    /// Invalid batch data
    InvalidBatch,
    /// Batch is empty
    EmptyBatch,
    /// Batch exceeds maximum size
    BatchTooLarge,
    /// Invalid token contract
    InvalidToken,
    /// Insufficient balance to distribute rewards. No call aborts with it: a
    /// reward that the payer cannot cover fails alone.
    InsufficientBalance,
    /// Invalid reward amount
    InvalidAmount,
    /// Contract already initialized
    AlreadyInitialized,
    /// A lifetime counter has no room left for this call
    CounterOverflow,
}

impl BatchRewardsError {
    /// The stable numeric code of this error.
    pub open spec fn code_of(self) -> u32 {
        match self {
            BatchRewardsError::NotInitialized => 1,
            BatchRewardsError::Unauthorized => 2,
            BatchRewardsError::InvalidBatch => 3,
            BatchRewardsError::EmptyBatch => 4,
            BatchRewardsError::BatchTooLarge => 5,
            BatchRewardsError::InvalidToken => 6,
            BatchRewardsError::InsufficientBalance => 7,
            BatchRewardsError::InvalidAmount => 8,
            BatchRewardsError::AlreadyInitialized => 9,
            BatchRewardsError::CounterOverflow => 10,
        }
    }

    /// The stable numeric code of this error.
    pub fn code(&self) -> (code: u32)
        ensures
            code == self.code_of(),
    {
        match self {
            BatchRewardsError::NotInitialized => 1,
            BatchRewardsError::Unauthorized => 2,
            BatchRewardsError::InvalidBatch => 3,
            BatchRewardsError::EmptyBatch => 4,
            BatchRewardsError::BatchTooLarge => 5,
            BatchRewardsError::InvalidToken => 6,
            BatchRewardsError::InsufficientBalance => 7,
            BatchRewardsError::InvalidAmount => 8,
            BatchRewardsError::AlreadyInitialized => 9,
            BatchRewardsError::CounterOverflow => 10,
        }
    }
}

impl From<BatchRewardsError> for soroban_sdk::Error {
    fn from(e: BatchRewardsError) -> (error: soroban_sdk::Error) {
        host_error_of(e.code())
    }
}

impl vstd::std_specs::convert::FromSpecImpl<BatchRewardsError> for soroban_sdk::Error {
    open spec fn obeys_from_spec() -> bool {
        true
    }

    open spec fn from_spec(e: BatchRewardsError) -> soroban_sdk::Error {
        contract_error(e.code_of())
    }
}

/// The balance sheet and the result after one reward was attempted.
pub struct Payment {
    pub balances: Map<u64, i128>,
    pub result: RewardResult,
}

/// The balance sheet and the results after a list of rewards was attempted.
pub struct PaymentRun {
    pub balances: Map<u64, i128>,
    pub results: Seq<RewardResult>,
}

/// One reward, attempted against the balance sheet as it stands: a reward
/// with an invalid amount fails with the code of `InvalidAmount`; one that
/// the ledger refuses to pay from `payer` fails with the code of
/// `InvalidToken`; neither changes anything. Any other is paid.
pub open spec fn pay_one(balances: Map<u64, i128>, payer: Address, reward: RewardRequest) -> Payment {
    if !amount_is_valid(reward.amount) {
        Payment {
            balances,
            result: RewardResult::Failure(
                reward.recipient,
                reward.amount,
                BatchRewardsError::InvalidAmount.code_of(),
            ),
        }
    } else if transfer_refusal(balances, payer, reward.recipient, reward.amount) is Some {
        Payment {
            balances,
            result: RewardResult::Failure(
                reward.recipient,
                reward.amount,
                BatchRewardsError::InvalidToken.code_of(),
            ),
        }
    } else {
        Payment {
            balances: after_transfer(balances, payer, reward.recipient, reward.amount),
            result: RewardResult::Success(reward.recipient, reward.amount),
        }
    }
}

/// The rewards of a batch attempted one after the other, in their order, each
/// against the balance sheet that the one before it left.
pub open spec fn pay_all(balances: Map<u64, i128>, payer: Address, rewards: Seq<RewardRequest>) -> PaymentRun
    decreases rewards.len(),
{
    if rewards.len() == 0 {
        PaymentRun { balances, results: Seq::empty() }
    } else {
        let before = pay_all(balances, payer, rewards.drop_last());
        let step = pay_one(before.balances, payer, rewards.last());
        PaymentRun { balances: step.balances, results: before.results.push(step.result) }
    }
}

/// The audit event of one reward result.
pub open spec fn reward_event(batch_id: u64, result: RewardResult) -> RewardEvent {
    match result {
        RewardResult::Success(recipient, amount) => RewardEvent::RewardSuccess {
            batch_id,
            recipient,
            amount,
        },
        RewardResult::Failure(recipient, amount, error_code) => RewardEvent::RewardFailure {
            batch_id,
            recipient,
            amount,
            error_code,
        },
    }
}

/// The audit events of the results of a batch, one per result and in the same
/// order.
pub open spec fn reward_events(batch_id: u64, results: Seq<RewardResult>) -> Seq<RewardEvent> {
    Seq::new(results.len(), |i: int| reward_event(batch_id, results[i]))
}

/// The reason, if any, for which a distribution aborts as a whole. The rules
/// are tried in this order: the service is initialized; the caller is the
/// administrator; the batch is not empty; it holds at most `MAX_BATCH_SIZE`
/// rewards; the lifetime counters have room for it. What the payer holds is
/// no such reason: a reward that cannot be paid fails alone.
pub open spec fn distribution_refusal(
    admin: Option<Address>,
    total_batches: u64,
    total_processed: u64,
    caller: Address,
    request_count: nat,
) -> Option<BatchRewardsError> {
    if admin is None {
        Some(BatchRewardsError::NotInitialized)
    } else if admin != Some(caller) {
        Some(BatchRewardsError::Unauthorized)
    } else if request_count == 0 {
        Some(BatchRewardsError::EmptyBatch)
    } else if request_count > MAX_BATCH_SIZE {
        Some(BatchRewardsError::BatchTooLarge)
    } else if total_batches == u64::MAX || total_processed + request_count > u64::MAX {
        Some(BatchRewardsError::CounterOverflow)
    } else {
        None
    }
}

/// The result of one reward once its payment was attempted, where `paid`
/// says whether the token accepted the payment: a reward with an invalid
/// amount fails with the code of `InvalidAmount`, whatever `paid` says; one
/// that was paid succeeds; one that was not fails with the code of
/// `InvalidToken`.
pub open spec fn settle_one(reward: RewardRequest, paid: bool) -> RewardResult {
    if !amount_is_valid(reward.amount) {
        RewardResult::Failure(
            reward.recipient,
            reward.amount,
            BatchRewardsError::InvalidAmount.code_of(),
        )
    } else if paid {
        RewardResult::Success(reward.recipient, reward.amount)
    } else {
        RewardResult::Failure(
            reward.recipient,
            reward.amount,
            BatchRewardsError::InvalidToken.code_of(),
        )
    }
}

/// The results of a batch whose payments were attempted, one per reward and
/// in the same order.
pub open spec fn settle_all(rewards: Seq<RewardRequest>, paid: Seq<bool>) -> Seq<RewardResult> {
    Seq::new(rewards.len(), |i: int| settle_one(rewards[i], paid[i]))
}

/// The reason, if any, for which a settled distribution aborts as a whole:
/// one of `distribution_refusal`, or the outcomes are not one per reward.
pub open spec fn settlement_refusal(
    admin: Option<Address>,
    total_batches: u64,
    total_processed: u64,
    caller: Address,
    request_count: nat,
    outcome_count: nat,
) -> Option<BatchRewardsError> {
    if distribution_refusal(admin, total_batches, total_processed, caller, request_count) is Some {
        distribution_refusal(admin, total_batches, total_processed, caller, request_count)
    } else if outcome_count != request_count {
        Some(BatchRewardsError::InvalidBatch)
    } else {
        None
    }
}

/// The result of one reward once its payment was attempted: see
/// `settle_one`.
pub fn reward_outcome(reward: &RewardRequest, paid: bool) -> (result: RewardResult)
    ensures
        result == settle_one(*reward, paid),
{
    if validate_amount(reward.amount).is_err() {
        RewardResult::Failure(
            reward.recipient,
            reward.amount,
            BatchRewardsError::InvalidAmount.code(),
        )
    } else if paid {
        RewardResult::Success(reward.recipient, reward.amount)
    } else {
        RewardResult::Failure(
            reward.recipient,
            reward.amount,
            BatchRewardsError::InvalidToken.code(),
        )
    }
}

/// Settles the rewards of a batch in order, appending one audit event per
/// reward.
fn settle_each(
    events: &mut Vec<RewardEvent>,
    batch_id: u64,
    rewards: &Vec<RewardRequest>,
    paid: &Vec<bool>,
) -> (tally: (Vec<RewardResult>, u32, i128))
    requires
        rewards.len() <= MAX_BATCH_SIZE,
        paid.len() == rewards.len(),
    ensures
        tally.0@ == settle_all(rewards@, paid@),
        tally.1 == successes(tally.0@),
        tally.2 == saturate(volume(tally.0@)),
        volume(tally.0@) >= 0,
        final(events)@ == old(events)@ + reward_events(batch_id, tally.0@),
{
    let n = rewards.len();
    let mut results: Vec<RewardResult> = Vec::new();
    let mut successful: u32 = 0;
    let mut total: i128 = 0;
    let mut i: usize = 0;
    assert(events@ =~= old(events)@ + reward_events(batch_id, results@));
    while i < n
        invariant
            n == rewards.len(),
            n == paid.len(),
            n <= MAX_BATCH_SIZE,
            i <= n,
            results@.len() == i,
            forall|j: int| 0 <= j < i ==> #[trigger] results@[j] == settle_one(rewards@[j], paid@[j]),
            successful == successes(results@),
            successful <= i,
            total == saturate(volume(results@)),
            volume(results@) >= 0,
            events@ == old(events)@ + reward_events(batch_id, results@),
        decreases n - i,
    {
        let ghost before_results = results@;
        let result = reward_outcome(&rewards[i], paid[i]);
        proof {
            lemma_tally_push(before_results, result);
        }
        match result {
            RewardResult::Success(recipient, amount) => {
                successful = successful + 1;
                total = saturating_add(total, amount);
                events.push(RewardEvents::reward_success(batch_id, &recipient, amount));
            },
            RewardResult::Failure(recipient, amount, code) => {
                events.push(RewardEvents::reward_failure(batch_id, &recipient, amount, code));
            },
        }
        results.push(result);
        i = i + 1;
        proof {
            assert(reward_events(batch_id, results@) =~= reward_events(
                batch_id,
                before_results,
            ).push(reward_event(batch_id, result)));
            assert(events@ =~= old(events)@ + reward_events(batch_id, results@));
        }
    }
    assert(results@ =~= settle_all(rewards@, paid@));
    (results, successful, total)
}

/// Attempts one reward on the ledger.
fn pay_item(ledger: &mut Ledger, payer: &Address, reward: &RewardRequest) -> (result: RewardResult)
    ensures
        (Payment { balances: final(ledger)@, result }) == pay_one(old(ledger)@, *payer, *reward),
{
    if validate_amount(reward.amount).is_err() {
        return RewardResult::Failure(
            reward.recipient,
            reward.amount,
            BatchRewardsError::InvalidAmount.code(),
        );
    }
    if validate_address(&reward.recipient).is_err() {
        return RewardResult::Failure(
            reward.recipient,
            reward.amount,
            BatchRewardsError::InvalidBatch.code(),
        );
    }
    match ledger.transfer(payer, &reward.recipient, reward.amount) {
        Ok(()) => RewardResult::Success(reward.recipient, reward.amount),
        Err(_) => RewardResult::Failure(
            reward.recipient,
            reward.amount,
            BatchRewardsError::InvalidToken.code(),
        ),
    }
}

/// Attempts the rewards of a batch in order, appending one audit event per
/// reward.
fn pay_each(
    ledger: &mut Ledger,
    events: &mut Vec<RewardEvent>,
    payer: &Address,
    batch_id: u64,
    rewards: &Vec<RewardRequest>,
) -> (tally: (Vec<RewardResult>, u32, i128))
    requires
        rewards.len() <= MAX_BATCH_SIZE,
    ensures
        (PaymentRun { balances: final(ledger)@, results: tally.0@ }) == pay_all(
            old(ledger)@,
            *payer,
            rewards@,
        ),
        tally.0@.len() == rewards@.len(),
        tally.1 == successes(tally.0@),
        tally.2 == saturate(volume(tally.0@)),
        volume(tally.0@) >= 0,
        final(events)@ == old(events)@ + reward_events(batch_id, tally.0@),
{
    let n = rewards.len();
    let mut results: Vec<RewardResult> = Vec::new();
    let mut successful: u32 = 0;
    let mut total: i128 = 0;
    let mut i: usize = 0;
    assert(rewards@.take(0) =~= Seq::<RewardRequest>::empty());
    assert(events@ =~= old(events)@ + reward_events(batch_id, results@));
    while i < n
        invariant
            n == rewards.len(),
            n <= MAX_BATCH_SIZE,
            i <= n,
            results@.len() == i,
            (PaymentRun { balances: ledger@, results: results@ }) == pay_all(
                old(ledger)@,
                *payer,
                rewards@.take(i as int),
            ),
            successful == successes(results@),
            successful <= i,
            total == saturate(volume(results@)),
            volume(results@) >= 0,
            events@ == old(events)@ + reward_events(batch_id, results@),
        decreases n - i,
    {
        let ghost before_results = results@;
        let result = pay_item(ledger, payer, &rewards[i]);
        proof {
            assert(rewards@.take(i + 1).drop_last() =~= rewards@.take(i as int));
            assert(rewards@.take(i + 1).last() == rewards@[i as int]);
            lemma_tally_push(before_results, result);
        }
        match result {
            RewardResult::Success(recipient, amount) => {
                successful = successful + 1;
                total = saturating_add(total, amount);
                events.push(RewardEvents::reward_success(batch_id, &recipient, amount));
            },
            RewardResult::Failure(recipient, amount, code) => {
                events.push(RewardEvents::reward_failure(batch_id, &recipient, amount, code));
            },
        }
        results.push(result);
        i = i + 1;
        proof {
            assert(reward_events(batch_id, results@) =~= reward_events(
                batch_id,
                before_results,
            ).push(reward_event(batch_id, result)));
            assert(events@ =~= old(events)@ + reward_events(batch_id, results@));
        }
    }
    assert(rewards@.take(n as int) =~= rewards@);
    (results, successful, total)
}

/// The rewards service: its administrator, its lifetime counters and its
/// audit log.
#[derive(Clone, Debug, PartialEq, Eq)]
pub struct BatchRewardsContract {
    admin: Option<Address>,
    total_batches: u64,
    total_rewards_processed: u64,
    total_volume_distributed: i128,
    events: Vec<RewardEvent>,
}

impl BatchRewardsContract {
    /// The administrator, once the service is initialized.
    pub closed spec fn admin(&self) -> Option<Address> {
        self.admin
    }

    /// The number of batches processed.
    pub closed spec fn total_batches(&self) -> u64 {
        self.total_batches
    }

    /// The number of rewards processed, paid or not.
    pub closed spec fn total_rewards_processed(&self) -> u64 {
        self.total_rewards_processed
    }

    /// The amount paid out, capped at the largest amount.
    pub closed spec fn total_volume_distributed(&self) -> i128 {
        self.total_volume_distributed
    }

    /// The audit log, oldest event first.
    pub closed spec fn events(&self) -> Seq<RewardEvent> {
        self.events@
    }

    /// Whether `other` has the lifetime counters of this service.
    pub open spec fn same_totals(&self, other: &BatchRewardsContract) -> bool {
        &&& self.total_batches() == other.total_batches()
        &&& self.total_rewards_processed() == other.total_rewards_processed()
        &&& self.total_volume_distributed() == other.total_volume_distributed()
    }

    /// A service that is not yet initialized.
    pub fn new() -> (contract: BatchRewardsContract)
        ensures
            contract.admin() is None,
            contract.total_batches() == 0,
            contract.total_rewards_processed() == 0,
            contract.total_volume_distributed() == 0,
            contract.events() == Seq::<RewardEvent>::empty(),
    {
        BatchRewardsContract {
            admin: None,
            total_batches: 0,
            total_rewards_processed: 0,
            total_volume_distributed: 0,
            events: Vec::new(),
        }
    }

    /// A service as it was persisted: with its administrator and its
    /// counters, and with an empty audit log.
    pub fn restore(
        admin: Option<Address>,
        total_batches: u64,
        total_rewards_processed: u64,
        total_volume_distributed: i128,
    ) -> (contract: BatchRewardsContract)
        ensures
            contract.admin() == admin,
            contract.total_batches() == total_batches,
            contract.total_rewards_processed() == total_rewards_processed,
            contract.total_volume_distributed() == total_volume_distributed,
            contract.events() == Seq::<RewardEvent>::empty(),
    {
        BatchRewardsContract {
            admin,
            total_batches,
            total_rewards_processed,
            total_volume_distributed,
            events: Vec::new(),
        }
    }

    /// Initializes the contract with an admin address. A service is
    /// initialized once.
    pub fn initialize(&mut self, admin: Address) -> (r: Result<(), BatchRewardsError>)
        ensures
            old(self).admin() is Some ==> r == Err::<(), BatchRewardsError>(
                BatchRewardsError::AlreadyInitialized,
            ) && *final(self) == *old(self),
            old(self).admin() is None ==> r is Ok && final(self).admin() == Some(admin) && final(self).same_totals(old(self)) && final(self).events() == old(self).events(),
    {
        if self.admin.is_some() {
            return Err(BatchRewardsError::AlreadyInitialized);
        }
        self.admin = Some(admin);
        Ok(())
    }

    /// Gets the contract admin.
    pub fn get_admin(&self) -> (r: Result<Address, BatchRewardsError>)
        ensures
            r == (match self.admin() {
                Some(a) => Ok::<Address, BatchRewardsError>(a),
                None => Err::<Address, BatchRewardsError>(BatchRewardsError::NotInitialized),
            }),
    {
        match self.admin {
            Some(a) => Ok(a),
            None => Err(BatchRewardsError::NotInitialized),
        }
    }

    /// Gets the total number of reward batches processed.
    pub fn get_total_batches(&self) -> (n: u64)
        ensures
            n == self.total_batches(),
    {
        self.total_batches
    }

    /// Gets the total number of rewards processed.
    pub fn get_total_rewards_processed(&self) -> (n: u64)
        ensures
            n == self.total_rewards_processed(),
    {
        self.total_rewards_processed
    }

    /// Gets the total volume of rewards distributed.
    pub fn get_total_volume_distributed(&self) -> (amount: i128)
        ensures
            amount == self.total_volume_distributed(),
    {
        self.total_volume_distributed
    }

    /// The audit log, oldest event first.
    pub fn event_log(&self) -> (log: &Vec<RewardEvent>)
        ensures
            log@ == self.events(),
    {
        &self.events
    }

    /// Checks that the service is initialized and that `caller` is its
    /// administrator.
    pub fn require_admin(&self, caller: &Address) -> (r: Result<(), BatchRewardsError>)
        ensures
            r == (if self.admin() is None {
                Err::<(), BatchRewardsError>(BatchRewardsError::NotInitialized)
            } else if self.admin() != Some(*caller) {
                Err::<(), BatchRewardsError>(BatchRewardsError::Unauthorized)
            } else {
                Ok::<(), BatchRewardsError>(())
            }),
    {
        match self.admin {
            None => Err(BatchRewardsError::NotInitialized),
            Some(admin) => if admin.id == caller.id {
                Ok(())
            } else {
                Err(BatchRewardsError::Unauthorized)
            },
        }
    }

    /// Sets a new admin address. Only the administrator in office may name
    /// the next one; the change is recorded in the audit log.
    pub fn set_admin(&mut self, caller: &Address, new_admin: Address) -> (r: Result<
        (),
        BatchRewardsError,
    >)
        ensures
            r == old(self).require_admin_verdict(*caller),
            r is Err ==> *final(self) == *old(self),
            r is Ok ==> final(self).admin() == Some(new_admin) && final(self).same_totals(
                old(self),
            ) && final(self).events() == old(self).events().push(
                RewardEvent::AdminChanged { new_admin },
            ),
    {
        match self.require_admin(caller) {
            Err(e) => Err(e),
            Ok(()) => {
                self.admin = Some(new_admin);
                self.events.push(RewardEvent::AdminChanged { new_admin });
                Ok(())
            },
        }
    }

    /// What `require_admin` answers to `caller`.
    pub open spec fn require_admin_verdict(&self, caller: Address) -> Result<(), BatchRewardsError> {
        if self.admin() is None {
            Err(BatchRewardsError::NotInitialized)
        } else if self.admin() != Some(caller) {
            Err(BatchRewardsError::Unauthorized)
        } else {
            Ok(())
        }
    }

    /// Distributes rewards to multiple recipients in a batch operation.
    ///
    /// The rewards are paid from the balance of `caller`, who must be the
    /// administrator, on `ledger`. The call aborts as a whole, changing
    /// nothing, when `distribution_refusal` gives a reason. Otherwise the
    /// batch gets the next batch identifier and every reward is attempted in
    /// its order; a reward that fails, be it for its amount or because the
    /// ledger refuses to pay it, leaves the others untouched. The
    /// lifetime counters are then advanced once: one more batch, the rewards
    /// processed, and the amount paid, capped at the largest amount. The
    /// audit log receives the start of the batch, one event per reward, and
    /// its completion.
    pub fn distribute_rewards(
        &mut self,
        ledger: &mut Ledger,
        caller: &Address,
        rewards: &Vec<RewardRequest>,
    ) -> (r: Result<BatchRewardResult, BatchRewardsError>)
        ensures
            match distribution_refusal(
                old(self).admin(),
                old(self).total_batches(),
                old(self).total_rewards_processed(),
                *caller,
                rewards@.len(),
            ) {
                Some(e) => r == Err::<BatchRewardResult, BatchRewardsError>(e) && *final(self)
                    == *old(self) && final(ledger)@ == old(ledger)@,
                None => r matches Ok(batch) && {
                    let run = pay_all(old(ledger)@, *caller, rewards@);
                    &&& final(ledger)@ == run.balances
                    &&& batch.results@ == run.results
                    &&& batch.batch_id == old(self).total_batches() + 1
                    &&& batch.total_requests == rewards@.len()
                    &&& batch.results@.len() == rewards@.len()
                    &&& batch.successful == successes(batch.results@)
                    &&& batch.failed == failures(batch.results@)
                    &&& batch.successful + batch.failed == batch.total_requests
                    &&& batch.total_distributed == saturate(volume(batch.results@))
                    &&& volume(batch.results@) >= 0
                    &&& final(self).admin() == old(self).admin()
                    &&& final(self).total_batches() == old(self).total_batches() + 1
                    &&& final(self).total_rewards_processed() == old(self).total_rewards_processed() + batch.total_requests
                    &&& final(self).total_volume_distributed() == saturate(
                        old(self).total_volume_distributed() + batch.total_distributed,
                    )
                    &&& final(self).events() == old(self).events().push(
                        RewardEvent::BatchStarted {
                            batch_id: batch.batch_id,
                            request_count: batch.total_requests,
                        },
                    ) + reward_events(batch.batch_id, batch.results@).push(
                        RewardEvent::BatchCompleted {
                            batch_id: batch.batch_id,
                            successful: batch.successful,
                            failed: batch.failed,
                            total_distributed: batch.total_distributed,
                        },
                    )
                },
            },
    {
        let admin = match self.admin {
            Some(a) => a,
            None => {
                return Err(BatchRewardsError::NotInitialized);
            },
        };
        if admin.id != caller.id {
            return Err(BatchRewardsError::Unauthorized);
        }
        let n = rewards.len();
        if n == 0 {
            return Err(BatchRewardsError::EmptyBatch);
        }
        if n > MAX_BATCH_SIZE as usize {
            return Err(BatchRewardsError::BatchTooLarge);
        }
        let request_count = n as u32;
        if self.total_batches == u64::MAX || self.total_rewards_processed > u64::MAX
            - request_count as u64 {
            return Err(BatchRewardsError::CounterOverflow);
        }
        let batch_id = self.total_batches + 1;
        self.events.push(RewardEvents::batch_started(batch_id, request_count));
        let (results, successful, total_distributed) = pay_each(
            ledger,
            &mut self.events,
            caller,
            batch_id,
            rewards,
        );
        proof {
            lemma_counts_partition(results@);
        }
        let failed = request_count - successful;
        self.total_batches = batch_id;
        self.total_rewards_processed = self.total_rewards_processed + request_count as u64;
        self.total_volume_distributed = saturating_add(
            self.total_volume_distributed,
            total_distributed,
        );
        self.events.push(
            RewardEvents::batch_completed(batch_id, successful, failed, total_distributed),
        );
        proof {
            assert(self.events@ =~= old(self).events().push(
                RewardEvent::BatchStarted { batch_id, request_count },
            ) + reward_events(batch_id, results@).push(
                RewardEvent::BatchCompleted { batch_id, successful, failed, total_distributed },
            ));
        }
        Ok(
            BatchRewardResult {
                batch_id,
                total_requests: request_count,
                successful,
                failed,
                total_distributed,
                results,
            },
        )
    }

    /// Whether a distribution of `request_count` rewards by `caller` would be
    /// taken up: the reason for which it would abort, if there is one.
    pub fn check_distribution(&self, caller: &Address, request_count: usize) -> (r: Result<
        (),
        BatchRewardsError,
    >)
        ensures
            r == (match distribution_refusal(
                self.admin(),
                self.total_batches(),
                self.total_rewards_processed(),
                *caller,
                request_count as nat,
            ) {
                Some(e) => Err::<(), BatchRewardsError>(e),
                None => Ok::<(), BatchRewardsError>(()),
            }),
    {
        let admin = match self.admin {
            Some(a) => a,
            None => {
                return Err(BatchRewardsError::NotInitialized);
            },
        };
        if admin.id != caller.id {
            return Err(BatchRewardsError::Unauthorized);
        }
        if request_count == 0 {
            return Err(BatchRewardsError::EmptyBatch);
        }
        if request_count > MAX_BATCH_SIZE as usize {
            return Err(BatchRewardsError::BatchTooLarge);
        }
        if self.total_batches == u64::MAX || self.total_rewards_processed > u64::MAX
            - request_count as u64 {
            return Err(BatchRewardsError::CounterOverflow);
        }
        Ok(())
    }

    /// Records a batch of rewards whose payments were attempted outside the
    /// service, where `paid` says of each reward, in the order of the
    /// rewards, whether the token accepted its payment.
    ///
    /// The call aborts as a whole, changing nothing, when
    /// `settlement_refusal` gives a reason. Otherwise the batch gets the next
    /// batch identifier and every reward gets the result of `settle_one`: a
    /// payment that was refused fails its reward and no other. The lifetime
    /// counters and the audit log are advanced as by `distribute_rewards`.
    pub fn distribute_settled(
        &mut self,
        caller: &Address,
        rewards: &Vec<RewardRequest>,
        paid: &Vec<bool>,
    ) -> (r: Result<BatchRewardResult, BatchRewardsError>)
        ensures
            match settlement_refusal(
                old(self).admin(),
                old(self).total_batches(),
                old(self).total_rewards_processed(),
                *caller,
                rewards@.len(),
                paid@.len(),
            ) {
                Some(e) => r == Err::<BatchRewardResult, BatchRewardsError>(e) && *final(self)
                    == *old(self),
                None => r matches Ok(batch) && {
                    &&& batch.results@ == settle_all(rewards@, paid@)
                    &&& batch.batch_id == old(self).total_batches() + 1
                    &&& batch.total_requests == rewards@.len()
                    &&& batch.results@.len() == rewards@.len()
                    &&& batch.successful == successes(batch.results@)
                    &&& batch.failed == failures(batch.results@)
                    &&& batch.successful + batch.failed == batch.total_requests
                    &&& batch.total_distributed == saturate(volume(batch.results@))
                    &&& volume(batch.results@) >= 0
                    &&& final(self).admin() == old(self).admin()
                    &&& final(self).total_batches() == old(self).total_batches() + 1
                    &&& final(self).total_rewards_processed() == old(self).total_rewards_processed() + batch.total_requests
                    &&& final(self).total_volume_distributed() == saturate(
                        old(self).total_volume_distributed() + batch.total_distributed,
                    )
                    &&& final(self).events() == old(self).events().push(
                        RewardEvent::BatchStarted {
                            batch_id: batch.batch_id,
                            request_count: batch.total_requests,
                        },
                    ) + reward_events(batch.batch_id, batch.results@).push(
                        RewardEvent::BatchCompleted {
                            batch_id: batch.batch_id,
                            successful: batch.successful,
                            failed: batch.failed,
                            total_distributed: batch.total_distributed,
                        },
                    )
                },
            },
    {
        if let Err(e) = self.check_distribution(caller, rewards.len()) {
            return Err(e);
        }
        if paid.len() != rewards.len() {
            return Err(BatchRewardsError::InvalidBatch);
        }
        let request_count = rewards.len() as u32;
        let batch_id = self.total_batches + 1;
        self.events.push(RewardEvents::batch_started(batch_id, request_count));
        let (results, successful, total_distributed) = settle_each(
            &mut self.events,
            batch_id,
            rewards,
            paid,
        );
        proof {
            lemma_counts_partition(results@);
        }
        let failed = request_count - successful;
        self.total_batches = batch_id;
        self.total_rewards_processed = self.total_rewards_processed + request_count as u64;
        self.total_volume_distributed = saturating_add(
            self.total_volume_distributed,
            total_distributed,
        );
        self.events.push(
            RewardEvents::batch_completed(batch_id, successful, failed, total_distributed),
        );
        proof {
            assert(self.events@ =~= old(self).events().push(
                RewardEvent::BatchStarted { batch_id, request_count },
            ) + reward_events(batch_id, results@).push(
                RewardEvent::BatchCompleted { batch_id, successful, failed, total_distributed },
            ));
        }
        Ok(
            BatchRewardResult {
                batch_id,
                total_requests: request_count,
                successful,
                failed,
                total_distributed,
                results,
            },
        )
    }
}

} // verus!
