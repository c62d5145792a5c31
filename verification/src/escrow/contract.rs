//! The escrow service: its state, its lifecycle operations and the batch
//! reversal engine.

use crate::address::Address;
use crate::escrow::error_code;
use crate::escrow::types::{
    BatchReversalResult, Escrow, EscrowEvent, EscrowEvents, EscrowStatus, ReversalRequest,
    ReversalResult, MAX_BATCH_SIZE,
};
use crate::escrow::validation::{
    release_verdict, reversal_verdict, validate_release, validate_reversal, ValidationError,
};
use crate::host_error::{contract_error, host_error_of};
use crate::ledger::{after_transfer, transfer_refusal, Ledger};
use crate::tally::{
    failures, lemma_counts_partition, lemma_tally_push, saturate, saturating_add, successes,
    volume, Outcome,
};
use std::collections::HashMap;
use vstd::prelude::*;

verus! {

/// Errors that abort a call to the escrow service as a whole. An aborted call
/// changes nothing.
#[derive(Copy, Clone, Debug, Eq, PartialEq, Structural)]
pub enum EscrowError {
    /// Contract not initialized
    NotInitialized,
    /// Caller is not authorized
    Unauthorized,
    /// Batch is empty
    EmptyBatch,
    /// Batch exceeds maximum size
    BatchTooLarge,
    /// Invalid amount
    InvalidAmount,
    /// Escrow not found
    EscrowNotFound,
    /// Contract already initialized
    AlreadyInitialized,
    /// Escrow is no longer active
    EscrowNotActive,
    /// Deadline has not been reached yet
    DeadlineNotReached,
    /// The ledger refused to move the funds
    TransferFailed,
    /// A lifetime counter has no room left for this call
    CounterOverflow,
}

impl EscrowError {
    /// The stable numeric code of this error.
    pub open spec fn code_of(self) -> u32 {
        match self {
            EscrowError::NotInitialized => 1,
            EscrowError::Unauthorized => 2,
            EscrowError::EmptyBatch => 3,
            EscrowError::BatchTooLarge => 4,
            EscrowError::InvalidAmount => 5,
            EscrowError::EscrowNotFound => 6,
            EscrowError::AlreadyInitialized => 7,
            EscrowError::EscrowNotActive => 8,
            EscrowError::DeadlineNotReached => 9,
            EscrowError::TransferFailed => 10,
            EscrowError::CounterOverflow => 11,
        }
    }

    /// The stable numeric code of this error.
    pub fn code(&self) -> (code: u32)
        ensures
            code == self.code_of(),
    {
        match self {
            EscrowError::NotInitialized => 1,
            EscrowError::Unauthorized => 2,
            EscrowError::EmptyBatch => 3,
            EscrowError::BatchTooLarge => 4,
            EscrowError::InvalidAmount => 5,
            EscrowError::EscrowNotFound => 6,
            EscrowError::AlreadyInitialized => 7,
            EscrowError::EscrowNotActive => 8,
            EscrowError::DeadlineNotReached => 9,
            EscrowError::TransferFailed => 10,
            EscrowError::CounterOverflow => 11,
        }
    }

    /// The call-level error that stands for a refused single-escrow
    /// operation.
    pub open spec fn of_verdict(e: ValidationError) -> EscrowError {
        match e {
            ValidationError::EscrowNotFound => EscrowError::EscrowNotFound,
            ValidationError::AlreadyReleased => EscrowError::EscrowNotActive,
            ValidationError::AlreadyReversed => EscrowError::EscrowNotActive,
            ValidationError::Unauthorized => EscrowError::Unauthorized,
            ValidationError::DeadlineNotReached => EscrowError::DeadlineNotReached,
        }
    }

    /// The call-level error that stands for a refused single-escrow
    /// operation.
    pub fn from_validation(e: ValidationError) -> (err: EscrowError)
        ensures
            err == EscrowError::of_verdict(e),
    {
        match e {
            ValidationError::EscrowNotFound => EscrowError::EscrowNotFound,
            ValidationError::AlreadyReleased => EscrowError::EscrowNotActive,
            ValidationError::AlreadyReversed => EscrowError::EscrowNotActive,
            ValidationError::Unauthorized => EscrowError::Unauthorized,
            ValidationError::DeadlineNotReached => EscrowError::DeadlineNotReached,
        }
    }
}

impl From<EscrowError> for soroban_sdk::Error {
    fn from(e: EscrowError) -> (error: soroban_sdk::Error) {
        host_error_of(e.code())
    }
}

impl vstd::std_specs::convert::FromSpecImpl<EscrowError> for soroban_sdk::Error {
    open spec fn obeys_from_spec() -> bool {
        true
    }

    open spec fn from_spec(e: EscrowError) -> soroban_sdk::Error {
        contract_error(e.code_of())
    }
}

/// Whether the escrows are in order: every escrow is stored under its own
/// identifier, no identifier beyond the counter is in use, and no amount is
/// negative.
pub open spec fn escrows_in_order(escrows: Map<u64, Escrow>, escrow_counter: u64) -> bool {
    forall|id: u64| #[trigger]
        escrows.contains_key(id) ==> 0 < id <= escrow_counter && escrows[id].escrow_id == id
            && escrows[id].amount >= 0
}

/// The record stored under `id`, if any.
pub open spec fn record_at(escrows: Map<u64, Escrow>, id: u64) -> Option<Escrow> {
    if escrows.contains_key(id) {
        Some(escrows[id])
    } else {
        None
    }
}

/// `escrow` moved to the state `status`.
pub open spec fn with_status(escrow: Escrow, status: EscrowStatus) -> Escrow {
    Escrow { status, ..escrow }
}

/// The store, the balance sheet and the result after one reversal was
/// attempted.
pub struct Reversal {
    pub escrows: Map<u64, Escrow>,
    pub balances: Map<u64, i128>,
    pub result: ReversalResult,
}

/// The store, the balance sheet and the results after a list of reversals was
/// attempted.
pub struct ReversalRun {
    pub escrows: Map<u64, Escrow>,
    pub balances: Map<u64, i128>,
    pub results: Seq<ReversalResult>,
}

/// One reversal, attempted by `caller` on the escrow `id` against the store
/// and the balance sheet as they stand: a refused escrow fails with the code
/// of the verdict and changes nothing; an accepted one is paid back from
/// `holder` to the depositor and becomes `Reversed`, unless the ledger
/// refuses the payment, which fails the item and changes nothing either.
pub open spec fn reverse_one(
    escrows: Map<u64, Escrow>,
    balances: Map<u64, i128>,
    holder: Address,
    caller: Address,
    admin: Address,
    check_deadline: bool,
    current_ledger: u64,
    id: u64,
) -> Reversal {
    match reversal_verdict(record_at(escrows, id), caller, admin, check_deadline, current_ledger) {
        Err(e) => Reversal { escrows, balances, result: ReversalResult::Failure(id, e.code()) },
        Ok(()) => {
            let escrow = escrows[id];
            if transfer_refusal(balances, holder, escrow.depositor, escrow.amount) is Some {
                Reversal {
                    escrows,
                    balances,
                    result: ReversalResult::Failure(id, error_code::TRANSFER_FAILED),
                }
            } else {
                Reversal {
                    escrows: escrows.insert(id, with_status(escrow, EscrowStatus::Reversed)),
                    balances: after_transfer(balances, holder, escrow.depositor, escrow.amount),
                    result: ReversalResult::Success(id, escrow.depositor, escrow.amount),
                }
            }
        },
    }
}

/// The requests of a batch attempted one after the other, in their order,
/// each against the store and the balance sheet that the one before it left.
pub open spec fn reverse_all(
    escrows: Map<u64, Escrow>,
    balances: Map<u64, i128>,
    holder: Address,
    caller: Address,
    admin: Address,
    current_ledger: u64,
    requests: Seq<ReversalRequest>,
) -> ReversalRun
    decreases requests.len(),
{
    if requests.len() == 0 {
        ReversalRun { escrows, balances, results: Seq::empty() }
    } else {
        let before = reverse_all(
            escrows,
            balances,
            holder,
            caller,
            admin,
            current_ledger,
            requests.drop_last(),
        );
        let step = reverse_one(
            before.escrows,
            before.balances,
            holder,
            caller,
            admin,
            false,
            current_ledger,
            requests.last().escrow_id,
        );
        ReversalRun {
            escrows: step.escrows,
            balances: step.balances,
            results: before.results.push(step.result),
        }
    }
}

/// Whether the store `after` can have come from the store `before`: it holds
/// the same escrows, and each is as it was, or was active and has reached a
/// final state.
pub open spec fn evolved_from(before: Map<u64, Escrow>, after: Map<u64, Escrow>) -> bool {
    &&& forall|id: u64| before.contains_key(id) <==> after.contains_key(id)
    &&& forall|id: u64| #[trigger]
        before.contains_key(id) ==> after[id] == before[id] || (before[id].status
            == EscrowStatus::Active && after[id].status != EscrowStatus::Active && after[id]
            == with_status(before[id], after[id].status))
}

/// The audit event of one reversal result.
pub open spec fn reversal_event(batch_id: u64, result: ReversalResult) -> EscrowEvent {
    match result {
        ReversalResult::Success(escrow_id, depositor, amount) => EscrowEvent::ReversalSuccess {
            batch_id,
            escrow_id,
            depositor,
            amount,
        },
        ReversalResult::Failure(escrow_id, error_code) => EscrowEvent::ReversalFailure {
            batch_id,
            escrow_id,
            error_code,
        },
    }
}

/// The audit events of the results of a batch, one per result and in the same
/// order.
pub open spec fn reversal_events(batch_id: u64, results: Seq<ReversalResult>) -> Seq<EscrowEvent> {
    Seq::new(results.len(), |i: int| reversal_event(batch_id, results[i]))
}

/// The reason, if any, for which a batch reversal aborts as a whole. The
/// rules are tried in this order: the service is initialized; the caller is
/// the administrator; the batch is not empty; it holds at most
/// `MAX_BATCH_SIZE` requests; the lifetime counters have room for it.
pub open spec fn batch_reversal_refusal(
    admin: Option<Address>,
    total_batches: u64,
    total_reversed: u64,
    caller: Address,
    request_count: nat,
) -> Option<EscrowError> {
    if admin is None {
        Some(EscrowError::NotInitialized)
    } else if admin != Some(caller) {
        Some(EscrowError::Unauthorized)
    } else if request_count == 0 {
        Some(EscrowError::EmptyBatch)
    } else if request_count > MAX_BATCH_SIZE {
        Some(EscrowError::BatchTooLarge)
    } else if total_batches == u64::MAX || total_reversed + request_count > u64::MAX {
        Some(EscrowError::CounterOverflow)
    } else {
        None
    }
}

/// The store and the result after one reversal was settled.
pub struct Settlement {
    pub escrows: Map<u64, Escrow>,
    pub result: ReversalResult,
}

/// The payment that a reversal of the escrow `id` by `caller` asks for: the
/// depositor and the amount of the escrow, where the service is initialized
/// and `reversal_verdict` accepts the reversal, and none otherwise.
pub open spec fn payment_of(
    admin: Option<Address>,
    escrows: Map<u64, Escrow>,
    caller: Address,
    check_deadline: bool,
    current_ledger: u64,
    id: u64,
) -> Option<(Address, i128)> {
    match admin {
        None => None,
        Some(a) => match reversal_verdict(
            record_at(escrows, id),
            caller,
            a,
            check_deadline,
            current_ledger,
        ) {
            Err(_) => None,
            Ok(()) => Some((escrows[id].depositor, escrows[id].amount)),
        },
    }
}

/// One reversal once its payment was attempted, where `paid` says whether
/// the token accepted the payment: a refused escrow fails with the code of
/// the verdict, whatever `paid` says; an accepted one that was paid becomes
/// `Reversed`; an accepted one that was not paid fails with
/// `TRANSFER_FAILED`. A failure changes nothing.
pub open spec fn settled_reversal(
    escrows: Map<u64, Escrow>,
    caller: Address,
    admin: Address,
    check_deadline: bool,
    current_ledger: u64,
    id: u64,
    paid: bool,
) -> Settlement {
    match reversal_verdict(record_at(escrows, id), caller, admin, check_deadline, current_ledger) {
        Err(e) => Settlement { escrows, result: ReversalResult::Failure(id, e.code()) },
        Ok(()) => if paid {
            Settlement {
                escrows: escrows.insert(id, with_status(escrows[id], EscrowStatus::Reversed)),
                result: ReversalResult::Success(id, escrows[id].depositor, escrows[id].amount),
            }
        } else {
            Settlement {
                escrows,
                result: ReversalResult::Failure(id, error_code::TRANSFER_FAILED),
            }
        },
    }
}

/// Whether no result reports a negative amount as reversed.
pub open spec fn amounts_in_order(results: Seq<ReversalResult>) -> bool {
    forall|i: int| 0 <= i < results.len() ==> (#[trigger] results[i]).moved() >= 0
}

/// The reason, if any, for which settled reversals are not recorded as a
/// batch: one of `batch_reversal_refusal`, or a result reports a negative
/// amount as reversed.
pub open spec fn recording_refusal(
    admin: Option<Address>,
    total_batches: u64,
    total_reversed: u64,
    caller: Address,
    results: Seq<ReversalResult>,
) -> Option<EscrowError> {
    if batch_reversal_refusal(admin, total_batches, total_reversed, caller, results.len())
        is Some {
        batch_reversal_refusal(admin, total_batches, total_reversed, caller, results.len())
    } else if !amounts_in_order(results) {
        Some(EscrowError::InvalidAmount)
    } else {
        None
    }
}

/// Whether no result reports a negative amount as reversed.
fn check_amounts(results: &Vec<ReversalResult>) -> (in_order: bool)
    ensures
        in_order == amounts_in_order(results@),
{
    let n = results.len();
    let mut i: usize = 0;
    while i < n
        invariant
            n == results.len(),
            i <= n,
            forall|j: int| 0 <= j < i ==> (#[trigger] results@[j]).moved() >= 0,
        decreases n - i,
    {
        if let ReversalResult::Success(_, _, amount) = results[i] {
            if amount < 0 {
                assert(results@[i as int].moved() < 0);
                return false;
            }
        }
        i = i + 1;
    }
    true
}

/// Counts and sums the results of a batch, appending one audit event per
/// result.
fn tally_reversals(events: &mut Vec<EscrowEvent>, batch_id: u64, results: &Vec<ReversalResult>) -> (tally:
    (u32, i128))
    requires
        results.len() <= MAX_BATCH_SIZE,
        amounts_in_order(results@),
    ensures
        tally.0 == successes(results@),
        tally.1 == saturate(volume(results@)),
        volume(results@) >= 0,
        final(events)@ == old(events)@ + reversal_events(batch_id, results@),
{
    let n = results.len();
    let mut successful: u32 = 0;
    let mut total: i128 = 0;
    let mut i: usize = 0;
    assert(results@.take(0) =~= Seq::<ReversalResult>::empty());
    assert(events@ =~= old(events)@ + reversal_events(batch_id, results@.take(0)));
    while i < n
        invariant
            n == results.len(),
            n <= MAX_BATCH_SIZE,
            i <= n,
            amounts_in_order(results@),
            successful == successes(results@.take(i as int)),
            successful <= i,
            total == saturate(volume(results@.take(i as int))),
            volume(results@.take(i as int)) >= 0,
            events@ == old(events)@ + reversal_events(batch_id, results@.take(i as int)),
        decreases n - i,
    {
        let result = results[i];
        proof {
            assert(results@.take(i + 1) =~= results@.take(i as int).push(result));
            lemma_tally_push(results@.take(i as int), result);
            assert(results@[i as int].moved() >= 0);
        }
        match result {
            ReversalResult::Success(escrow_id, depositor, amount) => {
                successful = successful + 1;
                total = saturating_add(total, amount);
                events.push(EscrowEvents::reversal_success(batch_id, escrow_id, &depositor, amount));
            },
            ReversalResult::Failure(escrow_id, code) => {
                events.push(EscrowEvents::reversal_failure(batch_id, escrow_id, code));
            },
        }
        i = i + 1;
        proof {
            assert(reversal_events(batch_id, results@.take(i as int)) =~= reversal_events(
                batch_id,
                results@.take(i - 1),
            ).push(reversal_event(batch_id, result)));
            assert(events@ =~= old(events)@ + reversal_events(batch_id, results@.take(i as int)));
        }
    }
    assert(results@.take(n as int) =~= results@);
    (successful, total)
}

/// Attempts one reversal of a batch on the store and the ledger.
fn reverse_item(
    escrows: &mut HashMap<u64, Escrow>,
    ledger: &mut Ledger,
    holder: &Address,
    caller: &Address,
    admin: &Address,
    current_ledger: u64,
    id: u64,
) -> (result: ReversalResult)
    ensures
        (Reversal { escrows: final(escrows)@, balances: final(ledger)@, result }) == reverse_one(
            old(escrows)@,
            old(ledger)@,
            *holder,
            *caller,
            *admin,
            false,
            current_ledger,
            id,
        ),
{
    let found: Option<Escrow> = match escrows.get(&id) {
        Some(e) => Some(*e),
        None => None,
    };
    assert(found == record_at(escrows@, id));
    let verdict = match &found {
        Some(e) => validate_reversal(Some(e), caller, admin, false, current_ledger),
        None => validate_reversal(None, caller, admin, false, current_ledger),
    };
    match verdict {
        Err(e) => ReversalResult::Failure(id, e.to_error_code()),
        Ok(()) => {
            let escrow = found.unwrap();
            match ledger.transfer(holder, &escrow.depositor, escrow.amount) {
                Err(_) => ReversalResult::Failure(id, error_code::TRANSFER_FAILED),
                Ok(()) => {
                    let mut updated = escrow;
                    updated.status = EscrowStatus::Reversed;
                    escrows.insert(id, updated);
                    ReversalResult::Success(id, escrow.depositor, escrow.amount)
                },
            }
        },
    }
}

/// Attempts the reversals of a batch in order, appending one audit event per
/// request.
fn reverse_each(
    escrows: &mut HashMap<u64, Escrow>,
    ledger: &mut Ledger,
    events: &mut Vec<EscrowEvent>,
    holder: &Address,
    caller: &Address,
    admin: &Address,
    current_ledger: u64,
    batch_id: u64,
    requests: &Vec<ReversalRequest>,
) -> (tally: (Vec<ReversalResult>, u32, i128))
    requires
        requests.len() <= MAX_BATCH_SIZE,
    ensures
        (ReversalRun { escrows: final(escrows)@, balances: final(ledger)@, results: tally.0@ })
            == reverse_all(
            old(escrows)@,
            old(ledger)@,
            *holder,
            *caller,
            *admin,
            current_ledger,
            requests@,
        ),
        tally.0@.len() == requests@.len(),
        tally.1 == successes(tally.0@),
        tally.2 == saturate(volume(tally.0@)),
        volume(tally.0@) >= 0,
        final(events)@ == old(events)@ + reversal_events(batch_id, tally.0@),
        evolved_from(old(escrows)@, final(escrows)@),
{
    let n = requests.len();
    let mut results: Vec<ReversalResult> = Vec::new();
    let mut successful: u32 = 0;
    let mut total: i128 = 0;
    let mut i: usize = 0;
    assert(requests@.take(0) =~= Seq::<ReversalRequest>::empty());
    assert(events@ =~= old(events)@ + reversal_events(batch_id, results@));
    while i < n
        invariant
            n == requests.len(),
            n <= MAX_BATCH_SIZE,
            i <= n,
            results@.len() == i,
            (ReversalRun { escrows: escrows@, balances: ledger@, results: results@ })
                == reverse_all(
                old(escrows)@,
                old(ledger)@,
                *holder,
                *caller,
                *admin,
                current_ledger,
                requests@.take(i as int),
            ),
            successful == successes(results@),
            successful <= i,
            total == saturate(volume(results@)),
            volume(results@) >= 0,
            events@ == old(events)@ + reversal_events(batch_id, results@),
            evolved_from(old(escrows)@, escrows@),
        decreases n - i,
    {
        let id = requests[i].escrow_id;
        let ghost before_escrows = escrows@;
        let ghost before_balances = ledger@;
        let ghost before_results = results@;
        let ghost before_events = events@;
        let result = reverse_item(escrows, ledger, holder, caller, admin, current_ledger, id);
        proof {
            assert(requests@.take(i + 1).drop_last() =~= requests@.take(i as int));
            assert(requests@.take(i + 1).last() == requests@[i as int]);
            lemma_tally_push(before_results, result);
            lemma_reverse_one_evolves(
                before_escrows,
                before_balances,
                *holder,
                *caller,
                *admin,
                false,
                current_ledger,
                id,
            );
        }
        match result {
            ReversalResult::Success(escrow_id, depositor, amount) => {
                successful = successful + 1;
                total = saturating_add(total, amount);
                events.push(EscrowEvents::reversal_success(batch_id, escrow_id, &depositor, amount));
            },
            ReversalResult::Failure(escrow_id, code) => {
                events.push(EscrowEvents::reversal_failure(batch_id, escrow_id, code));
            },
        }
        results.push(result);
        i = i + 1;
        proof {
            assert(reversal_events(batch_id, results@) =~= reversal_events(
                batch_id,
                before_results,
            ).push(reversal_event(batch_id, result)));
            assert(events@ =~= old(events)@ + reversal_events(batch_id, results@));
        }
    }
    assert(requests@.take(n as int) =~= requests@);
    (results, successful, total)
}

/// One attempted reversal leaves the store evolved from what it was.
pub proof fn lemma_reverse_one_evolves(
    escrows: Map<u64, Escrow>,
    balances: Map<u64, i128>,
    holder: Address,
    caller: Address,
    admin: Address,
    check_deadline: bool,
    current_ledger: u64,
    id: u64,
)
    ensures
        evolved_from(
            escrows,
            reverse_one(
                escrows,
                balances,
                holder,
                caller,
                admin,
                check_deadline,
                current_ledger,
                id,
            ).escrows,
        ),
{
}

/// The escrow service: its configuration, its escrows, its lifetime counters
/// and its audit log.
#[derive(Debug)]
pub struct EscrowContract {
    contract_address: Address,
    admin: Option<Address>,
    token: Option<Address>,
    escrows: HashMap<u64, Escrow>,
    user_escrows: HashMap<u64, Vec<u64>>,
    escrow_counter: u64,
    total_reversal_batches: u64,
    total_escrows_reversed: u64,
    total_amount_reversed: i128,
    events: Vec<EscrowEvent>,
}

impl EscrowContract {
    /// The account under which the service holds the locked funds.
    pub closed spec fn holder(&self) -> Address {
        self.contract_address
    }

    /// The administrator, once the service is initialized.
    pub closed spec fn admin(&self) -> Option<Address> {
        self.admin
    }

    /// The token of the escrows, once the service is initialized.
    pub closed spec fn token(&self) -> Option<Address> {
        self.token
    }

    /// The escrows by identifier.
    pub closed spec fn escrows(&self) -> Map<u64, Escrow> {
        self.escrows@
    }

    /// The identifiers of the escrows that `user` deposited, oldest first.
    pub closed spec fn escrows_of(&self, user: Address) -> Seq<u64> {
        if self.user_escrows@.contains_key(user.id) {
            self.user_escrows@[user.id]@
        } else {
            Seq::empty()
        }
    }

    /// The number of escrows created so far, which is also the last
    /// identifier given out.
    pub closed spec fn escrow_counter(&self) -> u64 {
        self.escrow_counter
    }

    /// The number of reversal batches processed.
    pub closed spec fn total_reversal_batches(&self) -> u64 {
        self.total_reversal_batches
    }

    /// The number of escrows reversed by batches.
    pub closed spec fn total_escrows_reversed(&self) -> u64 {
        self.total_escrows_reversed
    }

    /// The amount reversed by batches, capped at the largest amount.
    pub closed spec fn total_amount_reversed(&self) -> i128 {
        self.total_amount_reversed
    }

    /// The audit log, oldest event first.
    pub closed spec fn events(&self) -> Seq<EscrowEvent> {
        self.events@
    }

    /// The escrows are in order: see `escrows_in_order`.
    pub closed spec fn wf(&self) -> bool {
        escrows_in_order(self.escrows@, self.escrow_counter)
    }

    /// What `wf` says, over the escrows and the counter.
    pub proof fn lemma_wf(&self)
        requires
            self.wf(),
        ensures
            escrows_in_order(self.escrows(), self.escrow_counter()),
    {
    }

    /// Whether `other` has the holder, the administrator and the token of
    /// this service.
    pub open spec fn same_setup(&self, other: &EscrowContract) -> bool {
        &&& self.holder() == other.holder()
        &&& self.admin() == other.admin()
        &&& self.token() == other.token()
    }

    /// Whether `other` lists the same escrows for every depositor.
    pub open spec fn same_lists(&self, other: &EscrowContract) -> bool {
        forall|user: Address| #[trigger] self.escrows_of(user) == other.escrows_of(user)
    }

    /// Whether `other` has the lifetime reversal counters of this service.
    pub open spec fn same_totals(&self, other: &EscrowContract) -> bool {
        &&& self.total_reversal_batches() == other.total_reversal_batches()
        &&& self.total_escrows_reversed() == other.total_escrows_reversed()
        &&& self.total_amount_reversed() == other.total_amount_reversed()
    }

    /// Whether `other` has the holder, the escrows, the depositors' lists,
    /// the counters and the audit log of this service.
    pub open spec fn same_books(&self, other: &EscrowContract) -> bool {
        &&& self.holder() == other.holder()
        &&& self.escrows() == other.escrows()
        &&& self.escrow_counter() == other.escrow_counter()
        &&& self.same_lists(other)
        &&& self.same_totals(other)
        &&& self.events() == other.events()
    }

    /// A service that holds its funds under `contract_address` and is not yet
    /// initialized.
    pub fn new(contract_address: Address) -> (contract: EscrowContract)
        ensures
            contract.wf(),
            contract.holder() == contract_address,
            contract.admin() is None,
            contract.token() is None,
            contract.escrows() == Map::<u64, Escrow>::empty(),
            forall|user: Address| contract.escrows_of(user) == Seq::<u64>::empty(),
            contract.escrow_counter() == 0,
            contract.total_reversal_batches() == 0,
            contract.total_escrows_reversed() == 0,
            contract.total_amount_reversed() == 0,
            contract.events() == Seq::<EscrowEvent>::empty(),
    {
        EscrowContract {
            contract_address,
            admin: None,
            token: None,
            escrows: HashMap::new(),
            user_escrows: HashMap::new(),
            escrow_counter: 0,
            total_reversal_batches: 0,
            total_escrows_reversed: 0,
            total_amount_reversed: 0,
            events: Vec::new(),
        }
    }

    /// A service as it was persisted: with its configuration and its
    /// counters, and without escrows and events, which `load_escrow` and
    /// `load_user_escrows` bring back one by one.
    pub fn restore(
        contract_address: Address,
        admin: Option<Address>,
        token: Option<Address>,
        escrow_counter: u64,
        total_reversal_batches: u64,
        total_escrows_reversed: u64,
        total_amount_reversed: i128,
    ) -> (contract: EscrowContract)
        ensures
            contract.wf(),
            contract.holder() == contract_address,
            contract.admin() == admin,
            contract.token() == token,
            contract.escrows() == Map::<u64, Escrow>::empty(),
            forall|user: Address| contract.escrows_of(user) == Seq::<u64>::empty(),
            contract.escrow_counter() == escrow_counter,
            contract.total_reversal_batches() == total_reversal_batches,
            contract.total_escrows_reversed() == total_escrows_reversed,
            contract.total_amount_reversed() == total_amount_reversed,
            contract.events() == Seq::<EscrowEvent>::empty(),
    {
        EscrowContract {
            contract_address,
            admin,
            token,
            escrows: HashMap::new(),
            user_escrows: HashMap::new(),
            escrow_counter,
            total_reversal_batches,
            total_escrows_reversed,
            total_amount_reversed,
            events: Vec::new(),
        }
    }

    /// Brings back one persisted escrow under its own identifier. An escrow
    /// whose identifier was never given out (zero, or beyond the counter), or
    /// whose amount is negative, is not taken, and `false` is returned.
    pub fn load_escrow(&mut self, escrow: Escrow) -> (taken: bool)
        requires
            old(self).wf(),
        ensures
            final(self).wf(),
            taken == (0 < escrow.escrow_id <= old(self).escrow_counter() && escrow.amount >= 0),
            taken ==> final(self).escrows() == old(self).escrows().insert(
                escrow.escrow_id,
                escrow,
            ),
            !taken ==> final(self).escrows() == old(self).escrows(),
            final(self).same_setup(old(self)),
            final(self).same_lists(old(self)),
            final(self).same_totals(old(self)),
            final(self).escrow_counter() == old(self).escrow_counter(),
            final(self).events() == old(self).events(),
    {
        if escrow.escrow_id == 0 || escrow.escrow_id > self.escrow_counter || escrow.amount < 0 {
            return false;
        }
        self.escrows.insert(escrow.escrow_id, escrow);
        true
    }

    /// Brings back the persisted list of the escrows that `user` deposited.
    pub fn load_user_escrows(&mut self, user: &Address, ids: Vec<u64>)
        ensures
            old(self).wf() ==> final(self).wf(),
            final(self).escrows_of(*user) == ids@,
            forall|other: Address|
                other != *user ==> #[trigger] final(self).escrows_of(other) == old(self).escrows_of(other),
            final(self).escrows() == old(self).escrows(),
            final(self).same_setup(old(self)),
            final(self).same_totals(old(self)),
            final(self).escrow_counter() == old(self).escrow_counter(),
            final(self).events() == old(self).events(),
    {
        self.user_escrows.insert(user.id, ids);
        proof {
            assert forall|other: Address| other != *user implies #[trigger] self.escrows_of(other)
                == old(self).escrows_of(other) by {
                assert(other.id != user.id);
            }
        }
    }

    /// Initializes the contract with an admin address and token. A service is
    /// initialized once.
    pub fn initialize(&mut self, admin: Address, token: Address) -> (r: Result<(), EscrowError>)
        ensures
            old(self).admin() is Some ==> r == Err::<(), EscrowError>(
                EscrowError::AlreadyInitialized,
            ) && *final(self) == *old(self),
            old(self).admin() is None ==> r is Ok && final(self).admin() == Some(admin)
                && final(self).token() == Some(token) && final(self).same_books(old(self)),
            old(self).wf() ==> final(self).wf(),
    {
        if self.admin.is_some() {
            return Err(EscrowError::AlreadyInitialized);
        }
        self.admin = Some(admin);
        self.token = Some(token);
        Ok(())
    }

    /// Checks that the service is initialized and that `caller` is its
    /// administrator.
    pub fn require_admin(&self, caller: &Address) -> (r: Result<(), EscrowError>)
        ensures
            r == (if self.admin() is None {
                Err::<(), EscrowError>(EscrowError::NotInitialized)
            } else if self.admin() != Some(*caller) {
                Err::<(), EscrowError>(EscrowError::Unauthorized)
            } else {
                Ok::<(), EscrowError>(())
            }),
    {
        match self.admin {
            None => Err(EscrowError::NotInitialized),
            Some(admin) => if admin.id == caller.id {
                Ok(())
            } else {
                Err(EscrowError::Unauthorized)
            },
        }
    }

    /// Creates a new escrow.
    ///
    /// Locks `amount` of the depositor's funds under the service's own
    /// account until they are released to the recipient or reversed. The new
    /// escrow gets the next identifier, which no escrow ever had; it is
    /// `Active` and was created at the ledger sequence `current_ledger`.
    pub fn create_escrow(
        &mut self,
        ledger: &mut Ledger,
        depositor: &Address,
        recipient: &Address,
        amount: i128,
        deadline: u64,
        current_ledger: u64,
    ) -> (r: Result<u64, EscrowError>)
        requires
            old(self).wf(),
        ensures
            final(self).wf(),
            match creation_refusal(
                old(self).token(),
                old(self).escrow_counter(),
                old(ledger)@,
                old(self).holder(),
                *depositor,
                amount,
            ) {
                Some(e) => r == Err::<u64, EscrowError>(e) && *final(self) == *old(self) && final(ledger)@ == old(ledger)@,
                None => {
                    let id = (old(self).escrow_counter() + 1) as u64;
                    let escrow = Escrow {
                        escrow_id: id,
                        depositor: *depositor,
                        recipient: *recipient,
                        token: old(self).token().unwrap(),
                        amount,
                        status: EscrowStatus::Active,
                        created_at: current_ledger,
                        deadline,
                    };
                    &&& r == Ok::<u64, EscrowError>(id)
                    &&& !old(self).escrows().contains_key(id)
                    &&& final(self).escrows() == old(self).escrows().insert(id, escrow)
                    &&& final(self).escrow_counter() == id
                    &&& final(self).escrows_of(*depositor) == old(self).escrows_of(
                        *depositor,
                    ).push(id)
                    &&& forall|user: Address|
                        user != *depositor ==> #[trigger] final(self).escrows_of(user) == old(self).escrows_of(user)
                    &&& final(ledger)@ == after_transfer(
                        old(ledger)@,
                        *depositor,
                        old(self).holder(),
                        amount,
                    )
                    &&& final(self).events() == old(self).events().push(
                        EscrowEvent::Created {
                            escrow_id: id,
                            depositor: *depositor,
                            recipient: *recipient,
                            amount,
                        },
                    )
                    &&& final(self).same_setup(old(self))
                    &&& final(self).same_totals(old(self))
                },
            },
    {
        if amount <= 0 {
            return Err(EscrowError::InvalidAmount);
        }
        let token = match self.token {
            Some(t) => t,
            None => {
                return Err(EscrowError::NotInitialized);
            },
        };
        if self.escrow_counter == u64::MAX {
            return Err(EscrowError::CounterOverflow);
        }
        let holder = self.contract_address;
        if ledger.transfer(depositor, &holder, amount).is_err() {
            return Err(EscrowError::TransferFailed);
        }
        let escrow_id = self.escrow_counter + 1;
        self.escrow_counter = escrow_id;
        let escrow = Escrow {
            escrow_id,
            depositor: *depositor,
            recipient: *recipient,
            token,
            amount,
            status: EscrowStatus::Active,
            created_at: current_ledger,
            deadline,
        };
        self.escrows.insert(escrow_id, escrow);
        let mut list = match self.user_escrows.remove(&depositor.id) {
            Some(l) => l,
            None => Vec::new(),
        };
        list.push(escrow_id);
        self.user_escrows.insert(depositor.id, list);
        self.events.push(EscrowEvents::escrow_created(escrow_id, depositor, recipient, amount));
        proof {
            assert forall|user: Address| user != *depositor implies #[trigger] self.escrows_of(
                user,
            ) == old(self).escrows_of(user) by {
                assert(user.id != depositor.id);
            }
        }
        Ok(escrow_id)
    }

    /// Batch reverses multiple escrows.
    ///
    /// The call aborts as a whole, changing nothing, when
    /// `batch_reversal_refusal` gives a reason. Otherwise the batch gets the
    /// next batch identifier and every request is attempted in its order
    /// against the escrows and the ledger as the requests before it left
    /// them, so that an escrow listed twice is reversed once. The lifetime
    /// counters are then advanced once: one more batch, the escrows reversed
    /// by it, and their amount, capped at the largest amount. The audit log
    /// receives the start of the batch, one event per request, and its
    /// completion.
    pub fn batch_reverse_escrows(
        &mut self,
        ledger: &mut Ledger,
        caller: &Address,
        requests: &Vec<ReversalRequest>,
        current_ledger: u64,
    ) -> (r: Result<BatchReversalResult, EscrowError>)
        requires
            old(self).wf(),
        ensures
            final(self).wf(),
            match batch_reversal_refusal(
                old(self).admin(),
                old(self).total_reversal_batches(),
                old(self).total_escrows_reversed(),
                *caller,
                requests@.len(),
            ) {
                Some(e) => r == Err::<BatchReversalResult, EscrowError>(e) && *final(self) == *old(self) && final(ledger)@ == old(ledger)@,
                None => r matches Ok(batch) && {
                    let run = reverse_all(
                        old(self).escrows(),
                        old(ledger)@,
                        old(self).holder(),
                        *caller,
                        old(self).admin().unwrap(),
                        current_ledger,
                        requests@,
                    );
                    &&& final(self).escrows() == run.escrows
                    &&& final(ledger)@ == run.balances
                    &&& batch.results@ == run.results
                    &&& batch.batch_id == old(self).total_reversal_batches() + 1
                    &&& batch.total_requests == requests@.len()
                    &&& batch.results@.len() == requests@.len()
                    &&& batch.successful == successes(batch.results@)
                    &&& batch.failed == failures(batch.results@)
                    &&& batch.successful + batch.failed == batch.total_requests
                    &&& batch.total_reversed == saturate(volume(batch.results@))
                    &&& volume(batch.results@) >= 0
                    &&& final(self).total_reversal_batches() == old(self).total_reversal_batches()
                        + 1
                    &&& final(self).total_escrows_reversed() == old(self).total_escrows_reversed()
                        + batch.successful
                    &&& final(self).total_amount_reversed() == saturate(
                        old(self).total_amount_reversed() + batch.total_reversed,
                    )
                    &&& final(self).events() == old(self).events().push(
                        EscrowEvent::ReversalStarted {
                            batch_id: batch.batch_id,
                            request_count: batch.total_requests,
                        },
                    ) + reversal_events(batch.batch_id, batch.results@).push(
                        EscrowEvent::ReversalCompleted {
                            batch_id: batch.batch_id,
                            successful: batch.successful,
                            failed: batch.failed,
                            total_reversed: batch.total_reversed,
                        },
                    )
                    &&& evolved_from(old(self).escrows(), final(self).escrows())
                    &&& final(self).same_setup(old(self))
                    &&& final(self).same_lists(old(self))
                    &&& final(self).escrow_counter() == old(self).escrow_counter()
                },
            },
    {
        let admin = match self.admin {
            Some(a) => a,
            None => {
                return Err(EscrowError::NotInitialized);
            },
        };
        if admin.id != caller.id {
            return Err(EscrowError::Unauthorized);
        }
        let n = requests.len();
        if n == 0 {
            return Err(EscrowError::EmptyBatch);
        }
        if n > MAX_BATCH_SIZE as usize {
            return Err(EscrowError::BatchTooLarge);
        }
        let request_count = n as u32;
        if self.total_reversal_batches == u64::MAX || self.total_escrows_reversed > u64::MAX
            - request_count as u64 {
            return Err(EscrowError::CounterOverflow);
        }
        let batch_id = self.total_reversal_batches + 1;
        let holder = self.contract_address;
        self.events.push(EscrowEvents::batch_reversal_started(batch_id, request_count));
        let (results, successful, total_reversed) = reverse_each(
            &mut self.escrows,
            ledger,
            &mut self.events,
            &holder,
            caller,
            &admin,
            current_ledger,
            batch_id,
            requests,
        );
        proof {
            lemma_counts_partition(results@);
        }
        let failed = request_count - successful;
        self.total_reversal_batches = batch_id;
        self.total_escrows_reversed = self.total_escrows_reversed + successful as u64;
        self.total_amount_reversed = saturating_add(self.total_amount_reversed, total_reversed);
        self.events.push(
            EscrowEvents::batch_reversal_completed(batch_id, successful, failed, total_reversed),
        );
        proof {
            assert(self.events@ =~= old(self).events().push(
                EscrowEvent::ReversalStarted { batch_id, request_count },
            ) + reversal_events(batch_id, results@).push(
                EscrowEvent::ReversalCompleted { batch_id, successful, failed, total_reversed },
            ));
        }
        Ok(
            BatchReversalResult {
                batch_id,
                total_requests: request_count,
                successful,
                failed,
                total_reversed,
                results,
            },
        )
    }

    /// Returns the funds of one escrow to its depositor.
    ///
    /// The administrator may do so at any time, the depositor once the ledger
    /// sequence has reached the escrow's deadline. On success the escrow is
    /// `Reversed` and the amount paid back is returned; a refused call
    /// changes nothing.
    pub fn reverse_escrow(
        &mut self,
        ledger: &mut Ledger,
        caller: &Address,
        escrow_id: u64,
        current_ledger: u64,
    ) -> (r: Result<i128, EscrowError>)
        requires
            old(self).wf(),
        ensures
            final(self).wf(),
            match self_reversal_refusal(
                old(self).admin(),
                old(self).escrows(),
                old(ledger)@,
                old(self).holder(),
                *caller,
                escrow_id,
                current_ledger,
            ) {
                Some(e) => r == Err::<i128, EscrowError>(e) && *final(self) == *old(self) && final(ledger)@ == old(ledger)@,
                None => {
                    let escrow = old(self).escrows()[escrow_id];
                    &&& r == Ok::<i128, EscrowError>(escrow.amount)
                    &&& final(self).escrows() == old(self).escrows().insert(
                        escrow_id,
                        with_status(escrow, EscrowStatus::Reversed),
                    )
                    &&& final(ledger)@ == after_transfer(
                        old(ledger)@,
                        old(self).holder(),
                        escrow.depositor,
                        escrow.amount,
                    )
                    &&& final(self).events() == old(self).events()
                    &&& final(self).same_setup(old(self))
                    &&& final(self).same_lists(old(self))
                    &&& final(self).same_totals(old(self))
                    &&& final(self).escrow_counter() == old(self).escrow_counter()
                },
            },
            evolved_from(old(self).escrows(), final(self).escrows()),
    {
        let admin = match self.admin {
            Some(a) => a,
            None => {
                return Err(EscrowError::NotInitialized);
            },
        };
        let found: Option<Escrow> = match self.escrows.get(&escrow_id) {
            Some(e) => Some(*e),
            None => None,
        };
        let verdict = match &found {
            Some(e) => validate_reversal(Some(e), caller, &admin, true, current_ledger),
            None => validate_reversal(None, caller, &admin, true, current_ledger),
        };
        if let Err(e) = verdict {
            return Err(EscrowError::from_validation(e));
        }
        let escrow = found.unwrap();
        let holder = self.contract_address;
        if ledger.transfer(&holder, &escrow.depositor, escrow.amount).is_err() {
            return Err(EscrowError::TransferFailed);
        }
        let mut updated = escrow;
        updated.status = EscrowStatus::Reversed;
        self.escrows.insert(escrow_id, updated);
        Ok(escrow.amount)
    }

    /// The payment that a reversal of `escrow_id` by `caller` asks for, if
    /// the reversal is accepted as the escrows stand: see `payment_of`.
    pub fn payment_due(
        &self,
        caller: &Address,
        escrow_id: u64,
        check_deadline: bool,
        current_ledger: u64,
    ) -> (due: Option<(Address, i128)>)
        ensures
            due == payment_of(
                self.admin(),
                self.escrows(),
                *caller,
                check_deadline,
                current_ledger,
                escrow_id,
            ),
    {
        let admin = match self.admin {
            Some(a) => a,
            None => {
                return None;
            },
        };
        let found: Option<Escrow> = match self.escrows.get(&escrow_id) {
            Some(e) => Some(*e),
            None => None,
        };
        let verdict = match &found {
            Some(e) => validate_reversal(Some(e), caller, &admin, check_deadline, current_ledger),
            None => validate_reversal(None, caller, &admin, check_deadline, current_ledger),
        };
        match verdict {
            Err(_) => None,
            Ok(()) => {
                let escrow = found.unwrap();
                Some((escrow.depositor, escrow.amount))
            },
        }
    }

    /// Settles one reversal whose payment was attempted outside the service,
    /// where `paid` says whether the token accepted the payment that
    /// `payment_due` asked for.
    ///
    /// On a service that is not initialized the call aborts and changes
    /// nothing. Otherwise the escrow and the result are those of
    /// `settled_reversal`: a refused payment fails this reversal and leaves
    /// the escrow `Active`. The lifetime counters and the audit log are left
    /// to `record_reversal_batch`.
    pub fn settle_reversal(
        &mut self,
        caller: &Address,
        escrow_id: u64,
        check_deadline: bool,
        current_ledger: u64,
        paid: bool,
    ) -> (r: Result<ReversalResult, EscrowError>)
        requires
            old(self).wf(),
        ensures
            final(self).wf(),
            match old(self).admin() {
                None => r == Err::<ReversalResult, EscrowError>(EscrowError::NotInitialized)
                    && *final(self) == *old(self),
                Some(admin) => r matches Ok(result) && {
                    &&& (Settlement { escrows: final(self).escrows(), result }) == settled_reversal(
                        old(self).escrows(),
                        *caller,
                        admin,
                        check_deadline,
                        current_ledger,
                        escrow_id,
                        paid,
                    )
                    &&& final(self).events() == old(self).events()
                    &&& final(self).same_setup(old(self))
                    &&& final(self).same_lists(old(self))
                    &&& final(self).same_totals(old(self))
                    &&& final(self).escrow_counter() == old(self).escrow_counter()
                },
            },
            evolved_from(old(self).escrows(), final(self).escrows()),
    {
        let admin = match self.admin {
            Some(a) => a,
            None => {
                return Err(EscrowError::NotInitialized);
            },
        };
        let found: Option<Escrow> = match self.escrows.get(&escrow_id) {
            Some(e) => Some(*e),
            None => None,
        };
        let verdict = match &found {
            Some(e) => validate_reversal(Some(e), caller, &admin, check_deadline, current_ledger),
            None => validate_reversal(None, caller, &admin, check_deadline, current_ledger),
        };
        if let Err(e) = verdict {
            return Ok(ReversalResult::Failure(escrow_id, e.to_error_code()));
        }
        if !paid {
            return Ok(ReversalResult::Failure(escrow_id, error_code::TRANSFER_FAILED));
        }
        let escrow = found.unwrap();
        let mut updated = escrow;
        updated.status = EscrowStatus::Reversed;
        self.escrows.insert(escrow_id, updated);
        Ok(ReversalResult::Success(escrow_id, escrow.depositor, escrow.amount))
    }

    /// Whether a batch of `request_count` reversals by `caller` would be
    /// taken up: the reason for which it would abort, if there is one.
    pub fn check_reversal_batch(&self, caller: &Address, request_count: usize) -> (r: Result<
        (),
        EscrowError,
    >)
        ensures
            r == (match batch_reversal_refusal(
                self.admin(),
                self.total_reversal_batches(),
                self.total_escrows_reversed(),
                *caller,
                request_count as nat,
            ) {
                Some(e) => Err::<(), EscrowError>(e),
                None => Ok::<(), EscrowError>(()),
            }),
    {
        let admin = match self.admin {
            Some(a) => a,
            None => {
                return Err(EscrowError::NotInitialized);
            },
        };
        if admin.id != caller.id {
            return Err(EscrowError::Unauthorized);
        }
        if request_count == 0 {
            return Err(EscrowError::EmptyBatch);
        }
        if request_count > MAX_BATCH_SIZE as usize {
            return Err(EscrowError::BatchTooLarge);
        }
        if self.total_reversal_batches == u64::MAX || self.total_escrows_reversed > u64::MAX
            - request_count as u64 {
            return Err(EscrowError::CounterOverflow);
        }
        Ok(())
    }

    /// Records as one batch the reversals that `settle_reversal` settled, in
    /// the order of the requests.
    ///
    /// The call aborts as a whole, changing nothing, when
    /// `recording_refusal` gives a reason. Otherwise the batch gets the next
    /// batch identifier, and the lifetime counters and the audit log are
    /// advanced as by `batch_reverse_escrows`: one more batch, the escrows
    /// reversed, their amount, and the start of the batch, one event per
    /// result and its completion. The escrows are left as they are.
    pub fn record_reversal_batch(&mut self, caller: &Address, results: Vec<ReversalResult>) -> (r:
        Result<BatchReversalResult, EscrowError>)
        requires
            old(self).wf(),
        ensures
            final(self).wf(),
            match recording_refusal(
                old(self).admin(),
                old(self).total_reversal_batches(),
                old(self).total_escrows_reversed(),
                *caller,
                results@,
            ) {
                Some(e) => r == Err::<BatchReversalResult, EscrowError>(e) && *final(self) == *old(self),
                None => r matches Ok(batch) && {
                    &&& batch.results@ == results@
                    &&& batch.batch_id == old(self).total_reversal_batches() + 1
                    &&& batch.total_requests == results@.len()
                    &&& batch.successful == successes(results@)
                    &&& batch.failed == failures(results@)
                    &&& batch.successful + batch.failed == batch.total_requests
                    &&& batch.total_reversed == saturate(volume(results@))
                    &&& volume(results@) >= 0
                    &&& final(self).total_reversal_batches() == old(self).total_reversal_batches()
                        + 1
                    &&& final(self).total_escrows_reversed() == old(self).total_escrows_reversed()
                        + batch.successful
                    &&& final(self).total_amount_reversed() == saturate(
                        old(self).total_amount_reversed() + batch.total_reversed,
                    )
                    &&& final(self).events() == old(self).events().push(
                        EscrowEvent::ReversalStarted {
                            batch_id: batch.batch_id,
                            request_count: batch.total_requests,
                        },
                    ) + reversal_events(batch.batch_id, results@).push(
                        EscrowEvent::ReversalCompleted {
                            batch_id: batch.batch_id,
                            successful: batch.successful,
                            failed: batch.failed,
                            total_reversed: batch.total_reversed,
                        },
                    )
                    &&& final(self).escrows() == old(self).escrows()
                    &&& final(self).same_setup(old(self))
                    &&& final(self).same_lists(old(self))
                    &&& final(self).escrow_counter() == old(self).escrow_counter()
                },
            },
    {
        if let Err(e) = self.check_reversal_batch(caller, results.len()) {
            return Err(e);
        }
        if !check_amounts(&results) {
            return Err(EscrowError::InvalidAmount);
        }
        let request_count = results.len() as u32;
        let batch_id = self.total_reversal_batches + 1;
        self.events.push(EscrowEvents::batch_reversal_started(batch_id, request_count));
        let (successful, total_reversed) = tally_reversals(&mut self.events, batch_id, &results);
        proof {
            lemma_counts_partition(results@);
        }
        let failed = request_count - successful;
        self.total_reversal_batches = batch_id;
        self.total_escrows_reversed = self.total_escrows_reversed + successful as u64;
        self.total_amount_reversed = saturating_add(self.total_amount_reversed, total_reversed);
        self.events.push(
            EscrowEvents::batch_reversal_completed(batch_id, successful, failed, total_reversed),
        );
        proof {
            assert(self.events@ =~= old(self).events().push(
                EscrowEvent::ReversalStarted { batch_id, request_count },
            ) + reversal_events(batch_id, results@).push(
                EscrowEvent::ReversalCompleted { batch_id, successful, failed, total_reversed },
            ));
        }
        Ok(
            BatchReversalResult {
                batch_id,
                total_requests: request_count,
                successful,
                failed,
                total_reversed,
                results,
            },
        )
    }

    /// Releases an escrow to the recipient.
    ///
    /// Can only be called by admin or depositor, on an escrow that is still
    /// active. On success the escrow is `Released` and its funds are with the
    /// recipient; a refused call changes nothing.
    pub fn release_escrow(&mut self, ledger: &mut Ledger, caller: &Address, escrow_id: u64) -> (r:
        Result<(), EscrowError>)
        requires
            old(self).wf(),
        ensures
            final(self).wf(),
            match release_refusal(
                old(self).admin(),
                old(self).escrows(),
                old(ledger)@,
                old(self).holder(),
                *caller,
                escrow_id,
            ) {
                Some(e) => r == Err::<(), EscrowError>(e) && *final(self) == *old(self) && final(ledger)@ == old(ledger)@,
                None => {
                    let escrow = old(self).escrows()[escrow_id];
                    &&& r is Ok
                    &&& final(self).escrows() == old(self).escrows().insert(
                        escrow_id,
                        with_status(escrow, EscrowStatus::Released),
                    )
                    &&& final(ledger)@ == after_transfer(
                        old(ledger)@,
                        old(self).holder(),
                        escrow.recipient,
                        escrow.amount,
                    )
                    &&& final(self).events() == old(self).events().push(
                        EscrowEvent::Released {
                            escrow_id,
                            recipient: escrow.recipient,
                            amount: escrow.amount,
                        },
                    )
                    &&& final(self).same_setup(old(self))
                    &&& final(self).same_lists(old(self))
                    &&& final(self).same_totals(old(self))
                    &&& final(self).escrow_counter() == old(self).escrow_counter()
                },
            },
            evolved_from(old(self).escrows(), final(self).escrows()),
    {
        let admin = match self.admin {
            Some(a) => a,
            None => {
                return Err(EscrowError::NotInitialized);
            },
        };
        let found: Option<Escrow> = match self.escrows.get(&escrow_id) {
            Some(e) => Some(*e),
            None => None,
        };
        let verdict = match &found {
            Some(e) => validate_release(Some(e), caller, &admin),
            None => validate_release(None, caller, &admin),
        };
        if let Err(e) = verdict {
            return Err(EscrowError::from_validation(e));
        }
        let escrow = found.unwrap();
        let holder = self.contract_address;
        if ledger.transfer(&holder, &escrow.recipient, escrow.amount).is_err() {
            return Err(EscrowError::TransferFailed);
        }
        let mut updated = escrow;
        updated.status = EscrowStatus::Released;
        self.escrows.insert(escrow_id, updated);
        self.events.push(
            EscrowEvents::escrow_released(escrow_id, &escrow.recipient, escrow.amount),
        );
        Ok(())
    }

    /// Returns an escrow by ID.
    pub fn get_escrow(&self, escrow_id: u64) -> (found: Option<Escrow>)
        ensures
            found == record_at(self.escrows(), escrow_id),
    {
        match self.escrows.get(&escrow_id) {
            Some(e) => Some(*e),
            None => None,
        }
    }

    /// Returns all escrow IDs for a user.
    pub fn get_user_escrows(&self, user: &Address) -> (ids: Vec<u64>)
        ensures
            ids@ == self.escrows_of(*user),
    {
        match self.user_escrows.get(&user.id) {
            Some(list) => {
                let ids = list.clone();
                assert(ids@ =~= list@);
                ids
            },
            None => Vec::new(),
        }
    }

    /// Returns the admin address.
    pub fn get_admin(&self) -> (r: Result<Address, EscrowError>)
        ensures
            r == (match self.admin() {
                Some(a) => Ok::<Address, EscrowError>(a),
                None => Err::<Address, EscrowError>(EscrowError::NotInitialized),
            }),
    {
        match self.admin {
            Some(a) => Ok(a),
            None => Err(EscrowError::NotInitialized),
        }
    }

    /// Updates the admin address. Only the administrator in office may name
    /// the next one.
    pub fn set_admin(&mut self, current_admin: &Address, new_admin: Address) -> (r: Result<
        (),
        EscrowError,
    >)
        ensures
            old(self).wf() ==> final(self).wf(),
            old(self).admin() is None ==> r == Err::<(), EscrowError>(EscrowError::NotInitialized),
            old(self).admin() is Some && old(self).admin() != Some(*current_admin) ==> r == Err::<
                (),
                EscrowError,
            >(EscrowError::Unauthorized),
            old(self).admin() == Some(*current_admin) ==> r is Ok,
            r is Err ==> *final(self) == *old(self),
            r is Ok ==> final(self).admin() == Some(new_admin) && final(self).token() == old(self).token() && final(self).same_books(old(self)),
    {
        match self.require_admin(current_admin) {
            Err(e) => Err(e),
            Ok(()) => {
                self.admin = Some(new_admin);
                Ok(())
            },
        }
    }

    /// Returns the total number of reversal batches processed.
    pub fn get_total_reversal_batches(&self) -> (n: u64)
        ensures
            n == self.total_reversal_batches(),
    {
        self.total_reversal_batches
    }

    /// Returns the total number of escrows reversed.
    pub fn get_total_escrows_reversed(&self) -> (n: u64)
        ensures
            n == self.total_escrows_reversed(),
    {
        self.total_escrows_reversed
    }

    /// Returns the total amount reversed.
    pub fn get_total_amount_reversed(&self) -> (amount: i128)
        ensures
            amount == self.total_amount_reversed(),
    {
        self.total_amount_reversed
    }

    /// Returns the escrow counter (total escrows created).
    pub fn get_escrow_counter(&self) -> (n: u64)
        ensures
            n == self.escrow_counter(),
    {
        self.escrow_counter
    }

    /// The audit log, oldest event first.
    pub fn event_log(&self) -> (log: &Vec<EscrowEvent>)
        ensures
            log@ == self.events(),
    {
        &self.events
    }
}

/// The reason, if any, for which no escrow is created: the amount is not
/// positive; the service is not initialized; the counter of escrows is
/// exhausted; the ledger refuses to move the funds from the depositor to the
/// holder. The first that applies is reported.
pub open spec fn creation_refusal(
    token: Option<Address>,
    escrow_counter: u64,
    balances: Map<u64, i128>,
    holder: Address,
    depositor: Address,
    amount: i128,
) -> Option<EscrowError> {
    if amount <= 0 {
        Some(EscrowError::InvalidAmount)
    } else if token is None {
        Some(EscrowError::NotInitialized)
    } else if escrow_counter == u64::MAX {
        Some(EscrowError::CounterOverflow)
    } else if transfer_refusal(balances, depositor, holder, amount) is Some {
        Some(EscrowError::TransferFailed)
    } else {
        None
    }
}

/// The reason, if any, for which a single reversal is refused: the service is
/// not initialized; the verdict of `reversal_verdict`, with the deadline
/// enforced; the ledger refuses to pay the depositor. The first that applies
/// is reported.
pub open spec fn self_reversal_refusal(
    admin: Option<Address>,
    escrows: Map<u64, Escrow>,
    balances: Map<u64, i128>,
    holder: Address,
    caller: Address,
    escrow_id: u64,
    current_ledger: u64,
) -> Option<EscrowError> {
    match admin {
        None => Some(EscrowError::NotInitialized),
        Some(a) => match reversal_verdict(
            record_at(escrows, escrow_id),
            caller,
            a,
            true,
            current_ledger,
        ) {
            Err(e) => Some(EscrowError::of_verdict(e)),
            Ok(()) => if transfer_refusal(
                balances,
                holder,
                escrows[escrow_id].depositor,
                escrows[escrow_id].amount,
            ) is Some {
                Some(EscrowError::TransferFailed)
            } else {
                None
            },
        },
    }
}

/// The reason, if any, for which a release is refused: the service is not
/// initialized; the verdict of `release_verdict`; the ledger refuses to pay
/// the recipient. The first that applies is reported.
pub open spec fn release_refusal(
    admin: Option<Address>,
    escrows: Map<u64, Escrow>,
    balances: Map<u64, i128>,
    holder: Address,
    caller: Address,
    escrow_id: u64,
) -> Option<EscrowError> {
    match admin {
        None => Some(EscrowError::NotInitialized),
        Some(a) => match release_verdict(record_at(escrows, escrow_id), caller, a) {
            Err(e) => Some(EscrowError::of_verdict(e)),
            Ok(()) => if transfer_refusal(
                balances,
                holder,
                escrows[escrow_id].recipient,
                escrows[escrow_id].amount,
            ) is Some {
                Some(EscrowError::TransferFailed)
            } else {
                None
            },
        },
    }
}

} // verus!
