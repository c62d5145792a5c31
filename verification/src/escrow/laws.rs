//! What holds of every batch of reversals.

use crate::address::Address;
use crate::escrow::contract::{
    batch_reversal_refusal, evolved_from, lemma_reverse_one_evolves, record_at, release_refusal,
    reverse_all, reverse_one, self_reversal_refusal, settled_reversal, with_status, EscrowError,
    Reversal,
};
use crate::escrow::error_code;
use crate::escrow::types::{
    Escrow, EscrowStatus, ReversalRequest, ReversalResult, MAX_BATCH_SIZE,
};
use crate::ledger::{after_transfer, balance_in, transfer_refusal};
use crate::tally::{
    failures, lemma_counts_partition, lemma_tally_push, saturate, successes, volume,
};
use vstd::prelude::*;

verus! {

/// The request that a result answers: the escrow it names.
pub open spec fn answered_escrow(result: ReversalResult) -> u64 {
    match result {
        ReversalResult::Success(escrow_id, _, _) => escrow_id,
        ReversalResult::Failure(escrow_id, _) => escrow_id,
    }
}

/// A failed reversal changes neither the escrows nor the ledger.
pub proof fn lemma_failure_changes_nothing(
    escrows: Map<u64, Escrow>,
    balances: Map<u64, i128>,
    holder: Address,
    caller: Address,
    admin: Address,
    check_deadline: bool,
    current_ledger: u64,
    id: u64,
)
    ensures
        ({
            let step = reverse_one(
                escrows,
                balances,
                holder,
                caller,
                admin,
                check_deadline,
                current_ledger,
                id,
            );
            step.result is Failure ==> step.escrows == escrows && step.balances == balances
        }),
{
}

/// A reversal that succeeded cannot be repeated: whoever attempts it again,
/// at whatever time, fails with `ALREADY_REVERSED`, and neither the escrows
/// nor the ledger change a second time.
pub proof fn lemma_reversal_happens_once(
    escrows: Map<u64, Escrow>,
    balances: Map<u64, i128>,
    holder: Address,
    caller: Address,
    admin: Address,
    check_deadline: bool,
    current_ledger: u64,
    id: u64,
    next_caller: Address,
    next_admin: Address,
    next_check_deadline: bool,
    next_ledger: u64,
)
    requires
        reverse_one(
            escrows,
            balances,
            holder,
            caller,
            admin,
            check_deadline,
            current_ledger,
            id,
        ).result is Success,
    ensures
        ({
            let first = reverse_one(
                escrows,
                balances,
                holder,
                caller,
                admin,
                check_deadline,
                current_ledger,
                id,
            );
            reverse_one(
                first.escrows,
                first.balances,
                holder,
                next_caller,
                next_admin,
                next_check_deadline,
                next_ledger,
                id,
            ) == (Reversal {
                escrows: first.escrows,
                balances: first.balances,
                result: ReversalResult::Failure(id, error_code::ALREADY_REVERSED),
            })
        }),
{
}

/// A batch answers every request, in the order of the requests.
pub proof fn lemma_results_follow_requests(
    escrows: Map<u64, Escrow>,
    balances: Map<u64, i128>,
    holder: Address,
    caller: Address,
    admin: Address,
    current_ledger: u64,
    requests: Seq<ReversalRequest>,
)
    ensures
        ({
            let run = reverse_all(
                escrows,
                balances,
                holder,
                caller,
                admin,
                current_ledger,
                requests,
            );
            &&& run.results.len() == requests.len()
            &&& forall|i: int|
                0 <= i < requests.len() ==> answered_escrow(#[trigger] run.results[i])
                    == requests[i].escrow_id
        }),
    decreases requests.len(),
{
    if requests.len() > 0 {
        lemma_results_follow_requests(
            escrows,
            balances,
            holder,
            caller,
            admin,
            current_ledger,
            requests.drop_last(),
        );
    }
}

/// The result of the request at `index` is that of one reversal attempted on
/// what the requests before it left.
pub proof fn lemma_result_at(
    escrows: Map<u64, Escrow>,
    balances: Map<u64, i128>,
    holder: Address,
    caller: Address,
    admin: Address,
    current_ledger: u64,
    requests: Seq<ReversalRequest>,
    index: int,
)
    requires
        0 <= index < requests.len(),
    ensures
        ({
            let before = reverse_all(
                escrows,
                balances,
                holder,
                caller,
                admin,
                current_ledger,
                requests.take(index),
            );
            let after = reverse_all(
                escrows,
                balances,
                holder,
                caller,
                admin,
                current_ledger,
                requests.take(index + 1),
            );
            let step = reverse_one(
                before.escrows,
                before.balances,
                holder,
                caller,
                admin,
                false,
                current_ledger,
                requests[index].escrow_id,
            );
            &&& reverse_all(
                escrows,
                balances,
                holder,
                caller,
                admin,
                current_ledger,
                requests,
            ).results[index] == step.result
            &&& after.escrows == step.escrows
            &&& after.balances == step.balances
        }),
    decreases requests.len(),
{
    assert(requests.take(index + 1).drop_last() =~= requests.take(index));
    lemma_results_follow_requests(
        escrows,
        balances,
        holder,
        caller,
        admin,
        current_ledger,
        requests.drop_last(),
    );
    if index == requests.len() - 1 {
        assert(requests.take(index) =~= requests.drop_last());
    } else {
        lemma_result_at(
            escrows,
            balances,
            holder,
            caller,
            admin,
            current_ledger,
            requests.drop_last(),
            index,
        );
        assert(requests.drop_last().take(index) =~= requests.take(index));
        assert(requests.drop_last().take(index + 1) =~= requests.take(index + 1));
    }
}

/// The lifecycle is one-way: a batch leaves the store holding the same
/// escrows, each as it was or moved from `Active` to a final state. An
/// escrow that was in a final state before the batch is untouched by it.
pub proof fn lemma_batch_evolves(
    escrows: Map<u64, Escrow>,
    balances: Map<u64, i128>,
    holder: Address,
    caller: Address,
    admin: Address,
    current_ledger: u64,
    requests: Seq<ReversalRequest>,
)
    ensures
        evolved_from(
            escrows,
            reverse_all(escrows, balances, holder, caller, admin, current_ledger, requests).escrows,
        ),
    decreases requests.len(),
{
    if requests.len() > 0 {
        lemma_batch_evolves(
            escrows,
            balances,
            holder,
            caller,
            admin,
            current_ledger,
            requests.drop_last(),
        );
        let before = reverse_all(
            escrows,
            balances,
            holder,
            caller,
            admin,
            current_ledger,
            requests.drop_last(),
        );
        lemma_reverse_one_evolves(
            before.escrows,
            before.balances,
            holder,
            caller,
            admin,
            false,
            current_ledger,
            requests.last().escrow_id,
        );
    }
}

/// Once the request at `first` has reversed its escrow, the escrow is
/// `Reversed` after every longer prefix of the batch.
proof fn lemma_reversed_persists(
    escrows: Map<u64, Escrow>,
    balances: Map<u64, i128>,
    holder: Address,
    caller: Address,
    admin: Address,
    current_ledger: u64,
    requests: Seq<ReversalRequest>,
    first: int,
    upto: int,
)
    requires
        0 <= first < upto <= requests.len(),
        reverse_all(
            escrows,
            balances,
            holder,
            caller,
            admin,
            current_ledger,
            requests,
        ).results[first] is Success,
    ensures
        record_at(
            reverse_all(
                escrows,
                balances,
                holder,
                caller,
                admin,
                current_ledger,
                requests.take(upto),
            ).escrows,
            requests[first].escrow_id,
        ) matches Some(e) && e.status == EscrowStatus::Reversed,
    decreases upto,
{
    if upto == first + 1 {
        lemma_result_at(escrows, balances, holder, caller, admin, current_ledger, requests, first);
    } else {
        lemma_reversed_persists(
            escrows,
            balances,
            holder,
            caller,
            admin,
            current_ledger,
            requests,
            first,
            upto - 1,
        );
        lemma_result_at(
            escrows,
            balances,
            holder,
            caller,
            admin,
            current_ledger,
            requests,
            upto - 1,
        );
        let before = reverse_all(
            escrows,
            balances,
            holder,
            caller,
            admin,
            current_ledger,
            requests.take(upto - 1),
        );
        lemma_reverse_one_evolves(
            before.escrows,
            before.balances,
            holder,
            caller,
            admin,
            false,
            current_ledger,
            requests[upto - 1].escrow_id,
        );
    }
}

/// An escrow listed twice in one batch is reversed at most once: if the
/// earlier request succeeded, the later one fails with `ALREADY_REVERSED`.
pub proof fn lemma_listed_twice_reversed_once(
    escrows: Map<u64, Escrow>,
    balances: Map<u64, i128>,
    holder: Address,
    caller: Address,
    admin: Address,
    current_ledger: u64,
    requests: Seq<ReversalRequest>,
    first: int,
    second: int,
)
    requires
        0 <= first < second < requests.len(),
        requests[first].escrow_id == requests[second].escrow_id,
        reverse_all(
            escrows,
            balances,
            holder,
            caller,
            admin,
            current_ledger,
            requests,
        ).results[first] is Success,
    ensures
        reverse_all(
            escrows,
            balances,
            holder,
            caller,
            admin,
            current_ledger,
            requests,
        ).results[second] == ReversalResult::Failure(
            requests[second].escrow_id,
            error_code::ALREADY_REVERSED,
        ),
{
    lemma_reversed_persists(
        escrows,
        balances,
        holder,
        caller,
        admin,
        current_ledger,
        requests,
        first,
        second,
    );
    lemma_result_at(escrows, balances, holder, caller, admin, current_ledger, requests, second);
}

/// An escrow that is in a final state when a batch starts is not reversed by
/// it: every request that names it fails with the code of that state.
pub proof fn lemma_final_state_refused(
    escrows: Map<u64, Escrow>,
    balances: Map<u64, i128>,
    holder: Address,
    caller: Address,
    admin: Address,
    current_ledger: u64,
    requests: Seq<ReversalRequest>,
    index: int,
)
    requires
        0 <= index < requests.len(),
        escrows.contains_key(requests[index].escrow_id),
        escrows[requests[index].escrow_id].status != EscrowStatus::Active,
    ensures
        reverse_all(
            escrows,
            balances,
            holder,
            caller,
            admin,
            current_ledger,
            requests,
        ).results[index] == ReversalResult::Failure(
            requests[index].escrow_id,
            if escrows[requests[index].escrow_id].status == EscrowStatus::Released {
                error_code::ALREADY_RELEASED
            } else {
                error_code::ALREADY_REVERSED
            },
        ),
{
    lemma_batch_evolves(
        escrows,
        balances,
        holder,
        caller,
        admin,
        current_ledger,
        requests.take(index),
    );
    lemma_result_at(escrows, balances, holder, caller, admin, current_ledger, requests, index);
}

/// The single reversal is one reversal with the deadline enforced: it is
/// refused exactly when that reversal fails, and the escrow it reverses and
/// the payment it makes are those of that reversal.
pub proof fn lemma_single_reversal_is_one_reversal(
    admin: Address,
    escrows: Map<u64, Escrow>,
    balances: Map<u64, i128>,
    holder: Address,
    caller: Address,
    escrow_id: u64,
    current_ledger: u64,
)
    ensures
        ({
            let step = reverse_one(
                escrows,
                balances,
                holder,
                caller,
                admin,
                true,
                current_ledger,
                escrow_id,
            );
            let refusal = self_reversal_refusal(
                Some(admin),
                escrows,
                balances,
                holder,
                caller,
                escrow_id,
                current_ledger,
            );
            &&& refusal is None <==> step.result is Success
            &&& refusal is None ==> step.result == ReversalResult::Success(
                escrow_id,
                escrows[escrow_id].depositor,
                escrows[escrow_id].amount,
            ) && step.escrows == escrows.insert(
                escrow_id,
                with_status(escrows[escrow_id], EscrowStatus::Reversed),
            ) && step.balances == after_transfer(
                balances,
                holder,
                escrows[escrow_id].depositor,
                escrows[escrow_id].amount,
            )
        }),
{
}

/// Only the administrator runs a batch: on an initialized service, any other
/// caller is refused with `Unauthorized`, whatever the batch holds.
pub proof fn lemma_only_admin_runs_batches(
    admin: Address,
    total_batches: u64,
    total_reversed: u64,
    caller: Address,
    request_count: nat,
)
    requires
        caller != admin,
    ensures
        batch_reversal_refusal(Some(admin), total_batches, total_reversed, caller, request_count)
            == Some(EscrowError::Unauthorized),
{
}

/// Only the administrator and the depositor move an active escrow: on an
/// initialized service, any other caller is refused with `Unauthorized`,
/// for a release as for a reversal, whatever the ledger holds and whatever
/// the time.
pub proof fn lemma_only_admin_and_depositor_move_funds(
    admin: Address,
    escrows: Map<u64, Escrow>,
    balances: Map<u64, i128>,
    holder: Address,
    caller: Address,
    escrow_id: u64,
    current_ledger: u64,
)
    requires
        escrows.contains_key(escrow_id),
        escrows[escrow_id].status == EscrowStatus::Active,
        caller != admin,
        caller != escrows[escrow_id].depositor,
    ensures
        release_refusal(Some(admin), escrows, balances, holder, caller, escrow_id) == Some(
            EscrowError::Unauthorized,
        ),
        self_reversal_refusal(
            Some(admin),
            escrows,
            balances,
            holder,
            caller,
            escrow_id,
            current_ledger,
        ) == Some(EscrowError::Unauthorized),
{
}

/// The amount that a batch moved is the amount by which the holder's balance
/// went down, where no escrow of the batch was deposited by the holder
/// itself: what the batch reports as reversed has left the holder's account,
/// and nothing else has.
pub proof fn lemma_volume_leaves_the_holder(
    escrows: Map<u64, Escrow>,
    balances: Map<u64, i128>,
    holder: Address,
    caller: Address,
    admin: Address,
    current_ledger: u64,
    requests: Seq<ReversalRequest>,
)
    requires
        forall|id: u64| #[trigger]
            escrows.contains_key(id) ==> escrows[id].depositor != holder,
    ensures
        ({
            let run = reverse_all(
                escrows,
                balances,
                holder,
                caller,
                admin,
                current_ledger,
                requests,
            );
            balance_in(run.balances, holder) == balance_in(balances, holder) - volume(run.results)
        }),
    decreases requests.len(),
{
    if requests.len() > 0 {
        let front = requests.drop_last();
        lemma_volume_leaves_the_holder(
            escrows,
            balances,
            holder,
            caller,
            admin,
            current_ledger,
            front,
        );
        lemma_batch_evolves(escrows, balances, holder, caller, admin, current_ledger, front);
        let before = reverse_all(escrows, balances, holder, caller, admin, current_ledger, front);
        let step = reverse_one(
            before.escrows,
            before.balances,
            holder,
            caller,
            admin,
            false,
            current_ledger,
            requests.last().escrow_id,
        );
        lemma_tally_push(before.results, step.result);
        if step.result is Success {
            let id = requests.last().escrow_id;
            assert(before.escrows.contains_key(id));
            assert(escrows.contains_key(id));
            assert(before.escrows[id].depositor == escrows[id].depositor);
        }
    }
}

/// A reversal paid on the ledger is a reversal settled with the ledger's
/// answer: its escrows and its result are those of `settled_reversal`, told
/// whether the ledger accepts the payment to the depositor.
pub proof fn lemma_reversal_is_settlement(
    escrows: Map<u64, Escrow>,
    balances: Map<u64, i128>,
    holder: Address,
    caller: Address,
    admin: Address,
    check_deadline: bool,
    current_ledger: u64,
    id: u64,
)
    ensures
        ({
            let step = reverse_one(
                escrows,
                balances,
                holder,
                caller,
                admin,
                check_deadline,
                current_ledger,
                id,
            );
            let settled = settled_reversal(
                escrows,
                caller,
                admin,
                check_deadline,
                current_ledger,
                id,
                transfer_refusal(balances, holder, escrows[id].depositor, escrows[id].amount)
                    is None,
            );
            &&& step.escrows == settled.escrows
            &&& step.result == settled.result
        }),
{
}

/// Every batch of one to `MAX_BATCH_SIZE` requests from the administrator is
/// taken up while the lifetime counters have room, whatever the escrows and
/// the ledger hold; and its counts add up: every request is answered, as a
/// success or as a failure.
pub proof fn lemma_admin_batch_is_answered(
    admin: Address,
    total_batches: u64,
    total_reversed: u64,
    escrows: Map<u64, Escrow>,
    balances: Map<u64, i128>,
    holder: Address,
    current_ledger: u64,
    requests: Seq<ReversalRequest>,
)
    requires
        0 < requests.len() <= MAX_BATCH_SIZE,
        total_batches < u64::MAX,
        total_reversed + requests.len() <= u64::MAX,
    ensures
        batch_reversal_refusal(Some(admin), total_batches, total_reversed, admin, requests.len())
            is None,
        ({
            let run = reverse_all(
                escrows,
                balances,
                holder,
                admin,
                admin,
                current_ledger,
                requests,
            );
            &&& run.results.len() == requests.len()
            &&& successes(run.results) + failures(run.results) == requests.len()
        }),
{
    lemma_results_follow_requests(
        escrows,
        balances,
        holder,
        admin,
        admin,
        current_ledger,
        requests,
    );
    lemma_counts_partition(
        reverse_all(escrows, balances, holder, admin, admin, current_ledger, requests).results,
    );
}

/// What a batch reports as reversed is the sum of what its successes
/// returned: every success names the escrow of its request and carries the
/// depositor and the amount that the escrow had when the batch started, a
/// failure adds nothing, and the capped total is that sum wherever the sum
/// is an amount.
pub proof fn lemma_total_is_the_sum_of_the_successes(
    escrows: Map<u64, Escrow>,
    balances: Map<u64, i128>,
    holder: Address,
    caller: Address,
    admin: Address,
    current_ledger: u64,
    requests: Seq<ReversalRequest>,
)
    ensures
        ({
            let run = reverse_all(
                escrows,
                balances,
                holder,
                caller,
                admin,
                current_ledger,
                requests,
            );
            &&& run.results.len() == requests.len()
            &&& forall|i: int|
                0 <= i < requests.len() ==> match #[trigger] run.results[i] {
                    ReversalResult::Success(id, depositor, amount) => {
                        &&& id == requests[i].escrow_id
                        &&& escrows.contains_key(id)
                        &&& depositor == escrows[id].depositor
                        &&& amount == escrows[id].amount
                    },
                    ReversalResult::Failure(id, _) => id == requests[i].escrow_id,
                }
            &&& volume(run.results) <= i128::MAX ==> saturate(volume(run.results)) == volume(
                run.results,
            )
        }),
    decreases requests.len(),
{
    if requests.len() > 0 {
        let front = requests.drop_last();
        lemma_total_is_the_sum_of_the_successes(
            escrows,
            balances,
            holder,
            caller,
            admin,
            current_ledger,
            front,
        );
        lemma_batch_evolves(escrows, balances, holder, caller, admin, current_ledger, front);
        let before = reverse_all(escrows, balances, holder, caller, admin, current_ledger, front);
        let run = reverse_all(escrows, balances, holder, caller, admin, current_ledger, requests);
        let id = requests.last().escrow_id;
        assert(escrows.contains_key(id) <==> before.escrows.contains_key(id));
        assert forall|i: int| 0 <= i < requests.len() implies match #[trigger] run.results[i] {
            ReversalResult::Success(id, depositor, amount) => {
                &&& id == requests[i].escrow_id
                &&& escrows.contains_key(id)
                &&& depositor == escrows[id].depositor
                &&& amount == escrows[id].amount
            },
            ReversalResult::Failure(id, _) => id == requests[i].escrow_id,
        } by {
            if i < front.len() {
                assert(run.results[i] == before.results[i]);
                assert(front[i] == requests[i]);
            } else {
                assert(requests[i] == requests.last());
            }
        }
    }
    lemma_volume_is_not_negative(escrows, balances, holder, caller, admin, current_ledger, requests);
}

/// No batch reverses a negative amount: the ledger moves none.
pub proof fn lemma_volume_is_not_negative(
    escrows: Map<u64, Escrow>,
    balances: Map<u64, i128>,
    holder: Address,
    caller: Address,
    admin: Address,
    current_ledger: u64,
    requests: Seq<ReversalRequest>,
)
    ensures
        volume(
            reverse_all(escrows, balances, holder, caller, admin, current_ledger, requests).results,
        ) >= 0,
    decreases requests.len(),
{
    if requests.len() > 0 {
        let front = requests.drop_last();
        lemma_volume_is_not_negative(escrows, balances, holder, caller, admin, current_ledger, front);
        let before = reverse_all(escrows, balances, holder, caller, admin, current_ledger, front);
        let step = reverse_one(
            before.escrows,
            before.balances,
            holder,
            caller,
            admin,
            false,
            current_ledger,
            requests.last().escrow_id,
        );
        lemma_tally_push(before.results, step.result);
    }
}

} // verus!
