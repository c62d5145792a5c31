//! The validation of a bundle of transactions.

use crate::tally::{saturate, saturating_add};
use crate::transaction_analytics::events::{AnalyticsEvent, AnalyticsEvents};
use crate::transaction_analytics::types::{
    BundleResult, BundledTransaction, Transaction, ValidationResult, MAX_BATCH_SIZE,
};
use vstd::prelude::*;

verus! {

/// The message of a bundled transaction whose amount is negative.
pub const NEGATIVE_AMOUNT: &'static str = "negative_amount";

/// The message of a bundled transaction whose sender is its recipient.
pub const SAME_ADDRESS: &'static str = "same_address";

/// The verdict on one transaction of a bundle: its amount must not be
/// negative, and its sender must not be its recipient. The first rule that
/// fails gives the message; a valid transaction has the empty message.
pub open spec fn bundle_verdict(tx: Transaction) -> ValidationResult {
    if tx.amount < 0 {
        ValidationResult { tx_id: tx.tx_id, is_valid: false, error: NEGATIVE_AMOUNT }
    } else if tx.from == tx.to {
        ValidationResult { tx_id: tx.tx_id, is_valid: false, error: SAME_ADDRESS }
    } else {
        ValidationResult { tx_id: tx.tx_id, is_valid: true, error: "" }
    }
}

/// The verdicts on the transactions of a bundle, in their order.
pub open spec fn bundle_verdicts(bundle: Seq<BundledTransaction>) -> Seq<ValidationResult> {
    Seq::new(bundle.len(), |i: int| bundle_verdict(bundle[i].transaction))
}

/// The number of valid transactions in a bundle.
pub open spec fn valid_count_of(bundle: Seq<BundledTransaction>) -> nat
    decreases bundle.len(),
{
    if bundle.len() == 0 {
        0
    } else {
        valid_count_of(bundle.drop_last()) + if bundle_verdict(bundle.last().transaction).is_valid {
            1nat
        } else {
            0nat
        }
    }
}

/// The amounts of the valid transactions of a bundle added up in their order,
/// each partial sum capped to the range of an amount.
pub open spec fn valid_volume_of(bundle: Seq<BundledTransaction>) -> i128
    decreases bundle.len(),
{
    if bundle.len() == 0 {
        0
    } else if bundle_verdict(bundle.last().transaction).is_valid {
        saturate(valid_volume_of(bundle.drop_last()) + bundle.last().transaction.amount)
    } else {
        valid_volume_of(bundle.drop_last())
    }
}

/// The audit events that one verdict gives rise to. The verdict itself is
/// reported, and for a transaction that is not valid also the failure with
/// its message.
pub open spec fn verdict_events_of(bundle_id: u64, verdict: ValidationResult) -> Seq<AnalyticsEvent> {
    let validated = seq![AnalyticsEvent::TransactionValidated { bundle_id, verdict }];
    if verdict.is_valid {
        validated
    } else {
        validated.push(
            AnalyticsEvent::TransactionValidationFailed {
                bundle_id,
                tx_id: verdict.tx_id,
                error: verdict.error,
            },
        )
    }
}

/// The audit events of the verdicts of a bundle, in the order of the
/// verdicts.
pub open spec fn verdict_events(bundle_id: u64, verdicts: Seq<ValidationResult>) -> Seq<AnalyticsEvent>
    decreases verdicts.len(),
{
    if verdicts.len() == 0 {
        Seq::empty()
    } else {
        verdict_events(bundle_id, verdicts.drop_last()) + verdict_events_of(
            bundle_id,
            verdicts.last(),
        )
    }
}

/// Whether `result` is the result of validating `bundle` as the bundle
/// `bundle_id` at the ledger sequence `created_at`: it has the verdict on
/// every transaction, the numbers of valid and invalid ones, the capped
/// volume of the valid ones, and the bundle can be made only if all are
/// valid.
pub open spec fn is_bundle_result(
    result: BundleResult,
    bundle_id: u64,
    bundle: Seq<BundledTransaction>,
    created_at: u64,
) -> bool {
    &&& result.bundle_id == bundle_id
    &&& result.total_count == bundle.len()
    &&& result.valid_count == valid_count_of(bundle)
    &&& result.invalid_count == bundle.len() - valid_count_of(bundle)
    &&& result.validation_results@ == bundle_verdicts(bundle)
    &&& result.can_bundle == (valid_count_of(bundle) == bundle.len())
    &&& result.total_volume == valid_volume_of(bundle)
    &&& result.created_at == created_at
}

/// Validates one transaction of a bundle.
pub fn validate_bundled(tx: &Transaction) -> (verdict: ValidationResult)
    ensures
        verdict == bundle_verdict(*tx),
{
    if tx.amount < 0 {
        ValidationResult { tx_id: tx.tx_id, is_valid: false, error: NEGATIVE_AMOUNT }
    } else if tx.from.id == tx.to.id {
        ValidationResult { tx_id: tx.tx_id, is_valid: false, error: SAME_ADDRESS }
    } else {
        ValidationResult { tx_id: tx.tx_id, is_valid: true, error: "" }
    }
}

/// Validates the transactions of a bundle in order, appending the audit
/// events of every verdict.
pub(crate) fn validate_bundle(
    events: &mut Vec<AnalyticsEvent>,
    bundle_id: u64,
    bundle: &Vec<BundledTransaction>,
    created_at: u64,
) -> (result: BundleResult)
    requires
        bundle.len() <= MAX_BATCH_SIZE,
    ensures
        is_bundle_result(result, bundle_id, bundle@, created_at),
        final(events)@ == old(events)@ + verdict_events(bundle_id, result.validation_results@),
{
    let n = bundle.len();
    let mut verdicts: Vec<ValidationResult> = Vec::new();
    let mut valid_count: u32 = 0;
    let mut total_volume: i128 = 0;
    let mut i: usize = 0;
    assert(bundle@.take(0) =~= Seq::<BundledTransaction>::empty());
    assert(events@ =~= old(events)@ + verdict_events(bundle_id, verdicts@));
    while i < n
        invariant
            n == bundle.len(),
            n <= MAX_BATCH_SIZE,
            i <= n,
            verdicts@ == bundle_verdicts(bundle@.take(i as int)),
            valid_count == valid_count_of(bundle@.take(i as int)),
            valid_count <= i,
            total_volume == valid_volume_of(bundle@.take(i as int)),
            events@ == old(events)@ + verdict_events(bundle_id, verdicts@),
        decreases n - i,
    {
        let ghost before_verdicts = verdicts@;
        let ghost before_events = events@;
        let verdict = validate_bundled(&bundle[i].transaction);
        proof {
            assert(bundle@.take(i + 1).drop_last() =~= bundle@.take(i as int));
            assert(bundle@.take(i + 1).last() == bundle@[i as int]);
        }
        events.push(AnalyticsEvents::transaction_validated(bundle_id, &verdict));
        if verdict.is_valid {
            valid_count = valid_count + 1;
            total_volume = saturating_add(total_volume, bundle[i].transaction.amount);
        } else {
            events.push(
                AnalyticsEvents::transaction_validation_failed(
                    bundle_id,
                    verdict.tx_id,
                    verdict.error,
                ),
            );
        }
        verdicts.push(verdict);
        i = i + 1;
        proof {
            assert(verdicts@ =~= bundle_verdicts(bundle@.take(i as int)));
            assert(verdicts@.drop_last() =~= before_verdicts);
            assert(events@ =~= before_events + verdict_events_of(bundle_id, verdict));
            assert(events@ =~= old(events)@ + verdict_events(bundle_id, verdicts@));
        }
    }
    assert(bundle@.take(n as int) =~= bundle@);
    BundleResult {
        bundle_id,
        total_count: n as u32,
        valid_count,
        invalid_count: n as u32 - valid_count,
        validation_results: verdicts,
        can_bundle: valid_count == n as u32,
        total_volume,
        created_at,
    }
}

/// A copy of a bundle result.
pub(crate) fn copy_bundle_result(result: &BundleResult) -> (copy: BundleResult)
    ensures
        copy.bundle_id == result.bundle_id,
        copy.total_count == result.total_count,
        copy.valid_count == result.valid_count,
        copy.invalid_count == result.invalid_count,
        copy.validation_results@ == result.validation_results@,
        copy.can_bundle == result.can_bundle,
        copy.total_volume == result.total_volume,
        copy.created_at == result.created_at,
{
    let n = result.validation_results.len();
    let mut verdicts: Vec<ValidationResult> = Vec::new();
    let mut i: usize = 0;
    while i < n
        invariant
            n == result.validation_results.len(),
            i <= n,
            verdicts@ == result.validation_results@.take(i as int),
        decreases n - i,
    {
        verdicts.push(result.validation_results[i]);
        i = i + 1;
        assert(verdicts@ =~= result.validation_results@.take(i as int));
    }
    assert(result.validation_results@.take(n as int) =~= result.validation_results@);
    BundleResult {
        bundle_id: result.bundle_id,
        total_count: result.total_count,
        valid_count: result.valid_count,
        invalid_count: result.invalid_count,
        validation_results: verdicts,
        can_bundle: result.can_bundle,
        total_volume: result.total_volume,
        created_at: result.created_at,
    }
}

} // verus!
