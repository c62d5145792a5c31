//! Batch updates of transaction statuses.

use crate::dedup::DedupGuard;
use crate::tally::{lemma_tally_push, successes, Outcome};
use crate::transaction_analytics::events::{AnalyticsEvent, AnalyticsEvents};
use crate::transaction_analytics::types::{
    StatusUpdateResult, TransactionStatus, TransactionStatusUpdate, MAX_BATCH_SIZE,
};
use std::collections::HashMap;
use vstd::prelude::*;

verus! {

impl Outcome for StatusUpdateResult {
    open spec fn succeeded(&self) -> bool {
        self.is_valid
    }

    open spec fn moved(&self) -> int {
        0
    }
}

/// The status recorded for the transaction `tx_id`, if any.
pub open spec fn status_at(statuses: Map<u64, TransactionStatus>, tx_id: u64) -> Option<
    TransactionStatus,
> {
    if statuses.contains_key(tx_id) {
        Some(statuses[tx_id])
    } else {
        None
    }
}

/// The recorded statuses, the result and the audit event after one update
/// was attempted.
pub struct StatusUpdate {
    pub statuses: Map<u64, TransactionStatus>,
    pub result: StatusUpdateResult,
    pub event: AnalyticsEvent,
}

/// The recorded statuses, the results and the audit events after a list of
/// updates was attempted.
pub struct StatusUpdateRun {
    pub statuses: Map<u64, TransactionStatus>,
    pub results: Seq<StatusUpdateResult>,
    pub events: Seq<AnalyticsEvent>,
}

/// One update: the status of a known transaction is recorded in the place of
/// whatever status it had; the update of a transaction that is not known
/// fails and changes nothing.
pub open spec fn set_status_one(
    known: Set<u64>,
    statuses: Map<u64, TransactionStatus>,
    update: TransactionStatusUpdate,
) -> StatusUpdate {
    if known.contains(update.tx_id) {
        StatusUpdate {
            statuses: statuses.insert(update.tx_id, update.status),
            result: StatusUpdateResult { tx_id: update.tx_id, is_valid: true },
            event: AnalyticsEvent::TransactionStatusUpdated {
                tx_id: update.tx_id,
                previous_status: status_at(statuses, update.tx_id),
                new_status: update.status,
            },
        }
    } else {
        StatusUpdate {
            statuses,
            result: StatusUpdateResult { tx_id: update.tx_id, is_valid: false },
            event: AnalyticsEvent::TransactionStatusUpdateFailed { tx_id: update.tx_id },
        }
    }
}

/// The updates of a batch attempted one after the other, in their order.
pub open spec fn set_status_all(
    known: Set<u64>,
    statuses: Map<u64, TransactionStatus>,
    updates: Seq<TransactionStatusUpdate>,
) -> StatusUpdateRun
    decreases updates.len(),
{
    if updates.len() == 0 {
        StatusUpdateRun { statuses, results: Seq::empty(), events: Seq::empty() }
    } else {
        let before = set_status_all(known, statuses, updates.drop_last());
        let step = set_status_one(known, before.statuses, updates.last());
        StatusUpdateRun {
            statuses: step.statuses,
            results: before.results.push(step.result),
            events: before.events.push(step.event),
        }
    }
}

/// Attempts the updates of a batch in order, appending one audit event per
/// update.
pub(crate) fn set_status_each(
    known: &DedupGuard,
    statuses: &mut HashMap<u64, TransactionStatus>,
    events: &mut Vec<AnalyticsEvent>,
    updates: &Vec<TransactionStatusUpdate>,
) -> (tally: (Vec<StatusUpdateResult>, u32))
    requires
        updates.len() <= MAX_BATCH_SIZE,
    ensures
        ({
            let run = set_status_all(known@, old(statuses)@, updates@);
            &&& final(statuses)@ == run.statuses
            &&& tally.0@ == run.results
            &&& final(events)@ == old(events)@ + run.events
        }),
        tally.0@.len() == updates@.len(),
        tally.1 == successes(tally.0@),
        tally.1 <= updates@.len(),
{
    let n = updates.len();
    let mut results: Vec<StatusUpdateResult> = Vec::new();
    let mut successful: u32 = 0;
    let mut i: usize = 0;
    assert(updates@.take(0) =~= Seq::<TransactionStatusUpdate>::empty());
    assert(events@ =~= old(events)@ + Seq::<AnalyticsEvent>::empty());
    while i < n
        invariant
            n == updates.len(),
            n <= MAX_BATCH_SIZE,
            i <= n,
            results@.len() == i,
            statuses@ == set_status_all(known@, old(statuses)@, updates@.take(i as int)).statuses,
            results@ == set_status_all(known@, old(statuses)@, updates@.take(i as int)).results,
            events@ == old(events)@ + set_status_all(
                known@,
                old(statuses)@,
                updates@.take(i as int),
            ).events,
            successful == successes(results@),
            successful <= i,
        decreases n - i,
    {
        let ghost before_results = results@;
        let update = updates[i];
        proof {
            assert(updates@.take(i + 1).drop_last() =~= updates@.take(i as int));
            assert(updates@.take(i + 1).last() == updates@[i as int]);
        }
        let result = if known.is_marked(update.tx_id) {
            let previous = match statuses.get(&update.tx_id) {
                Some(s) => Some(*s),
                None => None,
            };
            statuses.insert(update.tx_id, update.status);
            successful = successful + 1;
            events.push(
                AnalyticsEvents::transaction_status_updated(update.tx_id, previous, update.status),
            );
            StatusUpdateResult { tx_id: update.tx_id, is_valid: true }
        } else {
            events.push(AnalyticsEvents::transaction_status_update_failed(update.tx_id));
            StatusUpdateResult { tx_id: update.tx_id, is_valid: false }
        };
        proof {
            lemma_tally_push(before_results, result);
        }
        results.push(result);
        i = i + 1;
        proof {
            let run = set_status_all(known@, old(statuses)@, updates@.take(i as int));
            assert(events@ =~= old(events)@ + run.events);
        }
    }
    assert(updates@.take(n as int) =~= updates@);
    (results, successful)
}

} // verus!
