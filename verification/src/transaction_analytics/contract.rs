//! The analytics service: its state and its batch operations.

use crate::address::Address;
use crate::dedup::DedupGuard;
use crate::host_error::{contract_error, host_error_of};
use crate::tally::{failures, lemma_counts_partition, saturate, saturating_add, successes, volume};
use crate::transaction_analytics::analytics::{
    batch_metrics_of, batch_verdict, compute_batch_metrics, find_high_value_transactions,
    high_value_of, validate_batch,
};
use crate::transaction_analytics::budget::{
    budget_batch_verdict, budget_data_verdict, generate_batch_recommendations,
    generate_budget_recommendation, is_recommendation_for, validate_batch_budget_data,
    validate_user_budget_data,
};
use crate::transaction_analytics::bundling::{
    copy_bundle_result, is_bundle_result, validate_bundle, verdict_events,
};
use crate::transaction_analytics::categories::{category_metrics_of, compute_category_metrics};
use crate::transaction_analytics::events::{AnalyticsEvent, AnalyticsEvents};
use crate::transaction_analytics::refund::{refund_all, refund_each};
use crate::transaction_analytics::statuses::{set_status_all, set_status_each, status_at};
use crate::transaction_analytics::types::{
    AuditLog, BatchMetrics, BatchStatusUpdateResult, BudgetRecommendation, BundleResult,
    BundledTransaction, CategoryLimit, CategoryMetrics, RefundBatchMetrics, RefundRequest,
    RefundResult, Transaction, TransactionStatus, TransactionStatusUpdate, UserBudgetData,
    MAX_BATCH_SIZE,
};
use std::collections::HashMap;
use vstd::prelude::*;

verus! {

/// Errors that abort a call to the analytics service as a whole. An aborted
/// call changes nothing.
#[derive(Copy, Clone, Debug, Eq, PartialEq, Structural)]
pub enum AnalyticsError {
    /// Contract not initialized
    NotInitialized,
    /// Caller is not authorized
    Unauthorized,
    /// Invalid batch data
    InvalidBatch,
    /// Batch is empty
    EmptyBatch,
    /// Batch exceeds maximum size
    BatchTooLarge,
    /// Invalid transaction amount
    InvalidAmount,
    /// Invalid user budget data
    InvalidBudgetData,
    /// Budget batch is empty
    EmptyBudgetBatch,
    /// Budget batch exceeds maximum size
    BudgetBatchTooLarge,
    /// An operations log entry is not valid
    InvalidAuditLog,
    /// Refund batch is empty
    EmptyRefundBatch,
    /// Refund batch exceeds maximum size
    RefundBatchTooLarge,
    /// Contract already initialized
    AlreadyInitialized,
    /// A lifetime counter has no room left for this call
    CounterOverflow,
}

impl AnalyticsError {
    /// The stable numeric code of this error.
    pub open spec fn code_of(self) -> u32 {
        match self {
            AnalyticsError::NotInitialized => 1,
            AnalyticsError::Unauthorized => 2,
            AnalyticsError::InvalidBatch => 3,
            AnalyticsError::EmptyBatch => 4,
            AnalyticsError::BatchTooLarge => 5,
            AnalyticsError::InvalidAmount => 6,
            AnalyticsError::InvalidBudgetData => 7,
            AnalyticsError::EmptyBudgetBatch => 8,
            AnalyticsError::BudgetBatchTooLarge => 9,
            AnalyticsError::InvalidAuditLog => 10,
            AnalyticsError::EmptyRefundBatch => 12,
            AnalyticsError::RefundBatchTooLarge => 13,
            AnalyticsError::AlreadyInitialized => 14,
            AnalyticsError::CounterOverflow => 15,
        }
    }

    /// The stable numeric code of this error.
    pub fn code(&self) -> (code: u32)
        ensures
            code == self.code_of(),
    {
        match self {
            AnalyticsError::NotInitialized => 1,
            AnalyticsError::Unauthorized => 2,
            AnalyticsError::InvalidBatch => 3,
            AnalyticsError::EmptyBatch => 4,
            AnalyticsError::BatchTooLarge => 5,
            AnalyticsError::InvalidAmount => 6,
            AnalyticsError::InvalidBudgetData => 7,
            AnalyticsError::EmptyBudgetBatch => 8,
            AnalyticsError::BudgetBatchTooLarge => 9,
            AnalyticsError::InvalidAuditLog => 10,
            AnalyticsError::EmptyRefundBatch => 12,
            AnalyticsError::RefundBatchTooLarge => 13,
            AnalyticsError::AlreadyInitialized => 14,
            AnalyticsError::CounterOverflow => 15,
        }
    }
}

impl From<AnalyticsError> for soroban_sdk::Error {
    fn from(e: AnalyticsError) -> (error: soroban_sdk::Error) {
        host_error_of(e.code())
    }
}

impl vstd::std_specs::convert::FromSpecImpl<AnalyticsError> for soroban_sdk::Error {
    open spec fn obeys_from_spec() -> bool {
        true
    }

    open spec fn from_spec(e: AnalyticsError) -> soroban_sdk::Error {
        contract_error(e.code_of())
    }
}

/// The audit events of the results of a refund batch, one per result and in
/// the same order.
pub open spec fn refund_events(batch_id: u64, results: Seq<RefundResult>) -> Seq<AnalyticsEvent> {
    Seq::new(
        results.len(),
        |i: int| AnalyticsEvent::RefundProcessed { batch_id, result: results[i] },
    )
}

/// The metrics of a refund batch with the given results, processed at the
/// ledger sequence `processed_at`: the numbers of requests, of refunds made
/// and of refunds refused; the amount refunded, capped at the largest amount;
/// and that amount divided by the number of refunds made, or zero where none
/// was made.
pub open spec fn refund_metrics_of(results: Seq<RefundResult>, processed_at: u64) -> RefundBatchMetrics {
    let total = saturate(volume(results));
    RefundBatchMetrics {
        request_count: results.len() as u32,
        successful_refunds: successes(results) as u32,
        failed_refunds: failures(results) as u32,
        total_refunded_amount: total,
        avg_refund_amount: if successes(results) > 0 {
            (total as int / successes(results) as int) as i128
        } else {
            0
        },
        processed_at,
    }
}

/// The reason, if any, for which a batch of at most `MAX_BATCH_SIZE` requests
/// is not accepted for refunding, whoever submits it.
pub open spec fn refund_batch_size_refusal(request_count: nat) -> Option<AnalyticsError> {
    if request_count == 0 {
        Some(AnalyticsError::EmptyRefundBatch)
    } else if request_count > MAX_BATCH_SIZE {
        Some(AnalyticsError::RefundBatchTooLarge)
    } else {
        None
    }
}

/// The reason, if any, for which a refund batch aborts as a whole. The rules
/// are tried in this order: the service is initialized; the caller is the
/// administrator; the batch is not empty; it holds at most `MAX_BATCH_SIZE`
/// requests; the counter of refund batches has room for it.
pub open spec fn refund_batch_refusal(
    admin: Option<Address>,
    last_refund_batch_id: u64,
    caller: Address,
    request_count: nat,
) -> Option<AnalyticsError> {
    if admin is None {
        Some(AnalyticsError::NotInitialized)
    } else if admin != Some(caller) {
        Some(AnalyticsError::Unauthorized)
    } else if refund_batch_size_refusal(request_count) is Some {
        refund_batch_size_refusal(request_count)
    } else if last_refund_batch_id == u64::MAX {
        Some(AnalyticsError::CounterOverflow)
    } else {
        None
    }
}

/// Builds the metrics of a refund batch from its tallies.
fn build_refund_metrics(
    results: &Vec<RefundResult>,
    successful: u32,
    total: i128,
    processed_at: u64,
) -> (metrics: RefundBatchMetrics)
    requires
        results@.len() <= MAX_BATCH_SIZE,
        successful == successes(results@),
        total == saturate(volume(results@)),
        volume(results@) >= 0,
    ensures
        metrics == refund_metrics_of(results@, processed_at),
{
    proof {
        lemma_counts_partition(results@);
    }
    let request_count = results.len() as u32;
    let avg = if successful > 0 {
        total / (successful as i128)
    } else {
        0
    };
    RefundBatchMetrics {
        request_count,
        successful_refunds: successful,
        failed_refunds: request_count - successful,
        total_refunded_amount: total,
        avg_refund_amount: avg,
        processed_at,
    }
}

/// Appends one audit event per refund result, in their order.
fn log_refunds(events: &mut Vec<AnalyticsEvent>, batch_id: u64, results: &Vec<RefundResult>)
    ensures
        final(events)@ == old(events)@ + refund_events(batch_id, results@),
{
    let n = results.len();
    let mut i: usize = 0;
    assert(events@ =~= old(events)@ + refund_events(batch_id, results@.take(0)));
    while i < n
        invariant
            n == results.len(),
            i <= n,
            events@ == old(events)@ + refund_events(batch_id, results@.take(i as int)),
        decreases n - i,
    {
        events.push(AnalyticsEvents::refund_processed(batch_id, &results[i]));
        proof {
            assert(refund_events(batch_id, results@.take(i + 1)) =~= refund_events(
                batch_id,
                results@.take(i as int),
            ).push(AnalyticsEvent::RefundProcessed { batch_id, result: results@[i as int] }));
            assert(events@ =~= old(events)@ + refund_events(batch_id, results@.take(i + 1)));
        }
        i = i + 1;
    }
    assert(results@.take(n as int) =~= results@);
}

/// A copy of a category limit.
fn copy_category_limit(limit: &CategoryLimit) -> (copy: CategoryLimit)
    ensures
        copy == *limit,
{
    CategoryLimit { category: limit.category.clone(), limit: limit.limit }
}

/// Whether two recommendations say the same.
pub open spec fn same_recommendation(a: BudgetRecommendation, b: BudgetRecommendation) -> bool {
    &&& a.user == b.user
    &&& a.recommended_limits@ == b.recommended_limits@
    &&& a.recommended_savings == b.recommended_savings
    &&& a.recommended_emergency_fund == b.recommended_emergency_fund
    &&& a.confidence_score == b.confidence_score
    &&& a.generated_at == b.generated_at
}

/// Whether two lists of recommendations say the same, one by one.
pub open spec fn same_recommendations(
    a: Seq<BudgetRecommendation>,
    b: Seq<BudgetRecommendation>,
) -> bool {
    &&& a.len() == b.len()
    &&& forall|i: int| 0 <= i < a.len() ==> same_recommendation(#[trigger] a[i], b[i])
}

/// Whether two bundle results say the same.
pub open spec fn same_bundle(a: BundleResult, b: BundleResult) -> bool {
    &&& a.bundle_id == b.bundle_id
    &&& a.total_count == b.total_count
    &&& a.valid_count == b.valid_count
    &&& a.invalid_count == b.invalid_count
    &&& a.validation_results@ == b.validation_results@
    &&& a.can_bundle == b.can_bundle
    &&& a.total_volume == b.total_volume
    &&& a.created_at == b.created_at
}

/// A copy of a recommendation.
fn copy_recommendation(recommendation: &BudgetRecommendation) -> (copy: BudgetRecommendation)
    ensures
        same_recommendation(copy, *recommendation),
{
    let n = recommendation.recommended_limits.len();
    let mut limits: Vec<CategoryLimit> = Vec::new();
    let mut i: usize = 0;
    while i < n
        invariant
            n == recommendation.recommended_limits.len(),
            i <= n,
            limits@ == recommendation.recommended_limits@.take(i as int),
        decreases n - i,
    {
        limits.push(copy_category_limit(&recommendation.recommended_limits[i]));
        i = i + 1;
        assert(limits@ =~= recommendation.recommended_limits@.take(i as int));
    }
    assert(recommendation.recommended_limits@.take(n as int)
        =~= recommendation.recommended_limits@);
    BudgetRecommendation {
        user: recommendation.user,
        recommended_limits: limits,
        recommended_savings: recommendation.recommended_savings,
        recommended_emergency_fund: recommendation.recommended_emergency_fund,
        confidence_score: recommendation.confidence_score,
        generated_at: recommendation.generated_at,
    }
}

/// A copy of a list of recommendations.
fn copy_recommendations(recommendations: &Vec<BudgetRecommendation>) -> (copy: Vec<
    BudgetRecommendation,
>)
    ensures
        same_recommendations(copy@, recommendations@),
{
    let n = recommendations.len();
    let mut copy: Vec<BudgetRecommendation> = Vec::new();
    let mut i: usize = 0;
    while i < n
        invariant
            n == recommendations.len(),
            i <= n,
            copy@.len() == i,
            forall|j: int| 0 <= j < i ==> same_recommendation(#[trigger] copy@[j], recommendations@[j]),
        decreases n - i,
    {
        copy.push(copy_recommendation(&recommendations[i]));
        i = i + 1;
    }
    copy
}

/// A copy of an operations log entry.
fn copy_audit_log(log: &AuditLog) -> (copy: AuditLog)
    ensures
        copy == *log,
{
    AuditLog {
        actor: log.actor,
        operation: log.operation.clone(),
        timestamp: log.timestamp,
        status: log.status.clone(),
    }
}

/// The known transactions after a batch was analysed: those that were known
/// and those of the batch.
pub open spec fn known_after(known: Set<u64>, transactions: Seq<Transaction>) -> Set<u64>
    decreases transactions.len(),
{
    if transactions.len() == 0 {
        known
    } else {
        known_after(known, transactions.drop_last()).insert(transactions.last().tx_id)
    }
}

/// The audit events of the categories of a batch, one per category and in
/// the same order.
pub open spec fn category_events(batch_id: u64, metrics: Seq<CategoryMetrics>) -> Seq<AnalyticsEvent> {
    Seq::new(
        metrics.len(),
        |i: int| AnalyticsEvent::CategoryAnalytics { batch_id, category_metrics: metrics[i] },
    )
}

/// The audit events of the high-value transactions of a batch, one per
/// transaction and in the same order.
pub open spec fn alert_events(batch_id: u64, high_value: Seq<(u64, i128)>) -> Seq<AnalyticsEvent> {
    Seq::new(
        high_value.len(),
        |i: int|
            AnalyticsEvent::HighValueAlert {
                batch_id,
                tx_id: high_value[i].0,
                amount: high_value[i].1,
            },
    )
}

/// The alerts of a batch: those of its transactions whose amount is at least
/// the threshold, where a threshold is given.
pub open spec fn alerts_of(
    batch_id: u64,
    transactions: Seq<Transaction>,
    high_value_threshold: Option<i128>,
) -> Seq<AnalyticsEvent> {
    match high_value_threshold {
        Some(threshold) => alert_events(batch_id, high_value_of(transactions, threshold)),
        None => Seq::empty(),
    }
}

/// The audit events of a batch of budget recommendations, one per
/// recommendation and in the same order.
pub open spec fn budget_events(batch_id: u64, recommendations: Seq<BudgetRecommendation>) -> Seq<
    AnalyticsEvent,
> {
    Seq::new(
        recommendations.len(),
        |i: int|
            AnalyticsEvent::RecommendationGenerated {
                batch_id,
                user: recommendations[i].user,
                recommended_savings: recommendations[i].recommended_savings,
                recommended_emergency_fund: recommendations[i].recommended_emergency_fund,
                confidence_score: recommendations[i].confidence_score,
            },
    )
}

/// The audit events of a batch of operations log entries, one per entry and
/// in the same order.
pub open spec fn audit_events(logs: Seq<AuditLog>) -> Seq<AnalyticsEvent> {
    Seq::new(
        logs.len(),
        |i: int|
            AnalyticsEvent::AuditLogged {
                actor: logs[i].actor,
                operation: logs[i].operation,
                status: logs[i].status,
            },
    )
}

/// The reason, if any, for which the analysis of a batch aborts as a whole.
/// The rules are tried in this order: the service is initialized; the caller
/// is the administrator; the batch is not empty; it holds at most
/// `MAX_BATCH_SIZE` transactions; no amount is negative; the lifetime
/// counters have room for the batch.
pub open spec fn analysis_refusal(
    admin: Option<Address>,
    last_batch_id: u64,
    total_tx_processed: u64,
    caller: Address,
    transactions: Seq<Transaction>,
) -> Option<AnalyticsError> {
    if admin is None {
        Some(AnalyticsError::NotInitialized)
    } else if admin != Some(caller) {
        Some(AnalyticsError::Unauthorized)
    } else if transactions.len() == 0 {
        Some(AnalyticsError::EmptyBatch)
    } else if transactions.len() > MAX_BATCH_SIZE {
        Some(AnalyticsError::BatchTooLarge)
    } else if batch_verdict(transactions) is Err {
        Some(AnalyticsError::InvalidBatch)
    } else if last_batch_id == u64::MAX || total_tx_processed + transactions.len() > u64::MAX {
        Some(AnalyticsError::CounterOverflow)
    } else {
        None
    }
}

/// The reason, if any, for which a batch of budget recommendations aborts as
/// a whole. The rules are tried in this order: the service is initialized;
/// the caller is the administrator; the batch is not empty; it holds at most
/// `MAX_BATCH_SIZE` users; every user's data is valid; the counter of
/// batches has room for it.
pub open spec fn budget_batch_refusal(
    admin: Option<Address>,
    last_recommendation_batch_id: u64,
    caller: Address,
    users: Seq<UserBudgetData>,
) -> Option<AnalyticsError> {
    if admin is None {
        Some(AnalyticsError::NotInitialized)
    } else if admin != Some(caller) {
        Some(AnalyticsError::Unauthorized)
    } else if users.len() == 0 {
        Some(AnalyticsError::EmptyBudgetBatch)
    } else if users.len() > MAX_BATCH_SIZE {
        Some(AnalyticsError::BudgetBatchTooLarge)
    } else if budget_batch_verdict(users) is Err {
        Some(AnalyticsError::InvalidBudgetData)
    } else if last_recommendation_batch_id == u64::MAX {
        Some(AnalyticsError::CounterOverflow)
    } else {
        None
    }
}

/// The reason, if any, for which a batch of status updates, or a bundle,
/// aborts as a whole. The rules are tried in this order: the service is
/// initialized; the caller is the administrator; the batch is not empty; it
/// holds at most `MAX_BATCH_SIZE` items.
pub open spec fn batch_refusal(admin: Option<Address>, caller: Address, count: nat) -> Option<
    AnalyticsError,
> {
    if admin is None {
        Some(AnalyticsError::NotInitialized)
    } else if admin != Some(caller) {
        Some(AnalyticsError::Unauthorized)
    } else if count == 0 {
        Some(AnalyticsError::EmptyBatch)
    } else if count > MAX_BATCH_SIZE {
        Some(AnalyticsError::BatchTooLarge)
    } else {
        None
    }
}

/// The reason, if any, for which a bundle aborts as a whole: one of
/// `batch_refusal`, or the counter of bundles has no room for it.
pub open spec fn bundle_refusal(
    admin: Option<Address>,
    last_bundle_id: u64,
    caller: Address,
    count: nat,
) -> Option<AnalyticsError> {
    if batch_refusal(admin, caller, count) is Some {
        batch_refusal(admin, caller, count)
    } else if last_bundle_id == u64::MAX {
        Some(AnalyticsError::CounterOverflow)
    } else {
        None
    }
}

/// The reason, if any, for which a batch of operations log entries aborts as
/// a whole: one of `batch_refusal`, or an entry has no timestamp (zero).
pub open spec fn audit_refusal(admin: Option<Address>, caller: Address, logs: Seq<AuditLog>) -> Option<
    AnalyticsError,
> {
    if batch_refusal(admin, caller, logs.len()) is Some {
        batch_refusal(admin, caller, logs.len())
    } else if exists|i: int| 0 <= i < logs.len() && (#[trigger] logs[i]).timestamp == 0 {
        Some(AnalyticsError::InvalidAuditLog)
    } else {
        None
    }
}

/// Makes the transactions of a batch known.
fn mark_known(known: &mut DedupGuard, transactions: &Vec<Transaction>)
    ensures
        final(known)@ == known_after(old(known)@, transactions@),
{
    let n = transactions.len();
    let mut i: usize = 0;
    assert(transactions@.take(0) =~= Seq::<Transaction>::empty());
    while i < n
        invariant
            n == transactions.len(),
            i <= n,
            known@ == known_after(old(known)@, transactions@.take(i as int)),
        decreases n - i,
    {
        assert(transactions@.take(i + 1).drop_last() =~= transactions@.take(i as int));
        known.mark(transactions[i].tx_id);
        i = i + 1;
    }
    assert(transactions@.take(n as int) =~= transactions@);
}

/// Appends one audit event per category, in their order.
fn log_categories(events: &mut Vec<AnalyticsEvent>, batch_id: u64, metrics: &Vec<CategoryMetrics>)
    ensures
        final(events)@ == old(events)@ + category_events(batch_id, metrics@),
{
    let n = metrics.len();
    let mut i: usize = 0;
    assert(events@ =~= old(events)@ + category_events(batch_id, metrics@.take(0)));
    while i < n
        invariant
            n == metrics.len(),
            i <= n,
            events@ == old(events)@ + category_events(batch_id, metrics@.take(i as int)),
        decreases n - i,
    {
        events.push(AnalyticsEvents::category_analytics(batch_id, &metrics[i]));
        i = i + 1;
        assert(events@ =~= old(events)@ + category_events(batch_id, metrics@.take(i as int)));
    }
    assert(metrics@.take(n as int) =~= metrics@);
}

/// Appends one audit event per high-value transaction, in their order.
fn log_alerts(events: &mut Vec<AnalyticsEvent>, batch_id: u64, high_value: &Vec<(u64, i128)>)
    ensures
        final(events)@ == old(events)@ + alert_events(batch_id, high_value@),
{
    let n = high_value.len();
    let mut i: usize = 0;
    assert(events@ =~= old(events)@ + alert_events(batch_id, high_value@.take(0)));
    while i < n
        invariant
            n == high_value.len(),
            i <= n,
            events@ == old(events)@ + alert_events(batch_id, high_value@.take(i as int)),
        decreases n - i,
    {
        events.push(AnalyticsEvents::high_value_alert(batch_id, high_value[i].0, high_value[i].1));
        i = i + 1;
        assert(events@ =~= old(events)@ + alert_events(batch_id, high_value@.take(i as int)));
    }
    assert(high_value@.take(n as int) =~= high_value@);
}

/// Appends one audit event per budget recommendation, in their order.
fn log_recommendations(
    events: &mut Vec<AnalyticsEvent>,
    batch_id: u64,
    recommendations: &Vec<BudgetRecommendation>,
)
    ensures
        final(events)@ == old(events)@ + budget_events(batch_id, recommendations@),
{
    let n = recommendations.len();
    let mut i: usize = 0;
    assert(events@ =~= old(events)@ + budget_events(batch_id, recommendations@.take(0)));
    while i < n
        invariant
            n == recommendations.len(),
            i <= n,
            events@ == old(events)@ + budget_events(batch_id, recommendations@.take(i as int)),
        decreases n - i,
    {
        events.push(AnalyticsEvents::recommendation_generated(batch_id, &recommendations[i]));
        i = i + 1;
        assert(events@ =~= old(events)@ + budget_events(
            batch_id,
            recommendations@.take(i as int),
        ));
    }
    assert(recommendations@.take(n as int) =~= recommendations@);
}

/// Whether every entry has a timestamp.
fn timestamps_present(logs: &Vec<AuditLog>) -> (present: bool)
    ensures
        present == !(exists|i: int| 0 <= i < logs@.len() && (#[trigger] logs@[i]).timestamp == 0),
{
    let n = logs.len();
    let mut i: usize = 0;
    while i < n
        invariant
            n == logs.len(),
            i <= n,
            forall|j: int| 0 <= j < i ==> (#[trigger] logs@[j]).timestamp != 0,
        decreases n - i,
    {
        if logs[i].timestamp == 0 {
            return false;
        }
        i = i + 1;
    }
    true
}

/// Appends the entries to the operations log, and one audit event per entry.
fn append_audit_logs(
    audit_logs: &mut Vec<AuditLog>,
    events: &mut Vec<AnalyticsEvent>,
    logs: &Vec<AuditLog>,
)
    ensures
        final(audit_logs)@ == old(audit_logs)@ + logs@,
        final(events)@ == old(events)@ + audit_events(logs@),
{
    let n = logs.len();
    let mut i: usize = 0;
    assert(audit_logs@ =~= old(audit_logs)@ + logs@.take(0));
    assert(events@ =~= old(events)@ + audit_events(logs@.take(0)));
    while i < n
        invariant
            n == logs.len(),
            i <= n,
            audit_logs@ == old(audit_logs)@ + logs@.take(i as int),
            events@ == old(events)@ + audit_events(logs@.take(i as int)),
        decreases n - i,
    {
        audit_logs.push(copy_audit_log(&logs[i]));
        events.push(
            AnalyticsEvents::audit_logged(&logs[i].actor, &logs[i].operation, &logs[i].status),
        );
        i = i + 1;
        assert(audit_logs@ =~= old(audit_logs)@ + logs@.take(i as int));
        assert(events@ =~= old(events)@ + audit_events(logs@.take(i as int)));
    }
    assert(logs@.take(n as int) =~= logs@);
}

/// The analytics service: its administrator, its records, its lifetime
/// counters and its audit log.
#[derive(Debug)]
pub struct TransactionAnalyticsContract {
    admin: Option<Address>,
    last_batch_id: u64,
    total_tx_processed: u64,
    batch_metrics: HashMap<u64, BatchMetrics>,
    known: DedupGuard,
    statuses: HashMap<u64, TransactionStatus>,
    audit_logs: Vec<AuditLog>,
    last_bundle_id: u64,
    bundles: HashMap<u64, BundleResult>,
    last_recommendation_batch_id: u64,
    recommendation_batches: HashMap<u64, Vec<BudgetRecommendation>>,
    last_refund_batch_id: u64,
    refund_metrics: HashMap<u64, RefundBatchMetrics>,
    total_refund_amount: i128,
    refunded: DedupGuard,
    events: Vec<AnalyticsEvent>,
}

impl TransactionAnalyticsContract {
    /// The administrator, once the service is initialized.
    pub closed spec fn admin(&self) -> Option<Address> {
        self.admin
    }

    /// The identifier of the last analysed batch, which is also their number.
    pub closed spec fn last_batch_id(&self) -> u64 {
        self.last_batch_id
    }

    /// The number of transactions analysed.
    pub closed spec fn total_tx_processed(&self) -> u64 {
        self.total_tx_processed
    }

    /// The metrics of the analysed batches by batch identifier.
    pub closed spec fn batch_metrics(&self) -> Map<u64, BatchMetrics> {
        self.batch_metrics@
    }

    /// The transactions that an analysed batch has made known.
    pub closed spec fn known(&self) -> Set<u64> {
        self.known@
    }

    /// The recorded statuses by transaction.
    pub closed spec fn statuses(&self) -> Map<u64, TransactionStatus> {
        self.statuses@
    }

    /// The operations log, oldest entry first.
    pub closed spec fn audit_logs(&self) -> Seq<AuditLog> {
        self.audit_logs@
    }

    /// The identifier of the last bundle, which is also their number.
    pub closed spec fn last_bundle_id(&self) -> u64 {
        self.last_bundle_id
    }

    /// The result stored for the bundle `bundle_id`, if there is such a
    /// bundle.
    pub closed spec fn bundle(&self, bundle_id: u64) -> Option<BundleResult> {
        if self.bundles@.contains_key(bundle_id) {
            Some(self.bundles@[bundle_id])
        } else {
            None
        }
    }

    /// The identifier of the last batch of budget recommendations.
    pub closed spec fn last_recommendation_batch_id(&self) -> u64 {
        self.last_recommendation_batch_id
    }

    /// The recommendations stored for the batch `batch_id`, if there is such
    /// a batch.
    pub closed spec fn recommendation_batch(&self, batch_id: u64) -> Option<
        Seq<BudgetRecommendation>,
    > {
        if self.recommendation_batches@.contains_key(batch_id) {
            Some(self.recommendation_batches@[batch_id]@)
        } else {
            None
        }
    }

    /// The identifier of the last refund batch, which is also their number.
    pub closed spec fn last_refund_batch_id(&self) -> u64 {
        self.last_refund_batch_id
    }

    /// The metrics of the refund batches by batch identifier.
    pub closed spec fn refund_metrics(&self) -> Map<u64, RefundBatchMetrics> {
        self.refund_metrics@
    }

    /// The amount refunded so far, capped at the largest amount.
    pub closed spec fn total_refund_amount(&self) -> i128 {
        self.total_refund_amount
    }

    /// The transactions that have been refunded.
    pub closed spec fn refunded(&self) -> Set<u64> {
        self.refunded@
    }

    /// The audit log, oldest event first.
    pub closed spec fn events(&self) -> Seq<AnalyticsEvent> {
        self.events@
    }

    /// Whether `other` has the analysed batches and the known transactions
    /// of this service.
    pub open spec fn same_analytics(&self, other: &TransactionAnalyticsContract) -> bool {
        &&& self.last_batch_id() == other.last_batch_id()
        &&& self.total_tx_processed() == other.total_tx_processed()
        &&& self.batch_metrics() == other.batch_metrics()
        &&& self.known() == other.known()
    }

    /// Whether `other` has the bundles of this service.
    pub open spec fn same_bundles(&self, other: &TransactionAnalyticsContract) -> bool {
        &&& self.last_bundle_id() == other.last_bundle_id()
        &&& forall|bundle_id: u64| #[trigger] self.bundle(bundle_id) == other.bundle(bundle_id)
    }

    /// Whether `other` has the budget recommendations of this service.
    pub open spec fn same_recommendation_batches(&self, other: &TransactionAnalyticsContract) -> bool {
        &&& self.last_recommendation_batch_id() == other.last_recommendation_batch_id()
        &&& forall|batch_id: u64| #[trigger]
            self.recommendation_batch(batch_id) == other.recommendation_batch(batch_id)
    }

    /// Whether `other` has the refund records of this service.
    pub open spec fn same_refunds(&self, other: &TransactionAnalyticsContract) -> bool {
        &&& self.last_refund_batch_id() == other.last_refund_batch_id()
        &&& self.refund_metrics() == other.refund_metrics()
        &&& self.total_refund_amount() == other.total_refund_amount()
        &&& self.refunded() == other.refunded()
    }

    /// Whether `other` has all the records and the audit log of this
    /// service.
    pub open spec fn same_books(&self, other: &TransactionAnalyticsContract) -> bool {
        &&& self.same_analytics(other)
        &&& self.statuses() == other.statuses()
        &&& self.audit_logs() == other.audit_logs()
        &&& self.same_bundles(other)
        &&& self.same_recommendation_batches(other)
        &&& self.same_refunds(other)
        &&& self.events() == other.events()
    }

    /// What `require_admin` answers to `caller`.
    pub open spec fn require_admin_verdict(&self, caller: Address) -> Result<(), AnalyticsError> {
        if self.admin() is None {
            Err(AnalyticsError::NotInitialized)
        } else if self.admin() != Some(caller) {
            Err(AnalyticsError::Unauthorized)
        } else {
            Ok(())
        }
    }

    /// A service that is not yet initialized.
    pub fn new() -> (contract: TransactionAnalyticsContract)
        ensures
            contract.admin() is None,
            contract.last_batch_id() == 0,
            contract.total_tx_processed() == 0,
            contract.batch_metrics() == Map::<u64, BatchMetrics>::empty(),
            contract.known() == Set::<u64>::empty(),
            contract.statuses() == Map::<u64, TransactionStatus>::empty(),
            contract.audit_logs() == Seq::<AuditLog>::empty(),
            contract.last_bundle_id() == 0,
            forall|bundle_id: u64| contract.bundle(bundle_id) is None,
            contract.last_recommendation_batch_id() == 0,
            forall|batch_id: u64| contract.recommendation_batch(batch_id) is None,
            contract.last_refund_batch_id() == 0,
            contract.refund_metrics() == Map::<u64, RefundBatchMetrics>::empty(),
            contract.total_refund_amount() == 0,
            contract.refunded() == Set::<u64>::empty(),
            contract.events() == Seq::<AnalyticsEvent>::empty(),
    {
        TransactionAnalyticsContract {
            admin: None,
            last_batch_id: 0,
            total_tx_processed: 0,
            batch_metrics: HashMap::new(),
            known: DedupGuard::new(),
            statuses: HashMap::new(),
            audit_logs: Vec::new(),
            last_bundle_id: 0,
            bundles: HashMap::new(),
            last_recommendation_batch_id: 0,
            recommendation_batches: HashMap::new(),
            last_refund_batch_id: 0,
            refund_metrics: HashMap::new(),
            total_refund_amount: 0,
            refunded: DedupGuard::new(),
            events: Vec::new(),
        }
    }

    /// A service as it was persisted: with its administrator and its
    /// counters, and without records and events; `load_known`,
    /// `load_status` and `load_refunded` bring back what a call needs.
    pub fn restore(
        admin: Option<Address>,
        last_batch_id: u64,
        total_tx_processed: u64,
        last_bundle_id: u64,
        last_recommendation_batch_id: u64,
        last_refund_batch_id: u64,
        total_refund_amount: i128,
    ) -> (contract: TransactionAnalyticsContract)
        ensures
            contract.admin() == admin,
            contract.last_batch_id() == last_batch_id,
            contract.total_tx_processed() == total_tx_processed,
            contract.batch_metrics() == Map::<u64, BatchMetrics>::empty(),
            contract.known() == Set::<u64>::empty(),
            contract.statuses() == Map::<u64, TransactionStatus>::empty(),
            contract.audit_logs() == Seq::<AuditLog>::empty(),
            contract.last_bundle_id() == last_bundle_id,
            forall|bundle_id: u64| contract.bundle(bundle_id) is None,
            contract.last_recommendation_batch_id() == last_recommendation_batch_id,
            forall|batch_id: u64| contract.recommendation_batch(batch_id) is None,
            contract.last_refund_batch_id() == last_refund_batch_id,
            contract.refund_metrics() == Map::<u64, RefundBatchMetrics>::empty(),
            contract.total_refund_amount() == total_refund_amount,
            contract.refunded() == Set::<u64>::empty(),
            contract.events() == Seq::<AnalyticsEvent>::empty(),
    {
        TransactionAnalyticsContract {
            admin,
            last_batch_id,
            total_tx_processed,
            batch_metrics: HashMap::new(),
            known: DedupGuard::new(),
            statuses: HashMap::new(),
            audit_logs: Vec::new(),
            last_bundle_id,
            bundles: HashMap::new(),
            last_recommendation_batch_id,
            recommendation_batches: HashMap::new(),
            last_refund_batch_id,
            refund_metrics: HashMap::new(),
            total_refund_amount,
            refunded: DedupGuard::new(),
            events: Vec::new(),
        }
    }

    /// Brings back that the transaction `tx_id` is known.
    pub fn load_known(&mut self, tx_id: u64)
        ensures
            final(self).known() == old(self).known().insert(tx_id),
            final(self).admin() == old(self).admin(),
            final(self).last_batch_id() == old(self).last_batch_id(),
            final(self).total_tx_processed() == old(self).total_tx_processed(),
            final(self).batch_metrics() == old(self).batch_metrics(),
            final(self).statuses() == old(self).statuses(),
            final(self).audit_logs() == old(self).audit_logs(),
            final(self).same_bundles(old(self)),
            final(self).same_recommendation_batches(old(self)),
            final(self).same_refunds(old(self)),
            final(self).events() == old(self).events(),
    {
        self.known.mark(tx_id);
    }

    /// Brings back the recorded status of the transaction `tx_id`.
    pub fn load_status(&mut self, tx_id: u64, status: TransactionStatus)
        ensures
            final(self).statuses() == old(self).statuses().insert(tx_id, status),
            final(self).admin() == old(self).admin(),
            final(self).same_analytics(old(self)),
            final(self).audit_logs() == old(self).audit_logs(),
            final(self).same_bundles(old(self)),
            final(self).same_recommendation_batches(old(self)),
            final(self).same_refunds(old(self)),
            final(self).events() == old(self).events(),
    {
        self.statuses.insert(tx_id, status);
    }

    /// Brings back that the transaction `tx_id` has been refunded.
    pub fn load_refunded(&mut self, tx_id: u64)
        ensures
            final(self).refunded() == old(self).refunded().insert(tx_id),
            final(self).last_refund_batch_id() == old(self).last_refund_batch_id(),
            final(self).refund_metrics() == old(self).refund_metrics(),
            final(self).total_refund_amount() == old(self).total_refund_amount(),
            final(self).admin() == old(self).admin(),
            final(self).same_analytics(old(self)),
            final(self).statuses() == old(self).statuses(),
            final(self).audit_logs() == old(self).audit_logs(),
            final(self).same_bundles(old(self)),
            final(self).same_recommendation_batches(old(self)),
            final(self).events() == old(self).events(),
    {
        self.refunded.mark(tx_id);
    }

    /// Initializes the contract with an admin address. A service is
    /// initialized once.
    pub fn initialize(&mut self, admin: Address) -> (r: Result<(), AnalyticsError>)
        ensures
            old(self).admin() is Some ==> r == Err::<(), AnalyticsError>(
                AnalyticsError::AlreadyInitialized,
            ) && *final(self) == *old(self),
            old(self).admin() is None ==> r is Ok && final(self).admin() == Some(admin) && final(self).same_books(old(self)),
    {
        if self.admin.is_some() {
            return Err(AnalyticsError::AlreadyInitialized);
        }
        self.admin = Some(admin);
        Ok(())
    }

    /// Returns the admin address.
    pub fn get_admin(&self) -> (r: Result<Address, AnalyticsError>)
        ensures
            r == (match self.admin() {
                Some(a) => Ok::<Address, AnalyticsError>(a),
                None => Err::<Address, AnalyticsError>(AnalyticsError::NotInitialized),
            }),
    {
        match self.admin {
            Some(a) => Ok(a),
            None => Err(AnalyticsError::NotInitialized),
        }
    }

    /// Checks that the service is initialized and that `caller` is its
    /// administrator.
    pub fn require_admin(&self, caller: &Address) -> (r: Result<(), AnalyticsError>)
        ensures
            r == self.require_admin_verdict(*caller),
    {
        match self.admin {
            None => Err(AnalyticsError::NotInitialized),
            Some(admin) => if admin.id == caller.id {
                Ok(())
            } else {
                Err(AnalyticsError::Unauthorized)
            },
        }
    }

    /// Updates the admin address. Only the administrator in office may name
    /// the next one.
    pub fn set_admin(&mut self, current_admin: &Address, new_admin: Address) -> (r: Result<
        (),
        AnalyticsError,
    >)
        ensures
            r == old(self).require_admin_verdict(*current_admin),
            r is Err ==> *final(self) == *old(self),
            r is Ok ==> final(self).admin() == Some(new_admin) && final(self).same_books(
                old(self),
            ),
    {
        match self.require_admin(current_admin) {
            Err(e) => Err(e),
            Ok(()) => {
                self.admin = Some(new_admin);
                Ok(())
            },
        }
    }

    /// Generates batch analytics for multiple transactions.
    ///
    /// The call aborts as a whole, changing nothing, when `analysis_refusal`
    /// gives a reason. Otherwise the batch gets the next batch identifier;
    /// its metrics are computed, stored under the identifier and returned;
    /// its transactions become known; and the lifetime counters are advanced
    /// once. The audit log receives the start of the analysis, the metrics,
    /// one event per category, one alert per transaction whose amount is at
    /// least `high_value_threshold` where one is given, and the completion.
    pub fn process_batch(
        &mut self,
        caller: &Address,
        transactions: &Vec<Transaction>,
        high_value_threshold: Option<i128>,
        current_ledger: u64,
    ) -> (r: Result<BatchMetrics, AnalyticsError>)
        ensures
            match analysis_refusal(
                old(self).admin(),
                old(self).last_batch_id(),
                old(self).total_tx_processed(),
                *caller,
                transactions@,
            ) {
                Some(e) => r == Err::<BatchMetrics, AnalyticsError>(e) && *final(self) == *old(self),
                None => {
                    let metrics = batch_metrics_of(transactions@, current_ledger);
                    let batch_id = (old(self).last_batch_id() + 1) as u64;
                    &&& r == Ok::<BatchMetrics, AnalyticsError>(metrics)
                    &&& final(self).last_batch_id() == batch_id
                    &&& final(self).total_tx_processed() == old(self).total_tx_processed()
                        + transactions@.len()
                    &&& final(self).batch_metrics() == old(self).batch_metrics().insert(
                        batch_id,
                        metrics,
                    )
                    &&& final(self).known() == known_after(old(self).known(), transactions@)
                    &&& final(self).events() == old(self).events().push(
                        AnalyticsEvent::AnalyticsStarted {
                            batch_id,
                            tx_count: transactions@.len() as u32,
                        },
                    ).push(AnalyticsEvent::BatchProcessed { batch_id, metrics })
                        + category_events(
                        batch_id,
                        category_metrics_of(transactions@, metrics.total_volume),
                    ) + alerts_of(batch_id, transactions@, high_value_threshold).push(
                        AnalyticsEvent::AnalyticsCompleted {
                            batch_id,
                            processing_cost: transactions@.len() as u64,
                        },
                    )
                    &&& final(self).admin() == old(self).admin()
                    &&& final(self).statuses() == old(self).statuses()
                    &&& final(self).audit_logs() == old(self).audit_logs()
                    &&& final(self).same_bundles(old(self))
                    &&& final(self).same_recommendation_batches(old(self))
                    &&& final(self).same_refunds(old(self))
                },
            },
    {
        let admin = match self.admin {
            Some(a) => a,
            None => {
                return Err(AnalyticsError::NotInitialized);
            },
        };
        if admin.id != caller.id {
            return Err(AnalyticsError::Unauthorized);
        }
        let n = transactions.len();
        if n == 0 {
            return Err(AnalyticsError::EmptyBatch);
        }
        if n > MAX_BATCH_SIZE as usize {
            return Err(AnalyticsError::BatchTooLarge);
        }
        if validate_batch(transactions).is_err() {
            return Err(AnalyticsError::InvalidBatch);
        }
        let tx_count = n as u32;
        if self.last_batch_id == u64::MAX || self.total_tx_processed > u64::MAX - tx_count as u64 {
            return Err(AnalyticsError::CounterOverflow);
        }
        let batch_id = self.last_batch_id + 1;
        self.events.push(AnalyticsEvents::analytics_started(batch_id, tx_count));
        let metrics = compute_batch_metrics(transactions, current_ledger);
        self.events.push(AnalyticsEvents::batch_processed(batch_id, &metrics));
        let category_metrics = compute_category_metrics(transactions, metrics.total_volume);
        log_categories(&mut self.events, batch_id, &category_metrics);
        if let Some(threshold) = high_value_threshold {
            let high_value_txs = find_high_value_transactions(transactions, threshold);
            log_alerts(&mut self.events, batch_id, &high_value_txs);
        }
        self.last_batch_id = batch_id;
        self.total_tx_processed = self.total_tx_processed + tx_count as u64;
        self.batch_metrics.insert(batch_id, metrics);
        mark_known(&mut self.known, transactions);
        self.events.push(AnalyticsEvents::analytics_completed(batch_id, tx_count as u64));
        proof {
            assert(self.events@ =~= old(self).events().push(
                AnalyticsEvent::AnalyticsStarted { batch_id, tx_count },
            ).push(AnalyticsEvent::BatchProcessed { batch_id, metrics }) + category_events(
                batch_id,
                category_metrics_of(transactions@, metrics.total_volume),
            ) + alerts_of(batch_id, transactions@, high_value_threshold).push(
                AnalyticsEvent::AnalyticsCompleted { batch_id, processing_cost: tx_count as u64 },
            ));
        }
        Ok(metrics)
    }

    /// Retrieves stored metrics for a specific batch.
    pub fn get_batch_metrics(&self, batch_id: u64) -> (found: Option<BatchMetrics>)
        ensures
            found == (if self.batch_metrics().contains_key(batch_id) {
                Some(self.batch_metrics()[batch_id])
            } else {
                None
            }),
    {
        match self.batch_metrics.get(&batch_id) {
            Some(m) => Some(*m),
            None => None,
        }
    }

    /// Returns the last processed batch ID.
    pub fn get_last_batch_id(&self) -> (id: u64)
        ensures
            id == self.last_batch_id(),
    {
        self.last_batch_id
    }

    /// Returns the total number of transactions processed.
    pub fn get_total_transactions_processed(&self) -> (n: u64)
        ensures
            n == self.total_tx_processed(),
    {
        self.total_tx_processed
    }

    /// Computes the metrics of a batch without storing anything: the service
    /// is not changed. A batch that `batch_verdict` refuses is answered with
    /// `InvalidBatch`.
    pub fn simulate_batch(&self, transactions: &Vec<Transaction>, current_ledger: u64) -> (r:
        Result<BatchMetrics, AnalyticsError>)
        ensures
            r == (if batch_verdict(transactions@) is Err {
                Err::<BatchMetrics, AnalyticsError>(AnalyticsError::InvalidBatch)
            } else {
                Ok::<BatchMetrics, AnalyticsError>(batch_metrics_of(transactions@, current_ledger))
            }),
    {
        if validate_batch(transactions).is_err() {
            return Err(AnalyticsError::InvalidBatch);
        }
        Ok(compute_batch_metrics(transactions, current_ledger))
    }

    /// Sets the statuses of several transactions in a batch.
    ///
    /// The call aborts as a whole, changing nothing, when `batch_refusal`
    /// gives a reason. Otherwise every update is attempted in its order: the
    /// status of a known transaction is recorded, the update of any other
    /// fails and leaves the others untouched. The audit log receives one
    /// event per update.
    pub fn update_transaction_statuses(
        &mut self,
        caller: &Address,
        updates: &Vec<TransactionStatusUpdate>,
    ) -> (r: Result<BatchStatusUpdateResult, AnalyticsError>)
        ensures
            match batch_refusal(old(self).admin(), *caller, updates@.len()) {
                Some(e) => r == Err::<BatchStatusUpdateResult, AnalyticsError>(e) && *final(self)
                    == *old(self),
                None => r matches Ok(batch) && {
                    let run = set_status_all(old(self).known(), old(self).statuses(), updates@);
                    &&& final(self).statuses() == run.statuses
                    &&& batch.results@ == run.results
                    &&& batch.total_requests == updates@.len()
                    &&& batch.results@.len() == updates@.len()
                    &&& batch.successful == successes(batch.results@)
                    &&& batch.failed == failures(batch.results@)
                    &&& batch.successful + batch.failed == batch.total_requests
                    &&& final(self).events() == old(self).events() + run.events
                    &&& final(self).admin() == old(self).admin()
                    &&& final(self).same_analytics(old(self))
                    &&& final(self).audit_logs() == old(self).audit_logs()
                    &&& final(self).same_bundles(old(self))
                    &&& final(self).same_recommendation_batches(old(self))
                    &&& final(self).same_refunds(old(self))
                },
            },
    {
        let admin = match self.admin {
            Some(a) => a,
            None => {
                return Err(AnalyticsError::NotInitialized);
            },
        };
        if admin.id != caller.id {
            return Err(AnalyticsError::Unauthorized);
        }
        let n = updates.len();
        if n == 0 {
            return Err(AnalyticsError::EmptyBatch);
        }
        if n > MAX_BATCH_SIZE as usize {
            return Err(AnalyticsError::BatchTooLarge);
        }
        let total_requests = n as u32;
        let (results, successful) = set_status_each(
            &self.known,
            &mut self.statuses,
            &mut self.events,
            updates,
        );
        proof {
            lemma_counts_partition(results@);
        }
        Ok(
            BatchStatusUpdateResult {
                total_requests,
                successful,
                failed: total_requests - successful,
                results,
            },
        )
    }

    /// Returns the recorded status of a transaction.
    pub fn get_transaction_status(&self, tx_id: u64) -> (found: Option<TransactionStatus>)
        ensures
            found == status_at(self.statuses(), tx_id),
    {
        match self.statuses.get(&tx_id) {
            Some(s) => Some(*s),
            None => None,
        }
    }

    /// Appends a batch of entries to the operations log.
    ///
    /// The call aborts as a whole, changing nothing, when `audit_refusal`
    /// gives a reason. Otherwise the entries are appended in their order,
    /// the audit log receives one event per entry, and the new number of
    /// entries is returned.
    pub fn batch_audit_log(&mut self, caller: &Address, logs: &Vec<AuditLog>) -> (r: Result<
        u64,
        AnalyticsError,
    >)
        ensures
            match audit_refusal(old(self).admin(), *caller, logs@) {
                Some(e) => r == Err::<u64, AnalyticsError>(e) && *final(self) == *old(self),
                None => {
                    &&& r == Ok::<u64, AnalyticsError>(final(self).audit_logs().len() as u64)
                    &&& final(self).audit_logs() == old(self).audit_logs() + logs@
                    &&& final(self).events() == old(self).events() + audit_events(logs@)
                    &&& final(self).admin() == old(self).admin()
                    &&& final(self).same_analytics(old(self))
                    &&& final(self).statuses() == old(self).statuses()
                    &&& final(self).same_bundles(old(self))
                    &&& final(self).same_recommendation_batches(old(self))
                    &&& final(self).same_refunds(old(self))
                },
            },
    {
        let admin = match self.admin {
            Some(a) => a,
            None => {
                return Err(AnalyticsError::NotInitialized);
            },
        };
        if admin.id != caller.id {
            return Err(AnalyticsError::Unauthorized);
        }
        let n = logs.len();
        if n == 0 {
            return Err(AnalyticsError::EmptyBatch);
        }
        if n > MAX_BATCH_SIZE as usize {
            return Err(AnalyticsError::BatchTooLarge);
        }
        if !timestamps_present(logs) {
            return Err(AnalyticsError::InvalidAuditLog);
        }
        append_audit_logs(&mut self.audit_logs, &mut self.events, logs);
        Ok(self.audit_logs.len() as u64)
    }

    /// Returns the number of entries in the operations log.
    pub fn get_total_audit_logs(&self) -> (n: u64)
        ensures
            n == self.audit_logs().len(),
    {
        self.audit_logs.len() as u64
    }

    /// Returns the entry of the operations log with the given number; the
    /// oldest entry has the number 1.
    pub fn get_audit_log(&self, index: u64) -> (found: Option<AuditLog>)
        ensures
            found == (if 1 <= index <= self.audit_logs().len() {
                Some(self.audit_logs()[index - 1])
            } else {
                None
            }),
    {
        if index == 0 || index > self.audit_logs.len() as u64 {
            return None;
        }
        Some(copy_audit_log(&self.audit_logs[(index - 1) as usize]))
    }

    /// Validates a bundle of transactions.
    ///
    /// The call aborts as a whole, changing nothing, when `bundle_refusal`
    /// gives a reason. Otherwise the bundle gets the next bundle identifier
    /// and every transaction gets its verdict; the result is stored under
    /// the identifier and returned. The audit log receives the start of the
    /// validation, the events of every verdict, the result, and the
    /// completion.
    pub fn bundle_transactions(
        &mut self,
        caller: &Address,
        bundled_transactions: &Vec<BundledTransaction>,
        current_ledger: u64,
    ) -> (r: Result<BundleResult, AnalyticsError>)
        ensures
            match bundle_refusal(
                old(self).admin(),
                old(self).last_bundle_id(),
                *caller,
                bundled_transactions@.len(),
            ) {
                Some(e) => r == Err::<BundleResult, AnalyticsError>(e) && *final(self) == *old(self),
                None => r matches Ok(result) && {
                    let bundle_id = (old(self).last_bundle_id() + 1) as u64;
                    &&& is_bundle_result(result, bundle_id, bundled_transactions@, current_ledger)
                    &&& final(self).last_bundle_id() == bundle_id
                    &&& final(self).bundle(bundle_id) matches Some(stored) && same_bundle(
                        stored,
                        result,
                    )
                    &&& forall|other: u64|
                        other != bundle_id ==> #[trigger] final(self).bundle(other) == old(self).bundle(other)
                    &&& final(self).events() == old(self).events().push(
                        AnalyticsEvent::BundlingStarted { bundle_id, tx_count: result.total_count },
                    ) + verdict_events(bundle_id, result.validation_results@).push(
                        AnalyticsEvent::BundleCreated {
                            bundle_id,
                            total_count: result.total_count,
                            valid_count: result.valid_count,
                            invalid_count: result.invalid_count,
                            can_bundle: result.can_bundle,
                            total_volume: result.total_volume,
                            created_at: result.created_at,
                        },
                    ).push(
                        AnalyticsEvent::BundlingCompleted {
                            bundle_id,
                            can_bundle: result.can_bundle,
                        },
                    )
                    &&& final(self).admin() == old(self).admin()
                    &&& final(self).same_analytics(old(self))
                    &&& final(self).statuses() == old(self).statuses()
                    &&& final(self).audit_logs() == old(self).audit_logs()
                    &&& final(self).same_recommendation_batches(old(self))
                    &&& final(self).same_refunds(old(self))
                },
            },
    {
        let admin = match self.admin {
            Some(a) => a,
            None => {
                return Err(AnalyticsError::NotInitialized);
            },
        };
        if admin.id != caller.id {
            return Err(AnalyticsError::Unauthorized);
        }
        let n = bundled_transactions.len();
        if n == 0 {
            return Err(AnalyticsError::EmptyBatch);
        }
        if n > MAX_BATCH_SIZE as usize {
            return Err(AnalyticsError::BatchTooLarge);
        }
        if self.last_bundle_id == u64::MAX {
            return Err(AnalyticsError::CounterOverflow);
        }
        let bundle_id = self.last_bundle_id + 1;
        self.events.push(AnalyticsEvents::bundling_started(bundle_id, n as u32));
        let result = validate_bundle(
            &mut self.events,
            bundle_id,
            bundled_transactions,
            current_ledger,
        );
        self.events.push(AnalyticsEvents::bundle_created(bundle_id, &result));
        self.events.push(AnalyticsEvents::bundling_completed(bundle_id, result.can_bundle));
        self.last_bundle_id = bundle_id;
        self.bundles.insert(bundle_id, copy_bundle_result(&result));
        proof {
            assert(self.events@ =~= old(self).events().push(
                AnalyticsEvent::BundlingStarted { bundle_id, tx_count: result.total_count },
            ) + verdict_events(bundle_id, result.validation_results@).push(
                AnalyticsEvent::BundleCreated {
                    bundle_id,
                    total_count: result.total_count,
                    valid_count: result.valid_count,
                    invalid_count: result.invalid_count,
                    can_bundle: result.can_bundle,
                    total_volume: result.total_volume,
                    created_at: result.created_at,
                },
            ).push(AnalyticsEvent::BundlingCompleted { bundle_id, can_bundle: result.can_bundle }));
        }
        Ok(result)
    }

    /// Returns the identifier of the last bundle.
    pub fn get_last_bundle_id(&self) -> (id: u64)
        ensures
            id == self.last_bundle_id(),
    {
        self.last_bundle_id
    }

    /// Retrieves the stored result of a bundle.
    pub fn get_bundle_result(&self, bundle_id: u64) -> (found: Option<BundleResult>)
        ensures
            match self.bundle(bundle_id) {
                Some(stored) => found matches Some(result) && same_bundle(result, stored),
                None => found is None,
            },
    {
        match self.bundles.get(&bundle_id) {
            Some(result) => Some(copy_bundle_result(result)),
            None => None,
        }
    }

    /// Generates budget recommendations for multiple users in a batch
    /// operation.
    ///
    /// The call aborts as a whole, changing nothing, when
    /// `budget_batch_refusal` gives a reason. Otherwise the batch gets the
    /// next identifier of recommendation batches, every user gets a
    /// recommendation, and the recommendations are stored under the
    /// identifier and returned. The audit log receives the start of the
    /// batch, one event per recommendation, and its completion.
    pub fn generate_batch_budget_recommendations(
        &mut self,
        caller: &Address,
        users: &Vec<UserBudgetData>,
        current_ledger: u64,
    ) -> (r: Result<Vec<BudgetRecommendation>, AnalyticsError>)
        ensures
            match budget_batch_refusal(
                old(self).admin(),
                old(self).last_recommendation_batch_id(),
                *caller,
                users@,
            ) {
                Some(e) => r == Err::<Vec<BudgetRecommendation>, AnalyticsError>(e) && *final(self)
                    == *old(self),
                None => r matches Ok(recommendations) && {
                    let batch_id = (old(self).last_recommendation_batch_id() + 1) as u64;
                    &&& recommendations@.len() == users@.len()
                    &&& forall|i: int|
                        0 <= i < users@.len() ==> is_recommendation_for(
                            #[trigger] recommendations@[i],
                            users@[i],
                            current_ledger,
                        )
                    &&& final(self).last_recommendation_batch_id() == batch_id
                    &&& final(self).recommendation_batch(batch_id) matches Some(stored)
                        && same_recommendations(stored, recommendations@)
                    &&& forall|other: u64|
                        other != batch_id ==> #[trigger] final(self).recommendation_batch(other)
                            == old(self).recommendation_batch(other)
                    &&& final(self).events() == old(self).events().push(
                        AnalyticsEvent::RecommendationsStarted {
                            batch_id,
                            user_count: users@.len() as u32,
                        },
                    ) + budget_events(batch_id, recommendations@).push(
                        AnalyticsEvent::RecommendationsCompleted {
                            batch_id,
                            user_count: users@.len() as u32,
                        },
                    )
                    &&& final(self).admin() == old(self).admin()
                    &&& final(self).same_analytics(old(self))
                    &&& final(self).statuses() == old(self).statuses()
                    &&& final(self).audit_logs() == old(self).audit_logs()
                    &&& final(self).same_bundles(old(self))
                    &&& final(self).same_refunds(old(self))
                },
            },
    {
        let admin = match self.admin {
            Some(a) => a,
            None => {
                return Err(AnalyticsError::NotInitialized);
            },
        };
        if admin.id != caller.id {
            return Err(AnalyticsError::Unauthorized);
        }
        let n = users.len();
        if n == 0 {
            return Err(AnalyticsError::EmptyBudgetBatch);
        }
        if n > MAX_BATCH_SIZE as usize {
            return Err(AnalyticsError::BudgetBatchTooLarge);
        }
        if validate_batch_budget_data(users).is_err() {
            return Err(AnalyticsError::InvalidBudgetData);
        }
        if self.last_recommendation_batch_id == u64::MAX {
            return Err(AnalyticsError::CounterOverflow);
        }
        let user_count = n as u32;
        let batch_id = self.last_recommendation_batch_id + 1;
        self.events.push(AnalyticsEvents::recommendations_started(batch_id, user_count));
        let recommendations = generate_batch_recommendations(users, current_ledger);
        log_recommendations(&mut self.events, batch_id, &recommendations);
        self.last_recommendation_batch_id = batch_id;
        self.recommendation_batches.insert(batch_id, copy_recommendations(&recommendations));
        self.events.push(AnalyticsEvents::recommendations_completed(batch_id, user_count));
        proof {
            assert(self.events@ =~= old(self).events().push(
                AnalyticsEvent::RecommendationsStarted { batch_id, user_count },
            ) + budget_events(batch_id, recommendations@).push(
                AnalyticsEvent::RecommendationsCompleted { batch_id, user_count },
            ));
        }
        Ok(recommendations)
    }

    /// Retrieves stored budget recommendations for a specific batch.
    pub fn get_recommendation_batch(&self, batch_id: u64) -> (found: Option<
        Vec<BudgetRecommendation>,
    >)
        ensures
            match self.recommendation_batch(batch_id) {
                Some(stored) => found matches Some(recommendations) && same_recommendations(
                    recommendations@,
                    stored,
                ),
                None => found is None,
            },
    {
        match self.recommendation_batches.get(&batch_id) {
            Some(recommendations) => Some(copy_recommendations(recommendations)),
            None => None,
        }
    }

    /// Returns the last processed recommendation batch ID.
    pub fn get_last_recommendation_batch_id(&self) -> (id: u64)
        ensures
            id == self.last_recommendation_batch_id(),
    {
        self.last_recommendation_batch_id
    }

    /// Generates a budget recommendation for a single user, storing nothing.
    /// Data that `budget_data_verdict` refuses is answered with
    /// `InvalidBudgetData`.
    pub fn simulate_budget_recommendation(
        &self,
        user_data: &UserBudgetData,
        current_ledger: u64,
    ) -> (r: Result<BudgetRecommendation, AnalyticsError>)
        ensures
            budget_data_verdict(*user_data) is Err ==> r == Err::<
                BudgetRecommendation,
                AnalyticsError,
            >(AnalyticsError::InvalidBudgetData),
            budget_data_verdict(*user_data) is Ok ==> (r matches Ok(recommendation)
                && is_recommendation_for(recommendation, *user_data, current_ledger)),
    {
        if validate_user_budget_data(user_data).is_err() {
            return Err(AnalyticsError::InvalidBudgetData);
        }
        Ok(generate_budget_recommendation(user_data, current_ledger))
    }

    /// Refunds a batch of transactions.
    ///
    /// `lookup` holds the transactions that may be refunded, by identifier.
    /// The call aborts as a whole, changing nothing, when
    /// `refund_batch_refusal` gives a reason. Otherwise the batch gets the
    /// next refund batch identifier and every request is attempted in its
    /// order against the marks as the requests before it left them, so that
    /// a transaction listed twice is refunded once. The metrics of the batch
    /// are stored under its identifier and returned; the lifetime amount is
    /// advanced once, capped at the largest amount. The audit log receives
    /// the start of the batch, one event per request, and its completion.
    pub fn refund_batch(
        &mut self,
        caller: &Address,
        requests: &Vec<RefundRequest>,
        lookup: &HashMap<u64, Transaction>,
        current_ledger: u64,
    ) -> (r: Result<RefundBatchMetrics, AnalyticsError>)
        ensures
            match refund_batch_refusal(
                old(self).admin(),
                old(self).last_refund_batch_id(),
                *caller,
                requests@.len(),
            ) {
                Some(e) => r == Err::<RefundBatchMetrics, AnalyticsError>(e) && *final(self)
                    == *old(self),
                None => {
                    let run = refund_all(lookup@, old(self).refunded(), requests@);
                    let metrics = refund_metrics_of(run.results, current_ledger);
                    let batch_id = (old(self).last_refund_batch_id() + 1) as u64;
                    &&& r == Ok::<RefundBatchMetrics, AnalyticsError>(metrics)
                    &&& run.results.len() == requests@.len()
                    &&& metrics.successful_refunds + metrics.failed_refunds
                        == metrics.request_count
                    &&& metrics.request_count == requests@.len()
                    &&& volume(run.results) >= 0
                    &&& final(self).refunded() == run.refunded
                    &&& old(self).refunded().subset_of(final(self).refunded())
                    &&& final(self).last_refund_batch_id() == batch_id
                    &&& final(self).refund_metrics() == old(self).refund_metrics().insert(
                        batch_id,
                        metrics,
                    )
                    &&& final(self).total_refund_amount() == saturate(
                        old(self).total_refund_amount() + metrics.total_refunded_amount,
                    )
                    &&& final(self).events() == old(self).events().push(
                        AnalyticsEvent::RefundBatchStarted {
                            batch_id,
                            request_count: metrics.request_count,
                        },
                    ) + refund_events(batch_id, run.results).push(
                        AnalyticsEvent::RefundBatchCompleted { batch_id, refund_metrics: metrics },
                    )
                    &&& final(self).admin() == old(self).admin()
                    &&& final(self).same_analytics(old(self))
                    &&& final(self).statuses() == old(self).statuses()
                    &&& final(self).audit_logs() == old(self).audit_logs()
                    &&& final(self).same_bundles(old(self))
                    &&& final(self).same_recommendation_batches(old(self))
                },
            },
    {
        let admin = match self.admin {
            Some(a) => a,
            None => {
                return Err(AnalyticsError::NotInitialized);
            },
        };
        if admin.id != caller.id {
            return Err(AnalyticsError::Unauthorized);
        }
        let n = requests.len();
        if n == 0 {
            return Err(AnalyticsError::EmptyRefundBatch);
        }
        if n > MAX_BATCH_SIZE as usize {
            return Err(AnalyticsError::RefundBatchTooLarge);
        }
        if self.last_refund_batch_id == u64::MAX {
            return Err(AnalyticsError::CounterOverflow);
        }
        let request_count = n as u32;
        let batch_id = self.last_refund_batch_id + 1;
        let (results, successful, total) = refund_each(&mut self.refunded, lookup, requests);
        let metrics = build_refund_metrics(&results, successful, total, current_ledger);
        proof {
            lemma_counts_partition(results@);
        }
        self.events.push(AnalyticsEvents::refund_batch_started(batch_id, request_count));
        log_refunds(&mut self.events, batch_id, &results);
        self.events.push(AnalyticsEvents::refund_batch_completed(batch_id, &metrics));
        self.last_refund_batch_id = batch_id;
        self.refund_metrics.insert(batch_id, metrics);
        self.total_refund_amount = saturating_add(self.total_refund_amount, total);
        proof {
            assert(self.events@ =~= old(self).events().push(
                AnalyticsEvent::RefundBatchStarted { batch_id, request_count },
            ) + refund_events(batch_id, results@).push(
                AnalyticsEvent::RefundBatchCompleted { batch_id, refund_metrics: metrics },
            ));
        }
        Ok(metrics)
    }

    /// Computes what `refund_batch` would return for these requests, without
    /// refunding anything: the service is not changed.
    pub fn simulate_refund_batch(
        &self,
        requests: &Vec<RefundRequest>,
        lookup: &HashMap<u64, Transaction>,
        current_ledger: u64,
    ) -> (r: Result<RefundBatchMetrics, AnalyticsError>)
        ensures
            match refund_batch_size_refusal(requests@.len()) {
                Some(e) => r == Err::<RefundBatchMetrics, AnalyticsError>(e),
                None => r == Ok::<RefundBatchMetrics, AnalyticsError>(
                    refund_metrics_of(
                        refund_all(lookup@, self.refunded(), requests@).results,
                        current_ledger,
                    ),
                ),
            },
    {
        let n = requests.len();
        if n == 0 {
            return Err(AnalyticsError::EmptyRefundBatch);
        }
        if n > MAX_BATCH_SIZE as usize {
            return Err(AnalyticsError::RefundBatchTooLarge);
        }
        let mut scratch = self.refunded.snapshot();
        let (results, successful, total) = refund_each(&mut scratch, lookup, requests);
        Ok(build_refund_metrics(&results, successful, total, current_ledger))
    }

    /// Whether the transaction `tx_id` has been refunded.
    pub fn is_transaction_refunded(&self, tx_id: u64) -> (refunded: bool)
        ensures
            refunded == self.refunded().contains(tx_id),
    {
        self.refunded.is_marked(tx_id)
    }

    /// Returns the amount refunded so far.
    pub fn get_total_refund_amount(&self) -> (amount: i128)
        ensures
            amount == self.total_refund_amount(),
    {
        self.total_refund_amount
    }

    /// Returns the identifier of the last refund batch.
    pub fn get_last_refund_batch_id(&self) -> (id: u64)
        ensures
            id == self.last_refund_batch_id(),
    {
        self.last_refund_batch_id
    }

    /// Retrieves the stored metrics of a refund batch.
    pub fn get_refund_batch_metrics(&self, batch_id: u64) -> (found: Option<RefundBatchMetrics>)
        ensures
            found == (if self.refund_metrics().contains_key(batch_id) {
                Some(self.refund_metrics()[batch_id])
            } else {
                None
            }),
    {
        match self.refund_metrics.get(&batch_id) {
            Some(m) => Some(*m),
            None => None,
        }
    }

    /// The audit log, oldest event first.
    pub fn event_log(&self) -> (log: &Vec<AnalyticsEvent>)
        ensures
            log@ == self.events(),
    {
        &self.events
    }
}

} // verus!
