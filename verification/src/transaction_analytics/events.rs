//! The audit events of the analytics service.

use crate::address::Address;
use crate::transaction_analytics::types::{
    BatchMetrics, BudgetRecommendation, BundleResult, CategoryMetrics, RatingStatus,
    RefundBatchMetrics, RefundResult, TransactionStatus, ValidationResult,
};
use vstd::prelude::*;

verus! {

/// One entry of the analytics service's audit log.
#[derive(Clone, Debug, PartialEq, Eq)]
pub enum AnalyticsEvent {
    /// The metrics of a batch were computed.
    BatchProcessed { batch_id: u64, metrics: BatchMetrics },
    /// The metrics of one category of a batch.
    CategoryAnalytics { batch_id: u64, category_metrics: CategoryMetrics },
    /// The analysis of a batch started.
    AnalyticsStarted { batch_id: u64, tx_count: u32 },
    /// The analysis of a batch completed.
    AnalyticsCompleted { batch_id: u64, processing_cost: u64 },
    /// A transaction of a batch is a high-value transaction.
    HighValueAlert { batch_id: u64, tx_id: u64, amount: i128 },
    /// An entry was added to the operations log.
    AuditLogged { actor: Address, operation: String, status: String },
    /// A rating was submitted.
    RatingSubmitted { user: Address, tx_id: u64, score: u32, rating_status: RatingStatus },
    /// The status of a transaction was set.
    TransactionStatusUpdated {
        tx_id: u64,
        previous_status: Option<TransactionStatus>,
        new_status: TransactionStatus,
    },
    /// The status of a transaction could not be set.
    TransactionStatusUpdateFailed { tx_id: u64 },
    /// A bundle was created.
    BundleCreated {
        bundle_id: u64,
        total_count: u32,
        valid_count: u32,
        invalid_count: u32,
        can_bundle: bool,
        total_volume: i128,
        created_at: u64,
    },
    /// A transaction of a bundle was validated.
    TransactionValidated { bundle_id: u64, verdict: ValidationResult },
    /// The validation of a bundle started.
    BundlingStarted { bundle_id: u64, tx_count: u32 },
    /// The validation of a bundle completed.
    BundlingCompleted { bundle_id: u64, can_bundle: bool },
    /// A transaction of a bundle is not valid.
    TransactionValidationFailed { bundle_id: u64, tx_id: u64, error: &'static str },
    /// A refund batch started.
    RefundBatchStarted { batch_id: u64, request_count: u32 },
    /// One refund was attempted.
    RefundProcessed { batch_id: u64, result: RefundResult },
    /// A refund batch completed.
    RefundBatchCompleted { batch_id: u64, refund_metrics: RefundBatchMetrics },
    /// A refund was refused.
    RefundError { batch_id: u64, tx_id: u64, error: &'static str },
    /// A batch of budget recommendations started.
    RecommendationsStarted { batch_id: u64, user_count: u32 },
    /// A budget recommendation was generated.
    RecommendationGenerated {
        batch_id: u64,
        user: Address,
        recommended_savings: i128,
        recommended_emergency_fund: i128,
        confidence_score: u8,
    },
    /// A batch of budget recommendations completed.
    RecommendationsCompleted { batch_id: u64, user_count: u32 },
}

/// Builders of the analytics service's audit events.
pub struct AnalyticsEvents;

impl AnalyticsEvents {
    /// Event emitted when a batch is processed.
    pub fn batch_processed(batch_id: u64, metrics: &BatchMetrics) -> (event: AnalyticsEvent)
        ensures
            event == (AnalyticsEvent::BatchProcessed { batch_id, metrics: *metrics }),
    {
        AnalyticsEvent::BatchProcessed { batch_id, metrics: *metrics }
    }

    /// Event emitted for each category in a batch.
    pub fn category_analytics(batch_id: u64, category_metrics: &CategoryMetrics) -> (event:
        AnalyticsEvent)
        ensures
            event == (AnalyticsEvent::CategoryAnalytics {
                batch_id,
                category_metrics: *category_metrics,
            }),
    {
        AnalyticsEvent::CategoryAnalytics {
            batch_id,
            category_metrics: CategoryMetrics {
                category: category_metrics.category.clone(),
                tx_count: category_metrics.tx_count,
                total_volume: category_metrics.total_volume,
                total_fees: category_metrics.total_fees,
                volume_percentage_bps: category_metrics.volume_percentage_bps,
            },
        }
    }

    /// Event emitted when analytics computation starts.
    pub fn analytics_started(batch_id: u64, tx_count: u32) -> (event: AnalyticsEvent)
        ensures
            event == (AnalyticsEvent::AnalyticsStarted { batch_id, tx_count }),
    {
        AnalyticsEvent::AnalyticsStarted { batch_id, tx_count }
    }

    /// Event emitted when analytics computation completes.
    pub fn analytics_completed(batch_id: u64, processing_cost: u64) -> (event: AnalyticsEvent)
        ensures
            event == (AnalyticsEvent::AnalyticsCompleted { batch_id, processing_cost }),
    {
        AnalyticsEvent::AnalyticsCompleted { batch_id, processing_cost }
    }

    /// Event emitted for high-value transaction alerts.
    pub fn high_value_alert(batch_id: u64, tx_id: u64, amount: i128) -> (event: AnalyticsEvent)
        ensures
            event == (AnalyticsEvent::HighValueAlert { batch_id, tx_id, amount }),
    {
        AnalyticsEvent::HighValueAlert { batch_id, tx_id, amount }
    }

    /// Event emitted when an audit log is created.
    pub fn audit_logged(actor: &Address, operation: &String, status: &String) -> (event:
        AnalyticsEvent)
        ensures
            event == (AnalyticsEvent::AuditLogged {
                actor: *actor,
                operation: *operation,
                status: *status,
            }),
    {
        AnalyticsEvent::AuditLogged {
            actor: *actor,
            operation: operation.clone(),
            status: status.clone(),
        }
    }

    /// Event emitted when a rating is submitted.
    pub fn rating_submitted(user: &Address, tx_id: u64, score: u32, status: RatingStatus) -> (event:
        AnalyticsEvent)
        ensures
            event == (AnalyticsEvent::RatingSubmitted { user: *user, tx_id, score, rating_status: status }),
    {
        AnalyticsEvent::RatingSubmitted { user: *user, tx_id, score, rating_status: status }
    }

    /// Event emitted when the status of a transaction is set.
    pub fn transaction_status_updated(
        tx_id: u64,
        previous_status: Option<TransactionStatus>,
        new_status: TransactionStatus,
    ) -> (event: AnalyticsEvent)
        ensures
            event == (AnalyticsEvent::TransactionStatusUpdated {
                tx_id,
                previous_status,
                new_status,
            }),
    {
        AnalyticsEvent::TransactionStatusUpdated { tx_id, previous_status, new_status }
    }

    /// Event emitted when the status of a transaction cannot be set.
    pub fn transaction_status_update_failed(tx_id: u64) -> (event: AnalyticsEvent)
        ensures
            event == (AnalyticsEvent::TransactionStatusUpdateFailed { tx_id }),
    {
        AnalyticsEvent::TransactionStatusUpdateFailed { tx_id }
    }

    /// Event emitted when a transaction bundle is created.
    pub fn bundle_created(bundle_id: u64, result: &BundleResult) -> (event: AnalyticsEvent)
        ensures
            event == (AnalyticsEvent::BundleCreated {
                bundle_id,
                total_count: result.total_count,
                valid_count: result.valid_count,
                invalid_count: result.invalid_count,
                can_bundle: result.can_bundle,
                total_volume: result.total_volume,
                created_at: result.created_at,
            }),
    {
        AnalyticsEvent::BundleCreated {
            bundle_id,
            total_count: result.total_count,
            valid_count: result.valid_count,
            invalid_count: result.invalid_count,
            can_bundle: result.can_bundle,
            total_volume: result.total_volume,
            created_at: result.created_at,
        }
    }

    /// Event emitted when a transaction in a bundle is validated.
    pub fn transaction_validated(bundle_id: u64, validation_result: &ValidationResult) -> (event:
        AnalyticsEvent)
        ensures
            event == (AnalyticsEvent::TransactionValidated {
                bundle_id,
                verdict: *validation_result,
            }),
    {
        AnalyticsEvent::TransactionValidated { bundle_id, verdict: *validation_result }
    }

    /// Event emitted when bundling starts.
    pub fn bundling_started(bundle_id: u64, tx_count: u32) -> (event: AnalyticsEvent)
        ensures
            event == (AnalyticsEvent::BundlingStarted { bundle_id, tx_count }),
    {
        AnalyticsEvent::BundlingStarted { bundle_id, tx_count }
    }

    /// Event emitted when bundling completes.
    pub fn bundling_completed(bundle_id: u64, can_bundle: bool) -> (event: AnalyticsEvent)
        ensures
            event == (AnalyticsEvent::BundlingCompleted { bundle_id, can_bundle }),
    {
        AnalyticsEvent::BundlingCompleted { bundle_id, can_bundle }
    }

    /// Event emitted when a transaction fails validation in a bundle.
    pub fn transaction_validation_failed(bundle_id: u64, tx_id: u64, error: &'static str) -> (event:
        AnalyticsEvent)
        ensures
            event == (AnalyticsEvent::TransactionValidationFailed { bundle_id, tx_id, error }),
    {
        AnalyticsEvent::TransactionValidationFailed { bundle_id, tx_id, error }
    }

    /// Event emitted when a refund batch processing starts.
    pub fn refund_batch_started(batch_id: u64, request_count: u32) -> (event: AnalyticsEvent)
        ensures
            event == (AnalyticsEvent::RefundBatchStarted { batch_id, request_count }),
    {
        AnalyticsEvent::RefundBatchStarted { batch_id, request_count }
    }

    /// Event emitted for each individual refund result.
    pub fn refund_processed(batch_id: u64, refund_result: &RefundResult) -> (event: AnalyticsEvent)
        ensures
            event == (AnalyticsEvent::RefundProcessed { batch_id, result: *refund_result }),
    {
        AnalyticsEvent::RefundProcessed { batch_id, result: *refund_result }
    }

    /// Event emitted when a refund batch completes.
    pub fn refund_batch_completed(batch_id: u64, metrics: &RefundBatchMetrics) -> (event:
        AnalyticsEvent)
        ensures
            event == (AnalyticsEvent::RefundBatchCompleted { batch_id, refund_metrics: *metrics }),
    {
        AnalyticsEvent::RefundBatchCompleted { batch_id, refund_metrics: *metrics }
    }

    /// Event emitted for refund errors or warnings.
    pub fn refund_error(batch_id: u64, tx_id: u64, error_msg: &'static str) -> (event:
        AnalyticsEvent)
        ensures
            event == (AnalyticsEvent::RefundError { batch_id, tx_id, error: error_msg }),
    {
        AnalyticsEvent::RefundError { batch_id, tx_id, error: error_msg }
    }

    /// Event emitted when a batch of budget recommendations starts.
    pub fn recommendations_started(batch_id: u64, user_count: u32) -> (event: AnalyticsEvent)
        ensures
            event == (AnalyticsEvent::RecommendationsStarted { batch_id, user_count }),
    {
        AnalyticsEvent::RecommendationsStarted { batch_id, user_count }
    }

    /// Event emitted for each budget recommendation.
    pub fn recommendation_generated(batch_id: u64, recommendation: &BudgetRecommendation) -> (event:
        AnalyticsEvent)
        ensures
            event == (AnalyticsEvent::RecommendationGenerated {
                batch_id,
                user: recommendation.user,
                recommended_savings: recommendation.recommended_savings,
                recommended_emergency_fund: recommendation.recommended_emergency_fund,
                confidence_score: recommendation.confidence_score,
            }),
    {
        AnalyticsEvent::RecommendationGenerated {
            batch_id,
            user: recommendation.user,
            recommended_savings: recommendation.recommended_savings,
            recommended_emergency_fund: recommendation.recommended_emergency_fund,
            confidence_score: recommendation.confidence_score,
        }
    }

    /// Event emitted when a batch of budget recommendations completes.
    pub fn recommendations_completed(batch_id: u64, user_count: u32) -> (event: AnalyticsEvent)
        ensures
            event == (AnalyticsEvent::RecommendationsCompleted { batch_id, user_count }),
    {
        AnalyticsEvent::RecommendationsCompleted { batch_id, user_count }
    }
}

} // verus!
