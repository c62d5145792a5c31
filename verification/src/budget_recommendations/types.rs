//! Data types and events of the budget recommendations service.

use crate::address::Address;
use vstd::prelude::*;

verus! {

/// Maximum number of users in a single batch for optimization.
pub const MAX_BATCH_SIZE: u32 = 100;

/// The confidence score from which a recommendation is reported as a
/// high-confidence recommendation.
pub const HIGH_CONFIDENCE: u32 = 90;

/// Represents a user's financial profile for budget recommendations.
#[derive(Clone, Debug, PartialEq, Eq)]
pub struct UserProfile {
    /// Unique user identifier
    pub user_id: u64,
    /// User's address
    pub address: Address,
    /// Monthly income in stroops
    pub monthly_income: i128,
    /// Current monthly expenses in stroops
    pub monthly_expenses: i128,
    /// Current savings balance in stroops
    pub savings_balance: i128,
    /// Spending category preferences (comma-separated categories)
    pub spending_categories: String,
    /// Risk tolerance level (1-5, where 1 is conservative, 5 is aggressive)
    pub risk_tolerance: u32,
}

/// Represents a budget recommendation for a user.
#[derive(Clone, Copy, Debug, PartialEq, Eq)]
pub struct BudgetRecommendation {
    /// User ID this recommendation is for
    pub user_id: u64,
    /// Recommended monthly budget allocation in stroops
    pub recommended_budget: i128,
    /// Recommended savings amount per month in stroops
    pub recommended_savings: i128,
    /// Recommended spending limit per month in stroops
    pub recommended_spending_limit: i128,
    /// Recommended emergency fund target in stroops
    pub emergency_fund_target: i128,
    /// Confidence score (0-100, where 100 is highest confidence)
    pub confidence_score: u32,
    /// Recommendation category (e.g., "conservative", "moderate", "aggressive")
    pub recommendation_type: &'static str,
    /// Additional recommendation notes
    pub notes: &'static str,
}

/// Aggregated metrics for a batch of recommendations.
#[derive(Clone, Copy, Debug, Default, PartialEq, Eq, Structural)]
pub struct BatchRecommendationMetrics {
    /// Total number of users processed
    pub user_count: u32,
    /// Number of successful recommendations
    pub successful_recommendations: u32,
    /// Number of failed recommendations
    pub failed_recommendations: u32,
    /// Total recommended budget across all users
    pub total_recommended_budget: i128,
    /// Total recommended savings across all users
    pub total_recommended_savings: i128,
    /// Average confidence score
    pub avg_confidence_score: u32,
    /// Batch processing timestamp
    pub processed_at: u64,
}

/// Result of processing a single user's recommendation.
#[derive(Clone, Copy, Debug, PartialEq, Eq)]
pub enum RecommendationResult {
    /// The recommendation
    Success(BudgetRecommendation),
    /// User identifier, error message
    Failure(u64, &'static str),
}

/// Result of batch recommendation processing.
#[derive(Clone, Debug, PartialEq, Eq)]
pub struct BatchRecommendationResult {
    /// Batch ID
    pub batch_id: u64,
    /// Total number of users in batch
    pub total_users: u32,
    /// Number of successful recommendations
    pub successful: u32,
    /// Number of failed recommendations
    pub failed: u32,
    /// Individual recommendation results
    pub results: Vec<RecommendationResult>,
    /// Aggregated metrics
    pub metrics: BatchRecommendationMetrics,
}

/// One entry of the recommendations service's audit log.
#[derive(Clone, Copy, Debug, PartialEq, Eq)]
pub enum RecommendationEvent {
    /// A batch started.
    BatchStarted { batch_id: u64, user_count: u32 },
    /// A recommendation was generated.
    RecommendationGenerated { batch_id: u64, user_id: u64, recommendation: BudgetRecommendation },
    /// No recommendation could be generated.
    RecommendationFailed { batch_id: u64, user_id: u64, error: &'static str },
    /// A batch completed.
    BatchCompleted { batch_id: u64, metrics: BatchRecommendationMetrics },
    /// A generated recommendation has a high confidence score.
    HighConfidence { batch_id: u64, user_id: u64, confidence_score: u32 },
}

/// Builders of the recommendations service's audit events.
pub struct RecommendationEvents;

impl RecommendationEvents {
    /// Event emitted when batch recommendation processing starts.
    pub fn batch_started(batch_id: u64, user_count: u32) -> (event: RecommendationEvent)
        ensures
            event == (RecommendationEvent::BatchStarted { batch_id, user_count }),
    {
        RecommendationEvent::BatchStarted { batch_id, user_count }
    }

    /// Event emitted when a recommendation is generated for a user.
    pub fn recommendation_generated(
        batch_id: u64,
        user_id: u64,
        recommendation: &BudgetRecommendation,
    ) -> (event: RecommendationEvent)
        ensures
            event == (RecommendationEvent::RecommendationGenerated {
                batch_id,
                user_id,
                recommendation: *recommendation,
            }),
    {
        RecommendationEvent::RecommendationGenerated {
            batch_id,
            user_id,
            recommendation: *recommendation,
        }
    }

    /// Event emitted when a recommendation fails for a user.
    pub fn recommendation_failed(batch_id: u64, user_id: u64, error: &'static str) -> (event:
        RecommendationEvent)
        ensures
            event == (RecommendationEvent::RecommendationFailed { batch_id, user_id, error }),
    {
        RecommendationEvent::RecommendationFailed { batch_id, user_id, error }
    }

    /// Event emitted when batch recommendation processing completes.
    pub fn batch_completed(batch_id: u64, metrics: &BatchRecommendationMetrics) -> (event:
        RecommendationEvent)
        ensures
            event == (RecommendationEvent::BatchCompleted { batch_id, metrics: *metrics }),
    {
        RecommendationEvent::BatchCompleted { batch_id, metrics: *metrics }
    }

    /// Event emitted for high-confidence recommendations.
    pub fn high_confidence_recommendation(
        batch_id: u64,
        user_id: u64,
        confidence_score: u32,
    ) -> (event: RecommendationEvent)
        ensures
            event == (RecommendationEvent::HighConfidence { batch_id, user_id, confidence_score }),
    {
        RecommendationEvent::HighConfidence { batch_id, user_id, confidence_score }
    }
}

} // verus!
