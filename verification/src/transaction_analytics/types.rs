//! Data types and events of the analytics service.

use crate::address::Address;
use crate::tally::Outcome;
use vstd::prelude::*;

verus! {

/// Maximum number of transactions in a single batch for optimization.
pub const MAX_BATCH_SIZE: u32 = 100;

/// Represents a single transaction record for analytics.
#[derive(Clone, Debug, PartialEq, Eq)]
pub struct Transaction {
    /// Unique transaction identifier
    pub tx_id: u64,
    /// Sender address
    pub from: Address,
    /// Recipient address
    pub to: Address,
    /// Transaction amount in stroops
    pub amount: i128,
    /// Transaction timestamp (ledger sequence)
    pub timestamp: u64,
    /// Transaction category (e.g., "transfer", "budget", "savings")
    pub category: String,
}

/// Represents a single audit log entry.
#[derive(Clone, Debug, PartialEq, Eq)]
pub struct AuditLog {
    /// Address of the actor who performed the operation
    pub actor: Address,
    /// The operation performed (e.g., "init", "config_update")
    pub operation: String,
    /// Timestamp of the operation
    pub timestamp: u64,
    /// Status of the operation (e.g., "success", "failure")
    pub status: String,
}

/// Aggregated metrics for a batch of transactions.
#[derive(Clone, Copy, Debug, Default, PartialEq, Eq, Structural)]
pub struct BatchMetrics {
    /// Total number of transactions in the batch
    pub tx_count: u32,
    /// Total volume of all transactions
    pub total_volume: i128,
    /// Average transaction amount
    pub avg_amount: i128,
    /// Minimum transaction amount
    pub min_amount: i128,
    /// Maximum transaction amount
    pub max_amount: i128,
    /// Number of unique senders
    pub unique_senders: u32,
    /// Number of unique recipients
    pub unique_recipients: u32,
    /// Total fees collected for the batch
    pub total_fees: i128,
    /// Batch processing timestamp
    pub processed_at: u64,
}

/// Category-specific metrics for analytics breakdown.
#[derive(Clone, Debug, PartialEq, Eq)]
pub struct CategoryMetrics {
    /// Category name
    pub category: String,
    /// Number of transactions in this category
    pub tx_count: u32,
    /// Total volume for this category
    pub total_volume: i128,
    /// Total fees for this category
    pub total_fees: i128,
    /// Percentage of total batch volume (basis points, 10000 = 100%)
    pub volume_percentage_bps: u32,
}

/// Represents a transaction to be bundled into a transaction group.
#[derive(Clone, Debug, PartialEq, Eq)]
pub struct BundledTransaction {
    /// The transaction to bundle
    pub transaction: Transaction,
    /// Optional memo or metadata for the transaction
    pub memo: Option<String>,
}

/// Result of validating a single transaction in a bundle.
#[derive(Clone, Copy, Debug, PartialEq, Eq)]
pub struct ValidationResult {
    /// Transaction ID that was validated
    pub tx_id: u64,
    /// Whether the transaction is valid
    pub is_valid: bool,
    /// Error message if validation failed (empty if valid)
    pub error: &'static str,
}

/// Result of bundling multiple transactions.
#[derive(Clone, Debug, PartialEq, Eq)]
pub struct BundleResult {
    /// Unique bundle ID
    pub bundle_id: u64,
    /// Total number of transactions in the bundle
    pub total_count: u32,
    /// Number of valid transactions
    pub valid_count: u32,
    /// Number of invalid transactions
    pub invalid_count: u32,
    /// Validation results for each transaction
    pub validation_results: Vec<ValidationResult>,
    /// Whether the bundle can be created (all transactions valid)
    pub can_bundle: bool,
    /// Total volume of valid transactions
    pub total_volume: i128,
    /// Bundle creation timestamp
    pub created_at: u64,
}

/// What a user spends in one category.
#[derive(Clone, Debug, PartialEq, Eq)]
pub struct CategorySpending {
    /// Category name
    pub category: String,
    /// Amount spent in the category per month
    pub amount: i128,
}

/// A user's budget data, from which a recommendation is generated.
#[derive(Clone, Debug, PartialEq, Eq)]
pub struct UserBudgetData {
    /// User's address
    pub user: Address,
    /// Monthly income
    pub monthly_income: i128,
    /// Current spending, category by category
    pub spending_by_category: Vec<CategorySpending>,
    /// Monthly savings goal, if the user has one
    pub savings_goal: Option<i128>,
    /// Risk tolerance level (1-5, where 1 is conservative, 5 is aggressive)
    pub risk_tolerance: u32,
}

/// The spending limit recommended for one category.
#[derive(Clone, Debug, PartialEq, Eq)]
pub struct CategoryLimit {
    /// Category name
    pub category: String,
    /// Recommended monthly limit for the category
    pub limit: i128,
}

/// A budget recommendation for a user.
#[derive(Clone, Debug, PartialEq, Eq)]
pub struct BudgetRecommendation {
    /// User's address
    pub user: Address,
    /// Recommended monthly limits, category by category
    pub recommended_limits: Vec<CategoryLimit>,
    /// Recommended monthly savings
    pub recommended_savings: i128,
    /// Recommended emergency fund
    pub recommended_emergency_fund: i128,
    /// Confidence score (0-100)
    pub confidence_score: u8,
    /// Ledger sequence at which the recommendation was generated
    pub generated_at: u64,
}

/// Input for submitting a rating for a transaction.
#[derive(Clone, Copy, Debug, PartialEq, Eq, Structural)]
pub struct RatingInput {
    pub tx_id: u64,
    pub score: u32,
}

/// Status of a submitted rating.
#[derive(Clone, Copy, Debug, PartialEq, Eq, Structural)]
pub enum RatingStatus {
    Success,
    InvalidScore,
    UnknownTransaction,
}

/// Result of a submitted rating.
#[derive(Clone, Copy, Debug, PartialEq, Eq, Structural)]
pub struct RatingResult {
    pub tx_id: u64,
    pub score: u32,
    pub status: RatingStatus,
}

/// Where a transaction stands.
#[derive(Clone, Copy, Debug, Eq, PartialEq, Structural)]
pub enum TransactionStatus {
    Pending,
    Completed,
    Failed,
    Refunded,
}

/// A new status for one transaction.
#[derive(Clone, Copy, Debug, PartialEq, Eq, Structural)]
pub struct TransactionStatusUpdate {
    pub tx_id: u64,
    pub status: TransactionStatus,
}

/// Whether one status update was applied.
#[derive(Clone, Copy, Debug, PartialEq, Eq, Structural)]
pub struct StatusUpdateResult {
    pub tx_id: u64,
    pub is_valid: bool,
}

/// Summary result of one batch of status updates.
#[derive(Clone, Debug, PartialEq, Eq)]
pub struct BatchStatusUpdateResult {
    pub total_requests: u32,
    pub successful: u32,
    pub failed: u32,
    pub results: Vec<StatusUpdateResult>,
}

/// Status indicating refund eligibility for a transaction.
#[derive(Clone, Copy, Debug, PartialEq, Eq, Structural)]
pub enum RefundStatus {
    /// Transaction is eligible for refund (failed or canceled)
    Eligible,
    /// Transaction has already been refunded
    AlreadyRefunded,
    /// Transaction is still pending/processing
    Pending,
    /// Transaction was successful, not eligible for refund
    NotEligible,
    /// Transaction ID not found
    NotFound,
}

impl RefundStatus {
    /// The message that goes with a refused refund; an eligible transaction
    /// has none.
    pub open spec fn message_of(self) -> Option<&'static str> {
        match self {
            RefundStatus::Eligible => None,
            RefundStatus::AlreadyRefunded => Some("already_refunded"),
            RefundStatus::Pending => Some("pending"),
            RefundStatus::NotEligible => Some("not_eligible"),
            RefundStatus::NotFound => Some("not_found"),
        }
    }

    /// The message that goes with a refused refund; an eligible transaction
    /// has none.
    pub fn message(&self) -> (message: Option<&'static str>)
        ensures
            message == self.message_of(),
    {
        match self {
            RefundStatus::Eligible => None,
            RefundStatus::AlreadyRefunded => Some("already_refunded"),
            RefundStatus::Pending => Some("pending"),
            RefundStatus::NotEligible => Some("not_eligible"),
            RefundStatus::NotFound => Some("not_found"),
        }
    }
}

/// Request structure for a single transaction refund.
#[derive(Clone, Debug, PartialEq, Eq)]
pub struct RefundRequest {
    /// Transaction ID to refund
    pub tx_id: u64,
    /// Reason for refund (optional)
    pub reason: Option<String>,
}

/// Result of a refund attempt for a single transaction.
#[derive(Clone, Copy, Debug, PartialEq, Eq, Structural)]
pub struct RefundResult {
    /// Transaction ID that was attempted to refund
    pub tx_id: u64,
    /// Whether the refund was successful
    pub success: bool,
    /// Refund eligibility status
    pub status: RefundStatus,
    /// Amount refunded (if successful)
    pub amount_refunded: i128,
}

impl Outcome for RefundResult {
    open spec fn succeeded(&self) -> bool {
        self.success
    }

    open spec fn moved(&self) -> int {
        self.amount_refunded as int
    }
}

/// Aggregated metrics for a batch of refunds.
#[derive(Clone, Copy, Debug, Default, PartialEq, Eq, Structural)]
pub struct RefundBatchMetrics {
    /// Total number of refund requests
    pub request_count: u32,
    /// Number of successful refunds
    pub successful_refunds: u32,
    /// Number of failed refunds
    pub failed_refunds: u32,
    /// Total amount refunded
    pub total_refunded_amount: i128,
    /// Average refund amount
    pub avg_refund_amount: i128,
    /// Timestamp when batch was processed
    pub processed_at: u64,
}

} // verus!
