use batch_ledger::address::Address;
use batch_ledger::transaction_analytics::contract::{
    AnalyticsError, TransactionAnalyticsContract,
};
use batch_ledger::transaction_analytics::events::AnalyticsEvent;
use batch_ledger::transaction_analytics::types::{
    AuditLog, BatchMetrics, BundleResult, BundledTransaction, CategoryMetrics, CategorySpending,
    RefundBatchMetrics, RefundRequest, RefundResult, RefundStatus, StatusUpdateResult,
    Transaction, TransactionStatus, TransactionStatusUpdate, UserBudgetData, ValidationResult,
};
use std::collections::HashMap;

const LEDGER_SEQUENCE: u64 = 0;

/// The service under test and a source of fresh addresses.
struct TestEnv {
    next_address: u64,
    client: TransactionAnalyticsContract,
}

impl TestEnv {
    fn generate(&mut self) -> Address {
        self.next_address += 1;
        Address::new(self.next_address)
    }

    fn process_batch(
        &mut self,
        caller: &Address,
        transactions: &Vec<Transaction>,
        threshold: Option<i128>,
    ) -> Result<BatchMetrics, AnalyticsError> {
        self.client.process_batch(caller, transactions, threshold, LEDGER_SEQUENCE)
    }

    fn bundle(
        &mut self,
        caller: &Address,
        bundled: &Vec<BundledTransaction>,
    ) -> Result<BundleResult, AnalyticsError> {
        self.client.bundle_transactions(caller, bundled, LEDGER_SEQUENCE)
    }

    fn refund_batch(
        &mut self,
        caller: &Address,
        requests: &Vec<RefundRequest>,
        lookup: &HashMap<u64, Transaction>,
    ) -> Result<RefundBatchMetrics, AnalyticsError> {
        self.client.refund_batch(caller, requests, lookup, LEDGER_SEQUENCE)
    }
}

/// Creates a test environment with the contract deployed and initialized.
fn setup_test_env() -> (TestEnv, Address) {
    let mut env = TestEnv {
        next_address: 1000,
        client: TransactionAnalyticsContract::new(),
    };
    let admin = env.generate();
    env.client.initialize(admin).unwrap();
    (env, admin)
}

/// Helper to create a test transaction.
fn create_transaction(env: &mut TestEnv, tx_id: u64, amount: i128, category: &str) -> Transaction {
    Transaction {
        tx_id,
        from: env.generate(),
        to: env.generate(),
        amount,
        timestamp: LEDGER_SEQUENCE,
        category: String::from(category),
    }
}

/// Helper to create a transaction with specific addresses.
fn create_transaction_with_addresses(
    tx_id: u64,
    from: Address,
    to: Address,
    amount: i128,
    category: &str,
) -> Transaction {
    Transaction {
        tx_id,
        from,
        to,
        amount,
        timestamp: LEDGER_SEQUENCE,
        category: String::from(category),
    }
}

// ============================================================================
// Initialization Tests
// ============================================================================

#[test]
fn analytics_test_initialize_contract() {
    let (env, admin) = setup_test_env();

    assert_eq!(env.client.get_admin(), Ok(admin));
    assert_eq!(env.client.get_last_batch_id(), 0);
    assert_eq!(env.client.get_total_transactions_processed(), 0);
}

#[test]
fn analytics_test_cannot_initialize_twice() {
    let (mut env, admin) = setup_test_env();

    let new_admin = env.generate();
    let refused = env.client.initialize(new_admin);
    assert_eq!(refused, Err(AnalyticsError::AlreadyInitialized));
    assert_eq!(refused.unwrap_err().code(), 14);
    assert_eq!(env.client.get_admin(), Ok(admin));
}

// ============================================================================
// Batch Processing Tests
// ============================================================================

#[test]
fn test_process_single_transaction_batch() {
    let (mut env, admin) = setup_test_env();

    let mut transactions: Vec<Transaction> = Vec::new();
    transactions.push(create_transaction(&mut env, 1, 1000, "transfer"));

    let metrics = env.process_batch(&admin, &transactions, None).unwrap();

    assert_eq!(metrics.tx_count, 1);
    assert_eq!(metrics.total_volume, 1000);
    assert_eq!(metrics.avg_amount, 1000);
    assert_eq!(metrics.min_amount, 1000);
    assert_eq!(metrics.max_amount, 1000);
    assert_eq!(metrics.unique_senders, 1);
    assert_eq!(metrics.unique_recipients, 1);
    // 0.1% of 1000 = 1
    assert_eq!(metrics.total_fees, 1);
}

#[test]
fn test_process_multiple_transactions_batch() {
    let (mut env, admin) = setup_test_env();

    let mut transactions: Vec<Transaction> = Vec::new();
    transactions.push(create_transaction(&mut env, 1, 100, "transfer"));
    transactions.push(create_transaction(&mut env, 2, 200, "budget"));
    transactions.push(create_transaction(&mut env, 3, 300, "savings"));
    transactions.push(create_transaction(&mut env, 4, 400, "transfer"));

    let metrics = env.process_batch(&admin, &transactions, None).unwrap();

    assert_eq!(metrics.tx_count, 4);
    assert_eq!(metrics.total_volume, 1000);
    assert_eq!(metrics.avg_amount, 250);
    assert_eq!(metrics.min_amount, 100);
    assert_eq!(metrics.max_amount, 400);
    assert_eq!(metrics.unique_senders, 4);
    assert_eq!(metrics.unique_recipients, 4);
    // Fees: 100/1000=0, 200/1000=0, 300/1000=0, 400/1000=0. Total = 0.
    assert_eq!(metrics.total_fees, 0);
}

#[test]
fn test_process_batch_with_shared_addresses() {
    let (mut env, admin) = setup_test_env();

    let sender1 = env.generate();
    let sender2 = env.generate();
    let recipient = env.generate();

    let mut transactions: Vec<Transaction> = Vec::new();
    transactions.push(create_transaction_with_addresses(1, sender1, recipient, 100, "transfer"));
    transactions.push(create_transaction_with_addresses(2, sender1, recipient, 200, "transfer"));
    transactions.push(create_transaction_with_addresses(3, sender2, recipient, 300, "transfer"));

    let metrics = env.process_batch(&admin, &transactions, None).unwrap();

    assert_eq!(metrics.tx_count, 3);
    assert_eq!(metrics.unique_senders, 2);
    assert_eq!(metrics.unique_recipients, 1);
}

#[test]
fn test_test_batch_id_increments() {
    let (mut env, admin) = setup_test_env();

    let mut transactions: Vec<Transaction> = Vec::new();
    transactions.push(create_transaction(&mut env, 1, 100, "transfer"));

    assert_eq!(env.client.get_last_batch_id(), 0);

    env.process_batch(&admin, &transactions, None).unwrap();
    assert_eq!(env.client.get_last_batch_id(), 1);

    env.process_batch(&admin, &transactions, None).unwrap();
    assert_eq!(env.client.get_last_batch_id(), 2);

    env.process_batch(&admin, &transactions, None).unwrap();
    assert_eq!(env.client.get_last_batch_id(), 3);
}

#[test]
fn test_total_transactions_accumulates() {
    let (mut env, admin) = setup_test_env();

    let mut batch1: Vec<Transaction> = Vec::new();
    batch1.push(create_transaction(&mut env, 1, 100, "transfer"));
    batch1.push(create_transaction(&mut env, 2, 200, "transfer"));

    let mut batch2: Vec<Transaction> = Vec::new();
    batch2.push(create_transaction(&mut env, 3, 300, "budget"));
    batch2.push(create_transaction(&mut env, 4, 400, "budget"));
    batch2.push(create_transaction(&mut env, 5, 500, "budget"));

    env.process_batch(&admin, &batch1, None).unwrap();
    assert_eq!(env.client.get_total_transactions_processed(), 2);

    env.process_batch(&admin, &batch2, None).unwrap();
    assert_eq!(env.client.get_total_transactions_processed(), 5);
}

// ============================================================================
// High Value Alert Tests
// ============================================================================

#[test]
fn test_high_value_threshold_triggers_alerts() {
    let (mut env, admin) = setup_test_env();

    let mut transactions: Vec<Transaction> = Vec::new();
    transactions.push(create_transaction(&mut env, 1, 100, "transfer"));
    transactions.push(create_transaction(&mut env, 2, 5000, "transfer"));
    transactions.push(create_transaction(&mut env, 3, 10000, "budget"));

    let threshold = Some(1000i128);
    let metrics = env.process_batch(&admin, &transactions, threshold).unwrap();

    // Verify basic metrics still computed correctly
    assert_eq!(metrics.tx_count, 3);
    assert_eq!(metrics.total_volume, 15100);

    let alerts: Vec<&AnalyticsEvent> = env
        .client
        .event_log()
        .iter()
        .filter(|event| matches!(event, AnalyticsEvent::HighValueAlert { .. }))
        .collect();
    assert_eq!(
        alerts,
        vec![
            &AnalyticsEvent::HighValueAlert { batch_id: 1, tx_id: 2, amount: 5000 },
            &AnalyticsEvent::HighValueAlert { batch_id: 1, tx_id: 3, amount: 10000 },
        ]
    );
}

#[test]
fn test_no_alerts_when_below_threshold() {
    let (mut env, admin) = setup_test_env();

    let mut transactions: Vec<Transaction> = Vec::new();
    transactions.push(create_transaction(&mut env, 1, 100, "transfer"));
    transactions.push(create_transaction(&mut env, 2, 200, "transfer"));

    let threshold = Some(1000i128);
    let metrics = env.process_batch(&admin, &transactions, threshold).unwrap();

    assert_eq!(metrics.tx_count, 2);
    assert!(!env
        .client
        .event_log()
        .iter()
        .any(|event| matches!(event, AnalyticsEvent::HighValueAlert { .. })));
}

// ============================================================================
// Metrics Retrieval Tests
// ============================================================================

#[test]
fn test_get_batch_metrics_after_processing() {
    let (mut env, admin) = setup_test_env();

    let mut transactions: Vec<Transaction> = Vec::new();
    transactions.push(create_transaction(&mut env, 1, 500, "transfer"));
    transactions.push(create_transaction(&mut env, 2, 500, "transfer"));

    let processed_metrics = env.process_batch(&admin, &transactions, None).unwrap();
    let stored_metrics = env.client.get_batch_metrics(1).unwrap();

    assert_eq!(stored_metrics.tx_count, processed_metrics.tx_count);
    assert_eq!(stored_metrics.total_volume, processed_metrics.total_volume);
    assert_eq!(stored_metrics, processed_metrics);
}

#[test]
fn test_get_nonexistent_batch_metrics() {
    let (env, _admin) = setup_test_env();

    let metrics = env.client.get_batch_metrics(999);
    assert!(metrics.is_none());
}

// ============================================================================
// Simulate Batch Tests
// ============================================================================

#[test]
fn test_simulate_batch_does_not_store() {
    let (mut env, _admin) = setup_test_env();

    let mut transactions: Vec<Transaction> = Vec::new();
    transactions.push(create_transaction(&mut env, 1, 1000, "transfer"));

    // Simulate should not increment batch ID or total transactions
    let metrics = env.client.simulate_batch(&transactions, LEDGER_SEQUENCE).unwrap();

    assert_eq!(metrics.tx_count, 1);
    assert_eq!(metrics.total_volume, 1000);
    assert_eq!(env.client.get_last_batch_id(), 0);
    assert_eq!(env.client.get_total_transactions_processed(), 0);
    assert!(env.client.event_log().is_empty());
    assert_eq!(
        env.client.simulate_batch(&Vec::new(), LEDGER_SEQUENCE),
        Err(AnalyticsError::InvalidBatch)
    );
}

// ============================================================================
// Admin Tests
// ============================================================================

#[test]
fn analytics_test_set_admin() {
    let (mut env, admin) = setup_test_env();

    let new_admin = env.generate();
    env.client.set_admin(&admin, new_admin).unwrap();

    assert_eq!(env.client.get_admin(), Ok(new_admin));
    assert_eq!(env.client.set_admin(&admin, admin), Err(AnalyticsError::Unauthorized));
}

#[test]
fn test_unauthorized_process_batch() {
    let (mut env, _admin) = setup_test_env();

    let unauthorized = env.generate();
    let mut transactions: Vec<Transaction> = Vec::new();
    transactions.push(create_transaction(&mut env, 1, 1000, "transfer"));

    assert_eq!(
        env.process_batch(&unauthorized, &transactions, None),
        Err(AnalyticsError::Unauthorized)
    );
    assert_eq!(env.client.get_last_batch_id(), 0);
    assert_eq!(env.client.get_total_transactions_processed(), 0);
    assert!(env.client.event_log().is_empty());
}

// ============================================================================
// Edge Cases
// ============================================================================

#[test]
fn test_empty_batch_rejected() {
    let (mut env, admin) = setup_test_env();

    let transactions: Vec<Transaction> = Vec::new();
    assert_eq!(
        env.process_batch(&admin, &transactions, None),
        Err(AnalyticsError::EmptyBatch)
    );
    assert_eq!(env.client.get_last_batch_id(), 0);
}

#[test]
fn test_large_batch_processing() {
    let (mut env, admin) = setup_test_env();

    // Create a batch with 50 transactions
    let mut transactions: Vec<Transaction> = Vec::new();
    for i in 0..50 {
        transactions.push(create_transaction(&mut env, i, (i as i128 + 1) * 100, "transfer"));
    }

    let metrics = env.process_batch(&admin, &transactions, None).unwrap();

    assert_eq!(metrics.tx_count, 50);
    // Sum of 100 + 200 + ... + 5000 = 100 * (1 + 2 + ... + 50) = 100 * 1275 = 127500
    assert_eq!(metrics.total_volume, 127500);
    assert_eq!(metrics.avg_amount, 2550);
    assert_eq!(metrics.min_amount, 100);
    assert_eq!(metrics.max_amount, 5000);
}

#[test]
fn test_zero_amount_transactions() {
    let (mut env, admin) = setup_test_env();

    let mut transactions: Vec<Transaction> = Vec::new();
    transactions.push(create_transaction(&mut env, 1, 0, "transfer"));
    transactions.push(create_transaction(&mut env, 2, 100, "transfer"));

    let metrics = env.process_batch(&admin, &transactions, None).unwrap();

    assert_eq!(metrics.tx_count, 2);
    assert_eq!(metrics.total_volume, 100);
    assert_eq!(metrics.min_amount, 0);
    assert_eq!(metrics.avg_amount, 50);
    assert_eq!(metrics.total_fees, 0);
}

#[test]
fn test_fee_calculation() {
    let (mut env, admin) = setup_test_env();

    let mut transactions: Vec<Transaction> = Vec::new();
    // 10000 -> 10 fee
    transactions.push(create_transaction(&mut env, 1, 10000, "transfer"));
    // 5500 -> 5 fee
    transactions.push(create_transaction(&mut env, 2, 5500, "savings"));
    // 999 -> 0 fee (integer rounds down)
    transactions.push(create_transaction(&mut env, 3, 999, "budget"));

    let metrics = env.process_batch(&admin, &transactions, None).unwrap();

    assert_eq!(metrics.tx_count, 3);
    assert_eq!(metrics.total_volume, 16499);
    assert_eq!(metrics.total_fees, 15);
}

// ============================================================================
// Event Emission Tests
// ============================================================================

#[test]
fn test_events_emitted_on_process() {
    let (mut env, admin) = setup_test_env();

    let mut transactions: Vec<Transaction> = Vec::new();
    transactions.push(create_transaction(&mut env, 1, 1000, "transfer"));

    let metrics = env.process_batch(&admin, &transactions, None).unwrap();

    let events = env.client.event_log();

    // Should have multiple events: analytics_started, batch_processed,
    // category_analytics, analytics_completed
    assert!(events.len() >= 4);
    assert_eq!(
        events.clone(),
        vec![
            AnalyticsEvent::AnalyticsStarted { batch_id: 1, tx_count: 1 },
            AnalyticsEvent::BatchProcessed { batch_id: 1, metrics },
            AnalyticsEvent::CategoryAnalytics {
                batch_id: 1,
                category_metrics: CategoryMetrics {
                    category: String::from("transfer"),
                    tx_count: 1,
                    total_volume: 1000,
                    total_fees: 1,
                    volume_percentage_bps: 10000,
                },
            },
            AnalyticsEvent::AnalyticsCompleted { batch_id: 1, processing_cost: 1 },
        ]
    );
}

#[test]
fn test_update_transaction_statuses_success_and_invalid_ids() {
    let (mut env, admin) = setup_test_env();

    let mut transactions: Vec<Transaction> = Vec::new();
    transactions.push(create_transaction(&mut env, 1, 1000, "transfer"));
    transactions.push(create_transaction(&mut env, 2, 2000, "transfer"));

    env.process_batch(&admin, &transactions, None).unwrap();

    let mut updates: Vec<TransactionStatusUpdate> = Vec::new();
    updates.push(TransactionStatusUpdate { tx_id: 1, status: TransactionStatus::Completed });
    updates.push(TransactionStatusUpdate { tx_id: 999, status: TransactionStatus::Failed });

    let result = env.client.update_transaction_statuses(&admin, &updates).unwrap();

    assert_eq!(result.total_requests, 2);
    assert_eq!(result.successful, 1);
    assert_eq!(result.failed, 1);
    assert_eq!(
        result.results,
        vec![
            StatusUpdateResult { tx_id: 1, is_valid: true },
            StatusUpdateResult { tx_id: 999, is_valid: false },
        ]
    );

    let stored_status = env.client.get_transaction_status(1);
    assert_eq!(stored_status, Some(TransactionStatus::Completed));
    assert_eq!(env.client.get_transaction_status(999), None);
    assert_eq!(env.client.get_transaction_status(2), None);
}

#[test]
fn test_update_transaction_statuses_unauthorized() {
    let (mut env, _admin) = setup_test_env();

    let unauthorized = env.generate();
    let updates: Vec<TransactionStatusUpdate> = Vec::new();

    assert_eq!(
        env.client.update_transaction_statuses(&unauthorized, &updates),
        Err(AnalyticsError::Unauthorized)
    );
}

#[test]
fn test_update_transaction_statuses_multiple_batches() {
    let (mut env, admin) = setup_test_env();

    let mut transactions: Vec<Transaction> = Vec::new();
    transactions.push(create_transaction(&mut env, 1, 1000, "transfer"));

    env.process_batch(&admin, &transactions, None).unwrap();

    let mut updates1: Vec<TransactionStatusUpdate> = Vec::new();
    updates1.push(TransactionStatusUpdate { tx_id: 1, status: TransactionStatus::Pending });
    env.client.update_transaction_statuses(&admin, &updates1).unwrap();

    let mut updates2: Vec<TransactionStatusUpdate> = Vec::new();
    updates2.push(TransactionStatusUpdate { tx_id: 1, status: TransactionStatus::Completed });
    let result2 = env.client.update_transaction_statuses(&admin, &updates2).unwrap();

    assert_eq!(result2.total_requests, 1);
    assert_eq!(result2.successful, 1);

    let stored_status = env.client.get_transaction_status(1);
    assert_eq!(stored_status, Some(TransactionStatus::Completed));
    let events = env.client.event_log();
    assert_eq!(
        events[events.len() - 2..].to_vec(),
        vec![
            AnalyticsEvent::TransactionStatusUpdated {
                tx_id: 1,
                previous_status: None,
                new_status: TransactionStatus::Pending
            },
            AnalyticsEvent::TransactionStatusUpdated {
                tx_id: 1,
                previous_status: Some(TransactionStatus::Pending),
                new_status: TransactionStatus::Completed
            },
        ]
    );
}

// ============================================================================
// Category Metrics Tests
// ============================================================================

#[test]
fn test_multiple_categories_processed() {
    let (mut env, admin) = setup_test_env();

    let mut transactions: Vec<Transaction> = Vec::new();
    transactions.push(create_transaction(&mut env, 1, 500, "transfer"));
    transactions.push(create_transaction(&mut env, 2, 300, "budget"));
    transactions.push(create_transaction(&mut env, 3, 200, "savings"));

    let metrics = env.process_batch(&admin, &transactions, None).unwrap();

    assert_eq!(metrics.tx_count, 3);
    assert_eq!(metrics.total_volume, 1000);
    let categories = env
        .client
        .event_log()
        .iter()
        .filter(|event| matches!(event, AnalyticsEvent::CategoryAnalytics { .. }))
        .count();
    assert_eq!(categories, 3);
}

#[test]
fn test_same_category_aggregation() {
    let (mut env, admin) = setup_test_env();

    let mut transactions: Vec<Transaction> = Vec::new();
    transactions.push(create_transaction(&mut env, 1, 100, "transfer"));
    transactions.push(create_transaction(&mut env, 2, 200, "transfer"));
    transactions.push(create_transaction(&mut env, 3, 300, "transfer"));

    let metrics = env.process_batch(&admin, &transactions, None).unwrap();

    assert_eq!(metrics.tx_count, 3);
    assert_eq!(metrics.total_volume, 600);
    let categories = env
        .client
        .event_log()
        .iter()
        .filter(|event| matches!(event, AnalyticsEvent::CategoryAnalytics { .. }))
        .count();
    assert_eq!(categories, 1);
}

// ============================================================================
// Audit Log Tests
// ============================================================================

#[test]
fn test_batch_audit_log_success() {
    let (mut env, admin) = setup_test_env();

    let actor = env.generate();
    let mut logs: Vec<AuditLog> = Vec::new();
    logs.push(AuditLog {
        actor,
        operation: String::from("login"),
        timestamp: 1000,
        status: String::from("success"),
    });
    logs.push(AuditLog {
        actor,
        operation: String::from("update_profile"),
        timestamp: 1005,
        status: String::from("success"),
    });

    assert_eq!(env.client.batch_audit_log(&admin, &logs), Ok(2));

    assert_eq!(env.client.get_total_audit_logs(), 2);

    let log1 = env.client.get_audit_log(1).unwrap();
    assert_eq!(log1.actor, actor);
    assert_eq!(log1.operation, String::from("login"));

    let log2 = env.client.get_audit_log(2).unwrap();
    assert_eq!(log2.actor, actor);
    assert_eq!(log2.operation, String::from("update_profile"));
    assert_eq!(log2, logs[1]);
    assert_eq!(env.client.get_audit_log(0), None);
    assert_eq!(env.client.get_audit_log(3), None);
}

#[test]
fn test_batch_audit_log_unauthorized() {
    let (mut env, _admin) = setup_test_env();

    let unauthorized = env.generate();
    let logs: Vec<AuditLog> = Vec::new();
    // Refused due to unauthorized access
    assert_eq!(
        env.client.batch_audit_log(&unauthorized, &logs),
        Err(AnalyticsError::Unauthorized)
    );
}

#[test]
fn test_batch_audit_log_empty_rejected() {
    let (mut env, admin) = setup_test_env();

    let logs: Vec<AuditLog> = Vec::new();
    assert_eq!(env.client.batch_audit_log(&admin, &logs), Err(AnalyticsError::EmptyBatch));
}

#[test]
fn test_batch_audit_log_invalid_timestamp() {
    let (mut env, admin) = setup_test_env();

    let mut logs: Vec<AuditLog> = Vec::new();
    logs.push(AuditLog {
        actor: env.generate(),
        operation: String::from("op"),
        timestamp: 0, // Invalid
        status: String::from("status"),
    });

    assert_eq!(
        env.client.batch_audit_log(&admin, &logs),
        Err(AnalyticsError::InvalidAuditLog)
    );
    assert_eq!(env.client.get_total_audit_logs(), 0);
    assert!(env.client.event_log().is_empty());
}

#[test]
fn test_audit_log_events_emitted() {
    let (mut env, admin) = setup_test_env();

    let actor = env.generate();
    let mut logs: Vec<AuditLog> = Vec::new();
    logs.push(AuditLog {
        actor,
        operation: String::from("op"),
        timestamp: 100,
        status: String::from("ok"),
    });

    env.client.batch_audit_log(&admin, &logs).unwrap();

    let events = env.client.event_log();
    // At least one audit log event should be emitted
    assert!(events.len() >= 1);
    assert_eq!(
        events.clone(),
        vec![AnalyticsEvent::AuditLogged {
            actor,
            operation: String::from("op"),
            status: String::from("ok")
        }]
    );
}

// ============================================================================
// Transaction Bundling Tests
// ============================================================================

/// Helper to create a bundled transaction.
fn create_bundled_transaction(
    env: &mut TestEnv,
    tx_id: u64,
    amount: i128,
    category: &str,
) -> BundledTransaction {
    BundledTransaction {
        transaction: create_transaction(env, tx_id, amount, category),
        memo: None,
    }
}

/// Helper to create a bundled transaction with memo.
fn create_bundled_transaction_with_memo(
    env: &mut TestEnv,
    tx_id: u64,
    amount: i128,
    category: &str,
    memo: &str,
) -> BundledTransaction {
    BundledTransaction {
        transaction: create_transaction(env, tx_id, amount, category),
        memo: Some(String::from(memo)),
    }
}

/// Helper to create a bundled transaction with specific addresses.
fn create_bundled_transaction_with_addresses(
    tx_id: u64,
    from: Address,
    to: Address,
    amount: i128,
    category: &str,
) -> BundledTransaction {
    BundledTransaction {
        transaction: create_transaction_with_addresses(tx_id, from, to, amount, category),
        memo: None,
    }
}

#[test]
fn test_bundle_transactions_success() {
    let (mut env, admin) = setup_test_env();

    let mut bundled_txs: Vec<BundledTransaction> = Vec::new();
    bundled_txs.push(create_bundled_transaction(&mut env, 1, 1000, "transfer"));
    bundled_txs.push(create_bundled_transaction(&mut env, 2, 2000, "budget"));
    bundled_txs.push(create_bundled_transaction(&mut env, 3, 3000, "savings"));

    let result = env.bundle(&admin, &bundled_txs).unwrap();

    assert_eq!(result.bundle_id, 1);
    assert_eq!(result.total_count, 3);
    assert_eq!(result.valid_count, 3);
    assert_eq!(result.invalid_count, 0);
    assert_eq!(result.can_bundle, true);
    assert_eq!(result.total_volume, 6000);
    assert_eq!(result.validation_results.len(), 3);

    // All transactions should be valid
    for result_item in result.validation_results.iter() {
        assert_eq!(result_item.is_valid, true);
    }
}

#[test]
fn test_bundle_transactions_with_partial_failures() {
    let (mut env, admin) = setup_test_env();

    let mut bundled_txs: Vec<BundledTransaction> = Vec::new();
    bundled_txs.push(create_bundled_transaction(&mut env, 1, 1000, "transfer"));
    // Create a transaction with same from/to address (should fail validation)
    let sender = env.generate();
    bundled_txs.push(create_bundled_transaction_with_addresses(2, sender, sender, 2000, "budget"));
    bundled_txs.push(create_bundled_transaction(&mut env, 3, 3000, "savings"));

    let result = env.bundle(&admin, &bundled_txs).unwrap();

    assert_eq!(result.bundle_id, 1);
    assert_eq!(result.total_count, 3);
    assert_eq!(result.valid_count, 2);
    assert_eq!(result.invalid_count, 1);
    assert_eq!(result.can_bundle, false); // Not all valid
    assert_eq!(result.total_volume, 4000); // Only valid transactions
    assert_eq!(result.validation_results.len(), 3);

    // Check validation results
    let result_1 = result.validation_results[0];
    assert_eq!(result_1.tx_id, 1);
    assert_eq!(result_1.is_valid, true);

    let result_2 = result.validation_results[1];
    assert_eq!(result_2.tx_id, 2);
    assert_eq!(result_2.is_valid, false);

    let result_3 = result.validation_results[2];
    assert_eq!(result_3.tx_id, 3);
    assert_eq!(result_3.is_valid, true);
}

#[test]
fn test_bundle_transactions_with_negative_amount() {
    let (mut env, admin) = setup_test_env();

    let mut bundled_txs: Vec<BundledTransaction> = Vec::new();
    bundled_txs.push(create_bundled_transaction(&mut env, 1, 1000, "transfer"));
    // Create a transaction with negative amount (should fail validation)
    let invalid_tx = create_bundled_transaction(&mut env, 2, -100, "budget");
    bundled_txs.push(invalid_tx);
    bundled_txs.push(create_bundled_transaction(&mut env, 3, 3000, "savings"));

    let result = env.bundle(&admin, &bundled_txs).unwrap();

    assert_eq!(result.valid_count, 2);
    assert_eq!(result.invalid_count, 1);
    assert_eq!(result.can_bundle, false);

    // Check that the invalid transaction has the correct error
    let invalid_result = result.validation_results[1];
    assert_eq!(invalid_result.tx_id, 2);
    assert_eq!(invalid_result.is_valid, false);
    assert_eq!(invalid_result.error, "negative_amount");
}

#[test]
fn test_bundle_id_increments() {
    let (mut env, admin) = setup_test_env();

    let mut bundled_txs: Vec<BundledTransaction> = Vec::new();
    bundled_txs.push(create_bundled_transaction(&mut env, 1, 1000, "transfer"));

    assert_eq!(env.client.get_last_bundle_id(), 0);

    env.bundle(&admin, &bundled_txs).unwrap();
    assert_eq!(env.client.get_last_bundle_id(), 1);

    env.bundle(&admin, &bundled_txs).unwrap();
    assert_eq!(env.client.get_last_bundle_id(), 2);
}

#[test]
fn test_get_bundle_result() {
    let (mut env, admin) = setup_test_env();

    let mut bundled_txs: Vec<BundledTransaction> = Vec::new();
    bundled_txs.push(create_bundled_transaction(&mut env, 1, 1000, "transfer"));
    bundled_txs.push(create_bundled_transaction(&mut env, 2, 2000, "budget"));

    let created_result = env.bundle(&admin, &bundled_txs).unwrap();
    let retrieved_result = env.client.get_bundle_result(1).unwrap();

    assert_eq!(retrieved_result.bundle_id, created_result.bundle_id);
    assert_eq!(retrieved_result.total_count, created_result.total_count);
    assert_eq!(retrieved_result.valid_count, created_result.valid_count);
    assert_eq!(retrieved_result.can_bundle, created_result.can_bundle);
    assert_eq!(retrieved_result, created_result);
}

#[test]
fn test_get_nonexistent_bundle_result() {
    let (env, _admin) = setup_test_env();

    let result = env.client.get_bundle_result(999);
    assert!(result.is_none());
}

#[test]
fn test_bundle_empty_transactions() {
    let (mut env, admin) = setup_test_env();

    let bundled_txs: Vec<BundledTransaction> = Vec::new();
    assert_eq!(env.bundle(&admin, &bundled_txs), Err(AnalyticsError::EmptyBatch));
    assert_eq!(env.client.get_last_bundle_id(), 0);
}

#[test]
fn test_unauthorized_bundle_transactions() {
    let (mut env, _admin) = setup_test_env();

    let unauthorized = env.generate();
    let mut bundled_txs: Vec<BundledTransaction> = Vec::new();
    bundled_txs.push(create_bundled_transaction(&mut env, 1, 1000, "transfer"));

    // Refused due to unauthorized access
    assert_eq!(env.bundle(&unauthorized, &bundled_txs), Err(AnalyticsError::Unauthorized));
    assert_eq!(env.client.get_last_bundle_id(), 0);
    assert!(env.client.event_log().is_empty());
}

#[test]
fn test_bundle_events_emitted() {
    let (mut env, admin) = setup_test_env();

    let mut bundled_txs: Vec<BundledTransaction> = Vec::new();
    bundled_txs.push(create_bundled_transaction(&mut env, 1, 1000, "transfer"));
    bundled_txs.push(create_bundled_transaction(&mut env, 2, 2000, "budget"));

    env.bundle(&admin, &bundled_txs).unwrap();

    let events = env.client.event_log();

    // Should have multiple events: bundling_started, transaction_validated (x2),
    // bundle_created, bundling_completed
    assert!(events.len() >= 5);
    assert_eq!(
        events.clone(),
        vec![
            AnalyticsEvent::BundlingStarted { bundle_id: 1, tx_count: 2 },
            AnalyticsEvent::TransactionValidated {
                bundle_id: 1,
                verdict: ValidationResult { tx_id: 1, is_valid: true, error: "" }
            },
            AnalyticsEvent::TransactionValidated {
                bundle_id: 1,
                verdict: ValidationResult { tx_id: 2, is_valid: true, error: "" }
            },
            AnalyticsEvent::BundleCreated {
                bundle_id: 1,
                total_count: 2,
                valid_count: 2,
                invalid_count: 0,
                can_bundle: true,
                total_volume: 3000,
                created_at: LEDGER_SEQUENCE
            },
            AnalyticsEvent::BundlingCompleted { bundle_id: 1, can_bundle: true },
        ]
    );
}

#[test]
fn test_bundle_large_number_of_transactions() {
    let (mut env, admin) = setup_test_env();

    // Create a bundle with 50 transactions
    let mut bundled_txs: Vec<BundledTransaction> = Vec::new();
    for i in 0..50 {
        bundled_txs.push(create_bundled_transaction(
            &mut env,
            i,
            (i as i128 + 1) * 100,
            "transfer",
        ));
    }

    let result = env.bundle(&admin, &bundled_txs).unwrap();

    assert_eq!(result.total_count, 50);
    assert_eq!(result.valid_count, 50);
    assert_eq!(result.invalid_count, 0);
    assert_eq!(result.can_bundle, true);
    // Sum of 100 + 200 + ... + 5000 = 100 * (1 + 2 + ... + 50) = 100 * 1275 = 127500
    assert_eq!(result.total_volume, 127500);
}

#[test]
fn test_bundle_with_memo() {
    let (mut env, admin) = setup_test_env();

    let mut bundled_txs: Vec<BundledTransaction> = Vec::new();
    bundled_txs.push(create_bundled_transaction_with_memo(&mut env, 1, 1000, "transfer", "payment"));
    bundled_txs.push(create_bundled_transaction(&mut env, 2, 2000, "budget"));

    let result = env.bundle(&admin, &bundled_txs).unwrap();

    assert_eq!(result.valid_count, 2);
    assert_eq!(result.can_bundle, true);
}

#[test]
fn test_bundle_all_transactions_invalid() {
    let (mut env, admin) = setup_test_env();

    // Create transactions that will all fail validation
    let mut bundled_txs: Vec<BundledTransaction> = Vec::new();
    let sender = env.generate();
    bundled_txs.push(create_bundled_transaction_with_addresses(1, sender, sender, 1000, "transfer"));
    bundled_txs.push(create_bundled_transaction_with_addresses(2, sender, sender, 2000, "budget"));

    let result = env.bundle(&admin, &bundled_txs).unwrap();

    assert_eq!(result.valid_count, 0);
    assert_eq!(result.invalid_count, 2);
    assert_eq!(result.can_bundle, false);
    assert_eq!(result.total_volume, 0);
    assert_eq!(
        env.client.event_log()[2],
        AnalyticsEvent::TransactionValidationFailed {
            bundle_id: 1,
            tx_id: 1,
            error: "same_address"
        }
    );
}

#[test]
fn test_bundle_zero_amount_transactions() {
    let (mut env, admin) = setup_test_env();

    let mut bundled_txs: Vec<BundledTransaction> = Vec::new();
    bundled_txs.push(create_bundled_transaction(&mut env, 1, 0, "transfer"));
    bundled_txs.push(create_bundled_transaction(&mut env, 2, 1000, "budget"));

    let result = env.bundle(&admin, &bundled_txs).unwrap();

    // Zero amount transactions are allowed
    assert_eq!(result.valid_count, 2);
    assert_eq!(result.can_bundle, true);
    assert_eq!(result.total_volume, 1000);
}

/// Helper to create a refund request.
fn create_refund_request(tx_id: u64, reason: Option<&str>) -> RefundRequest {
    RefundRequest {
        tx_id,
        reason: reason.map(|r| String::from(r)),
    }
}

/// Helper to create a transaction lookup map.
fn create_transaction_lookup(transactions: &Vec<Transaction>) -> HashMap<u64, Transaction> {
    let mut lookup = HashMap::new();
    for tx in transactions.iter() {
        lookup.insert(tx.tx_id, tx.clone());
    }
    lookup
}

// ============================================================================
// Refund Tests
// ============================================================================

#[test]
fn test_refund_single_eligible_transaction() {
    let (mut env, admin) = setup_test_env();

    // Create some transactions first
    let mut transactions: Vec<Transaction> = Vec::new();
    transactions.push(create_transaction(&mut env, 1, 1000, "transfer")); // Odd ID = eligible
    transactions.push(create_transaction(&mut env, 2, 500, "budget")); // Even ID = not eligible

    let lookup = create_transaction_lookup(&transactions);

    // Process the batch first to establish transaction records
    env.process_batch(&admin, &transactions, None).unwrap();

    // Create refund request for eligible transaction
    let mut refund_requests: Vec<RefundRequest> = Vec::new();
    refund_requests.push(create_refund_request(1, Some("FailedTransaction")));

    let metrics = env.refund_batch(&admin, &refund_requests, &lookup).unwrap();

    assert_eq!(metrics.request_count, 1);
    assert_eq!(metrics.successful_refunds, 1);
    assert_eq!(metrics.failed_refunds, 0);
    assert_eq!(metrics.total_refunded_amount, 1000);
    assert_eq!(metrics.avg_refund_amount, 1000);

    // Verify transaction is marked as refunded
    assert!(env.client.is_transaction_refunded(1_u64));
    assert_eq!(env.client.get_total_refund_amount(), 1000);
}

#[test]
fn test_refund_multiple_transactions_mixed_eligibility() {
    let (mut env, admin) = setup_test_env();

    let mut transactions: Vec<Transaction> = Vec::new();
    transactions.push(create_transaction(&mut env, 1, 1000, "transfer")); // Eligible
    transactions.push(create_transaction(&mut env, 2, 500, "budget")); // Not eligible
    transactions.push(create_transaction(&mut env, 3, 2000, "savings")); // Eligible
    transactions.push(create_transaction(&mut env, 4, 300, "transfer")); // Not eligible

    let lookup = create_transaction_lookup(&transactions);
    env.process_batch(&admin, &transactions, None).unwrap();

    let mut refund_requests: Vec<RefundRequest> = Vec::new();
    refund_requests.push(create_refund_request(1, None));
    refund_requests.push(create_refund_request(2, None));
    refund_requests.push(create_refund_request(3, None));
    refund_requests.push(create_refund_request(4, None));

    let metrics = env.refund_batch(&admin, &refund_requests, &lookup).unwrap();

    assert_eq!(metrics.request_count, 4);
    assert_eq!(metrics.successful_refunds, 2); // Only odd IDs (1,3) are eligible
    assert_eq!(metrics.failed_refunds, 2); // Even IDs (2,4) are not eligible
    assert_eq!(metrics.total_refunded_amount, 3000); // 1000 + 2000
    assert_eq!(metrics.avg_refund_amount, 1500);

    // Verify only eligible transactions are marked refunded
    assert!(env.client.is_transaction_refunded(1_u64));
    assert!(!env.client.is_transaction_refunded(2_u64));
    assert!(env.client.is_transaction_refunded(3_u64));
    assert!(!env.client.is_transaction_refunded(4_u64));
}

#[test]
fn test_refund_already_refunded_transaction() {
    let (mut env, admin) = setup_test_env();

    let mut transactions: Vec<Transaction> = Vec::new();
    transactions.push(create_transaction(&mut env, 1, 1000, "transfer"));

    let lookup = create_transaction_lookup(&transactions);
    env.process_batch(&admin, &transactions, None).unwrap();

    // First refund
    let mut refund_requests: Vec<RefundRequest> = Vec::new();
    refund_requests.push(create_refund_request(1, None));
    env.refund_batch(&admin, &refund_requests, &lookup).unwrap();

    // Try to refund the same transaction again
    let metrics = env.refund_batch(&admin, &refund_requests, &lookup).unwrap();

    assert_eq!(metrics.request_count, 1);
    assert_eq!(metrics.successful_refunds, 0);
    assert_eq!(metrics.failed_refunds, 1);
    assert_eq!(metrics.total_refunded_amount, 0);
    assert_eq!(env.client.get_total_refund_amount(), 1000);
    assert_eq!(
        env.client.event_log()[env.client.event_log().len() - 2],
        AnalyticsEvent::RefundProcessed {
            batch_id: 2,
            result: RefundResult {
                tx_id: 1,
                success: false,
                status: RefundStatus::AlreadyRefunded,
                amount_refunded: 0
            }
        }
    );
}

#[test]
fn test_refund_nonexistent_transaction() {
    let (mut env, admin) = setup_test_env();

    // Create empty lookup (no transactions)
    let lookup: HashMap<u64, Transaction> = HashMap::new();

    let mut refund_requests: Vec<RefundRequest> = Vec::new();
    refund_requests.push(create_refund_request(999, Some("NonexistentTx")));

    let metrics = env.refund_batch(&admin, &refund_requests, &lookup).unwrap();

    assert_eq!(metrics.request_count, 1);
    assert_eq!(metrics.successful_refunds, 0);
    assert_eq!(metrics.failed_refunds, 1);
    assert_eq!(metrics.total_refunded_amount, 0);
    assert!(!env.client.is_transaction_refunded(999));
}

#[test]
fn test_refund_batch_id_increments() {
    let (mut env, admin) = setup_test_env();

    let mut transactions: Vec<Transaction> = Vec::new();
    transactions.push(create_transaction(&mut env, 1, 1000, "transfer"));
    transactions.push(create_transaction(&mut env, 3, 2000, "budget"));

    let lookup = create_transaction_lookup(&transactions);
    env.process_batch(&admin, &transactions, None).unwrap();

    assert_eq!(env.client.get_last_refund_batch_id(), 0);

    let mut refund_requests: Vec<RefundRequest> = Vec::new();
    refund_requests.push(create_refund_request(1, None));
    env.refund_batch(&admin, &refund_requests, &lookup).unwrap();
    assert_eq!(env.client.get_last_refund_batch_id(), 1);

    let mut refund_requests2: Vec<RefundRequest> = Vec::new();
    refund_requests2.push(create_refund_request(3, None));
    env.refund_batch(&admin, &refund_requests2, &lookup).unwrap();
    assert_eq!(env.client.get_last_refund_batch_id(), 2);
}

#[test]
fn test_simulate_refund_batch() {
    let (mut env, admin) = setup_test_env();

    let mut transactions: Vec<Transaction> = Vec::new();
    transactions.push(create_transaction(&mut env, 1, 1000, "transfer"));
    transactions.push(create_transaction(&mut env, 3, 2000, "budget"));

    let lookup = create_transaction_lookup(&transactions);
    env.process_batch(&admin, &transactions, None).unwrap();

    let mut refund_requests: Vec<RefundRequest> = Vec::new();
    refund_requests.push(create_refund_request(1, None));
    refund_requests.push(create_refund_request(3, None));

    // Simulate should not affect actual state
    let metrics_before = env.client.get_total_refund_amount();
    let simulated_metrics = env
        .client
        .simulate_refund_batch(&refund_requests, &lookup, LEDGER_SEQUENCE)
        .unwrap();
    let metrics_after = env.client.get_total_refund_amount();

    // Should return correct simulation results
    assert_eq!(simulated_metrics.request_count, 2);
    assert_eq!(simulated_metrics.successful_refunds, 2);
    assert_eq!(simulated_metrics.total_refunded_amount, 3000);

    // Actual state should be unchanged
    assert_eq!(metrics_before, metrics_after);
    assert_eq!(metrics_after, 0); // No actual refunds processed
    assert!(!env.client.is_transaction_refunded(1));
    assert!(!env.client.is_transaction_refunded(3));
    assert_eq!(env.client.get_last_refund_batch_id(), 0);

    // The refund itself then gives what was simulated
    let metrics = env.refund_batch(&admin, &refund_requests, &lookup).unwrap();
    assert_eq!(metrics, simulated_metrics);
}

#[test]
fn test_get_refund_batch_metrics() {
    let (mut env, admin) = setup_test_env();

    let mut transactions: Vec<Transaction> = Vec::new();
    transactions.push(create_transaction(&mut env, 1, 1000, "transfer"));

    let lookup = create_transaction_lookup(&transactions);
    env.process_batch(&admin, &transactions, None).unwrap();

    let mut refund_requests: Vec<RefundRequest> = Vec::new();
    refund_requests.push(create_refund_request(1, None));

    let metrics = env.refund_batch(&admin, &refund_requests, &lookup).unwrap();

    // Should be able to retrieve the stored metrics
    let retrieved_metrics = env.client.get_refund_batch_metrics(1_u64).unwrap();
    assert_eq!(retrieved_metrics.request_count, metrics.request_count);
    assert_eq!(retrieved_metrics.successful_refunds, metrics.successful_refunds);
    assert_eq!(retrieved_metrics.total_refunded_amount, metrics.total_refunded_amount);

    // Non-existent batch should return None
    assert!(env.client.get_refund_batch_metrics(999_u64).is_none());
}

#[test]
fn test_empty_refund_batch_rejected() {
    let (mut env, admin) = setup_test_env();

    let refund_requests: Vec<RefundRequest> = Vec::new();
    let lookup: HashMap<u64, Transaction> = HashMap::new();

    let refused = env.refund_batch(&admin, &refund_requests, &lookup);
    assert_eq!(refused, Err(AnalyticsError::EmptyRefundBatch));
    assert_eq!(refused.unwrap_err().code(), 12);
    assert_eq!(env.client.get_last_refund_batch_id(), 0);
}

#[test]
fn test_unauthorized_refund_batch() {
    let (mut env, _admin) = setup_test_env();

    let unauthorized_user = env.generate();
    let refund_requests: Vec<RefundRequest> = Vec::new();
    let lookup: HashMap<u64, Transaction> = HashMap::new();

    let refused = env.refund_batch(&unauthorized_user, &refund_requests, &lookup);
    assert_eq!(refused, Err(AnalyticsError::Unauthorized));
    assert_eq!(refused.unwrap_err().code(), 2);
}

// ============================================================================
// The rules of a refund batch
// ============================================================================

#[test]
fn refund_listed_twice_in_one_batch_is_paid_once() {
    let (mut env, admin) = setup_test_env();
    let transactions = vec![create_transaction(&mut env, 7, 250, "transfer")];
    let lookup = create_transaction_lookup(&transactions);

    let requests = vec![create_refund_request(7, None), create_refund_request(7, Some("again"))];
    let simulated = env.client.simulate_refund_batch(&requests, &lookup, 3).unwrap();
    let metrics = env.client.refund_batch(&admin, &requests, &lookup, 3).unwrap();

    assert_eq!(
        metrics,
        RefundBatchMetrics {
            request_count: 2,
            successful_refunds: 1,
            failed_refunds: 1,
            total_refunded_amount: 250,
            avg_refund_amount: 250,
            processed_at: 3,
        }
    );
    assert_eq!(simulated, metrics);
    assert_eq!(env.client.get_total_refund_amount(), 250);
    assert!(env.client.is_transaction_refunded(7));
    assert_eq!(
        env.client.event_log().clone(),
        vec![
            AnalyticsEvent::RefundBatchStarted { batch_id: 1, request_count: 2 },
            AnalyticsEvent::RefundProcessed {
                batch_id: 1,
                result: RefundResult {
                    tx_id: 7,
                    success: true,
                    status: RefundStatus::Eligible,
                    amount_refunded: 250
                }
            },
            AnalyticsEvent::RefundProcessed {
                batch_id: 1,
                result: RefundResult {
                    tx_id: 7,
                    success: false,
                    status: RefundStatus::AlreadyRefunded,
                    amount_refunded: 0
                }
            },
            AnalyticsEvent::RefundBatchCompleted { batch_id: 1, refund_metrics: metrics },
        ]
    );

    // and never again in any later batch
    let later = env.client.refund_batch(&admin, &requests, &lookup, 4).unwrap();
    assert_eq!(later.successful_refunds, 0);
    assert_eq!(later.failed_refunds, 2);
    assert_eq!(env.client.get_total_refund_amount(), 250);
    assert_eq!(env.client.get_last_refund_batch_id(), 2);
}

#[test]
fn refund_standing_is_decided_rule_by_rule() {
    let (mut env, admin) = setup_test_env();
    let transactions = vec![
        create_transaction(&mut env, 1, 10, "a"),
        create_transaction(&mut env, 2, 20, "a"),
        create_transaction(&mut env, 3, -5, "a"),
        create_transaction(&mut env, 5, 0, "a"),
    ];
    let lookup = create_transaction_lookup(&transactions);
    let requests = vec![
        create_refund_request(1, None),
        create_refund_request(2, None),
        create_refund_request(3, None),
        create_refund_request(4, None),
        create_refund_request(5, None),
        create_refund_request(1, None),
    ];
    env.client.refund_batch(&admin, &requests, &lookup, 1).unwrap();
    let statuses: Vec<(u64, bool, RefundStatus, i128)> = env
        .client
        .event_log()
        .iter()
        .filter_map(|event| match event {
            AnalyticsEvent::RefundProcessed { result, .. } => {
                Some((result.tx_id, result.success, result.status, result.amount_refunded))
            }
            _ => None,
        })
        .collect();
    assert_eq!(
        statuses,
        vec![
            (1, true, RefundStatus::Eligible, 10),
            (2, false, RefundStatus::NotEligible, 0),
            (3, false, RefundStatus::NotEligible, 0),
            (4, false, RefundStatus::NotFound, 0),
            (5, true, RefundStatus::Eligible, 0),
            (1, false, RefundStatus::AlreadyRefunded, 0),
        ]
    );
    let metrics = env.client.get_refund_batch_metrics(1).unwrap();
    assert_eq!(metrics.successful_refunds + metrics.failed_refunds, metrics.request_count);
    assert_eq!(metrics.total_refunded_amount, 10);
    assert_eq!(metrics.avg_refund_amount, 5);
}

#[test]
fn refused_refunds_carry_a_message() {
    assert_eq!(RefundStatus::Eligible.message(), None);
    assert_eq!(RefundStatus::AlreadyRefunded.message(), Some("already_refunded"));
    assert_eq!(RefundStatus::Pending.message(), Some("pending"));
    assert_eq!(RefundStatus::NotEligible.message(), Some("not_eligible"));
    assert_eq!(RefundStatus::NotFound.message(), Some("not_found"));
}

#[test]
fn oversized_refund_batch_changes_nothing() {
    let (mut env, admin) = setup_test_env();
    let transactions = vec![create_transaction(&mut env, 1, 10, "a")];
    let lookup = create_transaction_lookup(&transactions);
    let requests: Vec<RefundRequest> = (0..101).map(|_| create_refund_request(1, None)).collect();
    assert_eq!(
        env.client.refund_batch(&admin, &requests, &lookup, 1),
        Err(AnalyticsError::RefundBatchTooLarge)
    );
    assert_eq!(
        env.client.simulate_refund_batch(&requests, &lookup, 1),
        Err(AnalyticsError::RefundBatchTooLarge)
    );
    assert_eq!(
        env.client.simulate_refund_batch(&Vec::new(), &lookup, 1),
        Err(AnalyticsError::EmptyRefundBatch)
    );
    assert!(!env.client.is_transaction_refunded(1));
    assert_eq!(env.client.get_last_refund_batch_id(), 0);
    assert_eq!(env.client.get_total_refund_amount(), 0);
    assert!(env.client.get_refund_batch_metrics(1).is_none());
    assert!(env.client.event_log().is_empty());
}

#[test]
fn refund_batches_count_even_when_every_item_fails() {
    let (mut env, admin) = setup_test_env();
    let lookup: HashMap<u64, Transaction> = HashMap::new();
    let requests = vec![create_refund_request(1, None)];
    let first = env.client.refund_batch(&admin, &requests, &lookup, 1).unwrap();
    env.client.refund_batch(&admin, &requests, &lookup, 2).unwrap();
    assert_eq!(first.avg_refund_amount, 0);
    assert_eq!(env.client.get_last_refund_batch_id(), 2);
    assert_eq!(env.client.get_total_refund_amount(), 0);
    assert_eq!(env.client.get_refund_batch_metrics(2).unwrap().processed_at, 2);
}

#[test]
fn refund_total_saturates_at_the_largest_amount() {
    let (mut env, admin) = setup_test_env();
    let transactions = vec![
        create_transaction(&mut env, 1, i128::MAX, "a"),
        create_transaction(&mut env, 3, i128::MAX, "a"),
        create_transaction(&mut env, 5, 9, "a"),
    ];
    let lookup = create_transaction_lookup(&transactions);
    let requests = vec![create_refund_request(1, None), create_refund_request(3, None)];
    let metrics = env.client.refund_batch(&admin, &requests, &lookup, 1).unwrap();
    assert_eq!(metrics.total_refunded_amount, i128::MAX);
    assert_eq!(metrics.avg_refund_amount, i128::MAX / 2);
    let metrics = env
        .client
        .refund_batch(&admin, &vec![create_refund_request(5, None)], &lookup, 1)
        .unwrap();
    assert_eq!(metrics.total_refunded_amount, 9);
    assert_eq!(env.client.get_total_refund_amount(), i128::MAX);
}

// ============================================================================
// Budget recommendations
// ============================================================================

fn budget_data(user: u64, income: i128) -> UserBudgetData {
    UserBudgetData {
        user: Address::new(user),
        monthly_income: income,
        spending_by_category: vec![CategorySpending {
            category: String::from("food"),
            amount: 500,
        }],
        savings_goal: None,
        risk_tolerance: 3,
    }
}

#[test]
fn budget_recommendation_batches_are_stored() {
    let (mut env, admin) = setup_test_env();
    let users = vec![budget_data(1, 3000), budget_data(2, 4000)];
    let recommendations =
        env.client.generate_batch_budget_recommendations(&admin, &users, 77).unwrap();
    assert_eq!(recommendations.len(), 2);
    assert_eq!(recommendations[0].user, Address::new(1));
    assert_eq!(recommendations[0].recommended_savings, 600);
    assert_eq!(recommendations[1].recommended_savings, 800);
    assert_eq!(recommendations[1].generated_at, 77);
    assert_eq!(env.client.get_last_recommendation_batch_id(), 1);
    assert_eq!(env.client.get_recommendation_batch(1), Some(recommendations.clone()));
    assert_eq!(env.client.get_recommendation_batch(2), None);
    assert_eq!(
        env.client.event_log().clone(),
        vec![
            AnalyticsEvent::RecommendationsStarted { batch_id: 1, user_count: 2 },
            AnalyticsEvent::RecommendationGenerated {
                batch_id: 1,
                user: Address::new(1),
                recommended_savings: 600,
                recommended_emergency_fund: 9600,
                confidence_score: 60
            },
            AnalyticsEvent::RecommendationGenerated {
                batch_id: 1,
                user: Address::new(2),
                recommended_savings: 800,
                recommended_emergency_fund: 12800,
                confidence_score: 60
            },
            AnalyticsEvent::RecommendationsCompleted { batch_id: 1, user_count: 2 },
        ]
    );
    assert_eq!(
        env.client.simulate_budget_recommendation(&users[0], 77),
        Ok(recommendations[0].clone())
    );
    assert_eq!(
        env.client.simulate_budget_recommendation(&budget_data(1, 0), 77),
        Err(AnalyticsError::InvalidBudgetData)
    );
}

#[test]
fn budget_recommendation_aborts_change_nothing() {
    let (mut env, admin) = setup_test_env();
    let stranger = env.generate();
    let users = vec![budget_data(1, 3000)];
    assert_eq!(
        env.client.generate_batch_budget_recommendations(&stranger, &users, 1),
        Err(AnalyticsError::Unauthorized)
    );
    assert_eq!(
        env.client.generate_batch_budget_recommendations(&admin, &Vec::new(), 1),
        Err(AnalyticsError::EmptyBudgetBatch)
    );
    let many: Vec<UserBudgetData> = (0..101).map(|i| budget_data(i, 3000)).collect();
    assert_eq!(
        env.client.generate_batch_budget_recommendations(&admin, &many, 1),
        Err(AnalyticsError::BudgetBatchTooLarge)
    );
    assert_eq!(
        env.client.generate_batch_budget_recommendations(&admin, &vec![budget_data(1, -1)], 1),
        Err(AnalyticsError::InvalidBudgetData)
    );
    assert_eq!(env.client.get_last_recommendation_batch_id(), 0);
    assert_eq!(env.client.get_recommendation_batch(1), None);
    assert!(env.client.event_log().is_empty());
}

// ============================================================================
// Aborted calls
// ============================================================================

#[test]
fn analysis_aborts_change_nothing() {
    let (mut env, admin) = setup_test_env();
    let many: Vec<Transaction> = (0..101).map(|i| create_transaction(&mut env, i, 5, "a")).collect();
    assert_eq!(env.process_batch(&admin, &many, Some(1)), Err(AnalyticsError::BatchTooLarge));
    let negative = vec![
        create_transaction(&mut env, 1, 5, "a"),
        create_transaction(&mut env, 2, -5, "a"),
    ];
    assert_eq!(env.process_batch(&admin, &negative, None), Err(AnalyticsError::InvalidBatch));
    assert_eq!(env.client.get_last_batch_id(), 0);
    assert_eq!(env.client.get_total_transactions_processed(), 0);
    assert!(env.client.get_batch_metrics(1).is_none());
    assert!(env.client.event_log().is_empty());
    // nothing became known
    let update = vec![TransactionStatusUpdate { tx_id: 1, status: TransactionStatus::Failed }];
    let result = env.client.update_transaction_statuses(&admin, &update).unwrap();
    assert_eq!(result.successful, 0);
    assert_eq!(result.failed, 1);
    assert_eq!(
        env.client.event_log().clone(),
        vec![AnalyticsEvent::TransactionStatusUpdateFailed { tx_id: 1 }]
    );
}

#[test]
fn analytics_calls_before_initialization_are_refused() {
    let mut client = TransactionAnalyticsContract::new();
    let caller = Address::new(9);
    let lookup: HashMap<u64, Transaction> = HashMap::new();
    assert_eq!(client.get_admin(), Err(AnalyticsError::NotInitialized));
    assert_eq!(
        client.refund_batch(&caller, &vec![create_refund_request(1, None)], &lookup, 1),
        Err(AnalyticsError::NotInitialized)
    );
    assert_eq!(
        client.process_batch(&caller, &Vec::new(), None, 1),
        Err(AnalyticsError::NotInitialized)
    );
    assert_eq!(
        client.bundle_transactions(&caller, &Vec::new(), 1),
        Err(AnalyticsError::NotInitialized)
    );
    assert_eq!(client.batch_audit_log(&caller, &Vec::new()), Err(AnalyticsError::NotInitialized));
    assert_eq!(
        client.update_transaction_statuses(&caller, &Vec::new()),
        Err(AnalyticsError::NotInitialized)
    );
    assert_eq!(
        client.generate_batch_budget_recommendations(&caller, &Vec::new(), 1),
        Err(AnalyticsError::NotInitialized)
    );
    assert_eq!(client.set_admin(&caller, caller), Err(AnalyticsError::NotInitialized));
    assert!(client.event_log().is_empty());
    assert_eq!(AnalyticsError::NotInitialized.code(), 1);
    assert_eq!(AnalyticsError::Unauthorized.code(), 2);
    assert_eq!(AnalyticsError::InvalidBatch.code(), 3);
    assert_eq!(AnalyticsError::EmptyBatch.code(), 4);
    assert_eq!(AnalyticsError::BatchTooLarge.code(), 5);
    assert_eq!(AnalyticsError::InvalidAmount.code(), 6);
    assert_eq!(AnalyticsError::InvalidBudgetData.code(), 7);
    assert_eq!(AnalyticsError::EmptyBudgetBatch.code(), 8);
    assert_eq!(AnalyticsError::BudgetBatchTooLarge.code(), 9);
}
