use batch_ledger::address::Address;
use batch_ledger::escrow::contract::{EscrowContract, EscrowError};
use batch_ledger::escrow::types::{
    EscrowEvent, EscrowStatus, ReversalRequest, ReversalResult,
};
use batch_ledger::ledger::Ledger;

const LEDGER_SEQUENCE: u64 = 12345;

/// The service under test with its ledger and a source of fresh addresses.
struct TestEnv {
    next_address: u64,
    ledger: Ledger,
    contract: EscrowContract,
}

impl TestEnv {
    fn generate(&mut self) -> Address {
        self.next_address += 1;
        Address::new(self.next_address)
    }
}

/// Creates a test environment with the contract deployed and initialized.
fn setup_test_env() -> (TestEnv, Address, Address) {
    let mut env = TestEnv {
        next_address: 1000,
        ledger: Ledger::new(),
        contract: EscrowContract::new(Address::new(1)),
    };
    let token_id = env.generate();
    let admin = env.generate();
    env.contract.initialize(admin, token_id).unwrap();
    (env, admin, token_id)
}

/// Helper to create a reversal request.
fn create_reversal_request(escrow_id: u64) -> ReversalRequest {
    ReversalRequest { escrow_id }
}

/// Helper to create an escrow and return its ID.
fn create_test_escrow(
    env: &mut TestEnv,
    depositor: &Address,
    recipient: &Address,
    amount: i128,
    deadline: u64,
) -> u64 {
    // Mint tokens to depositor
    env.ledger.mint(depositor, amount).unwrap();

    // Create escrow
    env.contract
        .create_escrow(&mut env.ledger, depositor, recipient, amount, deadline, LEDGER_SEQUENCE)
        .unwrap()
}

fn batch_reverse(
    env: &mut TestEnv,
    caller: &Address,
    requests: &Vec<ReversalRequest>,
) -> Result<batch_ledger::escrow::types::BatchReversalResult, EscrowError> {
    env.contract.batch_reverse_escrows(&mut env.ledger, caller, requests, LEDGER_SEQUENCE)
}

// ============================================
// Initialization Tests
// ============================================

#[test]
fn test_test_initialize_contract() {
    let (env, admin, _token) = setup_test_env();

    assert_eq!(env.contract.get_admin(), Ok(admin));
    assert_eq!(env.contract.get_total_reversal_batches(), 0);
    assert_eq!(env.contract.get_total_escrows_reversed(), 0);
    assert_eq!(env.contract.get_total_amount_reversed(), 0);
    assert_eq!(env.contract.get_escrow_counter(), 0);
}

#[test]
fn test_test_cannot_initialize_twice() {
    let (mut env, admin, token) = setup_test_env();

    let new_admin = env.generate();
    assert_eq!(
        env.contract.initialize(new_admin, token),
        Err(EscrowError::AlreadyInitialized)
    );
    assert_eq!(env.contract.get_admin(), Ok(admin));
}

// ============================================
// Escrow Creation Tests
// ============================================

#[test]
fn test_create_escrow() {
    let (mut env, _admin, token) = setup_test_env();

    let depositor = env.generate();
    let recipient = env.generate();
    let amount: i128 = 10_000_000;
    let deadline: u64 = 20000;

    let escrow_id = create_test_escrow(&mut env, &depositor, &recipient, amount, deadline);

    assert_eq!(escrow_id, 1);
    assert_eq!(env.contract.get_escrow_counter(), 1);

    let escrow = env.contract.get_escrow(escrow_id).unwrap();
    assert_eq!(escrow.depositor, depositor);
    assert_eq!(escrow.recipient, recipient);
    assert_eq!(escrow.amount, amount);
    assert_eq!(escrow.status, EscrowStatus::Active);
    assert_eq!(escrow.deadline, deadline);
    assert_eq!(escrow.token, token);
    assert_eq!(escrow.created_at, LEDGER_SEQUENCE);
    assert_eq!(escrow.escrow_id, escrow_id);

    // Check user escrows
    let user_escrows = env.contract.get_user_escrows(&depositor);
    assert_eq!(user_escrows.len(), 1);
    assert_eq!(user_escrows[0], 1);

    // The funds are locked under the service's account
    assert_eq!(env.ledger.balance(&depositor), 0);
    assert_eq!(env.ledger.balance(&Address::new(1)), amount);
}

#[test]
fn test_create_multiple_escrows() {
    let (mut env, _admin, _token) = setup_test_env();

    let depositor = env.generate();
    let recipient1 = env.generate();
    let recipient2 = env.generate();

    let escrow_id1 = create_test_escrow(&mut env, &depositor, &recipient1, 10_000_000, 20000);
    let escrow_id2 = create_test_escrow(&mut env, &depositor, &recipient2, 20_000_000, 25000);

    assert_eq!(escrow_id1, 1);
    assert_eq!(escrow_id2, 2);
    assert_eq!(env.contract.get_escrow_counter(), 2);

    let user_escrows = env.contract.get_user_escrows(&depositor);
    assert_eq!(user_escrows.len(), 2);
    assert_eq!(user_escrows, vec![1, 2]);
}

#[test]
fn test_create_escrow_invalid_amount() {
    let (mut env, _admin, _token) = setup_test_env();

    let depositor = env.generate();
    let recipient = env.generate();

    // Refused due to invalid amount
    let refused = env.contract.create_escrow(
        &mut env.ledger,
        &depositor,
        &recipient,
        0,
        20000,
        LEDGER_SEQUENCE,
    );
    assert_eq!(refused, Err(EscrowError::InvalidAmount));
    assert_eq!(env.contract.get_escrow_counter(), 0);
    assert!(env.contract.get_escrow(1).is_none());
}

// ============================================
// Single Escrow Reversal Tests
// ============================================

#[test]
fn test_batch_reverse_single_escrow() {
    let (mut env, admin, _token) = setup_test_env();

    let depositor = env.generate();
    let recipient = env.generate();
    let amount: i128 = 10_000_000;

    let escrow_id = create_test_escrow(&mut env, &depositor, &recipient, amount, 20000);

    // Create reversal request
    let mut requests: Vec<ReversalRequest> = Vec::new();
    requests.push(create_reversal_request(escrow_id));

    // Execute batch reversal
    let result = batch_reverse(&mut env, &admin, &requests).unwrap();

    assert_eq!(result.total_requests, 1);
    assert_eq!(result.successful, 1);
    assert_eq!(result.failed, 0);
    assert_eq!(result.total_reversed, amount);

    // Check escrow status is now Reversed
    let escrow = env.contract.get_escrow(escrow_id).unwrap();
    assert_eq!(escrow.status, EscrowStatus::Reversed);

    // Check result details
    match result.results[0] {
        ReversalResult::Success(id, dep, amt) => {
            assert_eq!(id, escrow_id);
            assert_eq!(dep, depositor);
            assert_eq!(amt, amount);
        }
        _ => panic!("Expected success"),
    }

    // The depositor has the funds back
    assert_eq!(env.ledger.balance(&depositor), amount);
    assert_eq!(env.ledger.balance(&recipient), 0);
}

// ============================================
// Batch Reversal Tests
// ============================================

#[test]
fn test_batch_reverse_multiple_escrows() {
    let (mut env, admin, _token) = setup_test_env();

    let depositor1 = env.generate();
    let depositor2 = env.generate();
    let depositor3 = env.generate();
    let recipient = env.generate();

    let escrow_id1 = create_test_escrow(&mut env, &depositor1, &recipient, 10_000_000, 20000);
    let escrow_id2 = create_test_escrow(&mut env, &depositor2, &recipient, 20_000_000, 20000);
    let escrow_id3 = create_test_escrow(&mut env, &depositor3, &recipient, 30_000_000, 20000);

    // Create reversal requests
    let mut requests: Vec<ReversalRequest> = Vec::new();
    requests.push(create_reversal_request(escrow_id1));
    requests.push(create_reversal_request(escrow_id2));
    requests.push(create_reversal_request(escrow_id3));

    // Execute batch reversal
    let result = batch_reverse(&mut env, &admin, &requests).unwrap();

    assert_eq!(result.total_requests, 3);
    assert_eq!(result.successful, 3);
    assert_eq!(result.failed, 0);
    assert_eq!(result.total_reversed, 60_000_000);

    // Verify all escrows are reversed
    assert_eq!(env.contract.get_escrow(escrow_id1).unwrap().status, EscrowStatus::Reversed);
    assert_eq!(env.contract.get_escrow(escrow_id2).unwrap().status, EscrowStatus::Reversed);
    assert_eq!(env.contract.get_escrow(escrow_id3).unwrap().status, EscrowStatus::Reversed);
}

#[test]
fn test_batch_reverse_large_batch() {
    let (mut env, admin, _token) = setup_test_env();

    let recipient = env.generate();
    let mut escrow_ids: Vec<u64> = Vec::new();

    // Create 50 escrows
    for _i in 0..50 {
        let depositor = env.generate();
        let escrow_id = create_test_escrow(&mut env, &depositor, &recipient, 1_000_000, 20000);
        escrow_ids.push(escrow_id);
    }

    // Create reversal requests for all
    let mut requests: Vec<ReversalRequest> = Vec::new();
    for id in escrow_ids.iter() {
        requests.push(create_reversal_request(*id));
    }

    // Execute batch reversal
    let result = batch_reverse(&mut env, &admin, &requests).unwrap();

    assert_eq!(result.total_requests, 50);
    assert_eq!(result.successful, 50);
    assert_eq!(result.failed, 0);
    assert_eq!(result.total_reversed, 50_000_000);
}

// ============================================
// Failure Cases Tests
// ============================================

#[test]
fn test_batch_reverse_nonexistent_escrow() {
    let (mut env, admin, _token) = setup_test_env();

    // Try to reverse non-existent escrow
    let mut requests: Vec<ReversalRequest> = Vec::new();
    requests.push(create_reversal_request(999)); // Does not exist

    let result = batch_reverse(&mut env, &admin, &requests).unwrap();

    assert_eq!(result.total_requests, 1);
    assert_eq!(result.successful, 0);
    assert_eq!(result.failed, 1);
    assert_eq!(result.total_reversed, 0);

    // Check failure details
    match result.results[0] {
        ReversalResult::Failure(id, error_code) => {
            assert_eq!(id, 999);
            assert_eq!(error_code, 0); // ESCROW_NOT_FOUND
        }
        _ => panic!("Expected failure"),
    }
}

#[test]
fn test_batch_reverse_already_released_escrow() {
    let (mut env, admin, _token) = setup_test_env();

    let depositor = env.generate();
    let recipient = env.generate();

    let escrow_id = create_test_escrow(&mut env, &depositor, &recipient, 10_000_000, 20000);

    // Release the escrow first
    env.contract.release_escrow(&mut env.ledger, &admin, escrow_id).unwrap();

    // Try to reverse already released escrow
    let mut requests: Vec<ReversalRequest> = Vec::new();
    requests.push(create_reversal_request(escrow_id));

    let result = batch_reverse(&mut env, &admin, &requests).unwrap();

    assert_eq!(result.total_requests, 1);
    assert_eq!(result.successful, 0);
    assert_eq!(result.failed, 1);

    // Check failure details
    match result.results[0] {
        ReversalResult::Failure(id, error_code) => {
            assert_eq!(id, escrow_id);
            assert_eq!(error_code, 1); // ALREADY_RELEASED
        }
        _ => panic!("Expected failure"),
    }
}

#[test]
fn test_batch_reverse_already_reversed_escrow() {
    let (mut env, admin, _token) = setup_test_env();

    let depositor = env.generate();
    let recipient = env.generate();

    let escrow_id = create_test_escrow(&mut env, &depositor, &recipient, 10_000_000, 20000);

    // Reverse the escrow first
    let mut requests: Vec<ReversalRequest> = Vec::new();
    requests.push(create_reversal_request(escrow_id));
    batch_reverse(&mut env, &admin, &requests).unwrap();

    // Try to reverse again
    let result = batch_reverse(&mut env, &admin, &requests).unwrap();

    assert_eq!(result.total_requests, 1);
    assert_eq!(result.successful, 0);
    assert_eq!(result.failed, 1);

    // Check failure details
    match result.results[0] {
        ReversalResult::Failure(id, error_code) => {
            assert_eq!(id, escrow_id);
            assert_eq!(error_code, 2); // ALREADY_REVERSED
        }
        _ => panic!("Expected failure"),
    }

    // The depositor was paid once
    assert_eq!(env.ledger.balance(&depositor), 10_000_000);
}

// ============================================
// Partial Failure Tests
// ============================================

#[test]
fn test_batch_reverse_partial_failures_mixed() {
    let (mut env, admin, _token) = setup_test_env();

    let depositor1 = env.generate();
    let depositor2 = env.generate();
    let recipient = env.generate();

    // Create two valid escrows
    let escrow_id1 = create_test_escrow(&mut env, &depositor1, &recipient, 10_000_000, 20000);
    let escrow_id2 = create_test_escrow(&mut env, &depositor2, &recipient, 20_000_000, 20000);

    // Release one of them
    env.contract.release_escrow(&mut env.ledger, &admin, escrow_id2).unwrap();

    // Try to reverse: valid active, invalid released, non-existent
    let mut requests: Vec<ReversalRequest> = Vec::new();
    requests.push(create_reversal_request(escrow_id1)); // Active - should succeed
    requests.push(create_reversal_request(escrow_id2)); // Released - should fail
    requests.push(create_reversal_request(999)); // Non-existent - should fail

    let result = batch_reverse(&mut env, &admin, &requests).unwrap();

    assert_eq!(result.total_requests, 3);
    assert_eq!(result.successful, 1);
    assert_eq!(result.failed, 2);
    assert_eq!(result.total_reversed, 10_000_000);

    // Verify results
    match result.results[0] {
        ReversalResult::Success(id, _, amt) => {
            assert_eq!(id, escrow_id1);
            assert_eq!(amt, 10_000_000);
        }
        _ => panic!("Expected success for first escrow"),
    }

    match result.results[1] {
        ReversalResult::Failure(id, error_code) => {
            assert_eq!(id, escrow_id2);
            assert_eq!(error_code, 1); // ALREADY_RELEASED
        }
        _ => panic!("Expected failure for released escrow"),
    }

    match result.results[2] {
        ReversalResult::Failure(id, error_code) => {
            assert_eq!(id, 999);
            assert_eq!(error_code, 0); // ESCROW_NOT_FOUND
        }
        _ => panic!("Expected failure for non-existent escrow"),
    }
}

#[test]
fn test_batch_reverse_some_active_some_reversed() {
    let (mut env, admin, _token) = setup_test_env();

    let depositor1 = env.generate();
    let depositor2 = env.generate();
    let depositor3 = env.generate();
    let depositor4 = env.generate();
    let recipient = env.generate();

    let escrow_id1 = create_test_escrow(&mut env, &depositor1, &recipient, 10_000_000, 20000);
    let escrow_id2 = create_test_escrow(&mut env, &depositor2, &recipient, 20_000_000, 20000);
    let escrow_id3 = create_test_escrow(&mut env, &depositor3, &recipient, 30_000_000, 20000);
    let escrow_id4 = create_test_escrow(&mut env, &depositor4, &recipient, 40_000_000, 20000);

    // Reverse escrow 2 and 4 first
    let mut first_batch: Vec<ReversalRequest> = Vec::new();
    first_batch.push(create_reversal_request(escrow_id2));
    first_batch.push(create_reversal_request(escrow_id4));
    batch_reverse(&mut env, &admin, &first_batch).unwrap();

    // Now try to reverse all four
    let mut requests: Vec<ReversalRequest> = Vec::new();
    requests.push(create_reversal_request(escrow_id1)); // Active
    requests.push(create_reversal_request(escrow_id2)); // Already reversed
    requests.push(create_reversal_request(escrow_id3)); // Active
    requests.push(create_reversal_request(escrow_id4)); // Already reversed

    let result = batch_reverse(&mut env, &admin, &requests).unwrap();

    assert_eq!(result.total_requests, 4);
    assert_eq!(result.successful, 2);
    assert_eq!(result.failed, 2);
    assert_eq!(result.total_reversed, 40_000_000); // 10 + 30 million
}

// ============================================
// Validation Tests
// ============================================

#[test]
fn test_batch_reverse_empty_batch() {
    let (mut env, admin, _token) = setup_test_env();

    let requests: Vec<ReversalRequest> = Vec::new();
    assert_eq!(
        batch_reverse(&mut env, &admin, &requests),
        Err(EscrowError::EmptyBatch)
    );
    assert_eq!(env.contract.get_total_reversal_batches(), 0);
}

#[test]
fn test_batch_reverse_unauthorized() {
    let (mut env, _admin, _token) = setup_test_env();

    let depositor = env.generate();
    let recipient = env.generate();
    let unauthorized = env.generate();

    let escrow_id = create_test_escrow(&mut env, &depositor, &recipient, 10_000_000, 20000);

    let mut requests: Vec<ReversalRequest> = Vec::new();
    requests.push(create_reversal_request(escrow_id));

    // Refused due to unauthorized caller
    assert_eq!(
        batch_reverse(&mut env, &unauthorized, &requests),
        Err(EscrowError::Unauthorized)
    );
    assert_eq!(env.contract.get_escrow(escrow_id).unwrap().status, EscrowStatus::Active);
    assert_eq!(env.ledger.balance(&depositor), 0);
}

// ============================================
// Event Emission Tests
// ============================================

#[test]
fn test_batch_reverse_events_emitted() {
    let (mut env, admin, _token) = setup_test_env();

    let depositor = env.generate();
    let recipient = env.generate();

    let escrow_id1 = create_test_escrow(&mut env, &depositor, &recipient, 10_000_000, 20000);

    // Create another depositor for second escrow
    let depositor2 = env.generate();
    let escrow_id2 = create_test_escrow(&mut env, &depositor2, &recipient, 20_000_000, 20000);

    let mut requests: Vec<ReversalRequest> = Vec::new();
    requests.push(create_reversal_request(escrow_id1));
    requests.push(create_reversal_request(999)); // Non-existent - will fail
    requests.push(create_reversal_request(escrow_id2));

    batch_reverse(&mut env, &admin, &requests).unwrap();

    let events = env.contract.event_log();
    // Should have: escrow_created (2), batch_reversal_started, reversal_success (2),
    // reversal_failure (1), batch_reversal_completed
    assert!(events.len() >= 6);
    assert_eq!(
        events.clone(),
        vec![
            EscrowEvent::Created {
                escrow_id: 1,
                depositor,
                recipient,
                amount: 10_000_000
            },
            EscrowEvent::Created {
                escrow_id: 2,
                depositor: depositor2,
                recipient,
                amount: 20_000_000
            },
            EscrowEvent::ReversalStarted {
                batch_id: 1,
                request_count: 3
            },
            EscrowEvent::ReversalSuccess {
                batch_id: 1,
                escrow_id: 1,
                depositor,
                amount: 10_000_000
            },
            EscrowEvent::ReversalFailure {
                batch_id: 1,
                escrow_id: 999,
                error_code: 0
            },
            EscrowEvent::ReversalSuccess {
                batch_id: 1,
                escrow_id: 2,
                depositor: depositor2,
                amount: 20_000_000
            },
            EscrowEvent::ReversalCompleted {
                batch_id: 1,
                successful: 2,
                failed: 1,
                total_reversed: 30_000_000
            },
        ]
    );
}

// ============================================
// State Tracking Tests
// ============================================

#[test]
fn test_batch_reverse_accumulates_stats() {
    let (mut env, admin, _token) = setup_test_env();

    let recipient = env.generate();

    assert_eq!(env.contract.get_total_reversal_batches(), 0);
    assert_eq!(env.contract.get_total_escrows_reversed(), 0);
    assert_eq!(env.contract.get_total_amount_reversed(), 0);

    // First batch: create and reverse 2 escrows
    let depositor1 = env.generate();
    let depositor2 = env.generate();
    let escrow_id1 = create_test_escrow(&mut env, &depositor1, &recipient, 10_000_000, 20000);
    let escrow_id2 = create_test_escrow(&mut env, &depositor2, &recipient, 20_000_000, 20000);

    let mut batch1: Vec<ReversalRequest> = Vec::new();
    batch1.push(create_reversal_request(escrow_id1));
    batch1.push(create_reversal_request(escrow_id2));
    batch_reverse(&mut env, &admin, &batch1).unwrap();

    assert_eq!(env.contract.get_total_reversal_batches(), 1);
    assert_eq!(env.contract.get_total_escrows_reversed(), 2);
    assert_eq!(env.contract.get_total_amount_reversed(), 30_000_000);

    // Second batch: create and reverse 1 escrow
    let depositor3 = env.generate();
    let escrow_id3 = create_test_escrow(&mut env, &depositor3, &recipient, 15_000_000, 20000);

    let mut batch2: Vec<ReversalRequest> = Vec::new();
    batch2.push(create_reversal_request(escrow_id3));
    batch_reverse(&mut env, &admin, &batch2).unwrap();

    assert_eq!(env.contract.get_total_reversal_batches(), 2);
    assert_eq!(env.contract.get_total_escrows_reversed(), 3);
    assert_eq!(env.contract.get_total_amount_reversed(), 45_000_000);
}

#[test]
fn test_batch_id_increments() {
    let (mut env, admin, _token) = setup_test_env();

    let recipient = env.generate();

    // First batch
    let depositor1 = env.generate();
    let escrow_id1 = create_test_escrow(&mut env, &depositor1, &recipient, 10_000_000, 20000);
    let mut batch1: Vec<ReversalRequest> = Vec::new();
    batch1.push(create_reversal_request(escrow_id1));
    let result1 = batch_reverse(&mut env, &admin, &batch1).unwrap();
    assert_eq!(result1.batch_id, 1);

    // Second batch
    let depositor2 = env.generate();
    let escrow_id2 = create_test_escrow(&mut env, &depositor2, &recipient, 20_000_000, 20000);
    let mut batch2: Vec<ReversalRequest> = Vec::new();
    batch2.push(create_reversal_request(escrow_id2));
    let result2 = batch_reverse(&mut env, &admin, &batch2).unwrap();
    assert_eq!(result2.batch_id, 2);

    // Third batch
    let depositor3 = env.generate();
    let escrow_id3 = create_test_escrow(&mut env, &depositor3, &recipient, 30_000_000, 20000);
    let mut batch3: Vec<ReversalRequest> = Vec::new();
    batch3.push(create_reversal_request(escrow_id3));
    let result3 = batch_reverse(&mut env, &admin, &batch3).unwrap();
    assert_eq!(result3.batch_id, 3);
}

// ============================================
// Release Escrow Tests
// ============================================

#[test]
fn test_release_escrow() {
    let (mut env, admin, _token) = setup_test_env();

    let depositor = env.generate();
    let recipient = env.generate();

    let escrow_id = create_test_escrow(&mut env, &depositor, &recipient, 10_000_000, 20000);

    // Release the escrow
    env.contract.release_escrow(&mut env.ledger, &admin, escrow_id).unwrap();

    // Check escrow status
    let escrow = env.contract.get_escrow(escrow_id).unwrap();
    assert_eq!(escrow.status, EscrowStatus::Released);

    // The recipient has the funds
    assert_eq!(env.ledger.balance(&recipient), 10_000_000);
    assert_eq!(env.ledger.balance(&depositor), 0);
}

#[test]
fn test_release_escrow_already_reversed() {
    let (mut env, admin, _token) = setup_test_env();

    let depositor = env.generate();
    let recipient = env.generate();

    let escrow_id = create_test_escrow(&mut env, &depositor, &recipient, 10_000_000, 20000);

    // Reverse the escrow first
    let mut requests: Vec<ReversalRequest> = Vec::new();
    requests.push(create_reversal_request(escrow_id));
    batch_reverse(&mut env, &admin, &requests).unwrap();

    // Try to release - refused
    assert_eq!(
        env.contract.release_escrow(&mut env.ledger, &admin, escrow_id),
        Err(EscrowError::EscrowNotActive)
    );
    assert_eq!(env.contract.get_escrow(escrow_id).unwrap().status, EscrowStatus::Reversed);
    assert_eq!(env.ledger.balance(&recipient), 0);
}

// ============================================
// Admin Tests
// ============================================

#[test]
fn test_test_set_admin() {
    let (mut env, admin, _token) = setup_test_env();

    let new_admin = env.generate();
    env.contract.set_admin(&admin, new_admin).unwrap();

    assert_eq!(env.contract.get_admin(), Ok(new_admin));
}

#[test]
fn test_set_admin_unauthorized() {
    let (mut env, admin, _token) = setup_test_env();

    let unauthorized = env.generate();
    let new_admin = env.generate();

    // Refused due to unauthorized caller
    assert_eq!(
        env.contract.set_admin(&unauthorized, new_admin),
        Err(EscrowError::Unauthorized)
    );
    assert_eq!(env.contract.get_admin(), Ok(admin));
}

// ============================================
// The lifecycle and the rules of a batch
// ============================================

#[test]
fn escrow_batch_reverse_over_active_released_and_absent() {
    let (mut env, admin, _token) = setup_test_env();
    let depositor1 = env.generate();
    let depositor2 = env.generate();
    let recipient = env.generate();
    let id1 = create_test_escrow(&mut env, &depositor1, &recipient, 1000, 20000);
    let id2 = create_test_escrow(&mut env, &depositor2, &recipient, 500, 20000);
    assert_eq!((id1, id2), (1, 2));
    env.contract.release_escrow(&mut env.ledger, &admin, id2).unwrap();
    let before = env.ledger.balance(&depositor1);

    let requests = vec![
        create_reversal_request(1),
        create_reversal_request(2),
        create_reversal_request(999),
    ];
    let result = batch_reverse(&mut env, &admin, &requests).unwrap();

    assert_eq!(result.successful, 1);
    assert_eq!(result.failed, 2);
    assert_eq!(
        result.results,
        vec![
            ReversalResult::Success(1, depositor1, 1000),
            ReversalResult::Failure(2, 1),
            ReversalResult::Failure(999, 0),
        ]
    );
    assert_eq!(env.contract.get_escrow(1).unwrap().status, EscrowStatus::Reversed);
    assert_eq!(env.contract.get_escrow(2).unwrap().status, EscrowStatus::Released);
    assert_eq!(env.ledger.balance(&depositor1), before + 1000);
}

#[test]
fn escrow_listed_twice_in_one_batch_is_reversed_once() {
    let (mut env, admin, _token) = setup_test_env();
    let depositor = env.generate();
    let recipient = env.generate();
    let other = env.generate();
    let id = create_test_escrow(&mut env, &depositor, &recipient, 700, 20000);
    // a second escrow keeps funds under the service's account
    create_test_escrow(&mut env, &other, &recipient, 700, 20000);

    let requests = vec![create_reversal_request(id), create_reversal_request(id)];
    let result = batch_reverse(&mut env, &admin, &requests).unwrap();

    assert_eq!(
        result.results,
        vec![
            ReversalResult::Success(id, depositor, 700),
            ReversalResult::Failure(id, 2),
        ]
    );
    assert_eq!(result.successful + result.failed, result.total_requests);
    assert_eq!(result.total_reversed, 700);
    assert_eq!(env.ledger.balance(&depositor), 700);
    assert_eq!(env.ledger.balance(&Address::new(1)), 700);
    assert_eq!(env.contract.get_total_amount_reversed(), 700);
}

#[test]
fn oversized_batch_is_rejected_before_any_item_is_touched() {
    let (mut env, admin, _token) = setup_test_env();
    let depositor = env.generate();
    let recipient = env.generate();
    let id = create_test_escrow(&mut env, &depositor, &recipient, 1000, 20000);
    let events_before = env.contract.event_log().clone();
    let ledger_before = env.ledger.snapshot();

    let requests: Vec<ReversalRequest> = (0..101).map(|_| create_reversal_request(id)).collect();
    assert_eq!(
        batch_reverse(&mut env, &admin, &requests),
        Err(EscrowError::BatchTooLarge)
    );

    assert_eq!(env.contract.get_escrow(id).unwrap().status, EscrowStatus::Active);
    assert_eq!(env.contract.get_total_reversal_batches(), 0);
    assert_eq!(env.contract.get_total_escrows_reversed(), 0);
    assert_eq!(env.contract.get_total_amount_reversed(), 0);
    assert_eq!(env.contract.event_log(), &events_before);
    assert_eq!(env.ledger, ledger_before);

    // a batch of exactly one hundred is accepted
    let requests: Vec<ReversalRequest> = (0..100).map(|_| create_reversal_request(id)).collect();
    let result = batch_reverse(&mut env, &admin, &requests).unwrap();
    assert_eq!(result.total_requests, 100);
    assert_eq!(result.successful, 1);
    assert_eq!(result.failed, 99);
}

#[test]
fn escrow_batches_count_even_when_every_item_fails() {
    let (mut env, admin, _token) = setup_test_env();
    let requests = vec![create_reversal_request(5), create_reversal_request(6)];
    let first = batch_reverse(&mut env, &admin, &requests).unwrap();
    let second = batch_reverse(&mut env, &admin, &requests).unwrap();
    assert_eq!(first.batch_id, 1);
    assert_eq!(second.batch_id, 2);
    assert_eq!(first.failed, 2);
    assert_eq!(env.contract.get_total_reversal_batches(), 2);
    assert_eq!(env.contract.get_total_escrows_reversed(), 0);
    assert_eq!(env.contract.get_total_amount_reversed(), 0);
}

#[test]
fn escrow_calls_before_initialization_are_refused() {
    let mut contract = EscrowContract::new(Address::new(1));
    let mut ledger = Ledger::new();
    let caller = Address::new(7);
    assert_eq!(contract.get_admin(), Err(EscrowError::NotInitialized));
    assert_eq!(
        contract.batch_reverse_escrows(&mut ledger, &caller, &vec![create_reversal_request(1)], 0),
        Err(EscrowError::NotInitialized)
    );
    assert_eq!(
        contract.set_admin(&caller, Address::new(8)),
        Err(EscrowError::NotInitialized)
    );
    ledger.mint(&caller, 10).unwrap();
    assert_eq!(
        contract.create_escrow(&mut ledger, &caller, &Address::new(8), 10, 5, 0),
        Err(EscrowError::NotInitialized)
    );
    assert_eq!(
        contract.release_escrow(&mut ledger, &caller, 1),
        Err(EscrowError::NotInitialized)
    );
    assert_eq!(
        contract.reverse_escrow(&mut ledger, &caller, 1, 0),
        Err(EscrowError::NotInitialized)
    );
    assert_eq!(ledger.balance(&caller), 10);
}

#[test]
fn escrow_creation_needs_the_funds() {
    let (mut env, _admin, _token) = setup_test_env();
    let depositor = env.generate();
    let recipient = env.generate();
    env.ledger.mint(&depositor, 99).unwrap();
    assert_eq!(
        env.contract.create_escrow(&mut env.ledger, &depositor, &recipient, 100, 5, 0),
        Err(EscrowError::TransferFailed)
    );
    assert_eq!(env.ledger.balance(&depositor), 99);
    assert_eq!(env.contract.get_escrow_counter(), 0);
    assert!(env.contract.event_log().is_empty());
}

#[test]
fn single_reversal_by_depositor_waits_for_the_deadline() {
    let (mut env, admin, _token) = setup_test_env();
    let depositor = env.generate();
    let recipient = env.generate();
    let stranger = env.generate();
    let id = create_test_escrow(&mut env, &depositor, &recipient, 400, 20000);

    assert_eq!(
        env.contract.reverse_escrow(&mut env.ledger, &stranger, id, 30000),
        Err(EscrowError::Unauthorized)
    );
    assert_eq!(
        env.contract.reverse_escrow(&mut env.ledger, &depositor, id, 19999),
        Err(EscrowError::DeadlineNotReached)
    );
    assert_eq!(
        env.contract.reverse_escrow(&mut env.ledger, &depositor, 77, 30000),
        Err(EscrowError::EscrowNotFound)
    );
    assert_eq!(env.contract.get_escrow(id).unwrap().status, EscrowStatus::Active);
    assert_eq!(env.ledger.balance(&depositor), 0);

    assert_eq!(env.contract.reverse_escrow(&mut env.ledger, &depositor, id, 20000), Ok(400));
    assert_eq!(env.contract.get_escrow(id).unwrap().status, EscrowStatus::Reversed);
    assert_eq!(env.ledger.balance(&depositor), 400);

    // a second attempt, by anyone, changes nothing
    assert_eq!(
        env.contract.reverse_escrow(&mut env.ledger, &admin, id, 20000),
        Err(EscrowError::EscrowNotActive)
    );
    assert_eq!(env.ledger.balance(&depositor), 400);

    // the administrator need not wait
    let id2 = create_test_escrow(&mut env, &depositor, &recipient, 50, 90000);
    assert_eq!(env.contract.reverse_escrow(&mut env.ledger, &admin, id2, 1), Ok(50));
}

#[test]
fn release_by_stranger_is_refused_without_any_change() {
    let (mut env, _admin, _token) = setup_test_env();
    let depositor = env.generate();
    let recipient = env.generate();
    let id = create_test_escrow(&mut env, &depositor, &recipient, 400, 20000);
    let events_before = env.contract.event_log().len();

    assert_eq!(
        env.contract.release_escrow(&mut env.ledger, &recipient, id),
        Err(EscrowError::Unauthorized)
    );
    assert_eq!(
        env.contract.release_escrow(&mut env.ledger, &depositor, 55),
        Err(EscrowError::EscrowNotFound)
    );
    assert_eq!(env.contract.get_escrow(id).unwrap().status, EscrowStatus::Active);
    assert_eq!(env.ledger.balance(&recipient), 0);
    assert_eq!(env.contract.event_log().len(), events_before);

    // the depositor may release
    assert_eq!(env.contract.release_escrow(&mut env.ledger, &depositor, id), Ok(()));
    assert_eq!(env.ledger.balance(&recipient), 400);
    assert_eq!(
        env.contract.event_log().last(),
        Some(&EscrowEvent::Released {
            escrow_id: id,
            recipient,
            amount: 400
        })
    );
}

#[test]
fn reversal_fails_the_item_when_the_ledger_refuses_the_payment() {
    let (mut env, admin, _token) = setup_test_env();
    let depositor = env.generate();
    let recipient = env.generate();
    let id = create_test_escrow(&mut env, &depositor, &recipient, 400, 20000);
    // settle against a ledger on which the service holds nothing
    let mut empty = Ledger::new();
    let result = env
        .contract
        .batch_reverse_escrows(&mut empty, &admin, &vec![create_reversal_request(id)], 0)
        .unwrap();
    assert_eq!(result.results, vec![ReversalResult::Failure(id, 5)]);
    assert_eq!(result.failed, 1);
    assert_eq!(result.total_reversed, 0);
    assert_eq!(env.contract.get_escrow(id).unwrap().status, EscrowStatus::Active);
    assert_eq!(env.contract.get_total_reversal_batches(), 1);
}

#[test]
fn escrow_error_codes_do_not_change() {
    assert_eq!(EscrowError::NotInitialized.code(), 1);
    assert_eq!(EscrowError::Unauthorized.code(), 2);
    assert_eq!(EscrowError::EmptyBatch.code(), 3);
    assert_eq!(EscrowError::BatchTooLarge.code(), 4);
    assert_eq!(EscrowError::InvalidAmount.code(), 5);
    assert_eq!(EscrowError::EscrowNotFound.code(), 6);
    assert_eq!(EscrowError::AlreadyInitialized.code(), 7);
}

// ============================================
// Reversals whose payments are attempted outside the service
// ============================================

#[test]
fn payment_due_names_the_depositor_and_the_amount() {
    let (mut env, admin, _token) = setup_test_env();
    let depositor = env.generate();
    let recipient = env.generate();
    let stranger = env.generate();
    let id = create_test_escrow(&mut env, &depositor, &recipient, 1000, LEDGER_SEQUENCE + 10);

    assert_eq!(env.contract.payment_due(&admin, id, false, LEDGER_SEQUENCE), Some((depositor, 1000)));
    assert_eq!(env.contract.payment_due(&admin, id, true, LEDGER_SEQUENCE), Some((depositor, 1000)));
    assert_eq!(env.contract.payment_due(&depositor, id, true, LEDGER_SEQUENCE), None);
    assert_eq!(
        env.contract.payment_due(&depositor, id, true, LEDGER_SEQUENCE + 10),
        Some((depositor, 1000))
    );
    assert_eq!(env.contract.payment_due(&stranger, id, false, LEDGER_SEQUENCE), None);
    assert_eq!(env.contract.payment_due(&admin, 999, false, LEDGER_SEQUENCE), None);
    let fresh = EscrowContract::new(Address::new(1));
    assert_eq!(fresh.payment_due(&admin, id, false, LEDGER_SEQUENCE), None);
}

#[test]
fn settled_reversal_follows_the_verdict_and_the_payment() {
    let (mut env, admin, _token) = setup_test_env();
    let depositor = env.generate();
    let recipient = env.generate();
    let stranger = env.generate();
    let id = create_test_escrow(&mut env, &depositor, &recipient, 1000, LEDGER_SEQUENCE + 10);

    // a payment that the token refused fails the reversal and keeps the escrow active
    assert_eq!(
        env.contract.settle_reversal(&admin, id, false, LEDGER_SEQUENCE, false),
        Ok(ReversalResult::Failure(id, 5))
    );
    assert_eq!(env.contract.get_escrow(id).unwrap().status, EscrowStatus::Active);

    // a refused reversal fails with the code of the verdict, whatever the payment
    assert_eq!(
        env.contract.settle_reversal(&stranger, id, false, LEDGER_SEQUENCE, true),
        Ok(ReversalResult::Failure(id, 3))
    );
    assert_eq!(
        env.contract.settle_reversal(&depositor, id, true, LEDGER_SEQUENCE, true),
        Ok(ReversalResult::Failure(id, 4))
    );
    assert_eq!(
        env.contract.settle_reversal(&admin, 999, false, LEDGER_SEQUENCE, true),
        Ok(ReversalResult::Failure(999, 0))
    );
    assert_eq!(env.contract.get_escrow(id).unwrap().status, EscrowStatus::Active);

    // a payment that was made reverses the escrow, once
    assert_eq!(
        env.contract.settle_reversal(&admin, id, false, LEDGER_SEQUENCE, true),
        Ok(ReversalResult::Success(id, depositor, 1000))
    );
    assert_eq!(env.contract.get_escrow(id).unwrap().status, EscrowStatus::Reversed);
    assert_eq!(env.contract.payment_due(&admin, id, false, LEDGER_SEQUENCE), None);
    assert_eq!(
        env.contract.settle_reversal(&admin, id, false, LEDGER_SEQUENCE, true),
        Ok(ReversalResult::Failure(id, 2))
    );

    // settling touches neither the counters nor the audit log
    assert_eq!(env.contract.get_total_reversal_batches(), 0);
    assert_eq!(env.contract.get_total_escrows_reversed(), 0);
    assert_eq!(env.contract.get_total_amount_reversed(), 0);
    assert_eq!(env.contract.event_log().len(), 1);

    let mut fresh = EscrowContract::new(Address::new(1));
    assert_eq!(
        fresh.settle_reversal(&admin, id, false, LEDGER_SEQUENCE, true),
        Err(EscrowError::NotInitialized)
    );
}

#[test]
fn settled_reversals_are_recorded_as_one_batch() {
    let (mut env, admin, _token) = setup_test_env();
    let depositor = env.generate();
    let recipient = env.generate();
    let first = create_test_escrow(&mut env, &depositor, &recipient, 1000, LEDGER_SEQUENCE + 10);
    let second = create_test_escrow(&mut env, &depositor, &recipient, 400, LEDGER_SEQUENCE + 10);
    let logged = env.contract.event_log().len();

    assert_eq!(env.contract.check_reversal_batch(&admin, 3), Ok(()));
    let mut settled = Vec::new();
    for (id, paid) in [(first, true), (second, false), (first, true)] {
        let due = env.contract.payment_due(&admin, id, false, LEDGER_SEQUENCE);
        let result = env
            .contract
            .settle_reversal(&admin, id, false, LEDGER_SEQUENCE, due.is_some() && paid)
            .unwrap();
        settled.push(result);
    }
    let batch = env.contract.record_reversal_batch(&admin, settled).unwrap();
    assert_eq!(batch.batch_id, 1);
    assert_eq!(batch.total_requests, 3);
    assert_eq!(batch.successful, 1);
    assert_eq!(batch.failed, 2);
    assert_eq!(batch.total_reversed, 1000);
    assert_eq!(
        batch.results,
        vec![
            ReversalResult::Success(first, depositor, 1000),
            ReversalResult::Failure(second, 5),
            ReversalResult::Failure(first, 2),
        ]
    );
    assert_eq!(env.contract.get_escrow(first).unwrap().status, EscrowStatus::Reversed);
    assert_eq!(env.contract.get_escrow(second).unwrap().status, EscrowStatus::Active);
    assert_eq!(env.contract.get_total_reversal_batches(), 1);
    assert_eq!(env.contract.get_total_escrows_reversed(), 1);
    assert_eq!(env.contract.get_total_amount_reversed(), 1000);
    assert_eq!(
        &env.contract.event_log()[logged..],
        &[
            EscrowEvent::ReversalStarted { batch_id: 1, request_count: 3 },
            EscrowEvent::ReversalSuccess { batch_id: 1, escrow_id: first, depositor, amount: 1000 },
            EscrowEvent::ReversalFailure { batch_id: 1, escrow_id: second, error_code: 5 },
            EscrowEvent::ReversalFailure { batch_id: 1, escrow_id: first, error_code: 2 },
            EscrowEvent::ReversalCompleted {
                batch_id: 1,
                successful: 1,
                failed: 2,
                total_reversed: 1000,
            },
        ]
    );
}

#[test]
fn recording_aborts_as_a_batch_does() {
    let (mut env, admin, _token) = setup_test_env();
    let stranger = env.generate();
    let depositor = env.generate();
    let one = vec![ReversalResult::Failure(1, 0)];

    assert_eq!(env.contract.check_reversal_batch(&admin, 0), Err(EscrowError::EmptyBatch));
    assert_eq!(env.contract.check_reversal_batch(&admin, 100), Ok(()));
    assert_eq!(env.contract.check_reversal_batch(&admin, 101), Err(EscrowError::BatchTooLarge));
    assert_eq!(env.contract.check_reversal_batch(&stranger, 1), Err(EscrowError::Unauthorized));

    assert_eq!(
        env.contract.record_reversal_batch(&stranger, one.clone()),
        Err(EscrowError::Unauthorized)
    );
    assert_eq!(
        env.contract.record_reversal_batch(&admin, Vec::new()),
        Err(EscrowError::EmptyBatch)
    );
    assert_eq!(
        env.contract.record_reversal_batch(&admin, vec![ReversalResult::Failure(1, 0); 101]),
        Err(EscrowError::BatchTooLarge)
    );
    assert_eq!(
        env.contract.record_reversal_batch(
            &admin,
            vec![ReversalResult::Failure(1, 0), ReversalResult::Success(2, depositor, -1)]
        ),
        Err(EscrowError::InvalidAmount)
    );
    assert_eq!(env.contract.get_total_reversal_batches(), 0);
    assert!(env.contract.event_log().is_empty());

    let mut fresh = EscrowContract::new(Address::new(1));
    assert_eq!(fresh.record_reversal_batch(&admin, one.clone()), Err(EscrowError::NotInitialized));
    let mut full = EscrowContract::restore(Address::new(1), Some(admin), None, 0, u64::MAX, 0, 0);
    assert_eq!(full.record_reversal_batch(&admin, one.clone()), Err(EscrowError::CounterOverflow));

    // a batch in which everything failed is counted all the same
    let batch = env.contract.record_reversal_batch(&admin, one).unwrap();
    assert_eq!((batch.batch_id, batch.successful, batch.failed, batch.total_reversed), (1, 0, 1, 0));
    assert_eq!(env.contract.get_total_reversal_batches(), 1);
}
