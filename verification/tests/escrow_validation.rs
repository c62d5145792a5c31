use batch_ledger::address::Address;
use batch_ledger::escrow::error_code;
use batch_ledger::escrow::types::{Escrow, EscrowStatus};
use batch_ledger::escrow::validation::{validate_release, validate_reversal, ValidationError};

fn create_test_escrow(status: EscrowStatus) -> Escrow {
    Escrow {
        escrow_id: 1,
        depositor: Address::new(101),
        recipient: Address::new(102),
        token: Address::new(103),
        amount: 1000,
        status,
        created_at: 100,
        deadline: 200,
    }
}

#[test]
fn test_validate_reversal_active_escrow_by_admin() {
    let escrow = create_test_escrow(EscrowStatus::Active);
    let admin = Address::new(1);

    let result = validate_reversal(Some(&escrow), &admin, &admin, false, 100);
    assert!(result.is_ok());
}

#[test]
fn test_validate_reversal_active_escrow_by_depositor() {
    let mut escrow = create_test_escrow(EscrowStatus::Active);
    let depositor = Address::new(2);
    escrow.depositor = depositor;
    let admin = Address::new(1);

    let result = validate_reversal(Some(&escrow), &depositor, &admin, false, 100);
    assert!(result.is_ok());
}

#[test]
fn test_validate_reversal_escrow_not_found() {
    let caller = Address::new(2);
    let admin = Address::new(1);

    let result = validate_reversal(None, &caller, &admin, false, 100);
    assert_eq!(result, Err(ValidationError::EscrowNotFound));
}

#[test]
fn test_validate_reversal_already_released() {
    let escrow = create_test_escrow(EscrowStatus::Released);
    let admin = Address::new(1);

    let result = validate_reversal(Some(&escrow), &admin, &admin, false, 100);
    assert_eq!(result, Err(ValidationError::AlreadyReleased));
}

#[test]
fn test_validate_reversal_already_reversed() {
    let escrow = create_test_escrow(EscrowStatus::Reversed);
    let admin = Address::new(1);

    let result = validate_reversal(Some(&escrow), &admin, &admin, false, 100);
    assert_eq!(result, Err(ValidationError::AlreadyReversed));
}

#[test]
fn test_validate_reversal_unauthorized() {
    let escrow = create_test_escrow(EscrowStatus::Active);
    let admin = Address::new(1);
    let unauthorized = Address::new(3);

    let result = validate_reversal(Some(&escrow), &unauthorized, &admin, false, 100);
    assert_eq!(result, Err(ValidationError::Unauthorized));
}

#[test]
fn test_validate_reversal_deadline_not_reached() {
    let mut escrow = create_test_escrow(EscrowStatus::Active);
    escrow.deadline = 300;
    let depositor = Address::new(2);
    escrow.depositor = depositor;
    let admin = Address::new(1);

    // Depositor tries to reverse before deadline with deadline check enabled
    let result = validate_reversal(Some(&escrow), &depositor, &admin, true, 100);
    assert_eq!(result, Err(ValidationError::DeadlineNotReached));
}

#[test]
fn test_validate_reversal_admin_bypasses_deadline() {
    let mut escrow = create_test_escrow(EscrowStatus::Active);
    escrow.deadline = 300;
    let admin = Address::new(1);

    // Admin can reverse even before deadline
    let result = validate_reversal(Some(&escrow), &admin, &admin, true, 100);
    assert!(result.is_ok());
}

#[test]
fn test_validate_reversal_depositor_after_deadline() {
    let mut escrow = create_test_escrow(EscrowStatus::Active);
    escrow.deadline = 200;
    let depositor = Address::new(2);
    escrow.depositor = depositor;
    let admin = Address::new(1);

    // Depositor can reverse after deadline
    let result = validate_reversal(Some(&escrow), &depositor, &admin, true, 250);
    assert!(result.is_ok());
}

#[test]
fn test_error_code_conversion() {
    assert_eq!(ValidationError::EscrowNotFound.to_error_code(), error_code::ESCROW_NOT_FOUND);
    assert_eq!(ValidationError::AlreadyReleased.to_error_code(), error_code::ALREADY_RELEASED);
    assert_eq!(ValidationError::AlreadyReversed.to_error_code(), error_code::ALREADY_REVERSED);
    assert_eq!(ValidationError::Unauthorized.to_error_code(), error_code::UNAUTHORIZED);
    assert_eq!(
        ValidationError::DeadlineNotReached.to_error_code(),
        error_code::DEADLINE_NOT_REACHED
    );
}

#[test]
fn escrow_error_codes_are_stable_numbers() {
    assert_eq!(ValidationError::EscrowNotFound.to_error_code(), 0);
    assert_eq!(ValidationError::AlreadyReleased.to_error_code(), 1);
    assert_eq!(ValidationError::AlreadyReversed.to_error_code(), 2);
    assert_eq!(ValidationError::Unauthorized.to_error_code(), 3);
    assert_eq!(ValidationError::DeadlineNotReached.to_error_code(), 4);
    assert_eq!(error_code::TRANSFER_FAILED, 5);
}

#[test]
fn validation_reports_the_first_failing_rule() {
    let admin = Address::new(1);
    let stranger = Address::new(9);
    // a stranger on a released escrow: the final state is reported, not the caller
    let released = create_test_escrow(EscrowStatus::Released);
    assert_eq!(
        validate_reversal(Some(&released), &stranger, &admin, true, 0),
        Err(ValidationError::AlreadyReleased)
    );
    // a stranger before the deadline: the caller is reported, not the deadline
    let active = create_test_escrow(EscrowStatus::Active);
    assert_eq!(
        validate_reversal(Some(&active), &stranger, &admin, true, 0),
        Err(ValidationError::Unauthorized)
    );
    // the deadline itself is late enough
    let depositor = active.depositor;
    assert!(validate_reversal(Some(&active), &depositor, &admin, true, 200).is_ok());
    assert_eq!(
        validate_reversal(Some(&active), &depositor, &admin, true, 199),
        Err(ValidationError::DeadlineNotReached)
    );
}

#[test]
fn release_is_open_to_admin_and_depositor_only() {
    let admin = Address::new(1);
    let active = create_test_escrow(EscrowStatus::Active);
    assert!(validate_release(Some(&active), &admin, &admin).is_ok());
    assert!(validate_release(Some(&active), &active.depositor, &admin).is_ok());
    assert_eq!(
        validate_release(Some(&active), &active.recipient, &admin),
        Err(ValidationError::Unauthorized)
    );
    assert_eq!(validate_release(None, &admin, &admin), Err(ValidationError::EscrowNotFound));
    let reversed = create_test_escrow(EscrowStatus::Reversed);
    assert_eq!(
        validate_release(Some(&reversed), &admin, &admin),
        Err(ValidationError::AlreadyReversed)
    );
}
