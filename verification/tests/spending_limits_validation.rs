use batch_ledger::address::Address;
use batch_ledger::spending_limits::error_code;
use batch_ledger::spending_limits::types::{
    SpendingLimitRequest, MAX_SPENDING_LIMIT, MIN_SPENDING_LIMIT,
};
use batch_ledger::spending_limits::validation::{is_valid_limit, validate_limit_request};

fn create_valid_request() -> SpendingLimitRequest {
    SpendingLimitRequest {
        user: Address::new(11),
        monthly_limit: 100_000_000_000, // 10,000 XLM
        category: Some(String::from("general")),
    }
}

#[test]
fn test_valid_limit_request() {
    let request = create_valid_request();
    assert!(validate_limit_request(&request).is_ok());
}

#[test]
fn test_invalid_limit_too_low() {
    let mut request = create_valid_request();
    request.monthly_limit = 100; // Below minimum
    assert_eq!(
        validate_limit_request(&request),
        Err(error_code::INVALID_LIMIT)
    );
}

#[test]
fn test_invalid_limit_negative() {
    let mut request = create_valid_request();
    request.monthly_limit = -1000;
    assert_eq!(
        validate_limit_request(&request),
        Err(error_code::INVALID_LIMIT)
    );
}

#[test]
fn test_invalid_limit_too_high() {
    let mut request = create_valid_request();
    request.monthly_limit = MAX_SPENDING_LIMIT + 1;
    assert_eq!(
        validate_limit_request(&request),
        Err(error_code::INVALID_LIMIT)
    );
}

#[test]
fn test_is_valid_limit() {
    assert!(is_valid_limit(MIN_SPENDING_LIMIT));
    assert!(is_valid_limit(MAX_SPENDING_LIMIT));
    assert!(is_valid_limit(100_000_000_000));
    assert!(!is_valid_limit(MIN_SPENDING_LIMIT - 1));
    assert!(!is_valid_limit(MAX_SPENDING_LIMIT + 1));
    assert!(!is_valid_limit(-1000));
}

#[test]
fn test_valid_request_without_category() {
    let mut request = create_valid_request();
    request.category = None;
    assert!(validate_limit_request(&request).is_ok());
}

#[test]
fn spending_limit_bounds_and_codes() {
    assert_eq!(MIN_SPENDING_LIMIT, 1_000_000);
    assert_eq!(MAX_SPENDING_LIMIT, 100_000_000_000_000_000);
    assert_eq!(error_code::INVALID_LIMIT, 0);
    assert_eq!(error_code::INVALID_USER_ADDRESS, 1);
    assert_eq!(error_code::INVALID_CATEGORY, 2);
    assert_eq!(error_code::LIMIT_ALREADY_EXISTS, 3);
}
