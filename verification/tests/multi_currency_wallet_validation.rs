use batch_ledger::address::Address;
use batch_ledger::multi_currency_wallet::error_code;
use batch_ledger::multi_currency_wallet::types::{BalanceUpdateRequest, MAX_BALANCE, MIN_BALANCE};
use batch_ledger::multi_currency_wallet::validation::{
    compute_new_balance, is_valid_amount, is_valid_operation, validate_and_compute_balance,
    validate_balance_request,
};

fn create_valid_request() -> BalanceUpdateRequest {
    BalanceUpdateRequest {
        user: Address::new(21),
        currency: String::from("USDC"),
        amount: 1000_000_000, // 1000 USDC
        operation: String::from("set"),
    }
}

#[test]
fn test_valid_balance_request() {
    let request = create_valid_request();
    assert!(validate_balance_request(&request).is_ok());
}

#[test]
fn test_invalid_amount_zero() {
    let mut request = create_valid_request();
    request.amount = 0;
    assert_eq!(
        validate_balance_request(&request),
        Err(error_code::INVALID_AMOUNT)
    );
}

#[test]
fn validation_test_invalid_amount_negative() {
    let mut request = create_valid_request();
    request.amount = -1000;
    assert_eq!(
        validate_balance_request(&request),
        Err(error_code::INVALID_AMOUNT)
    );
}

#[test]
fn test_is_valid_amount() {
    assert!(is_valid_amount(MIN_BALANCE));
    assert!(is_valid_amount(MAX_BALANCE));
    assert!(is_valid_amount(1000_000_000));
    assert!(!is_valid_amount(MIN_BALANCE - 1));
    assert!(!is_valid_amount(0));
    assert!(!is_valid_amount(-1000));
}

#[test]
fn test_valid_operations() {
    let set_op = String::from("set");
    let add_op = String::from("add");
    let subtract_op = String::from("subtract");

    assert!(is_valid_operation(&set_op));
    assert!(is_valid_operation(&add_op));
    assert!(is_valid_operation(&subtract_op));
}

#[test]
fn wallet_operations_compute_the_new_balance() {
    let set = String::from("set");
    let add = String::from("add");
    let subtract = String::from("subtract");
    let other = String::from("Set");
    assert_eq!(compute_new_balance(10, &set, 3), Ok(3));
    assert_eq!(compute_new_balance(10, &add, 3), Ok(13));
    assert_eq!(compute_new_balance(10, &subtract, 3), Ok(7));
    assert_eq!(compute_new_balance(10, &subtract, 13), Ok(-3));
    assert_eq!(compute_new_balance(10, &other, 3), Err(error_code::INVALID_OPERATION));
    assert_eq!(compute_new_balance(10, &String::new(), 3), Err(3));
    assert_eq!(
        compute_new_balance(i128::MAX, &add, 1),
        Err(error_code::ARITHMETIC_OVERFLOW)
    );
    assert_eq!(compute_new_balance(i128::MIN, &subtract, 1), Err(5));
    assert_eq!(compute_new_balance(i128::MAX - 1, &add, 1), Ok(i128::MAX));

    assert_eq!(validate_and_compute_balance(10, &subtract, 10), Ok(0));
    assert_eq!(
        validate_and_compute_balance(10, &subtract, 11),
        Err(error_code::INSUFFICIENT_BALANCE)
    );
    assert_eq!(validate_and_compute_balance(10, &set, -4), Err(4));
    assert_eq!(validate_and_compute_balance(0, &add, 9), Ok(9));
    assert_eq!(validate_and_compute_balance(0, &other, 9), Err(3));
}

#[test]
fn wallet_bounds_and_codes() {
    assert_eq!(MIN_BALANCE, 1);
    assert_eq!(MAX_BALANCE, i128::MAX);
    assert_eq!(error_code::INVALID_AMOUNT, 0);
    assert_eq!(error_code::INVALID_USER_ADDRESS, 1);
    assert_eq!(error_code::INVALID_CURRENCY, 2);
    assert_eq!(error_code::INVALID_OPERATION, 3);
    assert_eq!(error_code::INSUFFICIENT_BALANCE, 4);
    assert_eq!(error_code::ARITHMETIC_OVERFLOW, 5);
}
