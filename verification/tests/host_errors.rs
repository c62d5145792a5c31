use batch_ledger::batch_rewards::contract::BatchRewardsError;
use batch_ledger::batch_wallet_creation::contract::BatchWalletError;
use batch_ledger::budget_recommendations::contract::BudgetRecommendationError;
use batch_ledger::escrow::contract::EscrowError;
use batch_ledger::multi_currency_wallet::contract::WalletError;
use batch_ledger::shared_budgets::contract::SharedBudgetError;
use batch_ledger::spending_limits::contract::SpendingLimitError;
use batch_ledger::transaction_analytics::contract::AnalyticsError;
use soroban_sdk::xdr::ScErrorType;

fn is_contract_error(error: soroban_sdk::Error, code: u32) -> bool {
    error.is_type(ScErrorType::Contract)
        && error.get_code() == code
        && error == soroban_sdk::Error::from_contract_error(code)
}

#[test]
fn escrow_errors_become_contract_errors_of_the_host() {
    let error: soroban_sdk::Error = EscrowError::Unauthorized.into();
    assert!(error.is_type(ScErrorType::Contract));
    assert_eq!(error.get_code(), 2);
    assert_eq!(error, soroban_sdk::Error::from_contract_error(2));

    let error = soroban_sdk::Error::from(EscrowError::AlreadyInitialized);
    assert!(error.is_type(ScErrorType::Contract));
    assert_eq!(error.get_code(), 7);
    assert!(is_contract_error(EscrowError::NotInitialized.into(), 1));
    assert!(is_contract_error(EscrowError::EmptyBatch.into(), 3));
    assert!(is_contract_error(EscrowError::BatchTooLarge.into(), 4));
    assert!(is_contract_error(EscrowError::InvalidAmount.into(), 5));
    assert!(is_contract_error(EscrowError::EscrowNotFound.into(), 6));
}

#[test]
fn every_service_error_becomes_a_contract_error_with_its_code() {
    assert!(is_contract_error(BatchRewardsError::InsufficientBalance.into(), 7));
    assert!(is_contract_error(BatchRewardsError::EmptyBatch.into(), 4));
    assert!(is_contract_error(BatchWalletError::BatchTooLarge.into(), 5));
    assert!(is_contract_error(BudgetRecommendationError::InvalidBatch.into(), 3));
    assert!(is_contract_error(WalletError::Unauthorized.into(), 2));
    assert!(is_contract_error(SharedBudgetError::EmptyBatch.into(), 3));
    assert!(is_contract_error(SpendingLimitError::NotInitialized.into(), 1));
    assert!(is_contract_error(AnalyticsError::EmptyRefundBatch.into(), 12));
    assert!(is_contract_error(AnalyticsError::AlreadyInitialized.into(), 14));
    // two errors with different codes are different host errors
    let one: soroban_sdk::Error = AnalyticsError::InvalidBatch.into();
    let other: soroban_sdk::Error = AnalyticsError::EmptyBatch.into();
    assert_ne!(one, other);
}
