use batch_ledger::address::Address;
use batch_ledger::batch_wallet_creation::contract::{BatchWalletContract, BatchWalletError};
use batch_ledger::batch_wallet_creation::types::{
    Wallet, WalletCreateRequest, WalletCreateResult, WalletCreationEvent,
};
use batch_ledger::batch_wallet_creation::validation::validate_address;

fn setup() -> (BatchWalletContract, Address) {
    let mut contract = BatchWalletContract::new();
    let admin = Address::new(1);
    contract.initialize(admin).unwrap();
    (contract, admin)
}

fn request(owner: u64) -> WalletCreateRequest {
    WalletCreateRequest { owner: Address::new(owner) }
}

#[test]
fn wallets_are_created_once_per_owner() {
    let (mut contract, admin) = setup();
    assert_eq!(contract.get_total_batches(), 0);
    assert_eq!(contract.get_total_wallets_created(), 0);

    let requests = vec![request(10), request(11), request(10)];
    let result = contract.batch_create_wallets(&admin, &requests, 5000).unwrap();
    assert_eq!(result.batch_id, 1);
    assert_eq!(result.total_requests, 3);
    assert_eq!(result.successful, 2);
    assert_eq!(result.failed, 1);
    assert_eq!(
        result.results,
        vec![
            WalletCreateResult::Success(Address::new(10)),
            WalletCreateResult::Success(Address::new(11)),
            WalletCreateResult::Failure(Address::new(10), 1),
        ]
    );
    assert_eq!(
        contract.get_wallet(&Address::new(10)),
        Some(Wallet { id: 1, owner: Address::new(10), created_at: 5000 })
    );
    assert_eq!(
        contract.get_wallet(&Address::new(11)),
        Some(Wallet { id: 2, owner: Address::new(11), created_at: 5000 })
    );
    assert_eq!(contract.get_wallet(&Address::new(12)), None);
    assert_eq!(contract.get_total_batches(), 1);
    assert_eq!(contract.get_total_wallets_created(), 2);

    // a later batch: the owners keep their wallets, identifiers go on
    let requests = vec![request(11), request(12)];
    let result = contract.batch_create_wallets(&admin, &requests, 6000).unwrap();
    assert_eq!(result.batch_id, 2);
    assert_eq!(
        result.results,
        vec![
            WalletCreateResult::Failure(Address::new(11), 1),
            WalletCreateResult::Success(Address::new(12)),
        ]
    );
    assert_eq!(
        contract.get_wallet(&Address::new(11)),
        Some(Wallet { id: 2, owner: Address::new(11), created_at: 5000 })
    );
    assert_eq!(
        contract.get_wallet(&Address::new(12)),
        Some(Wallet { id: 3, owner: Address::new(12), created_at: 6000 })
    );
    assert_eq!(contract.get_total_batches(), 2);
    assert_eq!(contract.get_total_wallets_created(), 3);
    assert_eq!(
        contract.event_log()[..5].to_vec(),
        vec![
            WalletCreationEvent::BatchStarted { batch_id: 1, request_count: 3 },
            WalletCreationEvent::WalletCreated {
                batch_id: 1,
                owner: Address::new(10),
                wallet_id: 1
            },
            WalletCreationEvent::WalletCreated {
                batch_id: 1,
                owner: Address::new(11),
                wallet_id: 2
            },
            WalletCreationEvent::WalletCreationFailure {
                batch_id: 1,
                owner: Address::new(10),
                error_code: 1
            },
            WalletCreationEvent::BatchCompleted { batch_id: 1, successful: 2, failed: 1 },
        ]
    );
    assert_eq!(contract.event_log().len(), 9);
}

#[test]
fn wallet_creation_aborts_change_nothing() {
    let (mut contract, admin) = setup();
    let stranger = Address::new(2);
    assert_eq!(contract.initialize(stranger), Err(BatchWalletError::AlreadyInitialized));
    assert_eq!(
        contract.batch_create_wallets(&stranger, &vec![request(10)], 1),
        Err(BatchWalletError::Unauthorized)
    );
    assert_eq!(
        contract.batch_create_wallets(&admin, &Vec::new(), 1),
        Err(BatchWalletError::EmptyBatch)
    );
    let many: Vec<WalletCreateRequest> = (0..101).map(|i| request(100 + i)).collect();
    assert_eq!(
        contract.batch_create_wallets(&admin, &many, 1),
        Err(BatchWalletError::BatchTooLarge)
    );
    assert_eq!(contract.get_wallet(&Address::new(10)), None);
    assert_eq!(contract.get_wallet(&Address::new(100)), None);
    assert_eq!(contract.get_total_batches(), 0);
    assert_eq!(contract.get_total_wallets_created(), 0);
    assert!(contract.event_log().is_empty());

    let full: Vec<WalletCreateRequest> = (0..100).map(|i| request(100 + i)).collect();
    let result = contract.batch_create_wallets(&admin, &full, 1).unwrap();
    assert_eq!(result.successful, 100);
    assert_eq!(contract.get_wallet(&Address::new(199)).unwrap().id, 100);

    assert_eq!(contract.set_admin(&stranger, stranger), Err(BatchWalletError::Unauthorized));
    assert_eq!(contract.set_admin(&admin, stranger), Ok(()));
    assert_eq!(contract.get_admin(), Ok(stranger));

    let mut fresh = BatchWalletContract::new();
    assert_eq!(fresh.get_admin(), Err(BatchWalletError::NotInitialized));
    assert_eq!(
        fresh.batch_create_wallets(&admin, &vec![request(10)], 1),
        Err(BatchWalletError::NotInitialized)
    );
    assert!(validate_address(&admin).is_ok());
    assert_eq!(BatchWalletError::NotInitialized.code(), 1);
    assert_eq!(BatchWalletError::Unauthorized.code(), 2);
    assert_eq!(BatchWalletError::InvalidBatch.code(), 3);
    assert_eq!(BatchWalletError::EmptyBatch.code(), 4);
    assert_eq!(BatchWalletError::BatchTooLarge.code(), 5);
}
