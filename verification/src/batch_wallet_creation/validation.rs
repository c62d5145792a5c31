//! Validation of wallet creation requests.

use crate::address::Address;
use crate::batch_wallet_creation::types::Wallet;
use std::collections::HashMap;
use vstd::prelude::*;

verus! {

/// Validates an owner address. Every address is a valid owner.
pub fn validate_address(_address: &Address) -> (verdict: Result<(), ()>)
    ensures
        verdict is Ok,
{
    Ok(())
}

/// Checks if a wallet already exists for the given address.
pub fn wallet_exists(wallets: &HashMap<u64, Wallet>, address: &Address) -> (exists: bool)
    ensures
        exists == wallets@.contains_key(address.id),
{
    wallets.contains_key(&address.id)
}

} // verus!
