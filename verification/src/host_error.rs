//! The host's error value, as the services hand it to the host.

use vstd::prelude::*;

verus! {

/// The host's error type, `soroban_sdk::Error`: a value that nothing in this
/// library looks into.
#[verifier::external_type_specification]
#[verifier::external_body]
pub struct ExHostError(soroban_sdk::Error);

/// The error value that the host has for the contract error numbered `code`:
/// what `soroban_sdk::Error::from_contract_error` returns for it.
pub uninterp spec fn contract_error(code: u32) -> soroban_sdk::Error;

/// Calls `soroban_sdk::Error::from_contract_error`, which packs `code`
/// together with the tag of contract errors into one error value. The result
/// depends on `code` alone, and the contract says no more than that.
#[verifier::external_body]
pub(crate) fn host_error_of(code: u32) -> (error: soroban_sdk::Error)
    ensures
        error == contract_error(code),
{
    soroban_sdk::Error::from_contract_error(code)
}

} // verus!
