//! Validation of balance update requests.

use crate::address::Address;
use crate::multi_currency_wallet::error_code;
use crate::multi_currency_wallet::types::{BalanceUpdateRequest, MAX_BALANCE, MIN_BALANCE};
use vstd::prelude::*;

verus! {

/// Whether `amount` is an acceptable amount: at least `MIN_BALANCE` and at
/// most `MAX_BALANCE`.
pub open spec fn amount_is_valid(amount: i128) -> bool {
    MIN_BALANCE <= amount <= MAX_BALANCE
}

/// The balance that the operation named `operation` with `amount` makes of
/// the balance `current`, or the code for which it is refused. `set` puts
/// `amount` in its place, `add` adds it and `subtract` takes it away; any
/// other name is refused with `INVALID_OPERATION`. A result outside the range
/// of an amount is refused with `ARITHMETIC_OVERFLOW`.
pub open spec fn computed_balance(current: i128, operation: Seq<char>, amount: i128) -> Result<
    i128,
    u32,
> {
    if operation == "set"@ {
        Ok(amount)
    } else if operation == "add"@ {
        if current + amount > i128::MAX || current + amount < i128::MIN {
            Err(error_code::ARITHMETIC_OVERFLOW)
        } else {
            Ok((current + amount) as i128)
        }
    } else if operation == "subtract"@ {
        if current - amount > i128::MAX || current - amount < i128::MIN {
            Err(error_code::ARITHMETIC_OVERFLOW)
        } else {
            Ok((current - amount) as i128)
        }
    } else {
        Err(error_code::INVALID_OPERATION)
    }
}

/// The balance that is stored after the operation, or the code for which the
/// operation is refused: that of `computed_balance`, or
/// `INSUFFICIENT_BALANCE` where the computed balance is negative.
pub open spec fn new_balance(current: i128, operation: Seq<char>, amount: i128) -> Result<
    i128,
    u32,
> {
    match computed_balance(current, operation, amount) {
        Ok(balance) => if balance < 0 {
            Err(error_code::INSUFFICIENT_BALANCE)
        } else {
            Ok(balance)
        },
        Err(code) => Err(code),
    }
}

/// Validates a balance update request on its own: its amount must be valid.
/// An invalid request is answered with the error code `INVALID_AMOUNT`.
pub fn validate_balance_request(request: &BalanceUpdateRequest) -> (verdict: Result<(), u32>)
    ensures
        amount_is_valid(request.amount) ==> verdict is Ok,
        !amount_is_valid(request.amount) ==> verdict == Err::<(), u32>(
            error_code::INVALID_AMOUNT,
        ),
{
    if !is_valid_address(&request.user) {
        return Err(error_code::INVALID_USER_ADDRESS);
    }
    if !is_valid_currency(&request.currency) {
        return Err(error_code::INVALID_CURRENCY);
    }
    if !is_valid_amount(request.amount) {
        return Err(error_code::INVALID_AMOUNT);
    }
    if !is_valid_operation(&request.operation) {
        return Err(error_code::INVALID_OPERATION);
    }
    Ok(())
}

/// Validates that an address is valid. Every address is.
fn is_valid_address(_address: &Address) -> (valid: bool)
    ensures
        valid,
{
    true
}

/// Validates that a currency symbol is valid. Every symbol is.
fn is_valid_currency(_currency: &String) -> (valid: bool)
    ensures
        valid,
{
    true
}

/// Validates that an amount is within acceptable bounds.
pub fn is_valid_amount(amount: i128) -> (valid: bool)
    ensures
        valid == amount_is_valid(amount),
{
    amount >= MIN_BALANCE && amount <= MAX_BALANCE
}

/// Validates that an operation type is valid. Every name passes here: an
/// unknown operation is refused when the new balance is computed.
pub fn is_valid_operation(_operation: &String) -> (valid: bool)
    ensures
        valid,
{
    true
}

/// Computes new balance based on operation.
pub fn compute_new_balance(current: i128, operation: &String, amount: i128) -> (r: Result<
    i128,
    u32,
>)
    ensures
        r == computed_balance(current, operation@, amount),
{
    let set = "set".to_owned();
    let add = "add".to_owned();
    let subtract = "subtract".to_owned();
    if *operation == set {
        Ok(amount)
    } else if *operation == add {
        match current.checked_add(amount) {
            Some(b) => Ok(b),
            None => Err(error_code::ARITHMETIC_OVERFLOW),
        }
    } else if *operation == subtract {
        match current.checked_sub(amount) {
            Some(b) => Ok(b),
            None => Err(error_code::ARITHMETIC_OVERFLOW),
        }
    } else {
        Err(error_code::INVALID_OPERATION)
    }
}

/// Computes the balance that an operation makes of `current`, refusing a
/// negative one.
pub fn validate_and_compute_balance(current: i128, operation: &String, amount: i128) -> (r: Result<
    i128,
    u32,
>)
    ensures
        r == new_balance(current, operation@, amount),
{
    let computed = match compute_new_balance(current, operation, amount) {
        Ok(b) => b,
        Err(code) => {
            return Err(code);
        },
    };
    if computed < 0 {
        return Err(error_code::INSUFFICIENT_BALANCE);
    }
    Ok(computed)
}

} // verus!
