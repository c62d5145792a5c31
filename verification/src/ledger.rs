//! The token ledger the services settle against: one balance per account.

use crate::address::Address;
use std::collections::HashMap;
use vstd::prelude::*;

verus! {

/// Why the ledger refused an operation.
#[derive(Clone, Copy, Debug, PartialEq, Eq, Structural)]
pub enum LedgerError {
    /// The amount is negative.
    NegativeAmount,
    /// The paying account holds less than the amount.
    InsufficientBalance,
    /// The receiving account's balance would exceed the largest amount.
    BalanceOverflow,
}

/// The balance that `owner` holds in the balance sheet `balances`; an account
/// that was never credited holds nothing.
pub open spec fn balance_in(balances: Map<u64, i128>, owner: Address) -> i128 {
    if balances.contains_key(owner.id) {
        balances[owner.id]
    } else {
        0
    }
}

/// The first reason, if any, for which a transfer of `amount` from `from` to
/// `to` is refused on the balance sheet `balances`.
pub open spec fn transfer_refusal(
    balances: Map<u64, i128>,
    from: Address,
    to: Address,
    amount: i128,
) -> Option<LedgerError> {
    if amount < 0 {
        Some(LedgerError::NegativeAmount)
    } else if balance_in(balances, from) < amount {
        Some(LedgerError::InsufficientBalance)
    } else if from != to && balance_in(balances, to) + amount > i128::MAX {
        Some(LedgerError::BalanceOverflow)
    } else {
        None
    }
}

/// The balance sheet after an accepted transfer of `amount` from `from` to
/// `to`. A transfer to oneself changes nothing.
pub open spec fn after_transfer(
    balances: Map<u64, i128>,
    from: Address,
    to: Address,
    amount: i128,
) -> Map<u64, i128> {
    if from == to {
        balances
    } else {
        balances.insert(from.id, (balance_in(balances, from) - amount) as i128).insert(
            to.id,
            (balance_in(balances, to) + amount) as i128,
        )
    }
}

/// The first reason, if any, for which `amount` cannot be credited to `to`.
pub open spec fn mint_refusal(balances: Map<u64, i128>, to: Address, amount: i128) -> Option<
    LedgerError,
> {
    if amount < 0 {
        Some(LedgerError::NegativeAmount)
    } else if balance_in(balances, to) + amount > i128::MAX {
        Some(LedgerError::BalanceOverflow)
    } else {
        None
    }
}

/// Whether no account of the balance sheet is overdrawn.
pub open spec fn no_overdraft(balances: Map<u64, i128>) -> bool {
    forall|k: u64| balances.contains_key(k) ==> balances[k] >= 0
}

/// A token ledger. Its view is the balance sheet: account identifier to
/// balance. No operation overdraws an account.
#[derive(Debug, PartialEq)]
pub struct Ledger {
    balances: HashMap<u64, i128>,
}

impl View for Ledger {
    type V = Map<u64, i128>;

    closed spec fn view(&self) -> Map<u64, i128> {
        self.balances@
    }
}

impl Ledger {
    /// A ledger on which nobody holds anything.
    pub fn new() -> (ledger: Ledger)
        ensures
            ledger@ == Map::<u64, i128>::empty(),
    {
        Ledger { balances: HashMap::new() }
    }

    /// A copy of this ledger.
    pub fn snapshot(&self) -> (copy: Ledger)
        ensures
            copy@ == self@,
    {
        Ledger { balances: self.balances.clone() }
    }

    /// The balance of `owner`.
    pub fn balance(&self, owner: &Address) -> (amount: i128)
        ensures
            amount == balance_in(self@, *owner),
    {
        match self.balances.get(&owner.id) {
            Some(b) => *b,
            None => 0,
        }
    }

    /// Credits `amount` to `to` out of nothing.
    pub fn mint(&mut self, to: &Address, amount: i128) -> (r: Result<(), LedgerError>)
        ensures
            match mint_refusal(old(self)@, *to, amount) {
                Some(e) => r == Err::<(), LedgerError>(e) && final(self)@ == old(self)@,
                None => r is Ok && final(self)@ == old(self)@.insert(
                    to.id,
                    (balance_in(old(self)@, *to) + amount) as i128,
                ),
            },
            no_overdraft(old(self)@) ==> no_overdraft(final(self)@),
    {
        if amount < 0 {
            return Err(LedgerError::NegativeAmount);
        }
        let held = self.balance(to);
        match held.checked_add(amount) {
            Some(sum) => {
                self.balances.insert(to.id, sum);
                Ok(())
            },
            None => Err(LedgerError::BalanceOverflow),
        }
    }

    /// Moves `amount` from `from` to `to`, or refuses and changes nothing.
    pub fn transfer(&mut self, from: &Address, to: &Address, amount: i128) -> (r: Result<
        (),
        LedgerError,
    >)
        ensures
            match transfer_refusal(old(self)@, *from, *to, amount) {
                Some(e) => r == Err::<(), LedgerError>(e) && final(self)@ == old(self)@,
                None => r is Ok && final(self)@ == after_transfer(old(self)@, *from, *to, amount),
            },
            no_overdraft(old(self)@) ==> no_overdraft(final(self)@),
    {
        if amount < 0 {
            return Err(LedgerError::NegativeAmount);
        }
        let held = self.balance(from);
        if held < amount {
            return Err(LedgerError::InsufficientBalance);
        }
        if from.id == to.id {
            return Ok(());
        }
        let received = self.balance(to);
        match received.checked_add(amount) {
            Some(sum) => {
                self.balances.insert(from.id, held - amount);
                self.balances.insert(to.id, sum);
                Ok(())
            },
            None => Err(LedgerError::BalanceOverflow),
        }
    }
}

} // verus!
