//! The balance book: one entry per user and currency.

use crate::address::Address;
use crate::multi_currency_wallet::types::CurrencyBalance;
use vstd::prelude::*;

verus! {

/// Whether `entry` is the balance of `user` in `currency`.
pub open spec fn holds(entry: CurrencyBalance, user: Address, currency: Seq<char>) -> bool {
    entry.user == user && entry.currency@ == currency
}

/// The place of the first entry of `entries` that is the balance of `user` in
/// `currency`, if there is one.
pub open spec fn position(entries: Seq<CurrencyBalance>, user: Address, currency: Seq<char>) -> Option<int>
    decreases entries.len(),
{
    if entries.len() == 0 {
        None
    } else {
        match position(entries.drop_last(), user, currency) {
            Some(k) => Some(k),
            None => if holds(entries.last(), user, currency) {
                Some(entries.len() - 1)
            } else {
                None
            },
        }
    }
}

/// The entry of `user` in `currency`, if the book has one.
pub open spec fn entry_of(entries: Seq<CurrencyBalance>, user: Address, currency: Seq<char>) -> Option<CurrencyBalance> {
    match position(entries, user, currency) {
        Some(k) => Some(entries[k]),
        None => None,
    }
}

/// The balance of `user` in `currency`: that of the entry, or nothing where
/// the book has none.
pub open spec fn balance_at(entries: Seq<CurrencyBalance>, user: Address, currency: Seq<char>) -> i128 {
    match position(entries, user, currency) {
        Some(k) => entries[k].balance,
        None => 0,
    }
}

/// The book after `balance` was stored: in the place of the entry of its user
/// and currency, or at the end where the book had none.
pub open spec fn stored(entries: Seq<CurrencyBalance>, balance: CurrencyBalance) -> Seq<CurrencyBalance> {
    match position(entries, balance.user, balance.currency@) {
        Some(k) => entries.update(k, balance),
        None => entries.push(balance),
    }
}

/// `position` gives the first matching place, and gives none only where no
/// entry matches.
pub proof fn lemma_position(entries: Seq<CurrencyBalance>, user: Address, currency: Seq<char>)
    ensures
        match position(entries, user, currency) {
            Some(k) => 0 <= k < entries.len() && holds(entries[k], user, currency) && forall|j: int|
                0 <= j < k ==> !holds(#[trigger] entries[j], user, currency),
            None => forall|j: int|
                0 <= j < entries.len() ==> !holds(#[trigger] entries[j], user, currency),
        },
    decreases entries.len(),
{
    if entries.len() > 0 {
        lemma_position(entries.drop_last(), user, currency);
        assert forall|j: int| 0 <= j < entries.len() - 1 implies entries.drop_last()[j]
            == entries[j] by {}
    }
}

/// A place that matches, with none before it that does, is the `position`.
pub proof fn lemma_position_is(
    entries: Seq<CurrencyBalance>,
    user: Address,
    currency: Seq<char>,
    k: int,
)
    requires
        0 <= k < entries.len(),
        holds(entries[k], user, currency),
        forall|j: int| 0 <= j < k ==> !holds(#[trigger] entries[j], user, currency),
    ensures
        position(entries, user, currency) == Some(k),
{
    lemma_position(entries, user, currency);
}

/// What is stored is what is found: after `balance` was stored, the entry of
/// its user and currency is `balance`, and every other user and currency has
/// the entry it had.
pub proof fn lemma_stored_is_found(
    entries: Seq<CurrencyBalance>,
    balance: CurrencyBalance,
    user: Address,
    currency: Seq<char>,
)
    ensures
        entry_of(stored(entries, balance), user, currency) == if user == balance.user && currency
            == balance.currency@ {
            Some(balance)
        } else {
            entry_of(entries, user, currency)
        },
{
    let after = stored(entries, balance);
    lemma_position(entries, balance.user, balance.currency@);
    lemma_position(entries, user, currency);
    lemma_position(after, user, currency);
    match position(entries, balance.user, balance.currency@) {
        Some(k) => {
            if user == balance.user && currency == balance.currency@ {
                assert(holds(after[k], user, currency));
                assert forall|j: int| 0 <= j < k implies !holds(
                    #[trigger] after[j],
                    user,
                    currency,
                ) by {
                    assert(after[j] == entries[j]);
                }
                lemma_position_is(after, user, currency, k);
            } else {
                match position(entries, user, currency) {
                    Some(m) => {
                        assert(m != k);
                        assert(after[m] == entries[m]);
                        assert forall|j: int| 0 <= j < m implies !holds(
                            #[trigger] after[j],
                            user,
                            currency,
                        ) by {
                            if j != k {
                                assert(after[j] == entries[j]);
                            }
                        }
                        lemma_position_is(after, user, currency, m);
                    },
                    None => {
                        assert forall|j: int| 0 <= j < after.len() implies !holds(
                            #[trigger] after[j],
                            user,
                            currency,
                        ) by {
                            if j != k {
                                assert(after[j] == entries[j]);
                            }
                        }
                    },
                }
            }
        },
        None => {
            let last = entries.len() as int;
            if user == balance.user && currency == balance.currency@ {
                assert(after[last] == balance);
                assert forall|j: int| 0 <= j < last implies !holds(
                    #[trigger] after[j],
                    user,
                    currency,
                ) by {
                    assert(after[j] == entries[j]);
                }
                lemma_position_is(after, user, currency, last);
            } else {
                match position(entries, user, currency) {
                    Some(m) => {
                        assert(after[m] == entries[m]);
                        assert forall|j: int| 0 <= j < m implies !holds(
                            #[trigger] after[j],
                            user,
                            currency,
                        ) by {
                            assert(after[j] == entries[j]);
                        }
                        lemma_position_is(after, user, currency, m);
                    },
                    None => {
                        assert forall|j: int| 0 <= j < after.len() implies !holds(
                            #[trigger] after[j],
                            user,
                            currency,
                        ) by {
                            if j < last {
                                assert(after[j] == entries[j]);
                            }
                        }
                    },
                }
            }
        },
    }
}

/// A copy of a balance entry.
pub(crate) fn copy_balance(balance: &CurrencyBalance) -> (copy: CurrencyBalance)
    ensures
        copy == *balance,
{
    CurrencyBalance {
        user: balance.user,
        currency: balance.currency.clone(),
        balance: balance.balance,
        updated_at: balance.updated_at,
    }
}

/// Finds the place of the entry of `user` in `currency`.
pub(crate) fn find(entries: &Vec<CurrencyBalance>, user: &Address, currency: &String) -> (place: Option<
    usize,
>)
    ensures
        match place {
            Some(k) => position(entries@, *user, currency@) == Some(k as int) && k < entries.len(),
            None => position(entries@, *user, currency@) is None,
        },
{
    let n = entries.len();
    let mut i: usize = 0;
    while i < n
        invariant
            n == entries.len(),
            i <= n,
            forall|j: int| 0 <= j < i ==> !holds(#[trigger] entries@[j], *user, currency@),
        decreases n - i,
    {
        if entries[i].user.id == user.id && entries[i].currency == *currency {
            proof {
                lemma_position_is(entries@, *user, currency@, i as int);
            }
            return Some(i);
        }
        i = i + 1;
    }
    proof {
        lemma_position(entries@, *user, currency@);
    }
    None
}

/// Stores `balance` in the book.
pub(crate) fn store(entries: &mut Vec<CurrencyBalance>, balance: CurrencyBalance)
    ensures
        final(entries)@ == stored(old(entries)@, balance),
{
    match find(entries, &balance.user, &balance.currency) {
        Some(k) => {
            entries.set(k, balance);
        },
        None => {
            entries.push(balance);
        },
    }
}

} // verus!
