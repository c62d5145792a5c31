//! The wallet service: its state and the batch update engine.

use crate::address::Address;
use crate::host_error::{contract_error, host_error_of};
use crate::multi_currency_wallet::book::{
    balance_at, copy_balance, entry_of, find, store, stored,
};
use crate::multi_currency_wallet::error_code;
use crate::multi_currency_wallet::types::{
    BalanceUpdateRequest, BalanceUpdateResult, BatchBalanceMetrics, BatchBalanceResult,
    CurrencyBalance, WalletEvent, WalletEvents, LARGE_BALANCE, MAX_BATCH_SIZE,
};
use crate::multi_currency_wallet::validation::{
    amount_is_valid, new_balance, validate_and_compute_balance, validate_balance_request,
};
use crate::tally::{failures, lemma_counts_partition, lemma_tally_push, successes};
use vstd::prelude::*;

verus! {

/// Errors that abort a call to the wallet service as a whole. An aborted call
/// changes nothing.
#[derive(Copy, Clone, Debug, Eq, PartialEq, Structural)]
pub enum WalletError {
    /// Contract not initialized
    NotInitialized,
    /// Caller is not authorized
    Unauthorized,
    /// Invalid batch data
    InvalidBatch,
    /// Batch is empty
    EmptyBatch,
    /// Batch exceeds maximum size
    BatchTooLarge,
    /// Contract already initialized
    AlreadyInitialized,
    /// A lifetime counter has no room left for this call
    CounterOverflow,
}

impl WalletError {
    /// The stable numeric code of this error.
    pub open spec fn code_of(self) -> u32 {
        match self {
            WalletError::NotInitialized => 1,
            WalletError::Unauthorized => 2,
            WalletError::InvalidBatch => 3,
            WalletError::EmptyBatch => 4,
            WalletError::BatchTooLarge => 5,
            WalletError::AlreadyInitialized => 6,
            WalletError::CounterOverflow => 7,
        }
    }

    /// The stable numeric code of this error.
    pub fn code(&self) -> (code: u32)
        ensures
            code == self.code_of(),
    {
        match self {
            WalletError::NotInitialized => 1,
            WalletError::Unauthorized => 2,
            WalletError::InvalidBatch => 3,
            WalletError::EmptyBatch => 4,
            WalletError::BatchTooLarge => 5,
            WalletError::AlreadyInitialized => 6,
            WalletError::CounterOverflow => 7,
        }
    }
}

impl From<WalletError> for soroban_sdk::Error {
    fn from(e: WalletError) -> (error: soroban_sdk::Error) {
        host_error_of(e.code())
    }
}

impl vstd::std_specs::convert::FromSpecImpl<WalletError> for soroban_sdk::Error {
    open spec fn obeys_from_spec() -> bool {
        true
    }

    open spec fn from_spec(e: WalletError) -> soroban_sdk::Error {
        contract_error(e.code_of())
    }
}

/// The book and the result after one update was attempted.
pub struct BalanceUpdate {
    pub entries: Seq<CurrencyBalance>,
    pub result: BalanceUpdateResult,
}

/// The book and the results after a list of updates was attempted.
pub struct BalanceUpdateRun {
    pub entries: Seq<CurrencyBalance>,
    pub results: Seq<BalanceUpdateResult>,
}

/// One update, attempted at the ledger sequence `now` against the book as it
/// stands: a request with an invalid amount fails with `INVALID_AMOUNT`; one
/// whose operation is refused on the user's balance fails with the code of
/// `new_balance`; neither changes anything. Any other stores the new balance.
pub open spec fn update_one(
    entries: Seq<CurrencyBalance>,
    now: u64,
    request: BalanceUpdateRequest,
) -> BalanceUpdate {
    if !amount_is_valid(request.amount) {
        BalanceUpdate {
            entries,
            result: BalanceUpdateResult::Failure(
                request.user,
                request.currency,
                error_code::INVALID_AMOUNT,
            ),
        }
    } else {
        match new_balance(
            balance_at(entries, request.user, request.currency@),
            request.operation@,
            request.amount,
        ) {
            Err(code) => BalanceUpdate {
                entries,
                result: BalanceUpdateResult::Failure(request.user, request.currency, code),
            },
            Ok(balance) => {
                let entry = CurrencyBalance {
                    user: request.user,
                    currency: request.currency,
                    balance,
                    updated_at: now,
                };
                BalanceUpdate {
                    entries: stored(entries, entry),
                    result: BalanceUpdateResult::Success(entry),
                }
            },
        }
    }
}

/// The requests of a batch attempted one after the other, in their order,
/// each against the book that the one before it left.
pub open spec fn update_all(
    entries: Seq<CurrencyBalance>,
    now: u64,
    requests: Seq<BalanceUpdateRequest>,
) -> BalanceUpdateRun
    decreases requests.len(),
{
    if requests.len() == 0 {
        BalanceUpdateRun { entries, results: Seq::empty() }
    } else {
        let before = update_all(entries, now, requests.drop_last());
        let step = update_one(before.entries, now, requests.last());
        BalanceUpdateRun { entries: step.entries, results: before.results.push(step.result) }
    }
}

/// The users whose balances the results stored, each once, in the order in
/// which they first appear.
pub open spec fn users_updated(results: Seq<BalanceUpdateResult>) -> Seq<Address>
    decreases results.len(),
{
    if results.len() == 0 {
        Seq::empty()
    } else {
        let before = users_updated(results.drop_last());
        match results.last() {
            BalanceUpdateResult::Success(entry) => if before.contains(entry.user) {
                before
            } else {
                before.push(entry.user)
            },
            BalanceUpdateResult::Failure(_, _, _) => before,
        }
    }
}

/// The currencies in which the results stored balances, each once, in the
/// order in which they first appear.
pub open spec fn currencies_updated(results: Seq<BalanceUpdateResult>) -> Seq<Seq<char>>
    decreases results.len(),
{
    if results.len() == 0 {
        Seq::empty()
    } else {
        let before = currencies_updated(results.drop_last());
        match results.last() {
            BalanceUpdateResult::Success(entry) => if before.contains(entry.currency@) {
                before
            } else {
                before.push(entry.currency@)
            },
            BalanceUpdateResult::Failure(_, _, _) => before,
        }
    }
}

/// The audit events of one result: a stored balance is reported, and reported
/// once more as a large balance from `LARGE_BALANCE` on; a refused update is
/// reported with its code.
pub open spec fn balance_events_of(batch_id: u64, result: BalanceUpdateResult) -> Seq<WalletEvent> {
    match result {
        BalanceUpdateResult::Success(entry) => {
            let updated = seq![
                WalletEvent::BalanceUpdated {
                    batch_id,
                    user: entry.user,
                    currency: entry.currency,
                    balance: entry.balance,
                },
            ];
            if entry.balance >= LARGE_BALANCE {
                updated.push(
                    WalletEvent::LargeBalanceUpdate {
                        batch_id,
                        user: entry.user,
                        currency: entry.currency,
                        amount: entry.balance,
                    },
                )
            } else {
                updated
            }
        },
        BalanceUpdateResult::Failure(user, currency, error_code) => seq![
            WalletEvent::BalanceUpdateFailed { batch_id, user, currency, error_code },
        ],
    }
}

/// The audit events of the results of a batch, in the order of the results.
pub open spec fn balance_events(batch_id: u64, results: Seq<BalanceUpdateResult>) -> Seq<WalletEvent>
    decreases results.len(),
{
    if results.len() == 0 {
        Seq::empty()
    } else {
        balance_events(batch_id, results.drop_last()) + balance_events_of(
            batch_id,
            results.last(),
        )
    }
}

/// The metrics of a batch with the given results, processed at the ledger
/// sequence `processed_at`: the numbers of requests, of balances stored and
/// of updates refused, and the numbers of different users and of different
/// currencies among the balances stored.
pub open spec fn balance_metrics_of(results: Seq<BalanceUpdateResult>, processed_at: u64) -> BatchBalanceMetrics {
    BatchBalanceMetrics {
        total_requests: results.len() as u32,
        successful_updates: successes(results) as u32,
        failed_updates: failures(results) as u32,
        unique_users: users_updated(results).len() as u32,
        unique_currencies: currencies_updated(results).len() as u32,
        processed_at,
    }
}

/// The reason, if any, for which a batch of balance updates aborts as a
/// whole. The rules are tried in this order: the service is initialized; the
/// caller is the administrator; the batch is not empty; it holds at most
/// `MAX_BATCH_SIZE` requests; the lifetime counters have room for it.
pub open spec fn balance_batch_refusal(
    admin: Option<Address>,
    last_batch_id: u64,
    total_balances_updated: u64,
    total_batches_processed: u64,
    caller: Address,
    request_count: nat,
) -> Option<WalletError> {
    if admin is None {
        Some(WalletError::NotInitialized)
    } else if admin != Some(caller) {
        Some(WalletError::Unauthorized)
    } else if request_count == 0 {
        Some(WalletError::EmptyBatch)
    } else if request_count > MAX_BATCH_SIZE {
        Some(WalletError::BatchTooLarge)
    } else if last_batch_id == u64::MAX || total_batches_processed == u64::MAX
        || total_balances_updated + request_count > u64::MAX {
        Some(WalletError::CounterOverflow)
    } else {
        None
    }
}

/// The views of a list of currency names.
pub open spec fn names(currencies: Seq<String>) -> Seq<Seq<char>> {
    Seq::new(currencies.len(), |i: int| currencies[i]@)
}

/// Whether `addr` is among `seen`.
fn contains_address(seen: &Vec<Address>, addr: &Address) -> (found: bool)
    ensures
        found == seen@.contains(*addr),
{
    let n = seen.len();
    let mut i: usize = 0;
    while i < n
        invariant
            n == seen.len(),
            i <= n,
            forall|j: int| 0 <= j < i ==> seen@[j] != *addr,
        decreases n - i,
    {
        if seen[i].id == addr.id {
            return true;
        }
        i = i + 1;
    }
    false
}

/// Whether `sym` is among `seen`.
fn contains_symbol(seen: &Vec<String>, sym: &String) -> (found: bool)
    ensures
        found == names(seen@).contains(sym@),
{
    let n = seen.len();
    let mut i: usize = 0;
    while i < n
        invariant
            n == seen.len(),
            i <= n,
            forall|j: int| 0 <= j < i ==> names(seen@)[j] != sym@,
        decreases n - i,
    {
        if seen[i] == *sym {
            assert(names(seen@)[i as int] == sym@);
            return true;
        }
        i = i + 1;
    }
    false
}

/// Attempts one update on the book.
fn update_item(entries: &mut Vec<CurrencyBalance>, now: u64, request: &BalanceUpdateRequest) -> (result:
    BalanceUpdateResult)
    ensures
        (BalanceUpdate { entries: final(entries)@, result }) == update_one(
            old(entries)@,
            now,
            *request,
        ),
{
    if let Err(code) = validate_balance_request(request) {
        return BalanceUpdateResult::Failure(request.user, request.currency.clone(), code);
    }
    let current = match find(entries, &request.user, &request.currency) {
        Some(k) => entries[k].balance,
        None => 0,
    };
    match validate_and_compute_balance(current, &request.operation, request.amount) {
        Err(code) => BalanceUpdateResult::Failure(request.user, request.currency.clone(), code),
        Ok(balance) => {
            let entry = CurrencyBalance {
                user: request.user,
                currency: request.currency.clone(),
                balance,
                updated_at: now,
            };
            store(entries, copy_balance(&entry));
            BalanceUpdateResult::Success(entry)
        },
    }
}

/// Attempts the updates of a batch in order, appending the audit events of
/// every request. Returns the results, the number of balances stored, and the
/// numbers of different users and currencies among them.
fn update_each(
    entries: &mut Vec<CurrencyBalance>,
    events: &mut Vec<WalletEvent>,
    now: u64,
    batch_id: u64,
    requests: &Vec<BalanceUpdateRequest>,
) -> (tally: (Vec<BalanceUpdateResult>, u32, u32, u32))
    requires
        requests.len() <= MAX_BATCH_SIZE,
    ensures
        (BalanceUpdateRun { entries: final(entries)@, results: tally.0@ }) == update_all(
            old(entries)@,
            now,
            requests@,
        ),
        tally.0@.len() == requests@.len(),
        tally.1 == successes(tally.0@),
        tally.2 == users_updated(tally.0@).len(),
        tally.3 == currencies_updated(tally.0@).len(),
        final(events)@ == old(events)@ + balance_events(batch_id, tally.0@),
{
    let n = requests.len();
    let mut results: Vec<BalanceUpdateResult> = Vec::new();
    let mut successful: u32 = 0;
    let mut unique_users: Vec<Address> = Vec::new();
    let mut unique_currencies: Vec<String> = Vec::new();
    let mut i: usize = 0;
    assert(requests@.take(0) =~= Seq::<BalanceUpdateRequest>::empty());
    assert(events@ =~= old(events)@ + balance_events(batch_id, results@));
    assert(names(unique_currencies@) =~= currencies_updated(results@));
    while i < n
        invariant
            n == requests.len(),
            n <= MAX_BATCH_SIZE,
            i <= n,
            results@.len() == i,
            (BalanceUpdateRun { entries: entries@, results: results@ }) == update_all(
                old(entries)@,
                now,
                requests@.take(i as int),
            ),
            successful == successes(results@),
            successful <= i,
            unique_users@ == users_updated(results@),
            unique_users@.len() <= i,
            names(unique_currencies@) == currencies_updated(results@),
            unique_currencies@.len() <= i,
            events@ == old(events)@ + balance_events(batch_id, results@),
        decreases n - i,
    {
        let ghost before_results = results@;
        let ghost before_events = events@;
        let ghost before_currencies = unique_currencies@;
        let result = update_item(entries, now, &requests[i]);
        proof {
            assert(requests@.take(i + 1).drop_last() =~= requests@.take(i as int));
            assert(requests@.take(i + 1).last() == requests@[i as int]);
            lemma_tally_push(before_results, result);
            assert(before_results.push(result).drop_last() =~= before_results);
        }
        match &result {
            BalanceUpdateResult::Success(entry) => {
                successful = successful + 1;
                if !contains_address(&unique_users, &entry.user) {
                    unique_users.push(entry.user);
                }
                if !contains_symbol(&unique_currencies, &entry.currency) {
                    unique_currencies.push(entry.currency.clone());
                    proof {
                        assert(names(unique_currencies@) =~= names(before_currencies).push(
                            entry.currency@,
                        ));
                    }
                }
                events.push(WalletEvents::balance_updated(batch_id, entry));
                if entry.balance >= LARGE_BALANCE {
                    events.push(
                        WalletEvents::large_balance_update(
                            batch_id,
                            &entry.user,
                            &entry.currency,
                            entry.balance,
                        ),
                    );
                }
            },
            BalanceUpdateResult::Failure(user, currency, code) => {
                events.push(WalletEvents::balance_update_failed(batch_id, user, currency, *code));
            },
        }
        proof {
            assert(events@ =~= before_events + balance_events_of(batch_id, result));
            assert(balance_events(batch_id, before_results.push(result)) =~= balance_events(
                batch_id,
                before_results,
            ) + balance_events_of(batch_id, result));
        }
        results.push(result);
        i = i + 1;
        proof {
            assert(events@ =~= old(events)@ + balance_events(batch_id, results@));
        }
    }
    assert(requests@.take(n as int) =~= requests@);
    (results, successful, unique_users.len() as u32, unique_currencies.len() as u32)
}

/// The wallet service: its administrator, the balance book, its lifetime
/// counters and its audit log.
#[derive(Clone, Debug, PartialEq, Eq)]
pub struct MultiCurrencyWalletContract {
    admin: Option<Address>,
    last_batch_id: u64,
    total_balances_updated: u64,
    total_batches_processed: u64,
    balances: Vec<CurrencyBalance>,
    events: Vec<WalletEvent>,
}

impl MultiCurrencyWalletContract {
    /// The administrator, once the service is initialized.
    pub closed spec fn admin(&self) -> Option<Address> {
        self.admin
    }

    /// The identifier of the last batch.
    pub closed spec fn last_batch_id(&self) -> u64 {
        self.last_batch_id
    }

    /// The number of balances stored by batches.
    pub closed spec fn total_balances_updated(&self) -> u64 {
        self.total_balances_updated
    }

    /// The number of batches processed.
    pub closed spec fn total_batches_processed(&self) -> u64 {
        self.total_batches_processed
    }

    /// The balance book.
    pub closed spec fn balances(&self) -> Seq<CurrencyBalance> {
        self.balances@
    }

    /// The audit log, oldest event first.
    pub closed spec fn events(&self) -> Seq<WalletEvent> {
        self.events@
    }

    /// Whether `other` has the balance book, the counters and the audit log
    /// of this service.
    pub open spec fn same_books(&self, other: &MultiCurrencyWalletContract) -> bool {
        &&& self.last_batch_id() == other.last_batch_id()
        &&& self.total_balances_updated() == other.total_balances_updated()
        &&& self.total_batches_processed() == other.total_batches_processed()
        &&& self.balances() == other.balances()
        &&& self.events() == other.events()
    }

    /// What `require_admin` answers to `caller`.
    pub open spec fn require_admin_verdict(&self, caller: Address) -> Result<(), WalletError> {
        if self.admin() is None {
            Err(WalletError::NotInitialized)
        } else if self.admin() != Some(caller) {
            Err(WalletError::Unauthorized)
        } else {
            Ok(())
        }
    }

    /// A service that is not yet initialized.
    pub fn new() -> (contract: MultiCurrencyWalletContract)
        ensures
            contract.admin() is None,
            contract.last_batch_id() == 0,
            contract.total_balances_updated() == 0,
            contract.total_batches_processed() == 0,
            contract.balances() == Seq::<CurrencyBalance>::empty(),
            contract.events() == Seq::<WalletEvent>::empty(),
    {
        MultiCurrencyWalletContract {
            admin: None,
            last_batch_id: 0,
            total_balances_updated: 0,
            total_batches_processed: 0,
            balances: Vec::new(),
            events: Vec::new(),
        }
    }

    /// A service as it was persisted: with its administrator and its
    /// counters, and without balances and events; `load_balance` brings the
    /// balances back one by one.
    pub fn restore(
        admin: Option<Address>,
        last_batch_id: u64,
        total_balances_updated: u64,
        total_batches_processed: u64,
    ) -> (contract: MultiCurrencyWalletContract)
        ensures
            contract.admin() == admin,
            contract.last_batch_id() == last_batch_id,
            contract.total_balances_updated() == total_balances_updated,
            contract.total_batches_processed() == total_batches_processed,
            contract.balances() == Seq::<CurrencyBalance>::empty(),
            contract.events() == Seq::<WalletEvent>::empty(),
    {
        MultiCurrencyWalletContract {
            admin,
            last_batch_id,
            total_balances_updated,
            total_batches_processed,
            balances: Vec::new(),
            events: Vec::new(),
        }
    }

    /// Brings back one persisted balance, as the balance of its user in its
    /// currency.
    pub fn load_balance(&mut self, balance: CurrencyBalance)
        ensures
            final(self).balances() == stored(old(self).balances(), balance),
            final(self).admin() == old(self).admin(),
            final(self).last_batch_id() == old(self).last_batch_id(),
            final(self).total_balances_updated() == old(self).total_balances_updated(),
            final(self).total_batches_processed() == old(self).total_batches_processed(),
            final(self).events() == old(self).events(),
    {
        store(&mut self.balances, balance);
    }

    /// Initializes the contract with an admin address. A service is
    /// initialized once.
    pub fn initialize(&mut self, admin: Address) -> (r: Result<(), WalletError>)
        ensures
            old(self).admin() is Some ==> r == Err::<(), WalletError>(
                WalletError::AlreadyInitialized,
            ) && *final(self) == *old(self),
            old(self).admin() is None ==> r is Ok && final(self).admin() == Some(admin) && final(self).same_books(old(self)),
    {
        if self.admin.is_some() {
            return Err(WalletError::AlreadyInitialized);
        }
        self.admin = Some(admin);
        Ok(())
    }

    /// Checks that the service is initialized and that `caller` is its
    /// administrator.
    pub fn require_admin(&self, caller: &Address) -> (r: Result<(), WalletError>)
        ensures
            r == self.require_admin_verdict(*caller),
    {
        match self.admin {
            None => Err(WalletError::NotInitialized),
            Some(admin) => if admin.id == caller.id {
                Ok(())
            } else {
                Err(WalletError::Unauthorized)
            },
        }
    }

    /// Updates balances for multiple users across multiple currencies in a
    /// batch.
    ///
    /// The call aborts as a whole, changing nothing, when
    /// `balance_batch_refusal` gives a reason. Otherwise the batch gets the
    /// next batch identifier and every request is attempted in its order
    /// against the book as the requests before it left it; a request that
    /// fails leaves the others untouched. The lifetime counters are then
    /// advanced once. The audit log receives the start of the batch, the
    /// events of every request, and its completion.
    pub fn batch_update_balances(
        &mut self,
        caller: &Address,
        requests: &Vec<BalanceUpdateRequest>,
        current_ledger: u64,
    ) -> (r: Result<BatchBalanceResult, WalletError>)
        ensures
            match balance_batch_refusal(
                old(self).admin(),
                old(self).last_batch_id(),
                old(self).total_balances_updated(),
                old(self).total_batches_processed(),
                *caller,
                requests@.len(),
            ) {
                Some(e) => r == Err::<BatchBalanceResult, WalletError>(e) && *final(self) == *old(self),
                None => r matches Ok(batch) && {
                    let run = update_all(old(self).balances(), current_ledger, requests@);
                    &&& final(self).balances() == run.entries
                    &&& batch.results@ == run.results
                    &&& batch.batch_id == old(self).last_batch_id() + 1
                    &&& batch.total_requests == requests@.len()
                    &&& batch.results@.len() == requests@.len()
                    &&& batch.successful == successes(batch.results@)
                    &&& batch.failed == failures(batch.results@)
                    &&& batch.successful + batch.failed == batch.total_requests
                    &&& batch.metrics == balance_metrics_of(batch.results@, current_ledger)
                    &&& final(self).admin() == old(self).admin()
                    &&& final(self).last_batch_id() == batch.batch_id
                    &&& final(self).total_batches_processed() == old(self).total_batches_processed() + 1
                    &&& final(self).total_balances_updated() == old(self).total_balances_updated()
                        + batch.successful
                    &&& final(self).events() == old(self).events().push(
                        WalletEvent::BatchStarted {
                            batch_id: batch.batch_id,
                            request_count: batch.total_requests,
                        },
                    ) + balance_events(batch.batch_id, batch.results@).push(
                        WalletEvent::BatchCompleted {
                            batch_id: batch.batch_id,
                            successful: batch.successful,
                            failed: batch.failed,
                        },
                    )
                },
            },
    {
        let admin = match self.admin {
            Some(a) => a,
            None => {
                return Err(WalletError::NotInitialized);
            },
        };
        if admin.id != caller.id {
            return Err(WalletError::Unauthorized);
        }
        let n = requests.len();
        if n == 0 {
            return Err(WalletError::EmptyBatch);
        }
        if n > MAX_BATCH_SIZE as usize {
            return Err(WalletError::BatchTooLarge);
        }
        let request_count = n as u32;
        if self.last_batch_id == u64::MAX || self.total_batches_processed == u64::MAX
            || self.total_balances_updated > u64::MAX - request_count as u64 {
            return Err(WalletError::CounterOverflow);
        }
        let batch_id = self.last_batch_id + 1;
        self.events.push(WalletEvents::batch_started(batch_id, request_count));
        let (results, successful, unique_users, unique_currencies) = update_each(
            &mut self.balances,
            &mut self.events,
            current_ledger,
            batch_id,
            requests,
        );
        proof {
            lemma_counts_partition(results@);
        }
        let failed = request_count - successful;
        let metrics = BatchBalanceMetrics {
            total_requests: request_count,
            successful_updates: successful,
            failed_updates: failed,
            unique_users,
            unique_currencies,
            processed_at: current_ledger,
        };
        self.last_batch_id = batch_id;
        self.total_balances_updated = self.total_balances_updated + successful as u64;
        self.total_batches_processed = self.total_batches_processed + 1;
        self.events.push(WalletEvents::batch_completed(batch_id, successful, failed));
        proof {
            assert(self.events@ =~= old(self).events().push(
                WalletEvent::BatchStarted { batch_id, request_count },
            ) + balance_events(batch_id, results@).push(
                WalletEvent::BatchCompleted { batch_id, successful, failed },
            ));
        }
        Ok(
            BatchBalanceResult {
                batch_id,
                total_requests: request_count,
                successful,
                failed,
                results,
                metrics,
            },
        )
    }

    /// Retrieves a user's balance for a specific currency: zero where the
    /// book has no entry.
    pub fn get_balance(&self, user: &Address, currency: &String) -> (balance: i128)
        ensures
            balance == balance_at(self.balances(), *user, currency@),
    {
        match find(&self.balances, user, currency) {
            Some(k) => self.balances[k].balance,
            None => 0,
        }
    }

    /// Retrieves full balance details for a user and currency.
    pub fn get_balance_details(&self, user: &Address, currency: &String) -> (found: Option<
        CurrencyBalance,
    >)
        ensures
            found == entry_of(self.balances(), *user, currency@),
    {
        match find(&self.balances, user, currency) {
            Some(k) => Some(copy_balance(&self.balances[k])),
            None => None,
        }
    }

    /// Returns the admin address.
    pub fn get_admin(&self) -> (r: Result<Address, WalletError>)
        ensures
            r == (match self.admin() {
                Some(a) => Ok::<Address, WalletError>(a),
                None => Err::<Address, WalletError>(WalletError::NotInitialized),
            }),
    {
        match self.admin {
            Some(a) => Ok(a),
            None => Err(WalletError::NotInitialized),
        }
    }

    /// Updates the admin address. Only the administrator in office may name
    /// the next one.
    pub fn set_admin(&mut self, current_admin: &Address, new_admin: Address) -> (r: Result<
        (),
        WalletError,
    >)
        ensures
            r == old(self).require_admin_verdict(*current_admin),
            r is Err ==> *final(self) == *old(self),
            r is Ok ==> final(self).admin() == Some(new_admin) && final(self).same_books(
                old(self),
            ),
    {
        match self.require_admin(current_admin) {
            Err(e) => Err(e),
            Ok(()) => {
                self.admin = Some(new_admin);
                Ok(())
            },
        }
    }

    /// Returns the last created batch ID.
    pub fn get_last_batch_id(&self) -> (id: u64)
        ensures
            id == self.last_batch_id(),
    {
        self.last_batch_id
    }

    /// Returns the total number of balances updated.
    pub fn get_total_balances_updated(&self) -> (n: u64)
        ensures
            n == self.total_balances_updated(),
    {
        self.total_balances_updated
    }

    /// Returns the total number of batches processed.
    pub fn get_total_batches_processed(&self) -> (n: u64)
        ensures
            n == self.total_batches_processed(),
    {
        self.total_batches_processed
    }

    /// The audit log, oldest event first.
    pub fn event_log(&self) -> (log: &Vec<WalletEvent>)
        ensures
            log@ == self.events(),
    {
        &self.events
    }
}

} // verus!
