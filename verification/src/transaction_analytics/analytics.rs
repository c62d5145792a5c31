//! The metrics of a batch of transactions.

use crate::address::Address;
use crate::tally::{cap_count, capped_count, saturate, saturating_add, trunc_div};
use crate::transaction_analytics::types::{BatchMetrics, Transaction, MAX_BATCH_SIZE};
use vstd::prelude::*;

verus! {

/// The amounts of `transactions` added up in their order, each partial sum
/// capped to the range of an amount.
pub open spec fn volume_total(transactions: Seq<Transaction>) -> i128
    decreases transactions.len(),
{
    if transactions.len() == 0 {
        0
    } else {
        saturate(volume_total(transactions.drop_last()) + transactions.last().amount)
    }
}

/// The fee on an amount: a thousandth of it, rounded towards zero.
pub open spec fn fee_of(amount: i128) -> int {
    trunc_div(amount as int, 1000)
}

/// The fees of `transactions` added up in their order, each partial sum
/// capped to the range of an amount.
pub open spec fn fee_total(transactions: Seq<Transaction>) -> i128
    decreases transactions.len(),
{
    if transactions.len() == 0 {
        0
    } else {
        saturate(fee_total(transactions.drop_last()) + fee_of(transactions.last().amount))
    }
}

/// The smallest amount among `transactions`; zero where there is none.
pub open spec fn smallest_amount(transactions: Seq<Transaction>) -> i128
    decreases transactions.len(),
{
    if transactions.len() == 0 {
        0
    } else if transactions.len() == 1 {
        transactions[0].amount
    } else if transactions.last().amount < smallest_amount(transactions.drop_last()) {
        transactions.last().amount
    } else {
        smallest_amount(transactions.drop_last())
    }
}

/// The largest amount among `transactions`; zero where there is none.
pub open spec fn largest_amount(transactions: Seq<Transaction>) -> i128
    decreases transactions.len(),
{
    if transactions.len() == 0 {
        0
    } else if transactions.len() == 1 {
        transactions[0].amount
    } else if transactions.last().amount > largest_amount(transactions.drop_last()) {
        transactions.last().amount
    } else {
        largest_amount(transactions.drop_last())
    }
}

/// `seen` with `address` added at the end, unless it is there already.
pub open spec fn noted(seen: Seq<Address>, address: Address) -> Seq<Address> {
    if seen.contains(address) {
        seen
    } else {
        seen.push(address)
    }
}

/// The senders of `transactions`, each once, in the order in which they first
/// appear.
pub open spec fn senders_of(transactions: Seq<Transaction>) -> Seq<Address>
    decreases transactions.len(),
{
    if transactions.len() == 0 {
        Seq::empty()
    } else {
        noted(senders_of(transactions.drop_last()), transactions.last().from)
    }
}

/// The recipients of `transactions`, each once, in the order in which they
/// first appear.
pub open spec fn recipients_of(transactions: Seq<Transaction>) -> Seq<Address>
    decreases transactions.len(),
{
    if transactions.len() == 0 {
        Seq::empty()
    } else {
        noted(recipients_of(transactions.drop_last()), transactions.last().to)
    }
}

/// The metrics of a batch processed at the ledger sequence `processed_at`:
/// the number of transactions; their capped volume; the volume divided by
/// their number, rounded towards zero; the smallest and the largest amount;
/// the numbers of different senders and recipients; and the capped fees. All
/// amounts of an empty batch are zero, and every count is capped at the
/// largest unsigned 32-bit number.
pub open spec fn batch_metrics_of(transactions: Seq<Transaction>, processed_at: u64) -> BatchMetrics {
    BatchMetrics {
        tx_count: capped_count(transactions.len()),
        total_volume: volume_total(transactions),
        avg_amount: if transactions.len() == 0 {
            0
        } else {
            trunc_div(volume_total(transactions) as int, transactions.len() as int) as i128
        },
        min_amount: smallest_amount(transactions),
        max_amount: largest_amount(transactions),
        unique_senders: capped_count(senders_of(transactions).len()),
        unique_recipients: capped_count(recipients_of(transactions).len()),
        total_fees: fee_total(transactions),
        processed_at,
    }
}

/// The smallest amount is an amount of the batch and none is smaller; the
/// largest amount is an amount of the batch and none is larger.
pub proof fn lemma_extremes(transactions: Seq<Transaction>)
    requires
        transactions.len() > 0,
    ensures
        forall|i: int|
            0 <= i < transactions.len() ==> smallest_amount(transactions) <= (
            #[trigger] transactions[i]).amount <= largest_amount(transactions),
        exists|i: int|
            0 <= i < transactions.len() && (#[trigger] transactions[i]).amount == smallest_amount(
                transactions,
            ),
        exists|i: int|
            0 <= i < transactions.len() && (#[trigger] transactions[i]).amount == largest_amount(
                transactions,
            ),
    decreases transactions.len(),
{
    if transactions.len() == 1 {
        assert(transactions[0].amount == smallest_amount(transactions));
        assert(transactions[0].amount == largest_amount(transactions));
    } else {
        let front = transactions.drop_last();
        lemma_extremes(front);
        let last = transactions.len() - 1;
        assert forall|i: int| 0 <= i < transactions.len() implies smallest_amount(transactions) <= (
        #[trigger] transactions[i]).amount <= largest_amount(transactions) by {
            if i < last {
                assert(front[i] == transactions[i]);
            }
        }
        let low = choose|i: int|
            0 <= i < front.len() && (#[trigger] front[i]).amount == smallest_amount(front);
        let high = choose|i: int|
            0 <= i < front.len() && (#[trigger] front[i]).amount == largest_amount(front);
        assert(front[low] == transactions[low]);
        assert(front[high] == transactions[high]);
        if transactions[last].amount < smallest_amount(front) {
            assert(transactions[last].amount == smallest_amount(transactions));
        } else {
            assert(transactions[low].amount == smallest_amount(transactions));
        }
        if transactions[last].amount > largest_amount(front) {
            assert(transactions[last].amount == largest_amount(transactions));
        } else {
            assert(transactions[high].amount == largest_amount(transactions));
        }
    }
}

/// No address is noted twice, and every one of them sent a transaction.
pub proof fn lemma_senders_are_distinct(transactions: Seq<Transaction>)
    ensures
        senders_of(transactions).no_duplicates(),
        senders_of(transactions).len() <= transactions.len(),
        forall|i: int|
            0 <= i < transactions.len() ==> senders_of(transactions).contains(
                (#[trigger] transactions[i]).from,
            ),
    decreases transactions.len(),
{
    if transactions.len() > 0 {
        let front = transactions.drop_last();
        lemma_senders_are_distinct(front);
        let seen = senders_of(front);
        let all = senders_of(transactions);
        assert forall|i: int| 0 <= i < transactions.len() implies all.contains(
            (#[trigger] transactions[i]).from,
        ) by {
            if i < transactions.len() - 1 {
                assert(front[i] == transactions[i]);
                let k = choose|k: int| 0 <= k < seen.len() && seen[k] == front[i].from;
                assert(all[k] == transactions[i].from);
            } else if seen.contains(transactions[i].from) {
            } else {
                assert(all[seen.len() as int] == transactions[i].from);
            }
        }
    }
}

/// No address is noted twice, and every one of them received a transaction.
pub proof fn lemma_recipients_are_distinct(transactions: Seq<Transaction>)
    ensures
        recipients_of(transactions).no_duplicates(),
        recipients_of(transactions).len() <= transactions.len(),
        forall|i: int|
            0 <= i < transactions.len() ==> recipients_of(transactions).contains(
                (#[trigger] transactions[i]).to,
            ),
    decreases transactions.len(),
{
    if transactions.len() > 0 {
        let front = transactions.drop_last();
        lemma_recipients_are_distinct(front);
        let seen = recipients_of(front);
        let all = recipients_of(transactions);
        assert forall|i: int| 0 <= i < transactions.len() implies all.contains(
            (#[trigger] transactions[i]).to,
        ) by {
            if i < transactions.len() - 1 {
                assert(front[i] == transactions[i]);
                let k = choose|k: int| 0 <= k < seen.len() && seen[k] == front[i].to;
                assert(all[k] == transactions[i].to);
            } else if seen.contains(transactions[i].to) {
            } else {
                assert(all[seen.len() as int] == transactions[i].to);
            }
        }
    }
}

/// Notes `address` in `seen` unless it is there already.
fn note(seen: &mut Vec<Address>, address: &Address)
    ensures
        final(seen)@ == noted(old(seen)@, *address),
{
    let n = seen.len();
    let mut i: usize = 0;
    while i < n
        invariant
            n == seen.len(),
            i <= n,
            seen@ == old(seen)@,
            forall|j: int| 0 <= j < i ==> seen@[j] != *address,
        decreases n - i,
    {
        if seen[i].id == address.id {
            return ;
        }
        i = i + 1;
    }
    seen.push(*address);
}

/// Computes aggregated metrics for a batch of transactions.
pub fn compute_batch_metrics(transactions: &Vec<Transaction>, processed_at: u64) -> (metrics:
    BatchMetrics)
    ensures
        metrics == batch_metrics_of(transactions@, processed_at),
{
    let n = transactions.len();
    if n == 0 {
        return BatchMetrics {
            tx_count: 0,
            total_volume: 0,
            avg_amount: 0,
            min_amount: 0,
            max_amount: 0,
            unique_senders: 0,
            unique_recipients: 0,
            total_fees: 0,
            processed_at,
        };
    }
    let mut total_volume: i128 = 0;
    let mut total_fees: i128 = 0;
    let mut min_amount: i128 = transactions[0].amount;
    let mut max_amount: i128 = transactions[0].amount;
    let mut senders: Vec<Address> = Vec::new();
    let mut recipients: Vec<Address> = Vec::new();
    let mut i: usize = 0;
    while i < n
        invariant
            n == transactions.len(),
            0 < n,
            i <= n,
            total_volume == volume_total(transactions@.take(i as int)),
            total_fees == fee_total(transactions@.take(i as int)),
            i > 0 ==> min_amount == smallest_amount(transactions@.take(i as int)),
            i > 0 ==> max_amount == largest_amount(transactions@.take(i as int)),
            i == 0 ==> min_amount == transactions@[0].amount && max_amount
                == transactions@[0].amount,
            senders@ == senders_of(transactions@.take(i as int)),
            recipients@ == recipients_of(transactions@.take(i as int)),
            senders@.len() <= i,
            recipients@.len() <= i,
        decreases n - i,
    {
        let tx = &transactions[i];
        proof {
            assert(transactions@.take(i + 1).drop_last() =~= transactions@.take(i as int));
            assert(transactions@.take(i + 1).last() == transactions@[i as int]);
        }
        total_volume = saturating_add(total_volume, tx.amount);
        total_fees = saturating_add(total_fees, tx.amount / 1000);
        if tx.amount < min_amount {
            min_amount = tx.amount;
        }
        if tx.amount > max_amount {
            max_amount = tx.amount;
        }
        note(&mut senders, &tx.from);
        note(&mut recipients, &tx.to);
        i = i + 1;
    }
    assert(transactions@.take(n as int) =~= transactions@);
    let avg_amount = total_volume / (n as i128);
    BatchMetrics {
        tx_count: cap_count(n),
        total_volume,
        avg_amount,
        min_amount,
        max_amount,
        unique_senders: cap_count(senders.len()),
        unique_recipients: cap_count(recipients.len()),
        total_fees,
        processed_at,
    }
}

/// The transactions whose amount is at least `threshold`, as pairs of
/// identifier and amount, in the order of the transactions.
pub open spec fn high_value_of(transactions: Seq<Transaction>, threshold: i128) -> Seq<(u64, i128)>
    decreases transactions.len(),
{
    if transactions.len() == 0 {
        Seq::empty()
    } else if transactions.last().amount >= threshold {
        high_value_of(transactions.drop_last(), threshold).push(
            (transactions.last().tx_id, transactions.last().amount),
        )
    } else {
        high_value_of(transactions.drop_last(), threshold)
    }
}

/// Identifies high-value transactions that exceed a threshold.
pub fn find_high_value_transactions(transactions: &Vec<Transaction>, threshold: i128) -> (found:
    Vec<(u64, i128)>)
    ensures
        found@ == high_value_of(transactions@, threshold),
{
    let n = transactions.len();
    let mut high_value: Vec<(u64, i128)> = Vec::new();
    let mut i: usize = 0;
    while i < n
        invariant
            n == transactions.len(),
            i <= n,
            high_value@ == high_value_of(transactions@.take(i as int), threshold),
        decreases n - i,
    {
        proof {
            assert(transactions@.take(i + 1).drop_last() =~= transactions@.take(i as int));
            assert(transactions@.take(i + 1).last() == transactions@[i as int]);
        }
        if transactions[i].amount >= threshold {
            high_value.push((transactions[i].tx_id, transactions[i].amount));
        }
        i = i + 1;
    }
    assert(transactions@.take(n as int) =~= transactions@);
    high_value
}

/// The verdict on a batch of transactions: it is not empty, it holds at most
/// `MAX_BATCH_SIZE` transactions, and no amount is negative.
pub open spec fn batch_verdict(transactions: Seq<Transaction>) -> Result<(), &'static str> {
    if transactions.len() == 0 {
        Err("Batch cannot be empty")
    } else if transactions.len() > MAX_BATCH_SIZE {
        Err("Batch exceeds maximum size")
    } else if exists|i: int| 0 <= i < transactions.len() && (#[trigger] transactions[i]).amount < 0 {
        Err("Transaction amount cannot be negative")
    } else {
        Ok(())
    }
}

/// Validates a batch of transactions before processing.
pub fn validate_batch(transactions: &Vec<Transaction>) -> (verdict: Result<(), &'static str>)
    ensures
        verdict == batch_verdict(transactions@),
{
    let count = transactions.len();
    if count == 0 {
        return Err("Batch cannot be empty");
    }
    if count > MAX_BATCH_SIZE as usize {
        return Err("Batch exceeds maximum size");
    }
    let mut i: usize = 0;
    while i < count
        invariant
            count == transactions.len(),
            0 < count <= MAX_BATCH_SIZE,
            i <= count,
            forall|j: int| 0 <= j < i ==> (#[trigger] transactions@[j]).amount >= 0,
        decreases count - i,
    {
        if transactions[i].amount < 0 {
            return Err("Transaction amount cannot be negative");
        }
        i = i + 1;
    }
    Ok(())
}

/// The low 32 bits of an amount.
pub open spec fn low_bits(amount: i128) -> u64 {
    ((amount as u64) & 0xFFFF_FFFF) as u64
}

/// The checksum of `transactions`: the exclusive or of all their identifiers
/// and of the low 32 bits of all their amounts.
pub open spec fn checksum_of(transactions: Seq<Transaction>) -> u64
    decreases transactions.len(),
{
    if transactions.len() == 0 {
        0
    } else {
        checksum_of(transactions.drop_last()) ^ transactions.last().tx_id ^ low_bits(
            transactions.last().amount,
        )
    }
}

/// Computes a simple checksum for batch integrity verification.
pub fn compute_batch_checksum(transactions: &Vec<Transaction>) -> (checksum: u64)
    ensures
        checksum == checksum_of(transactions@),
{
    let n = transactions.len();
    let mut checksum: u64 = 0;
    let mut i: usize = 0;
    while i < n
        invariant
            n == transactions.len(),
            i <= n,
            checksum == checksum_of(transactions@.take(i as int)),
        decreases n - i,
    {
        proof {
            assert(transactions@.take(i + 1).drop_last() =~= transactions@.take(i as int));
            assert(transactions@.take(i + 1).last() == transactions@[i as int]);
        }
        checksum = checksum ^ transactions[i].tx_id;
        let low: u64 = #[verifier::truncate]
        (transactions[i].amount as u64) & 0xFFFF_FFFF;
        checksum = checksum ^ low;
        i = i + 1;
    }
    assert(transactions@.take(n as int) =~= transactions@);
    checksum
}

} // verus!
