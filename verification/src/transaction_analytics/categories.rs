//! The breakdown of a batch of transactions by category.

use crate::tally::{saturate, saturating_add, saturating_mul, trunc_div};
use crate::transaction_analytics::analytics::fee_of;
use crate::transaction_analytics::types::{CategoryMetrics, Transaction};
use vstd::prelude::*;

verus! {

/// The place of the first tally of `tallies` that is for `category`, if there
/// is one.
pub open spec fn tally_place(tallies: Seq<CategoryMetrics>, category: Seq<char>) -> Option<int>
    decreases tallies.len(),
{
    if tallies.len() == 0 {
        None
    } else {
        match tally_place(tallies.drop_last(), category) {
            Some(k) => Some(k),
            None => if tallies.last().category@ == category {
                Some(tallies.len() - 1)
            } else {
                None
            },
        }
    }
}

/// The tally with one more transaction of the given amount.
pub open spec fn with_amount(tally: CategoryMetrics, amount: i128) -> CategoryMetrics {
    CategoryMetrics {
        category: tally.category,
        tx_count: if tally.tx_count < u32::MAX {
            (tally.tx_count + 1) as u32
        } else {
            u32::MAX
        },
        total_volume: saturate(tally.total_volume + amount),
        total_fees: saturate(tally.total_fees + fee_of(amount)),
        volume_percentage_bps: tally.volume_percentage_bps,
    }
}

/// The first tally of a category: one transaction of the given amount.
pub open spec fn first_tally(category: String, amount: i128) -> CategoryMetrics {
    CategoryMetrics {
        category,
        tx_count: 1,
        total_volume: amount,
        total_fees: fee_of(amount) as i128,
        volume_percentage_bps: 0,
    }
}

/// The tallies after one more transaction: it is added to the tally of its
/// category, or starts a tally at the end where its category has none.
pub open spec fn tallied(tallies: Seq<CategoryMetrics>, tx: Transaction) -> Seq<CategoryMetrics> {
    match tally_place(tallies, tx.category@) {
        Some(k) => tallies.update(k, with_amount(tallies[k], tx.amount)),
        None => tallies.push(first_tally(tx.category, tx.amount)),
    }
}

/// The tallies of `transactions`: one per category, in the order in which the
/// categories first appear, each with the number, the capped volume and the
/// capped fees of its transactions.
pub open spec fn tallies_of(transactions: Seq<Transaction>) -> Seq<CategoryMetrics>
    decreases transactions.len(),
{
    if transactions.len() == 0 {
        Seq::empty()
    } else {
        tallied(tallies_of(transactions.drop_last()), transactions.last())
    }
}

/// The share of `volume` in `total`, in basis points (10000 is the whole):
/// nothing where the total is not positive; else the capped ten-thousandfold
/// of the volume divided by the total, rounded towards zero, and kept within
/// the range of an unsigned 32-bit number.
pub open spec fn share_bps(volume: i128, total: i128) -> u32 {
    if total <= 0 {
        0
    } else {
        let share = trunc_div(saturate(volume * 10000) as int, total as int);
        if share < 0 {
            0
        } else if share > u32::MAX {
            u32::MAX
        } else {
            share as u32
        }
    }
}

/// The tally with its share in `total_volume`.
pub open spec fn with_share(tally: CategoryMetrics, total_volume: i128) -> CategoryMetrics {
    CategoryMetrics {
        category: tally.category,
        tx_count: tally.tx_count,
        total_volume: tally.total_volume,
        total_fees: tally.total_fees,
        volume_percentage_bps: share_bps(tally.total_volume, total_volume),
    }
}

/// The metrics of the categories of `transactions`: their tallies, each with
/// its share in `total_volume`.
pub open spec fn category_metrics_of(transactions: Seq<Transaction>, total_volume: i128) -> Seq<
    CategoryMetrics,
> {
    Seq::new(
        tallies_of(transactions).len(),
        |i: int| with_share(tallies_of(transactions)[i], total_volume),
    )
}

/// `tally_place` gives the first matching place, and gives none only where no
/// tally matches.
pub proof fn lemma_tally_place(tallies: Seq<CategoryMetrics>, category: Seq<char>)
    ensures
        match tally_place(tallies, category) {
            Some(k) => 0 <= k < tallies.len() && tallies[k].category@ == category && forall|j: int|
                0 <= j < k ==> (#[trigger] tallies[j]).category@ != category,
            None => forall|j: int|
                0 <= j < tallies.len() ==> (#[trigger] tallies[j]).category@ != category,
        },
    decreases tallies.len(),
{
    if tallies.len() > 0 {
        lemma_tally_place(tallies.drop_last(), category);
        assert forall|j: int| 0 <= j < tallies.len() - 1 implies tallies.drop_last()[j]
            == tallies[j] by {}
    }
}

/// Finds the place of the tally for `category`.
fn find_tally(tallies: &Vec<CategoryMetrics>, category: &String) -> (place: Option<usize>)
    ensures
        match place {
            Some(k) => tally_place(tallies@, category@) == Some(k as int) && k < tallies.len(),
            None => tally_place(tallies@, category@) is None,
        },
{
    let n = tallies.len();
    let mut i: usize = 0;
    while i < n
        invariant
            n == tallies.len(),
            i <= n,
            forall|j: int| 0 <= j < i ==> (#[trigger] tallies@[j]).category@ != category@,
        decreases n - i,
    {
        if tallies[i].category == *category {
            proof {
                lemma_tally_place(tallies@, category@);
            }
            return Some(i);
        }
        i = i + 1;
    }
    proof {
        lemma_tally_place(tallies@, category@);
    }
    None
}

/// Computes the share of a volume in a total, in basis points.
fn share_of(volume: i128, total: i128) -> (bps: u32)
    ensures
        bps == share_bps(volume, total),
{
    if total <= 0 {
        return 0;
    }
    let share = saturating_mul(volume, 10000) / total;
    if share < 0 {
        0
    } else if share > u32::MAX as i128 {
        u32::MAX
    } else {
        share as u32
    }
}

/// Computes category-specific metrics for analytics breakdown.
///
/// Groups transactions by category and computes volume distribution.
pub fn compute_category_metrics(transactions: &Vec<Transaction>, total_volume: i128) -> (metrics:
    Vec<CategoryMetrics>)
    ensures
        metrics@ == category_metrics_of(transactions@, total_volume),
{
    let n = transactions.len();
    let mut tallies: Vec<CategoryMetrics> = Vec::new();
    let mut i: usize = 0;
    while i < n
        invariant
            n == transactions.len(),
            i <= n,
            tallies@ == tallies_of(transactions@.take(i as int)),
        decreases n - i,
    {
        let tx = &transactions[i];
        proof {
            assert(transactions@.take(i + 1).drop_last() =~= transactions@.take(i as int));
            assert(transactions@.take(i + 1).last() == transactions@[i as int]);
        }
        match find_tally(&tallies, &tx.category) {
            Some(k) => {
                let updated = CategoryMetrics {
                    category: tallies[k].category.clone(),
                    tx_count: if tallies[k].tx_count < u32::MAX {
                        tallies[k].tx_count + 1
                    } else {
                        u32::MAX
                    },
                    total_volume: saturating_add(tallies[k].total_volume, tx.amount),
                    total_fees: saturating_add(tallies[k].total_fees, tx.amount / 1000),
                    volume_percentage_bps: tallies[k].volume_percentage_bps,
                };
                tallies.set(k, updated);
            },
            None => {
                tallies.push(
                    CategoryMetrics {
                        category: tx.category.clone(),
                        tx_count: 1,
                        total_volume: tx.amount,
                        total_fees: tx.amount / 1000,
                        volume_percentage_bps: 0,
                    },
                );
            },
        }
        i = i + 1;
    }
    assert(transactions@.take(n as int) =~= transactions@);
    let m = tallies.len();
    let mut result: Vec<CategoryMetrics> = Vec::new();
    let mut j: usize = 0;
    while j < m
        invariant
            m == tallies.len(),
            j <= m,
            tallies@ == tallies_of(transactions@),
            result@.len() == j,
            forall|k: int| 0 <= k < j ==> result@[k] == with_share(tallies@[k], total_volume),
        decreases m - j,
    {
        result.push(
            CategoryMetrics {
                category: tallies[j].category.clone(),
                tx_count: tallies[j].tx_count,
                total_volume: tallies[j].total_volume,
                total_fees: tallies[j].total_fees,
                volume_percentage_bps: share_of(tallies[j].total_volume, total_volume),
            },
        );
        j = j + 1;
    }
    assert(result@ =~= category_metrics_of(transactions@, total_volume));
    result
}

} // verus!
