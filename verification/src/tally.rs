//! Counting and summing the outcomes of a batch.

use vstd::prelude::*;

verus! {

/// What a per-item result says of its item: whether it was carried out, and
/// how much it moved.
pub trait Outcome {
    /// Whether the item was carried out.
    spec fn succeeded(&self) -> bool;

    /// The amount the item moved; a failed item moves nothing.
    spec fn moved(&self) -> int;
}

/// The number of items of `results` that were carried out.
pub open spec fn successes<T: Outcome>(results: Seq<T>) -> nat
    decreases results.len(),
{
    if results.len() == 0 {
        0
    } else {
        successes(results.drop_last()) + if results.last().succeeded() {
            1nat
        } else {
            0nat
        }
    }
}

/// The number of items of `results` that failed.
pub open spec fn failures<T: Outcome>(results: Seq<T>) -> nat
    decreases results.len(),
{
    if results.len() == 0 {
        0
    } else {
        failures(results.drop_last()) + if results.last().succeeded() {
            0nat
        } else {
            1nat
        }
    }
}

/// The sum of the amounts moved by the items of `results` that were carried
/// out.
pub open spec fn volume<T: Outcome>(results: Seq<T>) -> int
    decreases results.len(),
{
    if results.len() == 0 {
        0
    } else {
        volume(results.drop_last()) + if results.last().succeeded() {
            results.last().moved()
        } else {
            0
        }
    }
}

/// `v` capped to the range of a signed 128-bit amount.
pub open spec fn saturate(v: int) -> i128 {
    if v > i128::MAX {
        i128::MAX
    } else if v < i128::MIN {
        i128::MIN
    } else {
        v as i128
    }
}

/// The count `n` as an unsigned 32-bit number, capped at the largest one.
pub open spec fn capped_count(n: nat) -> u32 {
    if n > u32::MAX {
        u32::MAX
    } else {
        n as u32
    }
}

/// Whether `v` is in the range of a signed 128-bit amount.
pub open spec fn fits(v: int) -> bool {
    i128::MIN <= v <= i128::MAX
}

/// The quotient of `a` by the positive `b`, rounded towards zero.
pub open spec fn trunc_div(a: int, b: int) -> int {
    if a >= 0 {
        a / b
    } else {
        -((-a) / b)
    }
}

/// Every item either succeeded or failed: the two counts add up to the number
/// of items.
pub proof fn lemma_counts_partition<T: Outcome>(results: Seq<T>)
    ensures
        successes(results) + failures(results) == results.len(),
    decreases results.len(),
{
    if results.len() > 0 {
        lemma_counts_partition(results.drop_last());
    }
}

/// Where the amounts moved add up to an amount, the capped total is their
/// sum exactly.
pub proof fn lemma_total_is_the_sum<T: Outcome>(results: Seq<T>)
    requires
        i128::MIN <= volume(results) <= i128::MAX,
    ensures
        saturate(volume(results)) == volume(results),
{
}

/// Appending one result adds it to the tallies.
pub proof fn lemma_tally_push<T: Outcome>(results: Seq<T>, r: T)
    ensures
        successes(results.push(r)) == successes(results) + if r.succeeded() {
            1nat
        } else {
            0nat
        },
        failures(results.push(r)) == failures(results) + if r.succeeded() {
            0nat
        } else {
            1nat
        },
        volume(results.push(r)) == volume(results) + if r.succeeded() {
            r.moved()
        } else {
            0
        },
{
    assert(results.push(r).drop_last() =~= results);
    assert(results.push(r).last() == r);
}

/// The sum of `a` and `b`, capped at the largest and the smallest amount
/// instead of wrapping.
pub fn saturating_add(a: i128, b: i128) -> (sum: i128)
    ensures
        sum == saturate(a + b),
{
    match a.checked_add(b) {
        Some(s) => s,
        None => if b > 0 {
            i128::MAX
        } else {
            i128::MIN
        },
    }
}

/// The product of `a` and `b`, capped at the largest and the smallest amount
/// instead of wrapping.
pub fn saturating_mul(a: i128, b: i128) -> (product: i128)
    ensures
        product == saturate(a * b),
{
    match a.checked_mul(b) {
        Some(p) => p,
        None => {
            if (a > 0) == (b > 0) {
                proof {
                    assert((a > 0 && b > 0) || (a < 0 && b < 0) ==> a * b > 0) by (nonlinear_arith);
                    assert(a == 0 || b == 0 ==> a * b == 0) by (nonlinear_arith);
                }
                i128::MAX
            } else {
                proof {
                    assert((a > 0 && b < 0) || (a < 0 && b > 0) ==> a * b < 0) by (nonlinear_arith);
                    assert(a == 0 || b == 0 ==> a * b == 0) by (nonlinear_arith);
                }
                i128::MIN
            }
        },
    }
}

/// The count `n` as an unsigned 32-bit number, capped at the largest one.
pub fn cap_count(n: usize) -> (count: u32)
    ensures
        count == capped_count(n as nat),
{
    if n > u32::MAX as usize {
        u32::MAX
    } else {
        n as u32
    }
}

} // verus!
