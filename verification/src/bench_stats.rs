//! Summary statistics of benchmark samples: the median and the 90th and 99th
//! percentiles of a set of measured durations, in nanoseconds.
use vstd::prelude::*;

verus! {

/// `s` is in ascending order.
pub open spec fn ascending(s: Seq<u128>) -> bool {
    forall|i: int, j: int| 0 <= i <= j < s.len() ==> s[i] <= s[j]
}

/// The position, in a sorted list of `len` samples, of the `p`-th percentile:
/// `len * p / 100`, rounded down.
pub open spec fn percentile_index(len: nat, p: nat) -> int {
    (len * p / 100) as int
}

/// Wraps `slice::sort` on `u128` samples. As the std documentation states,
/// the samples afterwards are the same values in ascending order.
#[verifier::external_body]
fn sort_samples(values: &mut Vec<u128>)
    ensures
        final(values)@.to_multiset() == old(values)@.to_multiset(),
        ascending(final(values)@),
{
    values.sort();
}

/// Sorts the samples and returns their median, 90th and 99th percentile:
/// the samples at positions `len / 2`, `len * 90 / 100` and `len * 99 / 100`
/// of the sorted list.
pub fn calculate_percentiles(values: &mut Vec<u128>) -> (r: (u128, u128, u128))
    requires
        old(values)@.len() > 0,
        old(values)@.len() * 99 <= usize::MAX,
    ensures
        final(values)@.to_multiset() == old(values)@.to_multiset(),
        ascending(final(values)@),
        final(values)@.len() == old(values)@.len(),
        r.0 == final(values)@[(final(values)@.len() / 2) as int],
        r.1 == final(values)@[percentile_index(final(values)@.len(), 90)],
        r.2 == final(values)@[percentile_index(final(values)@.len(), 99)],
        r.0 <= r.1 <= r.2,
{
    proof {
        old(values)@.to_multiset_ensures();
    }
    sort_samples(values);
    proof {
        values@.to_multiset_ensures();
    }
    let len = values.len();
    assert(len * 90 / 100 < len && len / 2 <= len * 90 / 100 && len * 90 / 100 <= len * 99 / 100
        && len * 99 / 100 < len) by (nonlinear_arith)
        requires
            len > 0,
    ;
    let p50 = values[len / 2];
    let p90 = values[(len * 90) / 100];
    let p99 = values[(len * 99) / 100];
    (p50, p90, p99)
}

} // verus!
