//! The synthetic workload: a singly linked chain of `u64` keys.
//!
//! For a chain of length `size`, key `i` (for `i < size`) holds the value
//! `i + 1`, the key of the next link, and key `size` holds the sentinel `0`
//! that terminates a traversal.

use vstd::prelude::*;

verus! {

/// The value the workload assigns to key `i`: the next key in the chain,
/// or the sentinel `0` at the last key.
pub open spec fn chain_value(i: u64, size: u64) -> u64 {
    if i < size {
        (i + 1) as u64
    } else {
        0
    }
}

/// The keys a full traversal of a chain of length `size` visits, in order:
/// `1, 2, ..., size`.
pub open spec fn chain_keys(size: u64) -> Seq<u64> {
    Seq::new(size as nat, |i: int| (i + 1) as u64)
}

/// A successful traversal visits each key `1..=size` exactly once: key
/// `k` stands at index `k - 1` of the visited sequence and nowhere else.
pub proof fn lemma_chain_keys_visit_each_once(size: u64, k: u64)
    requires
        1 <= k <= size,
    ensures
        chain_keys(size)[k - 1] == k,
        forall|j: int| 0 <= j < size && j != k - 1 ==> chain_keys(size)[j] != k,
{
}

/// Produce the whole workload for a chain of length `size`: the pairs
/// `(0, 1), (1, 2), ..., (size - 1, size), (size, 0)`.
pub fn generate_workload(size: u64) -> (r: Vec<(u64, u64)>)
    requires
        size + 1 <= usize::MAX,
    ensures
        r@.len() == size + 1,
        forall|i: int| 0 <= i <= size ==> r@[i] == (i as u64, chain_value(i as u64, size)),
{
    let mut out: Vec<(u64, u64)> = Vec::new();
    let mut i: u64 = 0;
    while i < size
        invariant
            i <= size,
            size + 1 <= usize::MAX,
            out@.len() == i,
            forall|j: int| 0 <= j < i ==> out@[j] == (j as u64, chain_value(j as u64, size)),
        decreases size - i,
    {
        out.push((i, i + 1));
        i = i + 1;
    }
    out.push((size, 0));
    out
}

}
