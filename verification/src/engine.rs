//! The reflex engine's choice of a match: of the stored reflexes whose
//! cosine similarity to the intent reaches the match threshold, the most
//! similar one, the earliest among equals.  Similarities are computed in
//! floating point outside the library and given here by their bit patterns.

use vstd::prelude::*;
use crate::crdt::at_least;
use crate::ieee::{bits_lt, f64_lt, is_nan};

verus! {

/// `0.3`: the minimum cosine similarity for a match.
pub const MATCH_THRESHOLD_BITS: u64 = 0x3FD3_3333_3333_3333;

/// A similarity reaches the match threshold (NaN never does).
pub open spec fn qualifies(sim: u64) -> bool {
    !is_nan(sim) && !f64_lt(sim, MATCH_THRESHOLD_BITS)
}

/// `k` is the reflex chosen among similarities `sims`: it qualifies, none is
/// more similar, and every qualifying one before it is less similar.
pub open spec fn is_best_match(sims: Seq<u64>, k: int) -> bool {
    &&& 0 <= k < sims.len()
    &&& qualifies(sims[k])
    &&& forall|j: int| 0 <= j < sims.len() && qualifies(#[trigger] sims[j]) ==> !f64_lt(sims[k], sims[j])
    &&& forall|j: int| 0 <= j < k && qualifies(#[trigger] sims[j]) ==> f64_lt(sims[j], sims[k])
}

/// The index of the best-matching reflex, given the similarity of each
/// stored reflex to the intent in storage order; `None` when no similarity
/// reaches the threshold.
pub fn best_match(similarity_bits: &Vec<u64>) -> (r: Option<usize>)
    ensures
        r is None <==> forall|i: int| 0 <= i < similarity_bits@.len() ==> !qualifies(#[trigger] similarity_bits@[i]),
        r matches Some(k) ==> is_best_match(similarity_bits@, k as int),
{
    let ghost sims = similarity_bits@;
    let mut best: Option<usize> = None;
    let mut i: usize = 0;
    while i < similarity_bits.len()
        invariant
            sims == similarity_bits@,
            i <= sims.len(),
            best is None <==> forall|j: int| 0 <= j < i ==> !qualifies(#[trigger] sims[j]),
            best matches Some(k) ==> {
                &&& k < i
                &&& qualifies(sims[k as int])
                &&& forall|j: int| 0 <= j < i && qualifies(#[trigger] sims[j]) ==> !f64_lt(sims[k as int], sims[j])
                &&& forall|j: int| 0 <= j < k && qualifies(#[trigger] sims[j]) ==> f64_lt(sims[j], sims[k as int])
            },
        decreases sims.len() - i,
    {
        let s = similarity_bits[i];
        if at_least(s, MATCH_THRESHOLD_BITS) {
            match best {
                Some(k) => {
                    if bits_lt(similarity_bits[k], s) {
                        best = Some(i);
                    }
                },
                None => {
                    best = Some(i);
                },
            }
        }
        i += 1;
    }
    best
}

} // verus!
