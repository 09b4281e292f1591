//! Combining the workers' results into the result of a search.
use vstd::prelude::*;

use crate::worker::{empty_candidate, Candidate};

verus! {

/// The result of a search over the workers' results, taken in order: the
/// first candidate of the greatest difficulty, or an empty candidate at
/// nonce zero when no difficulty exceeds zero.
pub fn aggregate(results: &Vec<Candidate>) -> (r: Candidate)
    ensures
        forall|i: int| 0 <= i < results.len() ==> results[i].difficulty <= r.difficulty,
        r.difficulty == 0 ==> r@ == empty_candidate(0),
        r.difficulty > 0 ==> exists|k: int|
            0 <= k < results.len() && #[trigger] results[k]@ == r@ && forall|j: int|
                0 <= j < k ==> #[trigger] results[j].difficulty < r.difficulty,
{
    let mut best = Candidate::empty(0);
    let ghost mut k: int = -1;
    let mut i: usize = 0;
    while i < results.len()
        invariant
            i <= results.len(),
            forall|j: int| 0 <= j < i ==> results[j].difficulty <= best.difficulty,
            best.difficulty == 0 ==> best@ == empty_candidate(0),
            best.difficulty > 0 ==> 0 <= k < i && results[k]@ == best@,
            best.difficulty > 0 ==> forall|j: int| 0 <= j < k ==> results[j].difficulty < best.difficulty,
        decreases results.len() - i,
    {
        let c = results[i];
        if c.difficulty > best.difficulty {
            best = c;
            proof {
                k = i as int;
            }
        }
        i = i + 1;
    }
    if best.difficulty > 0 {
        assert(results[k]@ == best@);
    }
    best
}

} // verus!
