//! The key generator: rejection sampling of fixed-width random bit-vectors.
//! A candidate joins the key set only if its Hamming distance to every key
//! already accepted lies within the configured inclusive band, so the set
//! keeps the pairwise-distance invariant at every step.

use vstd::prelude::*;

use crate::bits::hamming;
use crate::bits::hamming_distance;
use crate::bits::lemma_hamming_bounds;
use crate::bits::lemma_hamming_symmetric;
use crate::rng::RandomSource;

verus! {

/// The mathematical key set: each key of the vector as its bit sequence.
pub open spec fn key_views(keys: Seq<Vec<bool>>) -> Seq<Seq<bool>> {
    keys.map_values(|k: Vec<bool>| k@)
}

/// Every key of `keys` is exactly `bits` bits wide.
pub open spec fn uniform_width(keys: Seq<Seq<bool>>, bits: int) -> bool {
    forall|i: int| 0 <= i < keys.len() ==> #[trigger] keys[i].len() == bits
}

/// Every pair of distinct keys lies within the inclusive Hamming-distance
/// band `[dmin, dmax]`.
pub open spec fn pairwise_in_band(keys: Seq<Seq<bool>>, dmin: int, dmax: int) -> bool {
    forall|i: int, j: int|
        0 <= i < keys.len() && 0 <= j < keys.len() && i != j ==> dmin <= #[trigger] hamming(
            keys[i],
            keys[j],
        ) <= dmax
}

/// One uniformly random bit-vector of `bits` bits.
pub fn gen_random<R: RandomSource>(rng: &mut R, bits: usize) -> (r: Vec<bool>)
    ensures
        r@.len() == bits,
{
    let mut r: Vec<bool> = Vec::new();
    let mut i: usize = 0;
    while i < bits
        invariant
            i <= bits,
            r@.len() == i,
        decreases bits - i,
    {
        r.push(rng.next_bool());
        i = i + 1;
    }
    r
}

/// Whether `cand` keeps a Hamming distance within `[dmin, dmax]` to every
/// key of `keys`; trivially true of an empty set.
pub fn candidate_ok(keys: &Vec<Vec<bool>>, cand: &Vec<bool>, dmin: usize, dmax: usize) -> (ok:
    bool)
    ensures
        ok == forall|i: int|
            0 <= i < keys@.len() ==> dmin <= #[trigger] hamming(keys@[i]@, cand@) <= dmax,
{
    let mut i: usize = 0;
    while i < keys.len()
        invariant
            i <= keys@.len(),
            forall|j: int| 0 <= j < i ==> dmin <= #[trigger] hamming(keys@[j]@, cand@) <= dmax,
        decreases keys@.len() - i,
    {
        let d = hamming_distance(&keys[i], cand);
        if d < dmin || d > dmax {
            return false;
        }
        i = i + 1;
    }
    true
}

/// One step of rejection sampling: draw a random `bits`-bit candidate and
/// append it to `keys` only if it keeps the pairwise band. The set's two
/// invariants — uniform width and pairwise distances within the band — hold
/// afterwards, the accepted keys are never changed, and exactly one key is
/// appended when the candidate is accepted. Acceptance is owed whenever the
/// draw cannot decide it: an empty set trivially accepts the first
/// candidate, and a band that spans all of `[0, bits]` accepts every
/// candidate.
pub fn try_accept_candidate<R: RandomSource>(
    rng: &mut R,
    keys: &mut Vec<Vec<bool>>,
    bits: usize,
    dmin: usize,
    dmax: usize,
) -> (accepted: bool)
    requires
        uniform_width(key_views(old(keys)@), bits as int),
        pairwise_in_band(key_views(old(keys)@), dmin as int, dmax as int),
    ensures
        uniform_width(key_views(final(keys)@), bits as int),
        pairwise_in_band(key_views(final(keys)@), dmin as int, dmax as int),
        accepted ==> final(keys)@.len() == old(keys)@.len() + 1,
        accepted ==> key_views(final(keys)@).take(old(keys)@.len() as int) == key_views(
            old(keys)@,
        ),
        !accepted ==> key_views(final(keys)@) == key_views(old(keys)@),
        old(keys)@.len() == 0 ==> accepted,
        dmin == 0 && bits <= dmax ==> accepted,
{
    let ghost old_views: Seq<Seq<bool>> = key_views(keys@);
    let cand = gen_random(rng, bits);
    let ok = candidate_ok(keys, &cand, dmin, dmax);
    proof {
        if dmin == 0 && bits <= dmax {
            assert forall|i: int| 0 <= i < keys@.len() implies dmin <= #[trigger] hamming(
                keys@[i]@,
                cand@,
            ) <= dmax by {
                assert(key_views(keys@)[i] == keys@[i]@);
                assert(key_views(keys@)[i].len() == bits);
                lemma_hamming_bounds(keys@[i]@, cand@);
            }
        }
    }
    if ok {
        keys.push(cand);
        proof {
            let new_views = key_views(keys@);
            let n = old_views.len() as int;
            assert(new_views =~= old_views.push(cand@));
            assert forall|i: int, j: int|
                0 <= i < new_views.len() && 0 <= j < new_views.len() && i != j implies dmin
                <= #[trigger] hamming(new_views[i], new_views[j]) <= dmax by {
                if i == n {
                    lemma_hamming_symmetric(new_views[j], cand@);
                }
            }
            assert(new_views.take(n) =~= old_views);
        }
        true
    } else {
        false
    }
}

} // verus!
