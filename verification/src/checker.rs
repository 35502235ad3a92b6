//! The collision sanity checker. A set of packed keys is unusable for
//! Zobrist hashing if some subset XORs to zero; the checker repeatedly draws
//! a random small subset of the key indices, sorts it into distinct
//! increasing order, and reports the first prefix of the subset whose
//! running XOR is zero, should one appear within the trial budget.

use vstd::prelude::*;

use crate::rng::RandomSource;

verus! {

/// The XOR of the keys of `nums` selected by the first `n` entries of
/// `comb`.
pub open spec fn xor_prefix(nums: Seq<u64>, comb: Seq<usize>, n: int) -> u64
    decreases n,
{
    if n <= 0 {
        0u64
    } else {
        xor_prefix(nums, comb, n - 1) ^ nums[comb[n - 1] as int]
    }
}

/// Walks the keys of `numbers` selected by `comb` in order, XORing them into
/// an accumulator, and returns the length of the first prefix whose XOR is
/// zero, or `None` when no prefix of `comb` XORs to zero.
pub fn check_no_zero_xor_for(numbers: &Vec<u64>, comb: &Vec<usize>) -> (r: Option<usize>)
    requires
        forall|i: int| 0 <= i < comb@.len() ==> #[trigger] comb@[i] < numbers@.len(),
    ensures
        match r {
            Some(c) => 1 <= c <= comb@.len() && xor_prefix(numbers@, comb@, c as int) == 0
                && forall|k: int| 1 <= k < c ==> xor_prefix(numbers@, comb@, k) != 0,
            None => forall|k: int| 1 <= k <= comb@.len() ==> xor_prefix(numbers@, comb@, k) != 0,
        },
{
    let mut xor: u64 = 0;
    let mut count: usize = 0;
    while count < comb.len()
        invariant
            count <= comb@.len(),
            forall|i: int| 0 <= i < comb@.len() ==> #[trigger] comb@[i] < numbers@.len(),
            xor == xor_prefix(numbers@, comb@, count as int),
            forall|k: int| 1 <= k <= count ==> xor_prefix(numbers@, comb@, k) != 0,
        decreases comb@.len() - count,
    {
        xor = xor ^ numbers[comb[count]];
        count = count + 1;
        if xor == 0 {
            return Some(count);
        }
    }
    None
}

/// A zero-XOR finding: the distinct increasing key indices of the sampled
/// subset, and the length of its first prefix that XORs to zero.
pub struct CollisionReport {
    pub indices: Vec<usize>,
    pub prefix_len: usize,
}

/// What a reported finding claims: the indices select keys of `nums`, they
/// are strictly increasing, and `prefix_len` is the first prefix of them
/// whose selected keys XOR to zero.
pub open spec fn genuine_collision(nums: Seq<u64>, rep: CollisionReport) -> bool {
    &&& forall|i: int| 0 <= i < rep.indices@.len() ==> #[trigger] rep.indices@[i] < nums.len()
    &&& forall|i: int, j: int| 0 <= i < j < rep.indices@.len() ==> rep.indices@[i]
        < rep.indices@[j]
    &&& 1 <= rep.prefix_len <= rep.indices@.len()
    &&& xor_prefix(nums, rep.indices@, rep.prefix_len as int) == 0
    &&& forall|k: int| 1 <= k < rep.prefix_len ==> xor_prefix(nums, rep.indices@, k) != 0
}

/// Sorts the values of `v` into strictly increasing order, keeping one copy
/// of each: the result holds exactly the values of `v`, each once, so a
/// nonempty input leaves a nonempty result.
fn sorted_distinct(v: &Vec<usize>) -> (r: Vec<usize>)
    ensures
        forall|i: int, j: int| 0 <= i < j < r@.len() ==> r@[i] < r@[j],
        forall|i: int| 0 <= i < r@.len() ==> v@.contains(#[trigger] r@[i]),
        forall|x: usize| v@.contains(x) ==> r@.contains(x),
        v@.len() > 0 ==> r@.len() > 0,
{
    let mut r: Vec<usize> = Vec::new();
    let mut i: usize = 0;
    while i < v.len()
        invariant
            i <= v@.len(),
            forall|a: int, b: int| 0 <= a < b < r@.len() ==> r@[a] < r@[b],
            forall|a: int| 0 <= a < r@.len() ==> v@.contains(#[trigger] r@[a]),
            forall|k: int| 0 <= k < i ==> r@.contains(#[trigger] v@[k]),
            i > 0 ==> r@.len() > 0,
        decreases v@.len() - i,
    {
        let x = v[i];
        let mut p: usize = 0;
        while p < r.len() && r[p] < x
            invariant
                p <= r@.len(),
                forall|a: int, b: int| 0 <= a < b < r@.len() ==> r@[a] < r@[b],
                forall|a: int| 0 <= a < p ==> r@[a] < x,
            decreases r@.len() - p,
        {
            p = p + 1;
        }
        let ghost old_r = r@;
        if p == r.len() {
            r.push(x);
            proof {
                assert forall|k: int| 0 <= k < i + 1 implies r@.contains(#[trigger] v@[k]) by {
                    if k < i {
                        let j = choose|j: int| 0 <= j < old_r.len() && old_r[j] == v@[k];
                        assert(r@[j] == v@[k]);
                    } else {
                        assert(r@[r@.len() - 1] == x);
                    }
                }
            }
        } else if x < r[p] {
            r.insert(p, x);
            proof {
                old_r.insert_ensures(p as int, x);
                assert forall|a: int, b: int| 0 <= a < b < r@.len() implies r@[a] < r@[b] by {
                    if b <= p {
                        assert(r@[a] == old_r[a] && (b == p ==> r@[b] == x));
                    } else if a >= p {
                        assert(r@[b] == old_r[b - 1] && (a == p ==> r@[a] == x));
                    } else {
                        assert(r@[a] == old_r[a] && r@[b] == old_r[b - 1]);
                        assert(old_r[a] < x);
                    }
                }
                assert forall|k: int| 0 <= k < i + 1 implies r@.contains(#[trigger] v@[k]) by {
                    if k < i {
                        let j = choose|j: int| 0 <= j < old_r.len() && old_r[j] == v@[k];
                        if j < p {
                            assert(r@[j] == v@[k]);
                        } else {
                            assert(r@[j + 1] == v@[k]);
                        }
                    } else {
                        assert(r@[p as int] == x);
                    }
                }
            }
        } else {
            proof {
                assert(r@[p as int] == x);
            }
        }
        i = i + 1;
    }
    proof {
        assert forall|x: usize| v@.contains(x) implies r@.contains(x) by {
            let k = choose|k: int| 0 <= k < v@.len() && v@[k] == x;
            assert(r@.contains(v@[k]));
        }
    }
    r
}

/// Runs `trials` random subset trials against the packed keys. Each trial
/// draws a random handful of key indices, reduces them to strictly
/// increasing distinct order, and scans the running XOR of the selected
/// keys. Any finding returned is a genuine zero-XOR prefix; exhausting the
/// trials without a finding is empirical evidence only, never a proof that
/// no zero-XOR subset exists.
pub fn random_sanity_check<R: RandomSource>(
    rng: &mut R,
    numbers: &Vec<u64>,
    trials: usize,
) -> (r: Option<CollisionReport>)
    requires
        1 <= numbers@.len() <= usize::MAX - 4,
    ensures
        r matches Some(rep) ==> genuine_collision(numbers@, rep),
{
    let len = numbers.len();
    let mut count: usize = 0;
    while count < trials
        invariant
            1 <= numbers@.len() <= usize::MAX - 4,
            len == numbers@.len(),
        decreases trials - count,
    {
        let extra = rng.next_usize() % len;
        let draws = extra + 4;
        let mut picks: Vec<usize> = Vec::new();
        let mut d: usize = 0;
        while d < draws
            invariant
                len == numbers@.len(),
                len >= 1,
                forall|k: int| 0 <= k < picks@.len() ==> #[trigger] picks@[k] < len,
                d <= draws,
                picks@.len() == d,
            decreases draws - d,
        {
            picks.push(rng.next_usize() % len);
            d = d + 1;
        }
        let comb = sorted_distinct(&picks);
        if comb.len() >= 1 {
            if let Some(prefix_len) = check_no_zero_xor_for(numbers, &comb) {
                return Some(CollisionReport { indices: comb, prefix_len });
            }
        }
        count = count + 1;
    }
    None
}

} // verus!
