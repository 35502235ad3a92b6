//! Bit-vector primitives: the Hamming distance between two bit-vectors, and
//! its basic laws (symmetry, and the bound by the common width with equality
//! to zero exactly on equal vectors).

use vstd::prelude::*;

verus! {

/// Number of positions, among the first `n`, where `a` and `b` differ.
pub open spec fn hamming_to(a: Seq<bool>, b: Seq<bool>, n: int) -> nat
    decreases n,
{
    if n <= 0 {
        0
    } else {
        hamming_to(a, b, n - 1) + (if a[n - 1] != b[n - 1] {
            1nat
        } else {
            0nat
        })
    }
}

/// Hamming distance: the number of positions where the two vectors differ,
/// over the positions both vectors have.
pub open spec fn hamming(a: Seq<bool>, b: Seq<bool>) -> nat {
    if a.len() <= b.len() {
        hamming_to(a, b, a.len() as int)
    } else {
        hamming_to(a, b, b.len() as int)
    }
}

/// Count of differing bit positions between `a` and `b`.
pub fn hamming_distance(a: &Vec<bool>, b: &Vec<bool>) -> (d: usize)
    ensures
        d == hamming(a@, b@),
{
    let n: usize = if a.len() <= b.len() {
        a.len()
    } else {
        b.len()
    };
    let mut d: usize = 0;
    let mut i: usize = 0;
    while i < n
        invariant
            i <= n,
            n == (if a@.len() <= b@.len() {
                a@.len()
            } else {
                b@.len()
            }),
            d == hamming_to(a@, b@, i as int),
            d <= i,
        decreases n - i,
    {
        if a[i] != b[i] {
            d = d + 1;
        }
        i = i + 1;
    }
    d
}

proof fn lemma_hamming_to_symmetric(a: Seq<bool>, b: Seq<bool>, n: int)
    ensures
        hamming_to(a, b, n) == hamming_to(b, a, n),
    decreases n,
{
    if n > 0 {
        lemma_hamming_to_symmetric(a, b, n - 1);
    }
}

/// The Hamming distance is symmetric in its two arguments.
pub proof fn lemma_hamming_symmetric(a: Seq<bool>, b: Seq<bool>)
    ensures
        hamming(a, b) == hamming(b, a),
{
    if a.len() <= b.len() {
        lemma_hamming_to_symmetric(a, b, a.len() as int);
    } else {
        lemma_hamming_to_symmetric(a, b, b.len() as int);
    }
}

proof fn lemma_hamming_to_le(a: Seq<bool>, b: Seq<bool>, n: int)
    ensures
        hamming_to(a, b, n) <= (if n <= 0 {
            0int
        } else {
            n
        }),
    decreases n,
{
    if n > 0 {
        lemma_hamming_to_le(a, b, n - 1);
    }
}

proof fn lemma_hamming_to_zero(a: Seq<bool>, b: Seq<bool>, n: int)
    ensures
        hamming_to(a, b, n) == 0 <==> (forall|i: int| 0 <= i < n ==> a[i] == b[i]),
    decreases n,
{
    if n > 0 {
        lemma_hamming_to_zero(a, b, n - 1);
    }
}

/// For vectors of one width, the Hamming distance never exceeds the width,
/// and it is zero exactly when the vectors are equal.
pub proof fn lemma_hamming_bounds(a: Seq<bool>, b: Seq<bool>)
    requires
        a.len() == b.len(),
    ensures
        hamming(a, b) <= a.len(),
        hamming(a, b) == 0 <==> a == b,
{
    lemma_hamming_to_le(a, b, a.len() as int);
    lemma_hamming_to_zero(a, b, a.len() as int);
    if hamming(a, b) == 0 {
        assert(a =~= b);
    }
}

} // verus!
