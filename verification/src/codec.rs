//! Renderings of a bit-vector: as a binary string, as a hexadecimal string
//! (left-padded with zero bits to a whole number of nibbles), and packed into
//! a `u64`; and the parse of a binary string back into a bit-vector.

use vstd::prelude::*;
use vstd::arithmetic::power2::lemma2_to64;
use vstd::arithmetic::power2::lemma2_to64_rest;
use vstd::arithmetic::power2::lemma_pow2_strictly_increases;
use vstd::arithmetic::power2::lemma_pow2_unfold;
use vstd::arithmetic::power2::pow2;
use vstd::string::StrSliceExecFns;

verus! {

/// The character that renders one bit.
pub open spec fn bit_char(b: bool) -> char {
    if b {
        '1'
    } else {
        '0'
    }
}

/// The binary rendering of a bit sequence, bit by bit.
pub open spec fn base2_chars(s: Seq<bool>) -> Seq<char> {
    s.map_values(|b: bool| bit_char(b))
}

/// The bit sequence a character sequence parses to: `'1'` is the set bit,
/// every other character the clear bit.
pub open spec fn strbools_spec(s: Seq<char>) -> Seq<bool> {
    s.map_values(|c: char| c == '1')
}

/// Number of zero bits the hexadecimal rendering puts in front, so that the
/// padded vector is a whole number of nibbles.
pub open spec fn pad_len(n: int) -> int {
    (4 - n % 4) % 4
}

/// The bit sequence with its left zero padding.
pub open spec fn padded(s: Seq<bool>) -> Seq<bool> {
    Seq::new(pad_len(s.len() as int) as nat, |i: int| false) + s
}

pub open spec fn bit_val(b: bool) -> int {
    if b {
        1
    } else {
        0
    }
}

/// The value of the `j`-th nibble (4 bits, most significant first) of `s`.
pub open spec fn nibble_val(s: Seq<bool>, j: int) -> int {
    8 * bit_val(s[4 * j]) + 4 * bit_val(s[4 * j + 1]) + 2 * bit_val(s[4 * j + 2]) + bit_val(
        s[4 * j + 3],
    )
}

/// The lower-case hexadecimal digit of a value below 16.
pub open spec fn hex_char(d: int) -> char {
    if d == 0 {
        '0'
    } else if d == 1 {
        '1'
    } else if d == 2 {
        '2'
    } else if d == 3 {
        '3'
    } else if d == 4 {
        '4'
    } else if d == 5 {
        '5'
    } else if d == 6 {
        '6'
    } else if d == 7 {
        '7'
    } else if d == 8 {
        '8'
    } else if d == 9 {
        '9'
    } else if d == 10 {
        'a'
    } else if d == 11 {
        'b'
    } else if d == 12 {
        'c'
    } else if d == 13 {
        'd'
    } else if d == 14 {
        'e'
    } else {
        'f'
    }
}

/// The hexadecimal rendering of a bit sequence: one digit per nibble of the
/// zero-padded sequence.
pub open spec fn base16_chars(s: Seq<bool>) -> Seq<char> {
    Seq::new((padded(s).len() / 4) as nat, |j: int| hex_char(nibble_val(padded(s), j)))
}

/// The unsigned value of a bit sequence, most significant bit first.
pub open spec fn bits_value(s: Seq<bool>) -> nat
    decreases s.len(),
{
    if s.len() == 0 {
        0
    } else {
        2 * bits_value(s.drop_last()) + (if s.last() {
            1nat
        } else {
            0nat
        })
    }
}

/// Relies on std's String::push: appends the one character to the string.
#[verifier::external_body]
fn push_char(s: &mut String, c: char)
    ensures
        final(s)@ == old(s)@.push(c),
{
    s.push(c)
}

/// The binary rendering of `bits`: one `'1'` or `'0'` per bit, in order.
pub fn as_base_2(bits: &Vec<bool>) -> (r: String)
    ensures
        r@ == base2_chars(bits@),
{
    let mut r = String::new();
    let mut i: usize = 0;
    while i < bits.len()
        invariant
            i <= bits@.len(),
            r@.len() == i,
            forall|k: int| 0 <= k < i ==> r@[k] == bit_char(bits@[k]),
        decreases bits@.len() - i,
    {
        if bits[i] {
            push_char(&mut r, '1');
        } else {
            push_char(&mut r, '0');
        }
        i = i + 1;
    }
    proof {
        assert(r@ =~= base2_chars(bits@));
    }
    r
}

/// Parses a string into a bit-vector: `'1'` parses to the set bit, every
/// other character to the clear bit.
pub fn strbools(st: &str) -> (r: Vec<bool>)
    ensures
        r@ == strbools_spec(st@),
{
    let n = st.unicode_len();
    let mut r: Vec<bool> = Vec::new();
    let mut i: usize = 0;
    while i < n
        invariant
            n == st@.len(),
            i <= n,
            r@.len() == i,
            forall|k: int| 0 <= k < i ==> r@[k] == (st@[k] == '1'),
        decreases n - i,
    {
        let c = st.get_char(i);
        r.push(c == '1');
        i = i + 1;
    }
    proof {
        assert(r@ =~= strbools_spec(st@));
    }
    r
}

/// Rendering a bit-vector in binary and parsing the string back yields the
/// original vector, whatever its length.
pub proof fn lemma_base2_round_trip(s: Seq<bool>)
    ensures
        strbools_spec(base2_chars(s)) == s,
{
    assert(strbools_spec(base2_chars(s)) =~= s);
}

fn hex_digit_char(d: u8) -> (c: char)
    requires
        d < 16,
    ensures
        c == hex_char(d as int),
{
    if d == 0 {
        '0'
    } else if d == 1 {
        '1'
    } else if d == 2 {
        '2'
    } else if d == 3 {
        '3'
    } else if d == 4 {
        '4'
    } else if d == 5 {
        '5'
    } else if d == 6 {
        '6'
    } else if d == 7 {
        '7'
    } else if d == 8 {
        '8'
    } else if d == 9 {
        '9'
    } else if d == 10 {
        'a'
    } else if d == 11 {
        'b'
    } else if d == 12 {
        'c'
    } else if d == 13 {
        'd'
    } else if d == 14 {
        'e'
    } else {
        'f'
    }
}

/// The hexadecimal rendering of `bits`: the vector is left-padded with zero
/// bits to a whole number of nibbles, and each nibble becomes one lower-case
/// hexadecimal digit.
pub fn as_base_16(bits: &Vec<bool>) -> (r: String)
    ensures
        r@ == base16_chars(bits@),
{
    let pad: usize = (4 - bits.len() % 4) % 4;
    let mut nv: Vec<bool> = Vec::new();
    let mut i: usize = 0;
    while i < pad
        invariant
            i <= pad,
            nv@.len() == i,
            forall|k: int| 0 <= k < i ==> !nv@[k],
        decreases pad - i,
    {
        nv.push(false);
        i = i + 1;
    }
    i = 0;
    while i < bits.len()
        invariant
            i <= bits@.len(),
            nv@.len() == pad + i,
            forall|k: int| 0 <= k < pad ==> !nv@[k],
            forall|k: int| 0 <= k < i ==> nv@[pad + k] == bits@[k],
        decreases bits@.len() - i,
    {
        nv.push(bits[i]);
        i = i + 1;
    }
    proof {
        assert(nv@ =~= padded(bits@));
    }
    let groups: usize = nv.len() / 4;
    let mut r = String::new();
    let mut j: usize = 0;
    while j < groups
        invariant
            j <= groups,
            nv@ == padded(bits@),
            groups == nv@.len() / 4,
            nv@.len() == 4 * groups,
            nv@.len() <= usize::MAX,
            r@.len() == j,
            forall|k: int| 0 <= k < j ==> r@[k] == base16_chars(bits@)[k],
        decreases groups - j,
    {
        let d: u8 = (if nv[4 * j] {
            8
        } else {
            0
        }) + (if nv[4 * j + 1] {
            4
        } else {
            0
        }) + (if nv[4 * j + 2] {
            2
        } else {
            0
        }) + (if nv[4 * j + 3] {
            1
        } else {
            0
        });
        let c = hex_digit_char(d);
        push_char(&mut r, c);
        j = j + 1;
    }
    proof {
        assert(r@ =~= base16_chars(bits@));
    }
    r
}

/// The value of a bit-vector of at most 64 bits, packed into a `u64`.
pub fn pack_u64(bits: &Vec<bool>) -> (v: u64)
    requires
        bits@.len() <= 64,
    ensures
        v == bits_value(bits@),
{
    let mut v: u64 = 0;
    let mut i: usize = 0;
    proof {
        lemma2_to64();
    }
    while i < bits.len()
        invariant
            i <= bits@.len() <= 64,
            v == bits_value(bits@.take(i as int)),
            v < pow2(i as nat),
        decreases bits@.len() - i,
    {
        proof {
            lemma_pow2_unfold((i + 1) as nat);
            if i + 1 < 64 {
                lemma_pow2_strictly_increases((i + 1) as nat, 64);
            }
            lemma2_to64();
            lemma2_to64_rest();
            assert(bits@.take(i + 1).drop_last() =~= bits@.take(i as int));
            assert(bits@.take(i + 1).last() == bits@[i as int]);
        }
        v = 2 * v + (if bits[i] {
            1
        } else {
            0
        });
        i = i + 1;
    }
    proof {
        assert(bits@.take(bits@.len() as int) =~= bits@);
    }
    v
}

/// Packs each bit-vector of the set into a `u64`, in order.
pub fn to_vec_u64(numbers: &Vec<Vec<bool>>) -> (r: Vec<u64>)
    requires
        forall|i: int| 0 <= i < numbers@.len() ==> #[trigger] numbers@[i]@.len() <= 64,
    ensures
        r@.len() == numbers@.len(),
        forall|i: int| 0 <= i < numbers@.len() ==> r@[i] == bits_value(numbers@[i]@),
{
    let mut r: Vec<u64> = Vec::new();
    let mut i: usize = 0;
    while i < numbers.len()
        invariant
            i <= numbers@.len(),
            forall|k: int| 0 <= k < numbers@.len() ==> #[trigger] numbers@[k]@.len() <= 64,
            r@.len() == i,
            forall|k: int| 0 <= k < i ==> r@[k] == bits_value(numbers@[k]@),
        decreases numbers@.len() - i,
    {
        let v = pack_u64(&numbers[i]);
        r.push(v);
        i = i + 1;
    }
    r
}

} // verus!
