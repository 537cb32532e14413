//! Integer-domain view of field elements.
//!
//! Every witness and public parameter enters the system as a `u64` and is
//! lifted into the proving backend's scalar field, whose canonical
//! representation is 32 little-endian bytes.  For values below 2^64 that
//! representation is exactly the little-endian bytes of the `u64` followed
//! by zero padding.  The ordering predicates compare these fixed-width byte
//! representations lexicographically, byte 0 first, which is the comparison
//! the witness-assignment contract is specified against.

use vstd::prelude::*;
use vstd::arithmetic::div_mod::{lemma_div_denominator, lemma_fundamental_div_mod};

verus! {

/// 256^i, the weight of byte `i` in a little-endian representation.
pub open spec fn pow256(i: nat) -> int
    decreases i,
{
    if i == 0 {
        1
    } else {
        256 * pow256((i - 1) as nat)
    }
}

pub proof fn lemma_pow256_positive(i: nat)
    ensures
        pow256(i) >= 1,
    decreases i,
{
    if i > 0 {
        lemma_pow256_positive((i - 1) as nat);
    }
}

pub proof fn lemma_pow256_8()
    ensures
        pow256(8) == 0x1_0000_0000_0000_0000,
{
    reveal_with_fuel(pow256, 9);
}

/// Byte `i` of the canonical little-endian representation of `x`.
pub open spec fn spec_repr_byte(x: u64, i: int) -> u8 {
    (((x as int) / pow256(i as nat)) % 256) as u8
}

/// The canonical 32-byte little-endian representation of the field element
/// obtained by lifting `x` into the scalar field.
pub open spec fn spec_field_repr(x: u64) -> Seq<u8> {
    Seq::new(32, |i: int| if i < 8 { spec_repr_byte(x, i) } else { 0u8 })
}

/// Computes the canonical 32-byte little-endian representation of `x`.
pub fn field_repr(x: u64) -> (r: Vec<u8>)
    ensures
        r@ == spec_field_repr(x),
        r.len() == 32,
{
    let mut r: Vec<u8> = Vec::new();
    let mut y: u64 = x;
    let mut i: usize = 0;
    while i < 8
        invariant
            i <= 8,
            r@.len() == i,
            y == (x as int) / pow256(i as nat),
            forall|j: int| 0 <= j < i ==> r@[j] == spec_repr_byte(x, j),
        decreases 8 - i,
    {
        let b: u8 = (y % 256) as u8;
        r.push(b);
        proof {
            lemma_pow256_positive(i as nat);
            lemma_div_denominator(x as int, pow256(i as nat), 256);
            assert(pow256((i + 1) as nat) == pow256(i as nat) * 256) by {
                assert(pow256((i + 1) as nat) == 256 * pow256(i as nat));
            }
        }
        y = y / 256;
        i = i + 1;
    }
    while i < 32
        invariant
            8 <= i <= 32,
            r@.len() == i,
            forall|j: int| 0 <= j < 8 ==> r@[j] == spec_repr_byte(x, j),
            forall|j: int| 8 <= j < i ==> r@[j] == 0u8,
        decreases 32 - i,
    {
        r.push(0u8);
        i = i + 1;
    }
    proof {
        assert(r@ =~= spec_field_repr(x));
    }
    r
}

/// Lexicographic `>=` on two equally long byte sequences, decided at the
/// first index, from index `i` on, where the bytes differ.
pub open spec fn spec_bytes_ge_from(a: Seq<u8>, b: Seq<u8>, i: int) -> bool
    decreases a.len() - i
        when 0 <= i <= a.len()
{
    if i < 0 || i >= a.len() {
        true
    } else if a[i] != b[i] {
        a[i] > b[i]
    } else {
        spec_bytes_ge_from(a, b, i + 1)
    }
}

/// Lexicographic `>=`, byte 0 (the least significant byte) first.  This is
/// the order that `>=` on two equally long byte slices denotes.
pub open spec fn spec_bytes_ge(a: Seq<u8>, b: Seq<u8>) -> bool {
    spec_bytes_ge_from(a, b, 0)
}

/// Lexicographic `<=`; for a total order this is `>=` with the sides swapped.
pub open spec fn spec_bytes_le(a: Seq<u8>, b: Seq<u8>) -> bool {
    spec_bytes_ge(b, a)
}

/// Decides lexicographic `>=` on two equally long byte vectors, as slice
/// comparison on their contents would.
pub fn bytes_ge(a: &Vec<u8>, b: &Vec<u8>) -> (r: bool)
    requires
        a.len() == b.len(),
    ensures
        r == spec_bytes_ge(a@, b@),
{
    let n = a.len();
    let mut i: usize = 0;
    while i < n
        invariant
            i <= n,
            n == a.len() == b.len(),
            spec_bytes_ge(a@, b@) == spec_bytes_ge_from(a@, b@, i as int),
        decreases n - i,
    {
        if a[i] != b[i] {
            return a[i] > b[i];
        }
        i = i + 1;
    }
    true
}

pub fn bytes_le(a: &Vec<u8>, b: &Vec<u8>) -> (r: bool)
    requires
        a.len() == b.len(),
    ensures
        r == spec_bytes_le(a@, b@),
{
    bytes_ge(b, a)
}

/// A byte sequence is lexicographically `>=` itself.
pub proof fn lemma_bytes_ge_reflexive(a: Seq<u8>, i: int)
    requires
        0 <= i <= a.len(),
    ensures
        spec_bytes_ge_from(a, a, i),
    decreases a.len() - i,
{
    if 0 <= i < a.len() {
        lemma_bytes_ge_reflexive(a, i + 1);
    }
}

/// The little-endian value of the first 8 bytes of `s`, from index `i` on.
pub open spec fn spec_u64_from_le(s: Seq<u8>, i: int) -> int
    decreases 8 - i
        when 0 <= i <= 8
{
    if i < 0 || i >= 8 {
        0
    } else {
        s[i] + 256 * spec_u64_from_le(s, i + 1)
    }
}

pub proof fn lemma_u64_from_le_bound(s: Seq<u8>, i: int)
    requires
        0 <= i <= 8,
        s.len() >= 8,
    ensures
        0 <= spec_u64_from_le(s, i) < pow256((8 - i) as nat),
    decreases 8 - i,
{
    if i < 8 {
        lemma_u64_from_le_bound(s, i + 1);
    }
}

/// Reads a `u64` out of the first 8 bytes of a little-endian field
/// representation, least significant byte first.
pub fn field_to_u64(bytes: &Vec<u8>) -> (r: u64)
    requires
        bytes.len() >= 8,
    ensures
        r == spec_u64_from_le(bytes@, 0),
{
    let mut acc: u64 = 0;
    let mut i: usize = 8;
    while i > 0
        invariant
            i <= 8,
            bytes.len() >= 8,
            acc == spec_u64_from_le(bytes@, i as int),
        decreases i,
    {
        proof {
            lemma_u64_from_le_bound(bytes@, i - 1);
            lemma_pow256_positive((8 - i) as nat);
            lemma_pow256_le(1 + (8 - i) as nat, 8);
            lemma_pow256_8();
        }
        i = i - 1;
        acc = acc * 256 + (bytes[i] as u64);
    }
    acc
}

pub proof fn lemma_pow256_le(i: nat, j: nat)
    requires
        i <= j,
    ensures
        pow256(i) <= pow256(j),
    decreases j,
{
    if i < j {
        lemma_pow256_le(i, (j - 1) as nat);
        lemma_pow256_positive((j - 1) as nat);
    }
}

/// Reading the first 8 bytes of the representation of `x` gives `x` back:
/// the integer-domain decoding inverts the field lift on every `u64`.
pub proof fn lemma_repr_roundtrip(x: u64)
    ensures
        spec_u64_from_le(spec_field_repr(x), 0) == x,
{
    lemma_repr_roundtrip_from(x, 8);
    lemma_pow256_8();
    assert((x as int) / pow256(0) == x as int);
}

proof fn lemma_repr_roundtrip_from(x: u64, k: nat)
    requires
        k <= 8,
    ensures
        spec_u64_from_le(spec_field_repr(x), (8 - k) as int) == (x as int) / pow256((8 - k) as nat),
    decreases k,
{
    let s = spec_field_repr(x);
    let i = (8 - k) as int;
    if k == 0 {
        lemma_pow256_8();
        assert((x as int) / pow256(8) == 0) by {
            lemma_pow256_8();
            assert(x < 0x1_0000_0000_0000_0000);
        }
    } else {
        lemma_repr_roundtrip_from(x, (k - 1) as nat);
        lemma_pow256_positive(i as nat);
        let q = (x as int) / pow256(i as nat);
        assert(s[i] == (q % 256) as u8);
        assert(spec_u64_from_le(s, i) == (q % 256) + 256 * spec_u64_from_le(s, i + 1));
        assert((x as int) / pow256((i + 1) as nat) == q / 256) by {
            lemma_div_denominator(x as int, pow256(i as nat), 256);
            assert(pow256((i + 1) as nat) == 256 * pow256(i as nat));
        }
        assert(q == 256 * (q / 256) + q % 256) by {
            lemma_fundamental_div_mod(q, 256);
        }
    }
}

/// On values below 256 the byte-wise lexicographic order agrees with the
/// integer order: the representations differ at most in byte 0.
pub proof fn lemma_bytes_ge_small(a: u64, b: u64)
    requires
        a < 256,
        b < 256,
    ensures
        spec_bytes_ge(spec_field_repr(a), spec_field_repr(b)) == (a >= b),
{
    let ra = spec_field_repr(a);
    let rb = spec_field_repr(b);
    assert(ra[0] == a && rb[0] == b) by {
        assert((a as int) / pow256(0) == a as int);
        assert((b as int) / pow256(0) == b as int);
    }
    if a == b {
        assert(ra =~= rb);
        lemma_bytes_ge_reflexive(ra, 0);
    }
}

} // verus!
