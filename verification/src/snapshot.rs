//! Encoding a grid snapshot as pixel samples.
//!
//! A snapshot is a row-major sequence of cells, `true` for white. The packed
//! encoding stores one cell per bit, eight cells per byte, most significant
//! bit first, with zero padding in the last byte — one-bit grayscale samples
//! with white as 1. The expanded encoding stores one cell per byte, white as
//! full luminance.

use vstd::prelude::*;

verus! {

/// The sample of cell `i` of `s` as a single bit: 1 for white, 0 for black
/// or for a position past the end.
pub open spec fn spec_bit(s: Seq<bool>, i: int) -> u8 {
    if 0 <= i < s.len() && s[i] {
        1u8
    } else {
        0u8
    }
}

/// Byte `j` of the packed encoding of `s`: cells `8j` to `8j + 7`, most
/// significant bit first.
pub open spec fn spec_byte_of(s: Seq<bool>, j: int) -> u8 {
    (spec_bit(s, 8 * j) << 7) | (spec_bit(s, 8 * j + 1) << 6) | (spec_bit(s, 8 * j + 2) << 5) | (
    spec_bit(s, 8 * j + 3) << 4) | (spec_bit(s, 8 * j + 4) << 3) | (spec_bit(s, 8 * j + 5) << 2) | (
    spec_bit(s, 8 * j + 6) << 1) | spec_bit(s, 8 * j + 7)
}

/// How many bytes the packed encoding of `n` cells takes.
pub open spec fn spec_packed_len(n: int) -> int {
    (n + 7) / 8
}

/// The packed encoding of `s`: one bit per cell, eight cells per byte.
pub open spec fn spec_pack(s: Seq<bool>) -> Seq<u8> {
    Seq::new(spec_packed_len(s.len() as int) as nat, |j: int| spec_byte_of(s, j))
}

/// Cell `i` as read back from a packed encoding.
pub open spec fn spec_bit_at(bytes: Seq<u8>, i: int) -> bool {
    ((bytes[i / 8] >> ((7 - (i % 8)) as u8)) & 1) == 1
}

/// The first `n` cells read back from a packed encoding.
pub open spec fn spec_unpack(bytes: Seq<u8>, n: int) -> Seq<bool> {
    Seq::new(n as nat, |i: int| spec_bit_at(bytes, i))
}

/// Each of the eight bits packed into a byte can be read back by shifting
/// and masking.
proof fn lemma_byte_extract(b0: u8, b1: u8, b2: u8, b3: u8, b4: u8, b5: u8, b6: u8, b7: u8)
    requires
        b0 <= 1,
        b1 <= 1,
        b2 <= 1,
        b3 <= 1,
        b4 <= 1,
        b5 <= 1,
        b6 <= 1,
        b7 <= 1,
    ensures
        (((b0 << 7) | (b1 << 6) | (b2 << 5) | (b3 << 4) | (b4 << 3) | (b5 << 2) | (b6 << 1) | b7)
            >> 7) & 1 == b0,
        (((b0 << 7) | (b1 << 6) | (b2 << 5) | (b3 << 4) | (b4 << 3) | (b5 << 2) | (b6 << 1) | b7)
            >> 6) & 1 == b1,
        (((b0 << 7) | (b1 << 6) | (b2 << 5) | (b3 << 4) | (b4 << 3) | (b5 << 2) | (b6 << 1) | b7)
            >> 5) & 1 == b2,
        (((b0 << 7) | (b1 << 6) | (b2 << 5) | (b3 << 4) | (b4 << 3) | (b5 << 2) | (b6 << 1) | b7)
            >> 4) & 1 == b3,
        (((b0 << 7) | (b1 << 6) | (b2 << 5) | (b3 << 4) | (b4 << 3) | (b5 << 2) | (b6 << 1) | b7)
            >> 3) & 1 == b4,
        (((b0 << 7) | (b1 << 6) | (b2 << 5) | (b3 << 4) | (b4 << 3) | (b5 << 2) | (b6 << 1) | b7)
            >> 2) & 1 == b5,
        (((b0 << 7) | (b1 << 6) | (b2 << 5) | (b3 << 4) | (b4 << 3) | (b5 << 2) | (b6 << 1) | b7)
            >> 1) & 1 == b6,
        ((b0 << 7) | (b1 << 6) | (b2 << 5) | (b3 << 4) | (b4 << 3) | (b5 << 2) | (b6 << 1) | b7) & 1
            == b7,
{
    assert((((b0 << 7) | (b1 << 6) | (b2 << 5) | (b3 << 4) | (b4 << 3) | (b5 << 2) | (b6 << 1)
        | b7) >> 7) & 1 == b0 && (((b0 << 7) | (b1 << 6) | (b2 << 5) | (b3 << 4) | (b4 << 3) | (b5
        << 2) | (b6 << 1) | b7) >> 6) & 1 == b1 && (((b0 << 7) | (b1 << 6) | (b2 << 5) | (b3 << 4)
        | (b4 << 3) | (b5 << 2) | (b6 << 1) | b7) >> 5) & 1 == b2 && (((b0 << 7) | (b1 << 6) | (b2
        << 5) | (b3 << 4) | (b4 << 3) | (b5 << 2) | (b6 << 1) | b7) >> 4) & 1 == b3 && (((b0 << 7)
        | (b1 << 6) | (b2 << 5) | (b3 << 4) | (b4 << 3) | (b5 << 2) | (b6 << 1) | b7) >> 3) & 1
        == b4 && (((b0 << 7) | (b1 << 6) | (b2 << 5) | (b3 << 4) | (b4 << 3) | (b5 << 2) | (b6
        << 1) | b7) >> 2) & 1 == b5 && (((b0 << 7) | (b1 << 6) | (b2 << 5) | (b3 << 4) | (b4 << 3)
        | (b5 << 2) | (b6 << 1) | b7) >> 1) & 1 == b6 && ((b0 << 7) | (b1 << 6) | (b2 << 5) | (b3
        << 4) | (b4 << 3) | (b5 << 2) | (b6 << 1) | b7) & 1 == b7) by (bit_vector)
        requires
            b0 <= 1,
            b1 <= 1,
            b2 <= 1,
            b3 <= 1,
            b4 <= 1,
            b5 <= 1,
            b6 <= 1,
            b7 <= 1,
    ;
}

/// Packing then unpacking reproduces the exact boolean sequence: the packed
/// snapshot loses nothing.
pub proof fn lemma_pack_unpack(s: Seq<bool>)
    ensures
        spec_unpack(spec_pack(s), s.len() as int) == s,
{
    let p = spec_pack(s);
    assert forall|i: int| 0 <= i < s.len() implies spec_unpack(p, s.len() as int)[i] == s[i] by {
        let j = i / 8;
        let k = i % 8;
        assert(0 <= j < spec_packed_len(s.len() as int));
        assert(8 * j + k == i);
        assert(p[j] == spec_byte_of(s, j));
        lemma_byte_extract(
            spec_bit(s, 8 * j),
            spec_bit(s, 8 * j + 1),
            spec_bit(s, 8 * j + 2),
            spec_bit(s, 8 * j + 3),
            spec_bit(s, 8 * j + 4),
            spec_bit(s, 8 * j + 5),
            spec_bit(s, 8 * j + 6),
            spec_bit(s, 8 * j + 7),
        );
        if k == 0 {
            assert((p[j] >> 7u8) & 1 == spec_bit(s, i));
        } else if k == 1 {
            assert((p[j] >> 6u8) & 1 == spec_bit(s, i));
        } else if k == 2 {
            assert((p[j] >> 5u8) & 1 == spec_bit(s, i));
        } else if k == 3 {
            assert((p[j] >> 4u8) & 1 == spec_bit(s, i));
        } else if k == 4 {
            assert((p[j] >> 3u8) & 1 == spec_bit(s, i));
        } else if k == 5 {
            assert((p[j] >> 2u8) & 1 == spec_bit(s, i));
        } else if k == 6 {
            assert((p[j] >> 1u8) & 1 == spec_bit(s, i));
        } else {
            assert(k == 7);
            assert(p[j] & 1 == spec_bit(s, i));
            let bj = p[j];
            assert(bj >> 0u8 == bj) by (bit_vector);
        }
        assert((p[j] >> ((7 - k) as u8)) & 1 == spec_bit(s, i));
        assert(spec_bit_at(p, i) == s[i]);
    }
    assert(spec_unpack(p, s.len() as int) =~= s);
}

/// The sample of cell `i` of `bits` as a single bit.
fn bit_flag(bits: &Vec<bool>, i: usize) -> (r: u8)
    ensures
        r == spec_bit(bits@, i as int),
{
    if i < bits.len() && bits[i] {
        1
    } else {
        0
    }
}

/// Pack a snapshot into one-bit grayscale samples: one cell per bit, eight
/// cells per byte, most significant bit first, zero padding in the last
/// byte.
pub fn pack_bits(bits: &Vec<bool>) -> (r: Vec<u8>)
    requires
        bits@.len() + 7 <= usize::MAX,
    ensures
        r@ == spec_pack(bits@),
{
    let n: usize = bits.len();
    let m: usize = n / 8 + if n % 8 == 0 {
        0
    } else {
        1
    };
    let mut out: Vec<u8> = Vec::new();
    let mut j: usize = 0;
    while j < m
        invariant
            m == spec_packed_len(bits@.len() as int),
            bits@.len() + 7 <= usize::MAX,
            j <= m,
            out@.len() == j,
            forall|k: int| 0 <= k < j ==> out@[k] == spec_byte_of(bits@, k),
        decreases m - j,
    {
        let base: usize = 8 * j;
        let byte: u8 = (bit_flag(bits, base) << 7) | (bit_flag(bits, base + 1) << 6) | (bit_flag(
            bits,
            base + 2,
        ) << 5) | (bit_flag(bits, base + 3) << 4) | (bit_flag(bits, base + 4) << 3) | (bit_flag(
            bits,
            base + 5,
        ) << 2) | (bit_flag(bits, base + 6) << 1) | bit_flag(bits, base + 7);
        out.push(byte);
        j = j + 1;
    }
    proof {
        assert(out@ =~= spec_pack(bits@));
    }
    out
}

/// Read the first `n` cells back out of a packed encoding, the inverse of
/// `pack_bits`.
pub fn unpack_bits(bytes: &Vec<u8>, n: usize) -> (r: Vec<bool>)
    requires
        n as int <= 8 * bytes@.len(),
    ensures
        r@ == spec_unpack(bytes@, n as int),
{
    let mut out: Vec<bool> = Vec::new();
    let mut i: usize = 0;
    while i < n
        invariant
            n as int <= 8 * bytes@.len(),
            i <= n,
            out@.len() == i,
            forall|k: int| 0 <= k < i ==> out@[k] == spec_bit_at(bytes@, k),
        decreases n - i,
    {
        let byte: u8 = bytes[i / 8];
        let shift: u8 = (7 - (i % 8)) as u8;
        out.push(((byte >> shift) & 1) == 1);
        i = i + 1;
    }
    proof {
        assert(out@ =~= spec_unpack(bytes@, n as int));
    }
    out
}

/// The sample of one cell in the expanded eight-bit encoding: full luminance
/// for white, zero for black.
pub open spec fn spec_gray(cell: bool) -> u8 {
    if cell {
        255u8
    } else {
        0u8
    }
}

/// Expand a snapshot into eight-bit grayscale samples, one cell per byte.
pub fn gray_bytes(bits: &Vec<bool>) -> (r: Vec<u8>)
    ensures
        r@.len() == bits@.len(),
        forall|i: int| 0 <= i < r@.len() ==> r@[i] == spec_gray(bits@[i]),
{
    let n: usize = bits.len();
    let mut out: Vec<u8> = Vec::new();
    let mut i: usize = 0;
    while i < n
        invariant
            n == bits@.len(),
            i <= n,
            out@.len() == i,
            forall|k: int| 0 <= k < i ==> out@[k] == spec_gray(bits@[k]),
        decreases n - i,
    {
        out.push(if bits[i] {
            255
        } else {
            0
        });
        i = i + 1;
    }
    out
}

} // verus!
