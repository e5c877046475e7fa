//! Small helpers for reading bit-packed and big-endian fields out of raw
//! response bytes.

use vstd::prelude::*;

verus! {

/// Wraps one byte for mask-based flag extraction.
pub struct BitReader(pub u8);

impl BitReader {
    /// True when any bit selected by `mask` is set in the wrapped byte.
    pub fn bit(&self, mask: u8) -> (r: bool)
        ensures
            r == (self.0 & mask != 0),
    {
        self.0 & mask != 0
    }
}

/// The 16-bit big-endian integer formed by two bytes.
pub open spec fn spec_be16(hi: u8, lo: u8) -> int {
    (hi as u16) * 256 + (lo as u16)
}

/// Reads a 16-bit big-endian integer from two bytes.
pub fn be16(hi: u8, lo: u8) -> (r: u16)
    ensures
        r == spec_be16(hi, lo),
{
    (hi as u16) * 256 + (lo as u16)
}

/// The 32-bit big-endian integer formed by four bytes.
pub open spec fn spec_be32(b0: u8, b1: u8, b2: u8, b3: u8) -> int {
    (b0 as u32) * 0x1000000 + (b1 as u32) * 0x10000 + (b2 as u32) * 0x100 + (b3 as u32)
}

/// Reads a 32-bit big-endian integer from four bytes.
pub fn be32(b0: u8, b1: u8, b2: u8, b3: u8) -> (r: u32)
    ensures
        r == spec_be32(b0, b1, b2, b3),
{
    (b0 as u32) * 0x1000000 + (b1 as u32) * 0x10000 + (b2 as u32) * 0x100 + (b3 as u32)
}

/// The 32-bit big-endian integer reinterpreted as a signed two's-complement
/// value: values at or above 2^31 wrap to negative.
pub open spec fn spec_be32_signed(b0: u8, b1: u8, b2: u8, b3: u8) -> int {
    if spec_be32(b0, b1, b2, b3) >= 0x80000000 {
        spec_be32(b0, b1, b2, b3) - 0x100000000
    } else {
        spec_be32(b0, b1, b2, b3)
    }
}

/// The 24-bit big-endian integer formed by three bytes.
pub open spec fn spec_be24(b0: u8, b1: u8, b2: u8) -> int {
    (b0 as u32) * 0x10000 + (b1 as u32) * 0x100 + (b2 as u32)
}

/// The two's-complement reinterpretation of a signed 32-bit integer as an
/// unsigned value: negative values gain 2^32.
pub open spec fn spec_i32_as_u32(v: i32) -> int {
    if v >= 0 {
        v as int
    } else {
        v + 0x100000000
    }
}

/// Reads a 24-bit big-endian integer from three bytes.
pub fn be24(b0: u8, b1: u8, b2: u8) -> (r: u32)
    ensures
        r == spec_be24(b0, b1, b2),
{
    (b0 as u32) * 0x10000 + (b1 as u32) * 0x100 + (b2 as u32)
}

/// The sequence with every trailing space byte (0x20) removed.
pub open spec fn spec_trim_trailing_spaces(s: Seq<u8>) -> Seq<u8>
    decreases s.len(),
{
    if s.len() > 0 && s[s.len() - 1] == 0x20 {
        spec_trim_trailing_spaces(s.drop_last())
    } else {
        s
    }
}

/// Copies a byte slice with its trailing space padding removed.
pub fn trim_trailing_spaces(s: &[u8]) -> (r: Vec<u8>)
    ensures
        r@ == spec_trim_trailing_spaces(s@),
{
    let mut end: usize = s.len();
    proof {
        assert(s@.subrange(0, s@.len() as int) =~= s@);
    }
    while end > 0 && s[end - 1] == 0x20
        invariant
            end <= s@.len(),
            spec_trim_trailing_spaces(s@) == spec_trim_trailing_spaces(s@.subrange(0, end as int)),
        decreases end,
    {
        proof {
            assert(s@.subrange(0, end as int).drop_last() =~= s@.subrange(0, end as int - 1));
        }
        end = end - 1;
    }
    vstd::slice::slice_to_vec(vstd::slice::slice_subrange(s, 0, end))
}

/// True when every byte of the slice is seven-bit ASCII.
pub fn all_ascii(s: &[u8]) -> (r: bool)
    ensures
        r == forall|i: int| 0 <= i < s@.len() ==> s@[i] < 0x80,
{
    let mut i: usize = 0;
    while i < s.len()
        invariant
            i <= s@.len(),
            forall|j: int| 0 <= j < i ==> s@[j] < 0x80,
        decreases s@.len() - i,
    {
        if s[i] >= 0x80 {
            return false;
        }
        i = i + 1;
    }
    true
}

/// Splits a 16-bit integer into its two big-endian bytes.
pub fn be16_bytes(v: u16) -> (r: (u8, u8))
    ensures
        r.0 == v / 256,
        r.1 == v % 256,
        spec_be16(r.0, r.1) == v,
{
    let hi = (v / 256) as u8;
    let lo = (v % 256) as u8;
    (hi, lo)
}

/// Splits a 24-bit integer into its three big-endian bytes.
pub fn be24_bytes(v: u32) -> (r: (u8, u8, u8))
    requires
        v < 0x1000000,
    ensures
        r.0 == v / 0x10000,
        r.1 == (v / 0x100) % 0x100,
        r.2 == v % 0x100,
        spec_be24(r.0, r.1, r.2) == v,
{
    let b0 = (v / 0x10000) as u8;
    let b1 = ((v / 0x100) % 0x100) as u8;
    let b2 = (v % 0x100) as u8;
    proof {
        assert(b0 == v / 0x10000 && b1 == (v / 0x100) % 0x100 && b2 == v % 0x100 ==> (b0 as u32)
            * 0x10000 + (b1 as u32) * 0x100 + (b2 as u32) == v) by (bit_vector)
            requires
                v < 0x1000000u32,
        ;
    }
    (b0, b1, b2)
}

/// Splits a 32-bit integer into its four big-endian bytes.
pub fn be32_bytes(v: u32) -> (r: (u8, u8, u8, u8))
    ensures
        r.0 == v / 0x1000000,
        r.1 == (v / 0x10000) % 0x100,
        r.2 == (v / 0x100) % 0x100,
        r.3 == v % 0x100,
        spec_be32(r.0, r.1, r.2, r.3) == v,
{
    let b0 = (v / 0x1000000) as u8;
    let b1 = ((v / 0x10000) % 0x100) as u8;
    let b2 = ((v / 0x100) % 0x100) as u8;
    let b3 = (v % 0x100) as u8;
    proof {
        assert(b0 == v / 0x1000000 && b1 == (v / 0x10000) % 0x100 && b2 == (v / 0x100) % 0x100 && b3
            == v % 0x100 ==> (b0 as u32) * 0x1000000 + (b1 as u32) * 0x10000 + (b2 as u32) * 0x100
            + (b3 as u32) == v) by (bit_vector);
    }
    (b0, b1, b2, b3)
}

/// Splits a signed 32-bit integer into the four big-endian bytes of its
/// two's-complement encoding.
pub fn be32_signed_bytes(v: i32) -> (r: (u8, u8, u8, u8))
    ensures
        r.0 == spec_i32_as_u32(v) / 0x1000000,
        r.1 == (spec_i32_as_u32(v) / 0x10000) % 0x100,
        r.2 == (spec_i32_as_u32(v) / 0x100) % 0x100,
        r.3 == spec_i32_as_u32(v) % 0x100,
        spec_be32_signed(r.0, r.1, r.2, r.3) == v,
{
    #[verifier::truncate]
    let u = v as u32;
    proof {
        if v >= 0 {
            assert(u == v) by (bit_vector)
                requires
                    u == v as u32 && v >= 0,
            ;
        } else {
            assert(u as int == v + 0x100000000) by (bit_vector)
                requires
                    u == v as u32 && v < 0,
            ;
        }
    }
    be32_bytes(u)
}

/// Law: reading back the four big-endian bytes of a signed 32-bit integer's
/// two's-complement encoding returns the integer: the split and the read are
/// mutually inverse.
pub proof fn lemma_be32_signed_recompose(v: i32)
    ensures
        spec_be32_signed(
            (spec_i32_as_u32(v) / 0x1000000) as u8,
            ((spec_i32_as_u32(v) / 0x10000) % 0x100) as u8,
            ((spec_i32_as_u32(v) / 0x100) % 0x100) as u8,
            (spec_i32_as_u32(v) % 0x100) as u8,
        ) == v,
{
    let u = spec_i32_as_u32(v);
    assert(0 <= u < 0x100000000);
    let uu = u as u32;
    assert((uu / 0x1000000) as u8 as u32 * 0x1000000 + ((uu / 0x10000) % 0x100) as u8 as u32
        * 0x10000 + ((uu / 0x100) % 0x100) as u8 as u32 * 0x100 + (uu % 0x100) as u8 as u32
        == uu) by (bit_vector);
}

/// Reads a 32-bit big-endian two's-complement integer from four bytes.
pub fn be32_signed(b0: u8, b1: u8, b2: u8, b3: u8) -> (r: i32)
    ensures
        r == spec_be32_signed(b0, b1, b2, b3),
{
    let u = be32(b0, b1, b2, b3);
    #[verifier::truncate]
    let r = u as i32;
    proof {
        if u >= 0x80000000u32 {
            assert(r as int == u - 0x100000000) by (bit_vector)
                requires
                    r == u as i32 && u >= 0x80000000u32,
            ;
        } else {
            assert(r == u) by (bit_vector)
                requires
                    r == u as i32 && u < 0x80000000u32,
            ;
        }
    }
    r
}

} // verus!
