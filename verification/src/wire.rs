//! Fixed-width fields of the wire format: little-endian integers, single-byte
//! booleans, and the 16-bit code units of wide text fields.

use vstd::bytes::spec_u16_from_le_bytes;
use vstd::bytes::spec_u32_from_le_bytes;
use vstd::bytes::u16_from_le_bytes;
use vstd::bytes::u32_from_le_bytes;
use vstd::prelude::*;
use vstd::slice::slice_subrange;

verus! {

/// The signed 32-bit value stored little-endian in a 4-byte field: the
/// unsigned reading of the bytes reinterpreted as a two's-complement `i32`.
pub open spec fn le_i32_of(s: Seq<u8>) -> i32
    recommends
        s.len() == 4,
{
    spec_u32_from_le_bytes(s) as i32
}

/// The 16-bit little-endian code units packed two bytes apiece into `s`,
/// in order; a trailing odd byte contributes no unit.
pub open spec fn wide_units_of(s: Seq<u8>) -> Seq<u16> {
    Seq::new((s.len() / 2) as nat, |i: int| spec_u16_from_le_bytes(s.subrange(2 * i, 2 * i + 2)))
}

/// Reads an unsigned 32-bit little-endian field.
pub fn read_u32(buf: &[u8]) -> (r: u32)
    requires
        buf@.len() == 4,
    ensures
        r == spec_u32_from_le_bytes(buf@),
{
    u32_from_le_bytes(buf)
}

/// Reads a signed 32-bit little-endian field.
pub fn read_i32(buf: &[u8]) -> (r: i32)
    requires
        buf@.len() == 4,
    ensures
        r == le_i32_of(buf@),
{
    let u = u32_from_le_bytes(buf);
    #[verifier::truncate] (u as i32)
}

/// Reads a single-byte boolean field: false for the zero byte, true otherwise.
pub fn read_bool(buf: &[u8]) -> (r: bool)
    requires
        buf@.len() == 1,
    ensures
        r == (buf@[0] != 0),
{
    buf[0] != 0
}

/// Repacks a byte slice into its 16-bit little-endian code units.
pub fn read_wide_units(buf: &[u8]) -> (r: Vec<u16>)
    ensures
        r@ == wide_units_of(buf@),
{
    let mut units: Vec<u16> = Vec::new();
    let len: usize = buf.len();
    let n: usize = len / 2;
    let mut i: usize = 0;
    while i < n
        invariant
            i <= n,
            len == buf@.len(),
            n == len / 2,
            units@.len() == i,
            forall|j: int|
                0 <= j < i ==> units@[j] == spec_u16_from_le_bytes(
                    buf@.subrange(2 * j, 2 * j + 2),
                ),
        decreases n - i,
    {
        let pair = slice_subrange(buf, 2 * i, 2 * i + 2);
        let unit = u16_from_le_bytes(pair);
        units.push(unit);
        i += 1;
    }
    proof {
        assert(units@ =~= wide_units_of(buf@));
    }
    units
}

} // verus!
