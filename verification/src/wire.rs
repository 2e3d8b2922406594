//! Little-endian scalar encoding shared by the frame codec and the state
//! decoders.  The wire format stores 16- and 32-bit quantities least
//! significant byte first; signed 16-bit fields are two's complement.

use vstd::prelude::*;

verus! {

/// The value that two little-endian bytes encode.
pub open spec fn u16_le(b0: u8, b1: u8) -> int {
    b0 + 256 * b1
}

/// The value that four little-endian bytes encode.
pub open spec fn u32_le(b0: u8, b1: u8, b2: u8, b3: u8) -> int {
    b0 + 256 * b1 + 65536 * b2 + 16777216 * b3
}

/// The signed value that two little-endian bytes encode, two's complement.
pub open spec fn i16_le(b0: u8, b1: u8) -> int {
    if u16_le(b0, b1) < 32768 {
        u16_le(b0, b1)
    } else {
        u16_le(b0, b1) - 65536
    }
}

/// The two little-endian bytes of a 16-bit value.
pub open spec fn u16_le_bytes(x: u16) -> Seq<u8> {
    seq![(x % 256) as u8, (x / 256) as u8]
}

/// The four little-endian bytes of a 32-bit value.
pub open spec fn u32_le_bytes(x: u32) -> Seq<u8> {
    seq![
        (x % 256) as u8,
        ((x / 256) % 256) as u8,
        ((x / 65536) % 256) as u8,
        (x / 16777216) as u8,
    ]
}

/// Reading back the two bytes of a 16-bit value yields the value.
pub proof fn lemma_u16_le_round_trip(x: u16)
    ensures
        u16_le(u16_le_bytes(x)[0], u16_le_bytes(x)[1]) == x,
{
}

/// Reading back the four bytes of a 32-bit value yields the value.
pub proof fn lemma_u32_le_round_trip(x: u32)
    ensures
        u32_le(
            u32_le_bytes(x)[0],
            u32_le_bytes(x)[1],
            u32_le_bytes(x)[2],
            u32_le_bytes(x)[3],
        ) == x,
{
}

pub fn u16_from_le(b0: u8, b1: u8) -> (r: u16)
    ensures
        r == u16_le(b0, b1),
{
    b0 as u16 + 256 * (b1 as u16)
}

pub fn u32_from_le(b0: u8, b1: u8, b2: u8, b3: u8) -> (r: u32)
    ensures
        r == u32_le(b0, b1, b2, b3),
{
    b0 as u32 + 256 * (b1 as u32) + 65536 * (b2 as u32) + 16777216 * (b3 as u32)
}

pub fn i16_from_le(b0: u8, b1: u8) -> (r: i16)
    ensures
        r == i16_le(b0, b1),
{
    let u: u16 = u16_from_le(b0, b1);
    if u < 32768 {
        u as i16
    } else {
        ((u as i32) - 65536) as i16
    }
}

/// Appends the two little-endian bytes of `x`.
pub fn push_u16_le(out: &mut Vec<u8>, x: u16)
    ensures
        final(out)@ == old(out)@ + u16_le_bytes(x),
{
    out.push((x % 256) as u8);
    out.push((x / 256) as u8);
    proof {
        assert(final(out)@ =~= old(out)@ + u16_le_bytes(x));
    }
}

/// Appends the four little-endian bytes of `x`.
pub fn push_u32_le(out: &mut Vec<u8>, x: u32)
    ensures
        final(out)@ == old(out)@ + u32_le_bytes(x),
{
    out.push((x % 256) as u8);
    out.push(((x / 256) % 256) as u8);
    out.push(((x / 65536) % 256) as u8);
    out.push((x / 16777216) as u8);
    proof {
        assert(final(out)@ =~= old(out)@ + u32_le_bytes(x));
    }
}

} // verus!
