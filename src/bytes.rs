//! Fixed-width integers read from byte buffers at given offsets.
use vstd::prelude::*;

verus! {

/// Big-endian unsigned 16-bit value at `o`.
pub open spec fn be_u16(d: Seq<u8>, o: int) -> nat {
    d[o] as nat * 256 + d[o + 1] as nat
}

/// Little-endian unsigned 16-bit value at `o`.
pub open spec fn le_u16(d: Seq<u8>, o: int) -> nat {
    d[o] as nat + d[o + 1] as nat * 256
}

/// Big-endian unsigned 32-bit value at `o`.
pub open spec fn be_u32(d: Seq<u8>, o: int) -> nat {
    d[o] as nat * 0x1000000 + d[o + 1] as nat * 0x10000 + d[o + 2] as nat * 0x100 + d[o
        + 3] as nat
}

/// Little-endian unsigned 32-bit value at `o`.
pub open spec fn le_u32(d: Seq<u8>, o: int) -> nat {
    d[o] as nat + d[o + 1] as nat * 0x100 + d[o + 2] as nat * 0x10000 + d[o + 3] as nat
        * 0x1000000
}

/// Little-endian two's-complement signed 32-bit value at `o`.
pub open spec fn le_i32(d: Seq<u8>, o: int) -> int {
    if le_u32(d, o) >= 0x8000_0000 {
        le_u32(d, o) - 0x1_0000_0000
    } else {
        le_u32(d, o) as int
    }
}

/// The absolute value of `x`.
pub open spec fn abs(x: int) -> nat {
    if x < 0 {
        (-x) as nat
    } else {
        x as nat
    }
}

/// Reads the big-endian unsigned 16-bit value at `o`.
pub fn read_be_u16(data: &[u8], o: usize) -> (r: u16)
    requires
        o + 2 <= data@.len(),
    ensures
        r as nat == be_u16(data@, o as int),
{
    (data[o] as u16) * 256 + data[o + 1] as u16
}

/// Reads the little-endian unsigned 16-bit value at `o`.
pub fn read_le_u16(data: &[u8], o: usize) -> (r: u16)
    requires
        o + 2 <= data@.len(),
    ensures
        r as nat == le_u16(data@, o as int),
{
    data[o] as u16 + (data[o + 1] as u16) * 256
}

/// Reads the big-endian unsigned 32-bit value at `o`.
pub fn read_be_u32(data: &[u8], o: usize) -> (r: u32)
    requires
        o + 4 <= data@.len(),
    ensures
        r as nat == be_u32(data@, o as int),
{
    (data[o] as u32) * 0x1000000 + (data[o + 1] as u32) * 0x10000 + (data[o + 2] as u32) * 0x100
        + data[o + 3] as u32
}

/// Reads the little-endian unsigned 32-bit value at `o`.
pub fn read_le_u32(data: &[u8], o: usize) -> (r: u32)
    requires
        o + 4 <= data@.len(),
    ensures
        r as nat == le_u32(data@, o as int),
{
    data[o] as u32 + (data[o + 1] as u32) * 0x100 + (data[o + 2] as u32) * 0x10000 + (data[o
        + 3] as u32) * 0x1000000
}

/// The absolute value of the little-endian signed 32-bit value at `o`,
/// together with whether that value is negative.
pub fn read_le_i32_abs(data: &[u8], o: usize) -> (r: (u32, bool))
    requires
        o + 4 <= data@.len(),
    ensures
        r.0 as nat == abs(le_i32(data@, o as int)),
        r.1 == (le_i32(data@, o as int) < 0),
{
    let u = read_le_u32(data, o);
    if u >= 0x8000_0000 {
        (((0xFFFF_FFFFu64 - u as u64) + 1) as u32, true)
    } else {
        (u, false)
    }
}

} // verus!
