//! Selection of an entry of the 256-colour terminal palette.
//!
//! Entries 16 to 231 form a 6x6x6 colour cube and entries 232 to 255 a
//! 24-step grey ramp. The level of each channel is computed by the caller;
//! these functions choose between the two ranges and place the levels in them.
use vstd::prelude::*;

verus! {

/// The absolute difference of two channel values.
pub open spec fn channel_gap(a: u8, b: u8) -> int {
    if a >= b {
        a - b
    } else {
        b - a
    }
}

/// Whether the three channels lie within ten of each other, pairwise.
pub open spec fn near_gray_spec(r: u8, g: u8, b: u8) -> bool {
    channel_gap(r, g) < 10 && channel_gap(g, b) < 10 && channel_gap(b, r) < 10
}

/// Whether a colour is close enough to grey to take an entry of the grey ramp.
pub fn is_near_gray(r: u8, g: u8, b: u8) -> (res: bool)
    ensures
        res == near_gray_spec(r, g, b),
{
    let rg = if r >= g {
        r - g
    } else {
        g - r
    };
    let gb = if g >= b {
        g - b
    } else {
        b - g
    };
    let br = if b >= r {
        b - r
    } else {
        r - b
    };
    rg < 10 && gb < 10 && br < 10
}

/// The palette entry of grey level `level` (0 to 23) on the grey ramp.
pub fn gray_palette_index(level: u8) -> (res: u8)
    requires
        level <= 23,
    ensures
        res == 232 + level,
{
    232 + level
}

/// The palette entry of the colour cube with channel levels 0 to 5.
pub fn cube_palette_index(r: u8, g: u8, b: u8) -> (res: u8)
    requires
        r <= 5,
        g <= 5,
        b <= 5,
    ensures
        res == 16 + 36 * r + 6 * g + b,
        16 <= res <= 231,
{
    16 + 36 * r + 6 * g + b
}

} // verus!
