//! Colors with four fixed-point channels and their one-byte-per-channel
//! encoding.
//!
//! A channel holds a normalized intensity in `[0, 1]` as an integer count
//! of millionths: `0` is `0.0` and `CHANNEL_ONE` is `1.0`. A channel
//! serializes to one unsigned byte as `round(value * 255)`, clamped to
//! `[0, 255]`.

use vstd::prelude::*;

verus! {

/// Fixed-point representation of the channel value `1.0`.
pub const CHANNEL_ONE: u32 = 1_000_000;

/// Fixed-point representation of the channel value `0.5`.
pub const CHANNEL_HALF: u32 = 500_000;

/// One grid cell's color: red, green, blue and alpha channels, each a
/// fixed-point intensity where `CHANNEL_ONE` stands for `1.0`.
#[derive(Clone, Copy, PartialEq, Eq, Structural, Debug)]
pub struct Color {
    pub red: u32,
    pub green: u32,
    pub blue: u32,
    pub alpha: u32,
}

/// The fully-default color: every channel at `1.0` (opaque white).
pub open spec fn default_color() -> Color {
    Color { red: CHANNEL_ONE, green: CHANNEL_ONE, blue: CHANNEL_ONE, alpha: CHANNEL_ONE }
}

/// The byte a channel value serializes to: `round(v * 255)` with the
/// channel read as a fraction of `CHANNEL_ONE`, rounded half up and
/// clamped to `[0, 255]`.
pub open spec fn channel_byte(v: int) -> int {
    let rounded = (v * 255 + CHANNEL_HALF) / (CHANNEL_ONE as int);
    if rounded < 0 {
        0
    } else if rounded > 255 {
        255
    } else {
        rounded
    }
}

/// The `k`-th byte (0 = red, 1 = green, 2 = blue, 3 = alpha) of a color's
/// four-byte encoding.
pub open spec fn color_byte(c: Color, k: int) -> int {
    if k == 0 {
        channel_byte(c.red as int)
    } else if k == 1 {
        channel_byte(c.green as int)
    } else if k == 2 {
        channel_byte(c.blue as int)
    } else {
        channel_byte(c.alpha as int)
    }
}

/// Serializes one channel to its byte.
pub fn encode_channel(v: u32) -> (b: u8)
    ensures
        b == channel_byte(v as int),
{
    let wide: u64 = (v as u64) * 255 + (CHANNEL_HALF as u64);
    let rounded: u64 = wide / (CHANNEL_ONE as u64);
    if rounded > 255 {
        255
    } else {
        rounded as u8
    }
}

impl Default for Color {
    /// The fully-default color used to initialize fresh grids.
    fn default() -> (c: Color)
        ensures
            c == default_color(),
    {
        Color { red: CHANNEL_ONE, green: CHANNEL_ONE, blue: CHANNEL_ONE, alpha: CHANNEL_ONE }
    }
}

} // verus!
