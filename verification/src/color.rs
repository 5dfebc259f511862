//! Four-channel colors on the fixed-point grid.

use vstd::prelude::*;
use crate::fixed::SCALE;

verus! {

/// A color with red, green, blue and alpha channels, each a fixed-point
/// scalar; after clamping every channel lies within [0, 1]. The alpha
/// channel is carried through the arithmetic unused and stays 1 in practice.
#[derive(Clone, Copy, Debug, PartialEq, Eq, Structural)]
pub struct Color {
    pub r: i64,
    pub g: i64,
    pub b: i64,
    pub a: i64,
}

/// A channel clamped to [0, 1]: below zero becomes zero, above one becomes
/// one.
pub open spec fn clamp01_spec(c: i64) -> i64 {
    if c < 0 {
        0
    } else if c > SCALE {
        SCALE
    } else {
        c
    }
}

/// Clamps one channel to [0, 1].
pub fn clamp01(c: i64) -> (r: i64)
    ensures
        r == clamp01_spec(c),
{
    if c < 0 {
        0
    } else if c > SCALE {
        SCALE
    } else {
        c
    }
}

/// Whether every channel of `c` lies within the clamped range [0, 1].
pub open spec fn color_clamped(c: Color) -> bool {
    &&& 0 <= c.r <= SCALE
    &&& 0 <= c.g <= SCALE
    &&& 0 <= c.b <= SCALE
    &&& 0 <= c.a <= SCALE
}

/// The color black, with an opaque alpha channel.
pub open spec fn black_spec() -> Color {
    Color { r: 0, g: 0, b: 0, a: SCALE }
}

/// The color black, with an opaque alpha channel.
pub fn black() -> (r: Color)
    ensures
        r == black_spec(),
{
    Color { r: 0, g: 0, b: 0, a: SCALE }
}

/// The color white.
pub open spec fn white_spec() -> Color {
    Color { r: SCALE, g: SCALE, b: SCALE, a: SCALE }
}

/// The color white.
pub fn white() -> (r: Color)
    ensures
        r == white_spec(),
{
    Color { r: SCALE, g: SCALE, b: SCALE, a: SCALE }
}

/// Value of one color channel taken to one byte: the channel is clamped to
/// [0, 1], spread over [0, 255] and truncated to the byte grid.
pub open spec fn channel_to_byte_spec(c: i64) -> u8 {
    ((clamp01_spec(c) * 255) / (SCALE as int)) as u8
}

/// One color channel taken to one byte.
pub fn channel_to_byte(c: i64) -> (r: u8)
    ensures
        r == channel_to_byte_spec(c),
{
    let v: u64 = (clamp01(c) as u64) * 255 / 1_000_000;
    v as u8
}

/// Value of a color taken to four bytes, in red, green, blue, alpha order.
pub open spec fn ftou_spec(c: Color) -> (u8, u8, u8, u8) {
    (
        channel_to_byte_spec(c.r),
        channel_to_byte_spec(c.g),
        channel_to_byte_spec(c.b),
        channel_to_byte_spec(c.a),
    )
}

/// A color taken to four bytes, in red, green, blue, alpha order, for a
/// pixel sink that stores one byte per channel.
pub fn ftou(c: &Color) -> (r: (u8, u8, u8, u8))
    ensures
        r == ftou_spec(*c),
{
    (
        channel_to_byte(c.r),
        channel_to_byte(c.g),
        channel_to_byte(c.b),
        channel_to_byte(c.a),
    )
}

} // verus!
