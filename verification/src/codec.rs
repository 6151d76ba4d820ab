//! Color codec: packs an RGB color into the device's native 16-bit pixel
//! format.
//!
//! Canonical bit layout of a packed pixel (one fixed layout, chosen to match
//! the panel's blue-green-red channel order):
//!
//! - bits 11..=15: blue, 5 bits (source blue truncated to its top 5 bits)
//! - bits 5..=10: green, 6 bits (source green truncated to its top 6 bits)
//! - bits 0..=4: red, 5 bits (source red truncated to its top 5 bits)
//!
//! Source channels are 8 bits each; packing is a pure, total function with
//! no error path.

use vstd::prelude::*;

verus! {

/// An RGB color with 8-bit channels, the input to the codec.
#[derive(Clone, Copy, Debug, PartialEq, Eq, Structural)]
pub struct Color {
    pub r: u8,
    pub g: u8,
    pub b: u8,
}

/// The packed 16-bit value for a color: blue in bits 11..=15, green in
/// bits 5..=10, red in bits 0..=4.
pub open spec fn spec_pack(c: Color) -> u16 {
    (((c.b >> 3) as u16) << 11) | (((c.g >> 2) as u16) << 5) | ((c.r >> 3) as u16)
}

impl Color {
    pub fn new(r: u8, g: u8, b: u8) -> (c: Color)
        ensures
            c == (Color { r, g, b }),
    {
        Color { r, g, b }
    }

    /// Full black; packs to the all-zero pixel.
    pub fn black() -> (c: Color)
        ensures
            c == (Color { r: 0u8, g: 0u8, b: 0u8 }),
            spec_pack(c) == 0u16,
    {
        proof {
            lemma_black_packs_to_zero();
        }
        Color { r: 0, g: 0, b: 0 }
    }

    /// Full red.
    pub fn red() -> (c: Color)
        ensures
            c == (Color { r: 255u8, g: 0u8, b: 0u8 }),
    {
        Color { r: 255, g: 0, b: 0 }
    }

    /// Full white.
    pub fn white() -> (c: Color)
        ensures
            c == (Color { r: 255u8, g: 255u8, b: 255u8 }),
    {
        Color { r: 255, g: 255, b: 255 }
    }
}

/// Packs a color into the device's 16-bit pixel format.
pub fn pack(c: Color) -> (p: u16)
    ensures
        p == spec_pack(c),
{
    (((c.b >> 3) as u16) << 11) | (((c.g >> 2) as u16) << 5) | ((c.r >> 3) as u16)
}

/// Packing is deterministic: equal colors always pack to equal pixels,
/// and it is total, being defined for every channel combination.
pub proof fn lemma_pack_deterministic(c1: Color, c2: Color)
    requires
        c1 == c2,
    ensures
        spec_pack(c1) == spec_pack(c2),
{
}

/// The all-zero color packs to the all-zero pixel.
pub proof fn lemma_black_packs_to_zero()
    ensures
        spec_pack(Color { r: 0u8, g: 0u8, b: 0u8 }) == 0u16,
{
    assert((((0u8 >> 3) as u16) << 11) | (((0u8 >> 2) as u16) << 5) | ((0u8 >> 3) as u16)
        == 0u16) by (bit_vector);
}

} // verus!
