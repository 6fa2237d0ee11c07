//! Packed-pixel color encoding.
//!
//! A pixel is one 32-bit value; from least- to most-significant byte
//! the channels are blue, green, red, alpha.

use vstd::prelude::*;
use vstd::arithmetic::div_mod::lemma_fundamental_div_mod_converse;

verus! {

/// The packed value of the four channels: blue in the low byte, then
/// green, red and alpha toward the high byte.
pub open spec fn pack_spec(r: u8, g: u8, b: u8, a: u8) -> int {
    b + g * 0x100 + r * 0x1_0000 + a * 0x100_0000
}

/// The blue channel of a packed value.
pub open spec fn blue_spec(c: int) -> int {
    c % 0x100
}

/// The green channel of a packed value.
pub open spec fn green_spec(c: int) -> int {
    (c / 0x100) % 0x100
}

/// The red channel of a packed value.
pub open spec fn red_spec(c: int) -> int {
    (c / 0x1_0000) % 0x100
}

/// The alpha channel of a packed value in the range of a `u32`.
pub open spec fn alpha_spec(c: int) -> int {
    (c / 0x100_0000) % 0x100
}

/// Packs the four channels into one 32-bit pixel value.
pub fn color(r: u8, g: u8, b: u8, a: u8) -> (c: u32)
    ensures
        c == pack_spec(r, g, b, a),
{
    let mut fin: u32 = b as u32;
    fin += (g as u32) * 0x100;
    fin += (r as u32) * 0x1_0000;
    fin += (a as u32) * 0x100_0000;
    fin
}

/// Extracts the blue channel of a packed pixel.
pub fn blue_of(c: u32) -> (v: u8)
    ensures
        v == blue_spec(c as int),
{
    (c % 0x100) as u8
}

/// Extracts the green channel of a packed pixel.
pub fn green_of(c: u32) -> (v: u8)
    ensures
        v == green_spec(c as int),
{
    ((c / 0x100) % 0x100) as u8
}

/// Extracts the red channel of a packed pixel.
pub fn red_of(c: u32) -> (v: u8)
    ensures
        v == red_spec(c as int),
{
    ((c / 0x1_0000) % 0x100) as u8
}

/// Extracts the alpha channel of a packed pixel.
pub fn alpha_of(c: u32) -> (v: u8)
    ensures
        v == alpha_spec(c as int),
{
    ((c / 0x100_0000) % 0x100) as u8
}

/// The background pixel, for a ray that misses the sphere, and the
/// unlit pixel, for a hit facing away from the light: pure black,
/// fully opaque.
pub fn background_color() -> (c: u32)
    ensures
        c == pack_spec(0, 0, 0, 255),
{
    color(0, 0, 0, 255)
}

/// A lit pixel: the sphere is shaded in red alone, fully opaque, with
/// the green and blue channels zero. The red level comes from the
/// lighting scalar squared, which the embedding program evaluates.
pub fn lit_color(red: u8) -> (c: u32)
    ensures
        c == pack_spec(red, 0, 0, 255),
{
    color(red, 0, 0, 255)
}

/// Law: packing four channels and reading each back through the byte
/// layout reproduces the channels exactly, for every channel value.
pub proof fn lemma_pack_unpack(r: u8, g: u8, b: u8, a: u8)
    ensures
        blue_spec(pack_spec(r, g, b, a)) == b,
        green_spec(pack_spec(r, g, b, a)) == g,
        red_spec(pack_spec(r, g, b, a)) == r,
        alpha_spec(pack_spec(r, g, b, a)) == a,
{
    let c: int = pack_spec(r, g, b, a);
    assert(c == (g + r * 0x100 + a * 0x1_0000) * 0x100 + b);
    lemma_fundamental_div_mod_converse(c, 0x100, g + r * 0x100 + a * 0x1_0000, b as int);
    assert(c == (r + a * 0x100) * 0x1_0000 + (b + g * 0x100));
    lemma_fundamental_div_mod_converse(c, 0x1_0000, r + a * 0x100, b + g * 0x100);
    assert(c == a * 0x100_0000 + (b + g * 0x100 + r * 0x1_0000));
    lemma_fundamental_div_mod_converse(c, 0x100_0000, a as int, b + g * 0x100 + r * 0x1_0000);
    lemma_fundamental_div_mod_converse(c / 0x100, 0x100, r + a * 0x100, g as int);
    lemma_fundamental_div_mod_converse(c / 0x1_0000, 0x100, a as int, r as int);
    lemma_fundamental_div_mod_converse(c / 0x100_0000, 0x100, 0, a as int);
}

} // verus!
