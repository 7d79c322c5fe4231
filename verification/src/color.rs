//! Packing of a colour into the 24-bit integer that a colour capability takes.

use vstd::prelude::*;

verus! {

/// The packed value of three channels: red in bits 16 to 23, green in bits 8
/// to 15, blue in bits 0 to 7.
pub open spec fn packed_rgb(r: u8, g: u8, b: u8) -> u32 {
    ((r as u32) << 16) | ((g as u32) << 8) | (b as u32)
}

/// The packed value of the four channels of a colour; the last one, alpha,
/// takes no part in it.
pub open spec fn packed_rgba8(channels: [u8; 4]) -> u32 {
    packed_rgb(channels[0], channels[1], channels[2])
}

/// The packed value read as a number: each channel keeps its own byte, so
/// the value fits in 24 bits.
pub proof fn lemma_packed_rgb_value(r: u8, g: u8, b: u8)
    ensures
        packed_rgb(r, g, b) == r as int * 65536 + g as int * 256 + b as int,
        packed_rgb(r, g, b) <= 0xFF_FFFF,
{
    assert((((r as u32) << 16) | ((g as u32) << 8) | (b as u32)) == r as u32 * 65536 + g as u32
        * 256 + b as u32) by (bit_vector);
}

/// Two colours with the same red, green and blue pack to the same value,
/// whatever their alpha.
pub proof fn lemma_packing_ignores_alpha(first: [u8; 4], second: [u8; 4])
    requires
        first[0] == second[0],
        first[1] == second[1],
        first[2] == second[2],
    ensures
        packed_rgba8(first) == packed_rgba8(second),
{
}

/// Packs red, green, blue and alpha into one integer, dropping alpha.
pub fn pack_rgba8(channels: [u8; 4]) -> (value: u32)
    ensures
        value == packed_rgba8(channels),
{
    let r: u8 = channels[0];
    let g: u8 = channels[1];
    let b: u8 = channels[2];
    ((r as u32) << 16) | ((g as u32) << 8) | (b as u32)
}

/// `csscolorparser::Color`, a parsed CSS colour. Nothing of its inside is
/// visible here.
#[verifier::external_type_specification]
#[verifier::external_body]
pub struct ExColor(csscolorparser::Color);

/// The four 8-bit channels (red, green, blue, alpha) that
/// `csscolorparser::Color::to_rgba8` gives for a colour.
pub uninterp spec fn rgba8_channels(color: csscolorparser::Color) -> Seq<u8>;

/// Calls `csscolorparser::Color::to_rgba8`, which scales each of the four
/// channels to a byte and cannot fail. The contract only names what comes
/// back: it claims that the bytes depend on the colour alone, and nothing of
/// what they are.
#[verifier::external_body]
fn color_to_rgba8(color: &csscolorparser::Color) -> (channels: [u8; 4])
    ensures
        channels@ == rgba8_channels(*color),
{
    color.to_rgba8()
}

/// The control value of a colour: its first three channels, packed.
pub open spec fn packed_color(color: csscolorparser::Color) -> u32 {
    packed_rgb(rgba8_channels(color)[0], rgba8_channels(color)[1], rgba8_channels(color)[2])
}

/// The control value of a colour: its channels as the parser reports them,
/// packed without alpha.
pub fn color_value(color: &csscolorparser::Color) -> (value: u32)
    ensures
        value == packed_color(*color),
{
    pack_rgba8(color_to_rgba8(color))
}

} // verus!
