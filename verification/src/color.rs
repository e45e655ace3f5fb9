//! Color packing for the display-native 5-6-5 pixel format.
//!
//! An 8-bit-per-channel RGB color is narrowed to 5 bits of red, 6 bits of
//! green and 5 bits of blue by truncation (no rounding), then composed into
//! one 16-bit value laid out as red in the high 5 bits, green in the middle
//! 6 and blue in the low 5.  A companion `split` decomposes a packed pixel
//! into its big-endian byte pair for transports that consume bytes.

use vstd::prelude::*;

verus! {

/// The packed 5-6-5 value of an RGB color: each channel keeps only its top
/// bits (dividing by 8 or 4 is the 3- or 2-bit right shift), and the kept
/// bits are stacked as `red * 2048 + green * 32 + blue`.
pub open spec fn spec_pack(r: u8, g: u8, b: u8) -> u16 {
    (((r / 8) as u16) * 2048 + ((g / 4) as u16) * 32 + ((b / 8) as u16)) as u16
}

/// The high byte of a packed pixel, sent first on the wire (big-endian).
pub open spec fn spec_hi(p: u16) -> u8 {
    (p / 256) as u8
}

/// The low byte of a packed pixel, sent second on the wire.
pub open spec fn spec_lo(p: u16) -> u8 {
    (p % 256) as u8
}

/// Packs an 8-bit-per-channel color into the 16-bit 5-6-5 display format.
/// Truncation, not nearest-value quantization: the low bits of each channel
/// are discarded.
pub fn pack(r: u8, g: u8, b: u8) -> (p: u16)
    ensures
        p == spec_pack(r, g, b),
{
    let r5: u16 = (r / 8) as u16;
    let g6: u16 = (g / 4) as u16;
    let b5: u16 = (b / 8) as u16;
    r5 * 2048 + g6 * 32 + b5
}

/// Decomposes a packed pixel into its big-endian byte pair
/// `(high byte, low byte)` for byte-oriented transports.
pub fn split(p: u16) -> (bytes: (u8, u8))
    ensures
        bytes.0 == spec_hi(p),
        bytes.1 == spec_lo(p),
{
    let msb: u8 = (p / 256) as u8;
    let lsb: u8 = (p % 256) as u8;
    (msb, lsb)
}

/// Channel bits below the kept width never affect the packed value: packing
/// a color equals packing the color with each channel masked down to its
/// kept high bits (5 for red and blue, 6 for green).
pub proof fn lemma_pack_ignores_low_bits(r: u8, g: u8, b: u8)
    ensures
        spec_pack(r, g, b) == spec_pack(r & 0xf8, g & 0xfc, b & 0xf8),
{
    assert(r / 8 == (r & 0xf8) / 8) by (bit_vector);
    assert(g / 4 == (g & 0xfc) / 4) by (bit_vector);
    assert(b / 8 == (b & 0xf8) / 8) by (bit_vector);
}

/// The byte pair of `split` reassembles to the packed pixel it came from:
/// `high * 256 + low` is the original value.
pub proof fn lemma_split_reassembles(p: u16)
    ensures
        spec_hi(p) as int * 256 + spec_lo(p) as int == p as int,
{
}

/// The blue channel lands in the low 5 bits of the packed value and the red
/// and green channels in the high 11: two colors that agree on red and green
/// pack to values with the same high bits, and their low bits differ exactly
/// when the kept blue bits differ.
pub proof fn lemma_pack_blue_is_low_bits(r: u8, g: u8, b1: u8, b2: u8)
    ensures
        spec_pack(r, g, b1) / 32 == spec_pack(r, g, b2) / 32,
        (spec_pack(r, g, b1) % 32 == spec_pack(r, g, b2) % 32) <==> (b1 / 8 == b2 / 8),
{
    lemma_pack_structure(r, g, b1);
    lemma_pack_structure(r, g, b2);
}

/// The quotient and remainder of a packed value by 32 recover the stacked
/// channels: the high 11 bits hold red and green, the low 5 hold blue.
pub proof fn lemma_pack_structure(r: u8, g: u8, b: u8)
    ensures
        spec_pack(r, g, b) / 32 == (r / 8) as int * 64 + (g / 4) as int,
        spec_pack(r, g, b) % 32 == b / 8,
{
    let hi: int = (r / 8) as int * 64 + (g / 4) as int;
    let lo: int = (b / 8) as int;
    assert(r / 8 < 32 && g / 4 < 64 && b / 8 < 32);
    assert(spec_pack(r, g, b) == hi * 32 + lo);
    assert((hi * 32 + lo) / 32 == hi && (hi * 32 + lo) % 32 == lo) by (nonlinear_arith)
        requires
            0 <= lo < 32,
            0 <= hi,
    ;
}

} // verus!
