use vstd::prelude::*;

verus! {

/// Largest value of an 8-bit colour channel.
pub const CHANNEL_MAX: u32 = 255;

/// Number of distinct 24-bit colours; every packed colour lies below it.
pub const COLOR_RANGE: u32 = 0x100_0000;

/// The 8-bit level of a channel whose radiance, scaled to the display range and
/// rounded down, is `scaled`: brighter than white is shown as white.
pub open spec fn level_of(scaled: u32) -> u8 {
    if scaled > CHANNEL_MAX {
        CHANNEL_MAX as u8
    } else {
        scaled as u8
    }
}

/// The 24-bit colour with red in the low byte, then green, then blue.
pub open spec fn packed(r: u8, g: u8, b: u8) -> nat {
    r as nat + 256 * (g as nat) + 65536 * (b as nat)
}

/// Clamps a scaled channel to the 8-bit range.
pub fn channel_level(scaled: u32) -> (r: u8)
    ensures
        r == level_of(scaled),
        r as u32 == if scaled < CHANNEL_MAX { scaled } else { CHANNEL_MAX },
{
    if scaled > CHANNEL_MAX {
        CHANNEL_MAX as u8
    } else {
        scaled as u8
    }
}

/// Packs three 8-bit channels into one 24-bit colour word.
pub fn pack_rgb(r: u8, g: u8, b: u8) -> (w: u32)
    ensures
        w as nat == packed(r, g, b),
        w < COLOR_RANGE,
{
    let w = (b as u32 * 256 + g as u32) * 256 + r as u32;
    w
}

/// Turns three scaled channels into the 24-bit colour shown for them.
pub fn to_color(r: u32, g: u32, b: u32) -> (w: u32)
    ensures
        w as nat == packed(level_of(r), level_of(g), level_of(b)),
        w < COLOR_RANGE,
{
    pack_rgb(channel_level(r), channel_level(g), channel_level(b))
}

/// A packed colour gives its three channels back: byte by byte, nothing is lost.
pub proof fn lemma_packed_channels(r: u8, g: u8, b: u8)
    ensures
        packed(r, g, b) % 256 == r as nat,
        (packed(r, g, b) / 256) % 256 == g as nat,
        packed(r, g, b) / 65536 == b as nat,
{
    assert(packed(r, g, b) % 256 == r as nat) by (nonlinear_arith);
    assert((packed(r, g, b) / 256) % 256 == g as nat) by (nonlinear_arith);
    assert(packed(r, g, b) / 65536 == b as nat) by (nonlinear_arith);
}

} // verus!
