use vstd::prelude::*;

verus! {

/// An RGBA color value with 8 bits per component.
#[derive(Debug, Clone, Copy, PartialEq, Eq, Structural)]
pub struct RGBA {
    pub r: u8,
    pub g: u8,
    pub b: u8,
    pub a: u8,
}

/// `round(c * brightness / 100)`, rounding halves up, clamped to `[0, 255]`.
pub open spec fn scaled_channel(c: int, brightness: int) -> int {
    let p = c * brightness;
    if p <= 0 {
        0
    } else if (p + 50) / 100 > 255 {
        255
    } else {
        (p + 50) / 100
    }
}

proof fn lemma_channel_product_bounds(c: u8, brightness: i32)
    ensures
        -0x80_0000_0000 <= (c as int) * (brightness as int) <= 0x80_0000_0000,
        brightness == 100 ==> ((c as int) * (brightness as int) + 50) / 100 == c as int,
{
    assert(-0x80_0000_0000 <= (c as int) * (brightness as int) <= 0x80_0000_0000) by (nonlinear_arith)
        requires
            0 <= c <= 255,
            -0x8000_0000 <= brightness <= 0x7fff_ffff,
    ;
}

/// Law of brightness scaling: for a brightness within `[0, 100]` a channel
/// is scaled into `[0, c]`, so never beyond `[0, 255]`; full brightness
/// keeps it and zero brightness darkens it.
pub proof fn lemma_scaled_channel_range(c: int, brightness: int)
    requires
        0 <= c <= 255,
        0 <= brightness <= 100,
    ensures
        0 <= scaled_channel(c, brightness) <= c,
        scaled_channel(c, 100) == c,
        scaled_channel(c, 0) == 0,
{
    assert(c * brightness <= c * 100) by (nonlinear_arith)
        requires
            0 <= c,
            brightness <= 100,
    ;
}

/// Scales one color channel by a brightness percentage.
///
/// Brightness values outside `[0, 100]` are accepted; the result is clamped
/// to the range of a channel.
pub fn scale_channel(c: u8, brightness: i32) -> (r: u8)
    ensures
        r as int == scaled_channel(c as int, brightness as int),
        brightness == 100 ==> r == c,
        brightness == 0 ==> r == 0,
{
    proof {
        lemma_channel_product_bounds(c, brightness);
    }
    let p: i64 = (c as i64) * (brightness as i64);
    if p <= 0 {
        0
    } else {
        let q: i64 = (p + 50) / 100;
        if q > 255 {
            255
        } else {
            q as u8
        }
    }
}

} // verus!
