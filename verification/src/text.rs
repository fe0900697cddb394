//! The color of text as the text renderer takes it.
use vstd::prelude::*;

verus! {

/// A color packed into one word as alpha, red, green, blue, from the highest byte down.
pub open spec fn argb_word(r: u8, g: u8, b: u8, a: u8) -> int {
    a * 0x1000000 + r * 0x10000 + g * 0x100 + b
}

/// Packs a color with `glyphon::Color::rgba` and returns the packed word: alpha in
/// bits 24..32, red in 16..24, green in 8..16 and blue in 0..8.
#[verifier::external_body]
fn glyphon_rgba(r: u8, g: u8, b: u8, a: u8) -> (packed: u32)
    ensures
        packed as int == argb_word(r, g, b, a),
{
    glyphon::Color::rgba(r, g, b, a).0
}

/// The text renderer's color for channels given as bytes in (red, green, blue, alpha) order.
pub fn text_color(color: (u8, u8, u8, u8)) -> (packed: u32)
    ensures
        packed as int == argb_word(color.0, color.1, color.2, color.3),
{
    let (r, g, b, a) = color;
    glyphon_rgba(r, g, b, a)
}

/// Each channel can be read back from the packed word at its own place: alpha in the
/// highest byte, then red, green and blue; no channel is lost or moved.
pub proof fn lemma_text_color_channels(r: u8, g: u8, b: u8, a: u8)
    ensures
        argb_word(r, g, b, a) / 0x1000000 == a,
        (argb_word(r, g, b, a) / 0x10000) % 0x100 == r,
        (argb_word(r, g, b, a) / 0x100) % 0x100 == g,
        argb_word(r, g, b, a) % 0x100 == b,
        0 <= argb_word(r, g, b, a) <= u32::MAX,
{
    let w = argb_word(r, g, b, a);
    assert(w / 0x1000000 == a) by (nonlinear_arith)
        requires
            w == a * 0x1000000 + r * 0x10000 + g * 0x100 + b,
            0 <= r < 256, 0 <= g < 256, 0 <= b < 256,
    ;
    assert((w / 0x10000) % 0x100 == r) by (nonlinear_arith)
        requires
            w == a * 0x1000000 + r * 0x10000 + g * 0x100 + b,
            0 <= r < 256, 0 <= g < 256, 0 <= b < 256, 0 <= a < 256,
    ;
    assert((w / 0x100) % 0x100 == g) by (nonlinear_arith)
        requires
            w == a * 0x1000000 + r * 0x10000 + g * 0x100 + b,
            0 <= r < 256, 0 <= g < 256, 0 <= b < 256, 0 <= a < 256,
    ;
    assert(w % 0x100 == b) by (nonlinear_arith)
        requires
            w == a * 0x1000000 + r * 0x10000 + g * 0x100 + b,
            0 <= r < 256, 0 <= g < 256, 0 <= b < 256, 0 <= a < 256,
    ;
}

} // verus!
