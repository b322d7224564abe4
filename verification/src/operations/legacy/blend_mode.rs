//! Straight-alpha blending of one 8-bit colour channel: the per-channel
//! step a compositor applies to red, green and blue before it handles the
//! alpha accumulation itself.

use vstd::prelude::*;

verus! {

/// How a foreground channel combines with the background channel under it.
#[derive(Clone, Copy, Debug, PartialEq, Eq, Structural)]
pub enum BlendMode {
    Over,
    Screen,
    Multiply,
}

/// Channel multiply on the 0..255 scale, rounded down.
pub open spec fn multiply_channel(fg: int, bg: int) -> int {
    (fg * bg) / 255
}

/// Channel screen on the 0..255 scale: the inverse of the multiply of the
/// inverses, rounded as the multiply is.
pub open spec fn screen_channel(fg: int, bg: int) -> int {
    255 - ((255 - fg) * (255 - bg)) / 255
}

/// The blended value of one channel.
pub open spec fn blended(mode: BlendMode, fg: int, bg: int) -> int {
    match mode {
        BlendMode::Over => fg,
        BlendMode::Screen => screen_channel(fg, bg),
        BlendMode::Multiply => multiply_channel(fg, bg),
    }
}

/// The product of two channels, divided by 255, stays a channel value no
/// larger than either factor.
proof fn lemma_product_bounds(a: int, b: int)
    requires
        0 <= a <= 255,
        0 <= b <= 255,
    ensures
        0 <= (a * b) / 255 <= a,
        (a * b) / 255 <= b,
{
    assert(0 <= a * b <= a * 255) by (nonlinear_arith)
        requires 0 <= a <= 255, 0 <= b <= 255;
    assert(a * b <= 255 * b) by (nonlinear_arith)
        requires 0 <= a <= 255, 0 <= b <= 255;
    assert((a * 255) / 255 == a) by (nonlinear_arith);
    assert((255 * b) / 255 == b) by (nonlinear_arith);
    assert((a * b) / 255 <= (a * 255) / 255) by (nonlinear_arith)
        requires 0 <= a * b <= a * 255;
    assert((a * b) / 255 <= (255 * b) / 255) by (nonlinear_arith)
        requires 0 <= a * b <= 255 * b;
    assert(0 <= (a * b) / 255) by (nonlinear_arith)
        requires 0 <= a * b;
}

impl BlendMode {
    /// Blend two straight-alpha colour channel values (0-255), ignoring
    /// alpha.
    pub fn blend_channel(&self, fg: u8, bg: u8) -> (r: u8)
        ensures
            r == blended(*self, fg as int, bg as int),
    {
        match self {
            BlendMode::Over => fg,
            BlendMode::Screen => {
                proof {
                    lemma_product_bounds(255 - fg, 255 - bg);
                }
                let product = (255 - fg as u32) * (255 - bg as u32);
                255 - (product / 255) as u8
            },
            BlendMode::Multiply => {
                proof {
                    lemma_product_bounds(fg as int, bg as int);
                }
                ((fg as u32 * bg as u32) / 255) as u8
            },
        }
    }
}

/// Multiply and screen are symmetric in their two operands.
pub proof fn lemma_blend_commutes(fg: int, bg: int)
    ensures
        multiply_channel(fg, bg) == multiply_channel(bg, fg),
        screen_channel(fg, bg) == screen_channel(bg, fg),
{
    assert(fg * bg == bg * fg) by (nonlinear_arith);
    assert((255 - fg) * (255 - bg) == (255 - bg) * (255 - fg)) by (nonlinear_arith);
}

/// Screen is the inverse of the multiply of the inverses.
pub proof fn lemma_screen_is_inverted_multiply(fg: int, bg: int)
    ensures
        screen_channel(fg, bg) == 255 - multiply_channel(255 - fg, 255 - bg),
{
}

/// White is the identity of multiply and black its zero; black is the
/// identity of screen and white its one.
pub proof fn lemma_blend_identities(c: int)
    requires
        0 <= c <= 255,
    ensures
        multiply_channel(c, 255) == c,
        multiply_channel(c, 0) == 0,
        screen_channel(c, 0) == c,
        screen_channel(c, 255) == 255,
{
    assert((c * 255) / 255 == c) by (nonlinear_arith);
    assert(((255 - c) * 255) / 255 == 255 - c) by (nonlinear_arith);
    assert(c * 0 == 0);
    assert((255 - c) * 0 == 0);
}

/// Multiply darkens and screen lightens: multiply is at most either
/// channel, screen at least either channel.
pub proof fn lemma_blend_ordering(fg: int, bg: int)
    requires
        0 <= fg <= 255,
        0 <= bg <= 255,
    ensures
        multiply_channel(fg, bg) <= fg,
        multiply_channel(fg, bg) <= bg,
        fg <= screen_channel(fg, bg),
        bg <= screen_channel(fg, bg),
        0 <= multiply_channel(fg, bg),
        screen_channel(fg, bg) <= 255,
{
    lemma_product_bounds(fg, bg);
    lemma_product_bounds(255 - fg, 255 - bg);
}

} // verus!
