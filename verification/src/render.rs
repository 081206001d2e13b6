//! Drawing a frame: its size in pixels, and what the player is asked to draw.

use vstd::prelude::*;

verus! {

/// The flag by which the player says that there is a new frame to draw.
pub const UPDATE_FRAME: u32 = 1;

/// An unsigned number as the signed one with the same bits.
pub open spec fn same_bits(value: u32) -> i32 {
    if value <= i32::MAX {
        value as i32
    } else {
        (value - 0x1_0000_0000) as i32
    }
}

/// Whether a size, in the compositor's units, can be scaled to pixels.
pub open spec fn scalable(width: u32, height: u32, scale: u32) -> bool {
    width * scale <= u32::MAX && height * scale <= u32::MAX
}

/// A length in pixels.
pub open spec fn pixels(length: u32, scale: u32) -> i32 {
    same_bits((length * scale) as u32)
}

/// Whether the player's flags announce a new frame.
pub open spec fn announces_frame(flags: u32) -> bool {
    flags % 2 == 1
}

/// A parameter of a request to draw.
#[derive(Debug, Clone, Copy, PartialEq, Eq, Structural)]
pub enum RenderParam {
    /// The frame buffer to draw to, its size, and its format.
    OpenGlFbo { fbo: i32, w: i32, h: i32, internal_format: i32 },
    /// Whether to draw upside down.
    FlipY(i32),
    /// Whether to wait for the time at which the frame is due.
    BlockForTargetTime(i32),
    /// The end of the parameters.
    Invalid,
}

/// Whether a size, in the compositor's units, can be scaled to pixels.
pub fn is_scalable(width: u32, height: u32, scale: u32) -> (yes: bool)
    ensures
        yes == scalable(width, height, scale),
{
    width.checked_mul(scale).is_some() && height.checked_mul(scale).is_some()
}

/// A length in pixels.
pub fn to_pixels(length: u32, scale: u32) -> (scaled: i32)
    requires
        length * scale <= u32::MAX,
    ensures
        scaled == pixels(length, scale),
{
    let product: u32 = length * scale;
    assert(product <= 0x7fff_ffffu32 ==> product as i32 == product) by (bit_vector);
    assert(product > 0x7fff_ffffu32 ==> product as i32 == product - 0x1_0000_0000) by (bit_vector);
    #[verifier::truncate]
    (product as i32)
}

/// Whether the player's flags announce a new frame.
pub fn has_frame(flags: u32) -> (yes: bool)
    ensures
        yes == announces_frame(flags),
{
    assert((flags & 1u32 != 0) == (flags % 2 == 1)) by (bit_vector);
    flags & UPDATE_FRAME != 0
}

/// The parameters with which the player draws a frame on the current surface:
/// the right way up, and at once, without waiting until the frame is due.
pub fn render_nonblocking(w: i32, h: i32) -> (params: Vec<RenderParam>)
    ensures
        params@ == seq![
            RenderParam::OpenGlFbo { fbo: 0, w, h, internal_format: 0 },
            RenderParam::FlipY(1),
            RenderParam::BlockForTargetTime(0),
            RenderParam::Invalid,
        ],
{
    vec![
        RenderParam::OpenGlFbo { fbo: 0, w, h, internal_format: 0 },
        RenderParam::FlipY(1),
        RenderParam::BlockForTargetTime(0),
        RenderParam::Invalid,
    ]
}

/// A length in pixels is the length times the scale; where that is too large for a
/// signed number, it is the one with the same bits, which lies 2^32 below.
pub proof fn pixels_are_the_scaled_length(length: u32, scale: u32)
    requires
        length * scale <= u32::MAX,
    ensures
        length * scale <= i32::MAX ==> pixels(length, scale) == length * scale,
        length * scale > i32::MAX ==> pixels(length, scale) == length * scale - 0x1_0000_0000,
        pixels(length, scale) == pixels(scale, length),
        pixels(length, 1) == same_bits(length),
{
    assert(length * scale == scale * length) by (nonlinear_arith);
}

/// A size can be scaled exactly if both of its lengths can, and then so can a smaller
/// one.
pub proof fn smaller_sizes_can_be_scaled_too(
    width: u32,
    height: u32,
    scale: u32,
    narrower: u32,
    lower: u32,
)
    requires
        narrower <= width,
        lower <= height,
    ensures
        scalable(width, height, scale) <==> width * scale < 0x1_0000_0000 && height * scale
            < 0x1_0000_0000,
        scalable(width, height, scale) ==> scalable(narrower, lower, scale),
{
    assert(narrower * scale <= width * scale) by (nonlinear_arith)
        requires
            narrower <= width,
    ;
    assert(lower * scale <= height * scale) by (nonlinear_arith)
        requires
            lower <= height,
    ;
}

} // verus!
