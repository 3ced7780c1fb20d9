//! Plain-value descriptions of pixel formats, viewports, images and clear
//! values.
//!
//! A format is identified by its backend numeric code together with the one
//! property this crate's logic reads: whether the format carries a depth
//! component.  The caller converts between these descriptions and the
//! backend's own types at the boundary.

use vstd::prelude::*;

verus! {

/// A pixel format: the backend's numeric code plus its depth capability.
#[derive(Clone, Copy, Debug, PartialEq, Eq, Structural)]
pub struct Format {
    /// The backend's numeric code for this format.
    pub code: u64,
    /// Whether the format has a depth component.
    pub depth: bool,
}

/// The 8-bit BGRA format with sRGB encoding, a common surface format.
pub fn b8g8r8a8_srgb() -> (r: Format)
    ensures
        r == (Format { code: 50u64, depth: false }),
{
    Format { code: 50, depth: false }
}

/// The 16-bit unsigned normalized depth format.
pub fn d16_unorm() -> (r: Format)
    ensures
        r == (Format { code: 124u64, depth: true }),
{
    Format { code: 124, depth: true }
}

/// The 32-bit floating-point depth format.
pub fn d32_sfloat() -> (r: Format)
    ensures
        r == (Format { code: 126u64, depth: true }),
{
    Format { code: 126, depth: true }
}

/// How an attachment's previous contents are treated when a pass begins.
#[derive(Clone, Copy, Debug, PartialEq, Eq, Structural)]
pub enum LoadOp {
    /// Replace the contents with a clear value.
    Clear,
    /// Keep the existing contents.
    Load,
    /// The previous contents are irrelevant.
    DontCare,
}

/// Whether an attachment's contents are kept when a pass ends.
#[derive(Clone, Copy, Debug, PartialEq, Eq, Structural)]
pub enum StoreOp {
    /// Keep the results for use after the pass.
    Store,
    /// The results may be discarded.
    DontCare,
}

/// The image layout an attachment is kept in around a pass.
#[derive(Clone, Copy, Debug, PartialEq, Eq, Structural)]
pub enum ImageLayout {
    /// Optimal layout for a color attachment being drawn to.
    ColorAttachmentOptimal,
    /// Optimal layout for a depth-stencil attachment being drawn to.
    DepthStencilAttachmentOptimal,
}

/// A value an attachment is cleared to when its load operation is `Clear`.
///
/// Color and depth components are carried as raw bit patterns so that the
/// caller's floating-point values round-trip unchanged.
#[derive(Clone, Copy, Debug, PartialEq, Eq)]
pub enum ClearValue {
    /// Four color channels, each the bit pattern of the caller's value.
    Float([u32; 4]),
    /// A depth value, as the bit pattern of the caller's value.
    Depth(u32),
    /// No clearing happens for this attachment.
    Unused,
}

/// The region of the surface rendered to, in whole pixels.
///
/// The origin is always the surface's corner; `inverse_depth` selects the
/// reversed depth range (far plane at zero) instead of the forward one.
#[derive(Clone, Copy, Debug, PartialEq, Eq, Structural)]
pub struct Viewport {
    /// Width in pixels.
    pub width: u32,
    /// Height in pixels.
    pub height: u32,
    /// Whether the depth range runs from one down to zero.
    pub inverse_depth: bool,
}

/// A description of a created image: its size and format.
#[derive(Clone, Copy, Debug, PartialEq, Eq, Structural)]
pub struct Image {
    /// Width in pixels.
    pub width: u32,
    /// Height in pixels.
    pub height: u32,
    /// The image's pixel format.
    pub format: Format,
}

} // verus!
