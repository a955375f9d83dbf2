//! Pixel-format model for render-target capability negotiation.
//!
//! The renderer backend requires one specific render-target pixel format:
//! the 8-bit-per-channel, sRGB-encoded, 4-component format `B8G8R8A8_SRGB`.
//! A surface is usable only if its supported-format set contains it.

use vstd::prelude::*;

verus! {

/// A render-target pixel format as the bridge's logic reads it: either the
/// one format the renderer requires, or some other format carried by its
/// numeric code.
#[derive(Clone, Copy, Debug, PartialEq, Eq, Structural)]
pub enum PixelFormat {
    /// The 8-bit-per-channel, sRGB-encoded, 4-component format
    /// `B8G8R8A8_SRGB` that the renderer requires of its render target.
    B8g8r8a8Srgb,
    /// Any other pixel format, identified by its numeric code.
    Other(u32),
}

/// The one pixel format the renderer requires of render targets.
pub open spec fn required_format() -> PixelFormat {
    PixelFormat::B8g8r8a8Srgb
}

/// Returns the pixel format the renderer requires of render targets.
pub fn renderer_required_format() -> (r: PixelFormat)
    ensures
        r == required_format(),
{
    PixelFormat::B8g8r8a8Srgb
}

/// Whether a surface's supported-format set contains the format the
/// renderer requires.
pub fn surface_supports_required_format(supported: &Vec<PixelFormat>) -> (r: bool)
    ensures
        r == supported@.contains(required_format()),
{
    let mut i: usize = 0;
    while i < supported.len()
        invariant
            i <= supported@.len(),
            forall|j: int| 0 <= j < i ==> supported@[j] != required_format(),
        decreases supported@.len() - i,
    {
        if supported[i] == PixelFormat::B8g8r8a8Srgb {
            proof {
                assert(supported@[i as int] == required_format());
            }
            return true;
        }
        i += 1;
    }
    false
}

} // verus!
