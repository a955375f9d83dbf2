//! Unrecoverable precondition violations reported by the bridge.
//!
//! The bridge treats these as programmer errors in the integration, not as
//! recoverable runtime conditions: a caller that receives one is expected to
//! halt with the error's message rather than continue rendering.

use vstd::prelude::*;

verus! {

/// A fatal precondition violation: the surface or render target does not
/// meet the renderer's one format requirement, or a draw entry point was
/// called that does not match the session's render-path mode.
#[derive(Clone, Copy, Debug, PartialEq, Eq, Structural)]
pub enum GuiError {
    /// The surface's supported-format set lacks the required
    /// `B8G8R8A8_SRGB` format; no renderer state may be created.
    SurfaceFormatUnsupported,
    /// The render target handed to `draw_on_image` does not have the
    /// `B8G8R8A8_SRGB` format validated at construction.
    RenderTargetFormatMismatch,
    /// `draw_on_subpass_image` was called on a session whose renderer owns
    /// its render pass; `draw_on_image` is the matching entry point.
    UseDrawOnImageInstead,
    /// `draw_on_image` was called on a session whose renderer draws into a
    /// caller-supplied subpass; `draw_on_subpass_image` is the matching
    /// entry point.
    UseDrawOnSubpassImageInstead,
}

impl GuiError {
    /// The diagnostic message of this error. Open so that callers can
    /// reason about the text itself: the surface error names the missing
    /// `B8G8R8A8_SRGB` format, and each mode-misuse error names the draw
    /// entry point that matches the session's mode.
    pub open spec fn message_spec(self) -> Seq<char> {
        match self {
            GuiError::SurfaceFormatUnsupported => "Swapchain format does not support B8G8R8A8_SRGB"@,
            GuiError::RenderTargetFormatMismatch => "Render target image color format is wrong, should be B8G8R8A8_SRGB"@,
            GuiError::UseDrawOnImageInstead => "Gui integration has been created with its own render pass, use `draw_on_image` instead"@,
            GuiError::UseDrawOnSubpassImageInstead => "Gui integration has been created with subpass, use `draw_on_subpass_image` instead"@,
        }
    }

    /// Returns the diagnostic message to halt with.
    pub fn message(&self) -> (r: &'static str)
        ensures
            r@ == self.message_spec(),
    {
        match self {
            GuiError::SurfaceFormatUnsupported => "Swapchain format does not support B8G8R8A8_SRGB",
            GuiError::RenderTargetFormatMismatch => "Render target image color format is wrong, should be B8G8R8A8_SRGB",
            GuiError::UseDrawOnImageInstead => "Gui integration has been created with its own render pass, use `draw_on_image` instead",
            GuiError::UseDrawOnSubpassImageInstead => "Gui integration has been created with subpass, use `draw_on_subpass_image` instead",
        }
    }
}

} // verus!
