//! Trusted boundary to the immediate-mode UI context (egui).
//!
//! The UI context is an external collaborator: it runs layout, accumulates
//! shapes and texture changes, and tessellates shapes into draw primitives.
//! Its values are opaque here; the bridge's own state machine decides when
//! each call may run.

use vstd::prelude::*;

use crate::integration::{FrameState, Gui};

verus! {

#[verifier::external_type_specification]
#[verifier::external_body]
pub struct ExContext(egui::Context);

#[verifier::external_type_specification]
#[verifier::external_body]
pub struct ExRawInput(egui::RawInput);

#[verifier::external_type_specification]
#[verifier::external_body]
pub struct ExPlatformOutput(egui::PlatformOutput);

#[verifier::external_type_specification]
#[verifier::external_body]
pub struct ExTexturesDelta(egui::TexturesDelta);

#[verifier::external_type_specification]
#[verifier::external_body]
pub struct ExClippedShape(egui::epaint::ClippedShape);

#[verifier::external_type_specification]
#[verifier::external_body]
pub struct ExClippedPrimitive(egui::ClippedPrimitive);

/// Relies on egui::Context::default: creates a fresh UI context with no
/// frame open and nothing pending.
#[verifier::external_body]
pub(crate) fn context_default() -> egui::Context {
    egui::Context::default()
}

/// Relies on egui::Context::clone: the context is a shared handle (a
/// reference-counted pointer to the one underlying context), so the clone
/// is the same handle value.
#[verifier::external_body]
pub(crate) fn clone_context(ctx: &egui::Context) -> (r: egui::Context)
    ensures
        r == *ctx,
{
    ctx.clone()
}

/// Relies on egui::Context::begin_frame: starts a UI frame from the given
/// raw input and loads the context's fonts if not yet loaded. It also
/// relies on the raw input carrying an acceptable pixel scale: the UI
/// library's font system takes only a finite `pixels_per_point` strictly
/// between 0 and 100 and aborts on any other value (on the first frame,
/// and again whenever a later frame changes the scale). The scale is a
/// float inside the opaque input, so no precondition here can state it:
/// the windowing layer must validate or clamp it (and the maximum texture
/// dimension the font atlas is sized by) before handing input in.
#[verifier::external_body]
pub(crate) fn ui_begin_frame(ctx: &egui::Context, raw_input: egui::RawInput) {
    ctx.begin_frame(raw_input);
}

/// Relies on egui::Context::end_frame: ends the UI frame begun by
/// egui::Context::begin_frame and hands back the frame's platform output,
/// texture delta and shape list. It must only run while the session has a
/// frame open: the session opens a frame only through
/// egui::Context::begin_frame, and ending a never-begun frame aborts
/// inside the UI library (its fonts are loaded by the first frame begin).
#[verifier::external_body]
pub(crate) fn ui_end_frame(gui: &Gui) -> (egui::PlatformOutput, egui::TexturesDelta, Vec<egui::epaint::ClippedShape>)
    requires
        gui.state_spec() == FrameState::FrameOpen,
{
    let egui::FullOutput { platform_output, needs_repaint: _, textures_delta, shapes } =
        gui.egui_ctx.end_frame();
    (platform_output, textures_delta, shapes)
}

/// Relies on egui::Context::tessellate: turns the frame's shape list into
/// clipped draw primitives. It must only run once a frame has been begun
/// on the session's context (the tessellator reads the fonts loaded by the
/// first frame begin), which holds whenever the session has frame data
/// pending.
#[verifier::external_body]
pub(crate) fn ui_tessellate(gui: &Gui, shapes: Vec<egui::epaint::ClippedShape>) -> Vec<egui::ClippedPrimitive>
    requires
        gui.state_spec() == FrameState::FrameEnded,
{
    gui.egui_ctx.tessellate(shapes)
}

} // verus!
