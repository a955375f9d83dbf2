use egui_winit_vulkano::errors::GuiError;
use egui_winit_vulkano::format::PixelFormat;
use egui_winit_vulkano::integration::{FrameState, Gui, RenderPathMode};

fn formats_with_required() -> Vec<PixelFormat> {
    vec![PixelFormat::Other(44), PixelFormat::B8g8r8a8Srgb, PixelFormat::Other(50)]
}

fn formats_without_required() -> Vec<PixelFormat> {
    vec![PixelFormat::Other(44), PixelFormat::Other(50)]
}

#[test]
fn construction_succeeds_with_required_format() {
    let gui = Gui::new(&formats_with_required(), 4096, false).unwrap();
    assert_eq!(gui.render_path_mode(), RenderPathMode::OwnsRenderPass);
    assert_eq!(gui.current_frame_state(), FrameState::Idle);
    assert_eq!(gui.pending_shape_count(), 0);
    assert!(!gui.has_pending_draw_data());
    assert_eq!(gui.user_texture_count(), 0);
    assert_eq!(gui.max_texture_side(), 4096);
    assert!(!gui.is_overlay());
}

#[test]
fn construction_keeps_overlay_flag_and_texture_side() {
    let gui = Gui::new(&formats_with_required(), 2048, true).unwrap();
    assert!(gui.is_overlay());
    assert_eq!(gui.max_texture_side(), 2048);
}

#[test]
fn subpass_construction_succeeds_with_required_format() {
    let gui = Gui::new_with_subpass(&formats_with_required(), 1024).unwrap();
    assert_eq!(gui.render_path_mode(), RenderPathMode::ExternalSubpass);
    assert_eq!(gui.current_frame_state(), FrameState::Idle);
}

#[test]
fn construction_fails_without_required_format() {
    let err = Gui::new(&formats_without_required(), 4096, false).err().unwrap();
    assert_eq!(err, GuiError::SurfaceFormatUnsupported);
    assert!(err.message().contains("B8G8R8A8_SRGB"));
}

#[test]
fn construction_fails_on_empty_format_set() {
    let err = Gui::new(&Vec::new(), 4096, false).err().unwrap();
    assert_eq!(err, GuiError::SurfaceFormatUnsupported);
    let err = Gui::new_with_subpass(&Vec::new(), 4096).err().unwrap();
    assert_eq!(err, GuiError::SurfaceFormatUnsupported);
}

#[test]
fn required_format_helpers_agree() {
    let f = egui_winit_vulkano::format::renderer_required_format();
    assert_eq!(f, PixelFormat::B8g8r8a8Srgb);
    assert!(egui_winit_vulkano::format::surface_supports_required_format(
        &formats_with_required()
    ));
    assert!(!egui_winit_vulkano::format::surface_supports_required_format(
        &formats_without_required()
    ));
}

#[test]
fn frame_cycle_draws_on_target_and_drains_buffers() {
    let mut gui = Gui::new(&formats_with_required(), 4096, false).unwrap();
    gui.immediate_ui(egui::RawInput::default(), |ctx: egui::Context| {
        egui::CentralPanel::default().show(&ctx, |ui| {
            ui.label("hello");
        });
    });
    assert_eq!(gui.current_frame_state(), FrameState::FrameOpen);
    let data = gui.draw_on_image(PixelFormat::B8g8r8a8Srgb).unwrap();
    assert!(!data.primitives.is_empty());
    assert_eq!(gui.current_frame_state(), FrameState::Idle);
    assert_eq!(gui.pending_shape_count(), 0);
    assert!(!gui.has_pending_draw_data());
}

#[test]
fn second_frame_can_begin_after_draw() {
    let mut gui = Gui::new(&formats_with_required(), 4096, false).unwrap();
    gui.begin_frame(egui::RawInput::default());
    gui.draw_on_image(PixelFormat::B8g8r8a8Srgb).unwrap();
    gui.begin_frame(egui::RawInput::default());
    assert_eq!(gui.current_frame_state(), FrameState::FrameOpen);
    gui.draw_on_image(PixelFormat::B8g8r8a8Srgb).unwrap();
    assert_eq!(gui.current_frame_state(), FrameState::Idle);
}

#[test]
fn subpass_draw_rejected_in_render_pass_mode() {
    let mut gui = Gui::new(&formats_with_required(), 4096, false).unwrap();
    gui.begin_frame(egui::RawInput::default());
    let err = gui.draw_on_subpass_image().err().unwrap();
    assert_eq!(err, GuiError::UseDrawOnImageInstead);
    assert!(err.message().contains("draw_on_image"));
    // The session is unchanged: the frame is still open and the matching
    // entry point still succeeds.
    assert_eq!(gui.current_frame_state(), FrameState::FrameOpen);
    assert!(gui.draw_on_image(PixelFormat::B8g8r8a8Srgb).is_ok());
}

#[test]
fn target_draw_rejected_in_subpass_mode() {
    let mut gui = Gui::new_with_subpass(&formats_with_required(), 4096).unwrap();
    gui.begin_frame(egui::RawInput::default());
    let err = gui.draw_on_image(PixelFormat::B8g8r8a8Srgb).err().unwrap();
    assert_eq!(err, GuiError::UseDrawOnSubpassImageInstead);
    assert!(err.message().contains("draw_on_subpass_image"));
    assert_eq!(gui.current_frame_state(), FrameState::FrameOpen);
    gui.draw_on_subpass_image().unwrap();
    assert_eq!(gui.current_frame_state(), FrameState::Idle);
    assert_eq!(gui.pending_shape_count(), 0);
    assert!(!gui.has_pending_draw_data());
}

#[test]
fn target_draw_rejects_wrong_target_format() {
    let mut gui = Gui::new(&formats_with_required(), 4096, false).unwrap();
    gui.begin_frame(egui::RawInput::default());
    let err = gui.draw_on_image(PixelFormat::Other(7)).err().unwrap();
    assert_eq!(err, GuiError::RenderTargetFormatMismatch);
    assert!(err.message().contains("B8G8R8A8_SRGB"));
    // Still open; the correct format succeeds.
    assert!(gui.draw_on_image(PixelFormat::B8g8r8a8Srgb).is_ok());
}

#[test]
fn register_and_unregister_user_image() {
    let mut gui = Gui::new(&formats_with_required(), 4096, false).unwrap();
    let t = gui.register_user_image_view();
    assert!(gui.is_registered(t));
    assert_eq!(gui.user_texture_count(), 1);
    gui.unregister_user_image(t);
    // A second unregister of `t` would violate the documented caller
    // contract: the id is no longer registered.
    assert!(!gui.is_registered(t));
    assert_eq!(gui.user_texture_count(), 0);
}

#[test]
fn registered_ids_are_fresh() {
    let mut gui = Gui::new(&formats_with_required(), 4096, false).unwrap();
    assert_eq!(gui.next_user_texture_id(), 0);
    let a = gui.register_user_image_view();
    assert_eq!(gui.next_user_texture_id(), 1);
    let b = gui.register_user_image_view();
    assert_ne!(a, b);
    gui.unregister_user_image(a);
    let c = gui.register_user_image_view();
    assert_eq!(gui.next_user_texture_id(), 3);
    assert_ne!(a, c);
    assert_ne!(b, c);
    assert!(gui.is_registered(b));
    assert!(gui.is_registered(c));
    assert!(!gui.is_registered(a));
}

#[test]
fn unregister_keeps_other_ids() {
    let mut gui = Gui::new(&formats_with_required(), 4096, false).unwrap();
    let a = gui.register_user_image_view();
    let b = gui.register_user_image_view();
    let c = gui.register_user_image_view();
    gui.unregister_user_image(b);
    assert!(gui.is_registered(a));
    assert!(!gui.is_registered(b));
    assert!(gui.is_registered(c));
    assert_eq!(gui.user_texture_count(), 2);
}

#[test]
fn registry_is_untouched_by_frames() {
    let mut gui = Gui::new(&formats_with_required(), 4096, false).unwrap();
    let a = gui.register_user_image_view();
    gui.begin_frame(egui::RawInput::default());
    gui.draw_on_image(PixelFormat::B8g8r8a8Srgb).unwrap();
    assert!(gui.is_registered(a));
    assert_eq!(gui.user_texture_count(), 1);
}

#[test]
fn error_messages_are_exact() {
    assert_eq!(
        GuiError::SurfaceFormatUnsupported.message(),
        "Swapchain format does not support B8G8R8A8_SRGB"
    );
    assert_eq!(
        GuiError::RenderTargetFormatMismatch.message(),
        "Render target image color format is wrong, should be B8G8R8A8_SRGB"
    );
    assert_eq!(
        GuiError::UseDrawOnImageInstead.message(),
        "Gui integration has been created with its own render pass, use `draw_on_image` instead"
    );
    assert_eq!(
        GuiError::UseDrawOnSubpassImageInstead.message(),
        "Gui integration has been created with subpass, use `draw_on_subpass_image` instead"
    );
}

#[test]
fn context_is_a_shared_handle() {
    let gui = Gui::new(&formats_with_required(), 4096, false).unwrap();
    let ctx = gui.context();
    ctx.set_visuals(egui::Visuals::light());
    // A context handed out later refers to the same underlying context.
    assert!(!gui.context().style().visuals.dark_mode);
    let gui2 = Gui::new(&formats_with_required(), 4096, false).unwrap();
    // A fresh session has a context of its own, untouched by the first
    // session's change (the UI library defaults to dark visuals).
    assert!(gui2.context().style().visuals.dark_mode);
}

#[test]
fn layout_closure_sees_session_context() {
    let mut gui = Gui::new(&formats_with_required(), 4096, false).unwrap();
    gui.context().set_visuals(egui::Visuals::light());
    gui.immediate_ui(egui::RawInput::default(), |ctx: egui::Context| {
        assert!(!ctx.style().visuals.dark_mode);
    });
    gui.draw_on_image(PixelFormat::B8g8r8a8Srgb).unwrap();
}
