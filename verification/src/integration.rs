//! The integration session: frame lifecycle, draw-data hand-off, and the
//! user-texture registry.
//!
//! A session bridges the immediate-mode UI context to a GPU renderer
//! backend. It owns the begin/end frame state machine, buffers the frame's
//! shape list and texture delta between end-of-frame and draw time, and
//! exposes two mutually exclusive draw entry points gated by a render-path
//! mode fixed at construction.

use vstd::prelude::*;

use crate::errors::GuiError;
use crate::format::{required_format, renderer_required_format, surface_supports_required_format,
    PixelFormat};
use crate::ui;

verus! {

/// How the renderer was instantiated; fixed at construction and never
/// changed afterwards.
#[derive(Clone, Copy, Debug, PartialEq, Eq, Structural)]
pub enum RenderPathMode {
    /// The renderer owns its render pass and draws onto a caller-supplied
    /// target image (`draw_on_image`).
    OwnsRenderPass,
    /// The renderer records commands for a caller-supplied render subpass
    /// (`draw_on_subpass_image`).
    ExternalSubpass,
}

/// The frame lifecycle stage of a session.
#[derive(Clone, Copy, Debug, PartialEq, Eq, Structural)]
pub enum FrameState {
    /// No frame is open; nothing is buffered.
    Idle,
    /// A frame was begun; layout calls may mutate the UI context.
    FrameOpen,
    /// The frame was ended; its shape list and texture delta are buffered
    /// and await the one draw call that consumes them.
    FrameEnded,
}

/// The per-frame draw data handed off to the renderer backend: the frame's
/// platform output (cursor and clipboard requests, to be applied to the
/// window), the tessellated clipped draw primitives, and the texture delta
/// the renderer must apply around painting.
pub struct DrawData {
    pub platform_output: egui::PlatformOutput,
    pub primitives: Vec<egui::ClippedPrimitive>,
    pub textures_delta: egui::TexturesDelta,
}

/// An integration session between the UI context and the renderer backend.
pub struct Gui {
    pub(crate) egui_ctx: egui::Context,
    mode: RenderPathMode,
    frame_state: FrameState,
    is_overlay: bool,
    max_texture_side: usize,
    shapes: Vec<egui::epaint::ClippedShape>,
    textures_delta: Option<egui::TexturesDelta>,
    next_user_texture_id: u64,
    registered_user_textures: Vec<u64>,
}

impl Gui {
    /// The render-path mode fixed at construction.
    pub closed spec fn mode_spec(self) -> RenderPathMode {
        self.mode
    }

    /// The session's current frame lifecycle stage.
    pub closed spec fn state_spec(self) -> FrameState {
        self.frame_state
    }

    /// Whether the renderer may assume the caller cleared the target.
    pub closed spec fn overlay_spec(self) -> bool {
        self.is_overlay
    }

    /// The platform-reported maximum texture dimension handed to the
    /// input bridge for atlas sizing.
    pub closed spec fn max_texture_side_spec(self) -> usize {
        self.max_texture_side
    }

    /// The UI context handle owned by the session.
    pub closed spec fn context_spec(self) -> egui::Context {
        self.egui_ctx
    }

    /// The shape list buffered between end-of-frame and draw time.
    pub closed spec fn pending_shapes(self) -> Seq<egui::epaint::ClippedShape> {
        self.shapes@
    }

    /// The texture delta buffered between end-of-frame and draw time.
    pub closed spec fn pending_delta(self) -> Option<egui::TexturesDelta> {
        self.textures_delta
    }

    /// The ids of the currently registered user textures, in registration
    /// order.
    pub closed spec fn user_texture_ids(self) -> Seq<u64> {
        self.registered_user_textures@
    }

    /// The id the next user-texture registration will return.
    pub closed spec fn next_user_texture_id_spec(self) -> u64 {
        self.next_user_texture_id
    }

    /// Session well-formedness: registered user-texture ids are distinct
    /// and below the allocation counter, and the pending buffers are
    /// populated exactly while the frame has ended but was not yet drawn.
    pub closed spec fn wf(self) -> bool {
        &&& forall|i: int, j: int|
            0 <= i < j < self.registered_user_textures@.len()
                ==> self.registered_user_textures@[i] != self.registered_user_textures@[j]
        &&& forall|i: int|
            0 <= i < self.registered_user_textures@.len()
                ==> self.registered_user_textures@[i] < self.next_user_texture_id
        &&& (self.frame_state != FrameState::FrameEnded ==> self.shapes@.len() == 0
            && self.textures_delta is None)
        &&& (self.frame_state == FrameState::FrameEnded ==> self.textures_delta is Some)
    }
}

/// The construction-time configuration of a session never changes: the
/// render-path mode, the overlay flag, the maximum texture dimension and
/// the UI context handle are those fixed when the session was created.
pub open spec fn same_config(pre: Gui, post: Gui) -> bool {
    &&& post.mode_spec() == pre.mode_spec()
    &&& post.overlay_spec() == pre.overlay_spec()
    &&& post.max_texture_side_spec() == pre.max_texture_side_spec()
    &&& post.context_spec() == pre.context_spec()
}

/// The user-texture registry is untouched: same registered ids, same
/// allocation counter.
pub open spec fn same_user_textures(pre: Gui, post: Gui) -> bool {
    &&& post.user_texture_ids() == pre.user_texture_ids()
    &&& post.next_user_texture_id_spec() == pre.next_user_texture_id_spec()
}

impl Gui {
    /// Builds a session after validating the surface's format support.
    fn create(
        supported_formats: &Vec<PixelFormat>,
        max_texture_side: usize,
        is_overlay: bool,
        mode: RenderPathMode,
    ) -> (r: Result<Gui, GuiError>)
        ensures
            r is Ok <==> supported_formats@.contains(required_format()),
            !supported_formats@.contains(required_format()) ==> r == Err::<Gui, GuiError>(
                GuiError::SurfaceFormatUnsupported,
            ),
            r matches Ok(g) ==> {
                &&& g.wf()
                &&& g.mode_spec() == mode
                &&& g.state_spec() == FrameState::Idle
                &&& g.overlay_spec() == is_overlay
                &&& g.max_texture_side_spec() == max_texture_side
                &&& g.pending_shapes().len() == 0
                &&& g.pending_delta() is None
                &&& g.user_texture_ids() =~= Seq::<u64>::empty()
                &&& g.next_user_texture_id_spec() == 0
            },
    {
        if !surface_supports_required_format(supported_formats) {
            return Err(GuiError::SurfaceFormatUnsupported);
        }
        Ok(
            Gui {
                egui_ctx: ui::context_default(),
                mode,
                frame_state: FrameState::Idle,
                is_overlay,
                max_texture_side,
                shapes: Vec::new(),
                textures_delta: None,
                next_user_texture_id: 0,
                registered_user_textures: Vec::new(),
            },
        )
    }

    /// Creates a session whose renderer owns its render pass, to draw onto
    /// caller-supplied target images with `draw_on_image`.
    ///
    /// `supported_formats` is the surface's supported-format set as the
    /// device reports it; construction fails, before any renderer state is
    /// created, unless it contains the required `B8G8R8A8_SRGB` format.
    /// `max_texture_side` is the platform-reported maximum texture
    /// dimension, kept for the input bridge's atlas sizing. If
    /// `is_overlay` is true the caller clears the target before drawing;
    /// otherwise the renderer clears it.
    pub fn new(
        supported_formats: &Vec<PixelFormat>,
        max_texture_side: usize,
        is_overlay: bool,
    ) -> (r: Result<Gui, GuiError>)
        ensures
            r is Ok <==> supported_formats@.contains(required_format()),
            !supported_formats@.contains(required_format()) ==> r == Err::<Gui, GuiError>(
                GuiError::SurfaceFormatUnsupported,
            ),
            r matches Ok(g) ==> {
                &&& g.wf()
                &&& g.mode_spec() == RenderPathMode::OwnsRenderPass
                &&& g.state_spec() == FrameState::Idle
                &&& g.overlay_spec() == is_overlay
                &&& g.max_texture_side_spec() == max_texture_side
                &&& g.pending_shapes().len() == 0
                &&& g.pending_delta() is None
                &&& g.user_texture_ids() =~= Seq::<u64>::empty()
                &&& g.next_user_texture_id_spec() == 0
            },
    {
        Gui::create(supported_formats, max_texture_side, is_overlay, RenderPathMode::OwnsRenderPass)
    }

    /// Creates a session whose renderer records commands for a
    /// caller-supplied render subpass, to be drawn with
    /// `draw_on_subpass_image`.
    ///
    /// Format validation and `max_texture_side` are as in `new`.
    pub fn new_with_subpass(
        supported_formats: &Vec<PixelFormat>,
        max_texture_side: usize,
    ) -> (r: Result<Gui, GuiError>)
        ensures
            r is Ok <==> supported_formats@.contains(required_format()),
            !supported_formats@.contains(required_format()) ==> r == Err::<Gui, GuiError>(
                GuiError::SurfaceFormatUnsupported,
            ),
            r matches Ok(g) ==> {
                &&& g.wf()
                &&& g.mode_spec() == RenderPathMode::ExternalSubpass
                &&& g.state_spec() == FrameState::Idle
                &&& g.overlay_spec() == false
                &&& g.max_texture_side_spec() == max_texture_side
                &&& g.pending_shapes().len() == 0
                &&& g.pending_delta() is None
                &&& g.user_texture_ids() =~= Seq::<u64>::empty()
                &&& g.next_user_texture_id_spec() == 0
            },
    {
        Gui::create(supported_formats, max_texture_side, false, RenderPathMode::ExternalSubpass)
    }

    /// Begins a UI frame from the raw input the input bridge gathered.
    ///
    /// Valid only while no frame is open; beginning a frame while one is
    /// already open is a contract violation of the caller. The raw input's
    /// pixel scale, if present, must be finite and lie strictly between 0
    /// and 100 — the UI library halts on any other value — so the
    /// windowing layer validates or clamps it before handing input in.
    pub fn begin_frame(&mut self, raw_input: egui::RawInput)
        requires
            old(self).wf(),
            old(self).state_spec() == FrameState::Idle,
        ensures
            final(self).wf(),
            same_config(*old(self), *final(self)),
            same_user_textures(*old(self), *final(self)),
            final(self).state_spec() == FrameState::FrameOpen,
            final(self).pending_shapes().len() == 0,
            final(self).pending_delta() is None,
    {
        ui::ui_begin_frame(&self.egui_ctx, raw_input);
        self.frame_state = FrameState::FrameOpen;
    }

    /// Begins a UI frame and immediately runs the caller's layout closure
    /// once, on the session's (shared) UI context, replacing a manual
    /// begin-frame/layout sequence. The frame is not ended: a draw entry
    /// point does that. The raw input is constrained as in `begin_frame`.
    pub fn immediate_ui<F: FnOnce(egui::Context)>(&mut self, raw_input: egui::RawInput, layout_function: F)
        requires
            old(self).wf(),
            old(self).state_spec() == FrameState::Idle,
            call_requires(layout_function, (old(self).context_spec(),)),
        ensures
            final(self).wf(),
            same_config(*old(self), *final(self)),
            same_user_textures(*old(self), *final(self)),
            final(self).state_spec() == FrameState::FrameOpen,
            final(self).pending_shapes().len() == 0,
            final(self).pending_delta() is None,
            call_ensures(layout_function, (old(self).context_spec(),), ()),
    {
        self.begin_frame(raw_input);
        let ctx = ui::clone_context(&self.egui_ctx);
        layout_function(ctx);
    }

    /// Ends the UI frame: stores the frame's shape list and texture delta
    /// in the pending buffers and returns the frame's platform output for
    /// the input bridge to apply to the window.
    fn end_frame(&mut self) -> (r: egui::PlatformOutput)
        requires
            old(self).wf(),
            old(self).state_spec() == FrameState::FrameOpen,
        ensures
            final(self).wf(),
            same_config(*old(self), *final(self)),
            same_user_textures(*old(self), *final(self)),
            final(self).state_spec() == FrameState::FrameEnded,
    {
        let (platform_output, textures_delta, shapes) = ui::ui_end_frame(&*self);
        self.shapes = shapes;
        self.textures_delta = Some(textures_delta);
        self.frame_state = FrameState::FrameEnded;
        platform_output
    }

    /// Ends the frame and drains the pending buffers into the draw data
    /// handed to the renderer. This is the single consumption point of a
    /// frame's output: it runs exactly once between two frame begins, and
    /// it leaves both pending buffers empty.
    fn extract_draw_data_at_frame_end(&mut self) -> (r: DrawData)
        requires
            old(self).wf(),
            old(self).state_spec() == FrameState::FrameOpen,
        ensures
            final(self).wf(),
            same_config(*old(self), *final(self)),
            same_user_textures(*old(self), *final(self)),
            final(self).state_spec() == FrameState::Idle,
            final(self).pending_shapes().len() == 0,
            final(self).pending_delta() is None,
    {
        let platform_output = self.end_frame();
        let mut shapes: Vec<egui::epaint::ClippedShape> = Vec::new();
        std::mem::swap(&mut shapes, &mut self.shapes);
        let mut delta_opt: Option<egui::TexturesDelta> = None;
        std::mem::swap(&mut delta_opt, &mut self.textures_delta);
        let textures_delta = delta_opt.unwrap();
        let primitives = ui::ui_tessellate(&*self, shapes);
        self.frame_state = FrameState::Idle;
        DrawData { platform_output, primitives, textures_delta }
    }

    /// The `OwnsRenderPass`-mode draw entry point: ends the open frame,
    /// drains its draw data and hands it back for the renderer to draw
    /// onto a target image of format `target_format`.
    ///
    /// Fails, leaving the session unchanged, if the session was created
    /// with `new_with_subpass` (the matching entry point is then
    /// `draw_on_subpass_image`) or if the target's format is not the
    /// required `B8G8R8A8_SRGB`.
    pub fn draw_on_image(&mut self, target_format: PixelFormat) -> (r: Result<DrawData, GuiError>)
        requires
            old(self).wf(),
            old(self).state_spec() == FrameState::FrameOpen,
        ensures
            final(self).wf(),
            same_config(*old(self), *final(self)),
            same_user_textures(*old(self), *final(self)),
            r is Ok <==> old(self).mode_spec() == RenderPathMode::OwnsRenderPass
                && target_format == required_format(),
            old(self).mode_spec() == RenderPathMode::ExternalSubpass ==> r == Err::<
                DrawData,
                GuiError,
            >(GuiError::UseDrawOnSubpassImageInstead),
            old(self).mode_spec() == RenderPathMode::OwnsRenderPass && target_format
                != required_format() ==> r == Err::<DrawData, GuiError>(
                GuiError::RenderTargetFormatMismatch,
            ),
            r is Err ==> *final(self) == *old(self),
            r is Ok ==> final(self).state_spec() == FrameState::Idle
                && final(self).pending_shapes().len() == 0
                && final(self).pending_delta() is None,
    {
        match self.mode {
            RenderPathMode::ExternalSubpass => Err(GuiError::UseDrawOnSubpassImageInstead),
            RenderPathMode::OwnsRenderPass => {
                if target_format != renderer_required_format() {
                    Err(GuiError::RenderTargetFormatMismatch)
                } else {
                    Ok(self.extract_draw_data_at_frame_end())
                }
            },
        }
    }

    /// The `ExternalSubpass`-mode draw entry point: ends the open frame,
    /// drains its draw data and hands it back for the renderer to record
    /// as commands in the caller's subpass.
    ///
    /// Fails, leaving the session unchanged, if the session was created
    /// with `new` (the matching entry point is then `draw_on_image`).
    pub fn draw_on_subpass_image(&mut self) -> (r: Result<DrawData, GuiError>)
        requires
            old(self).wf(),
            old(self).state_spec() == FrameState::FrameOpen,
        ensures
            final(self).wf(),
            same_config(*old(self), *final(self)),
            same_user_textures(*old(self), *final(self)),
            r is Ok <==> old(self).mode_spec() == RenderPathMode::ExternalSubpass,
            old(self).mode_spec() == RenderPathMode::OwnsRenderPass ==> r == Err::<
                DrawData,
                GuiError,
            >(GuiError::UseDrawOnImageInstead),
            r is Err ==> *final(self) == *old(self),
            r is Ok ==> final(self).state_spec() == FrameState::Idle
                && final(self).pending_shapes().len() == 0
                && final(self).pending_delta() is None,
    {
        match self.mode {
            RenderPathMode::OwnsRenderPass => Err(GuiError::UseDrawOnImageInstead),
            RenderPathMode::ExternalSubpass => Ok(self.extract_draw_data_at_frame_end()),
        }
    }
}

impl Gui {
    /// Registers a user image (an already-GPU-resident image view the
    /// renderer takes a shareable reference to) and returns the fresh
    /// user-texture id for UI content to reference it by. The id was not
    /// registered before and stays valid until `unregister_user_image`.
    pub fn register_user_image_view(&mut self) -> (r: u64)
        requires
            old(self).wf(),
            old(self).next_user_texture_id_spec() < u64::MAX,
        ensures
            final(self).wf(),
            same_config(*old(self), *final(self)),
            final(self).state_spec() == old(self).state_spec(),
            final(self).pending_shapes() == old(self).pending_shapes(),
            final(self).pending_delta() == old(self).pending_delta(),
            r == old(self).next_user_texture_id_spec(),
            !old(self).user_texture_ids().contains(r),
            final(self).user_texture_ids() == old(self).user_texture_ids().push(r),
            forall|id: u64|
                final(self).user_texture_ids().contains(id) == (old(
                    self,
                ).user_texture_ids().contains(id) || id == r),
            final(self).next_user_texture_id_spec() == old(self).next_user_texture_id_spec() + 1,
    {
        let id = self.next_user_texture_id;
        proof {
            assert(!self.registered_user_textures@.contains(id)) by {
                if self.registered_user_textures@.contains(id) {
                    let k = choose|k: int|
                        0 <= k < self.registered_user_textures@.len()
                            && self.registered_user_textures@[k] == id;
                    assert(self.registered_user_textures@[k] < id);
                }
            }
        }
        self.next_user_texture_id = id + 1;
        self.registered_user_textures.push(id);
        proof {
            let pre = old(self).registered_user_textures@;
            let post = self.registered_user_textures@;
            assert(post == pre.push(id));
            assert(post[pre.len() as int] == id);
            assert(post.contains(id));
            assert forall|x: u64| post.contains(x) == (pre.contains(x) || x == id) by {
                if pre.contains(x) {
                    let k = choose|k: int| 0 <= k < pre.len() && pre[k] == x;
                    assert(post[k] == x);
                    assert(post.contains(x));
                }
                if post.contains(x) && x != id {
                    let k = choose|k: int| 0 <= k < post.len() && post[k] == x;
                    assert(k < pre.len());
                    assert(pre[k] == x);
                    assert(pre.contains(x));
                }
            }
        }
        id
    }

    /// Releases the renderer's reference to a registered user image.
    ///
    /// The id must be currently registered: unregistering an id twice, or
    /// referencing it in UI content afterwards, is a contract violation of
    /// the caller, not a recoverable error.
    #[verifier::loop_isolation(false)]
    pub fn unregister_user_image(&mut self, texture_id: u64)
        requires
            old(self).wf(),
            old(self).user_texture_ids().contains(texture_id),
        ensures
            final(self).wf(),
            same_config(*old(self), *final(self)),
            final(self).state_spec() == old(self).state_spec(),
            final(self).pending_shapes() == old(self).pending_shapes(),
            final(self).pending_delta() == old(self).pending_delta(),
            final(self).next_user_texture_id_spec() == old(self).next_user_texture_id_spec(),
            !final(self).user_texture_ids().contains(texture_id),
            forall|id: u64|
                id != texture_id ==> final(self).user_texture_ids().contains(id) == old(
                    self,
                ).user_texture_ids().contains(id),
            final(self).user_texture_ids().len() == old(self).user_texture_ids().len() - 1,
    {
        let mut i: usize = 0;
        while i < self.registered_user_textures.len()
            invariant
                *self == *old(self),
                i <= self.registered_user_textures@.len(),
                forall|j: int| 0 <= j < i ==> self.registered_user_textures@[j] != texture_id,
                self.registered_user_textures@.contains(texture_id),
            decreases self.registered_user_textures@.len() - i,
        {
            if self.registered_user_textures[i] == texture_id {
                proof {
                    let pre = old(self).registered_user_textures@;
                    assert(self.registered_user_textures@ == pre);
                    assert(pre[i as int] == texture_id);
                }
                self.registered_user_textures.remove(i);
                proof {
                    let pre = old(self).registered_user_textures@;
                    let post = self.registered_user_textures@;
                    assert(post == pre.remove(i as int));
                    pre.remove_ensures(i as int);
                    assert(!post.contains(texture_id)) by {
                        if post.contains(texture_id) {
                            let k = choose|k: int|
                                0 <= k < post.len() && post[k] == texture_id;
                            if k < i as int {
                                assert(post[k] == pre[k]);
                            } else {
                                assert(post[k] == pre[k + 1]);
                            }
                        }
                    }
                    assert forall|id: u64| id != texture_id implies post.contains(id) == pre.contains(
                        id,
                    ) by {
                        if pre.contains(id) {
                            let k = choose|k: int| 0 <= k < pre.len() && pre[k] == id;
                            if k < i as int {
                                assert(post[k] == pre[k]);
                                assert(post.contains(id));
                            } else {
                                assert(k != i as int);
                                assert(post[k - 1] == pre[k]);
                                assert(post.contains(id));
                            }
                        }
                        if post.contains(id) {
                            let k = choose|k: int| 0 <= k < post.len() && post[k] == id;
                            if k < i as int {
                                assert(pre[k] == id);
                                assert(pre.contains(id));
                            } else {
                                assert(pre[k + 1] == id);
                                assert(pre.contains(id));
                            }
                        }
                    }
                    assert forall|a: int, b: int| 0 <= a < b < post.len() implies post[a] != post[b] by {
                        if a < i as int {
                            assert(post[a] == pre[a]);
                        } else {
                            assert(post[a] == pre[a + 1]);
                        }
                        if b < i as int {
                            assert(post[b] == pre[b]);
                        } else {
                            assert(post[b] == pre[b + 1]);
                        }
                    }
                    assert forall|a: int| 0 <= a < post.len() implies post[a]
                        < self.next_user_texture_id by {
                        if a < i as int {
                            assert(post[a] == pre[a]);
                        } else {
                            assert(post[a] == pre[a + 1]);
                        }
                    }
                }
                return ;
            }
            i += 1;
        }
        proof {
            let k = choose|k: int|
                0 <= k < self.registered_user_textures@.len()
                    && self.registered_user_textures@[k] == texture_id;
            assert(self.registered_user_textures@[k] != texture_id);
        }
    }

    /// Whether `texture_id` is a currently registered user texture.
    pub fn is_registered(&self, texture_id: u64) -> (r: bool)
        ensures
            r == self.user_texture_ids().contains(texture_id),
    {
        let mut i: usize = 0;
        while i < self.registered_user_textures.len()
            invariant
                i <= self.registered_user_textures@.len(),
                forall|j: int| 0 <= j < i ==> self.registered_user_textures@[j] != texture_id,
            decreases self.registered_user_textures@.len() - i,
        {
            if self.registered_user_textures[i] == texture_id {
                proof {
                    assert(self.registered_user_textures@[i as int] == texture_id);
                }
                return true;
            }
            i += 1;
        }
        false
    }

    /// The id the next user-texture registration will return; lets a
    /// caller check that the id space is not exhausted before registering.
    pub fn next_user_texture_id(&self) -> (r: u64)
        ensures
            r == self.next_user_texture_id_spec(),
    {
        self.next_user_texture_id
    }

    /// The number of currently registered user textures.
    pub fn user_texture_count(&self) -> (r: usize)
        ensures
            r == self.user_texture_ids().len(),
    {
        self.registered_user_textures.len()
    }

    /// Accesses the session's UI context handle (shared: it refers to the
    /// same underlying context the session uses, e.g. to set fonts or
    /// visuals on it).
    pub fn context(&self) -> (r: egui::Context)
        ensures
            r == self.context_spec(),
    {
        ui::clone_context(&self.egui_ctx)
    }

    /// The render-path mode fixed at construction.
    pub fn render_path_mode(&self) -> (r: RenderPathMode)
        ensures
            r == self.mode_spec(),
    {
        self.mode
    }

    /// The session's current frame lifecycle stage.
    pub fn current_frame_state(&self) -> (r: FrameState)
        ensures
            r == self.state_spec(),
    {
        self.frame_state
    }

    /// The number of shapes buffered between end-of-frame and draw time.
    pub fn pending_shape_count(&self) -> (r: usize)
        ensures
            r == self.pending_shapes().len(),
    {
        self.shapes.len()
    }

    /// Whether a frame's texture delta is buffered and awaits a draw call.
    pub fn has_pending_draw_data(&self) -> (r: bool)
        ensures
            r == (self.pending_delta() is Some),
    {
        self.textures_delta.is_some()
    }

    /// Whether the renderer may assume the caller cleared the target.
    pub fn is_overlay(&self) -> (r: bool)
        ensures
            r == self.overlay_spec(),
    {
        self.is_overlay
    }

    /// The platform-reported maximum texture dimension.
    pub fn max_texture_side(&self) -> (r: usize)
        ensures
            r == self.max_texture_side_spec(),
    {
        self.max_texture_side
    }
}

/// Law: a frame's draw data is consumed at most once. Outside the
/// `FrameEnded` stage a well-formed session holds no pending shapes and no
/// pending texture delta, so once a draw entry point has drained the
/// buffers and left the session `Idle`, nothing remains to extract until a
/// new frame is begun and ended.
pub proof fn lemma_drained_frame_leaves_no_pending_data(g: Gui)
    requires
        g.wf(),
        g.state_spec() != FrameState::FrameEnded,
    ensures
        g.pending_shapes().len() == 0,
        g.pending_delta() is None,
{
}

} // verus!
