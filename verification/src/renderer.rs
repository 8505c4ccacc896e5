//! The renderer: what it holds between frames, how it is built, and how it
//! takes in the messages of the scene builder.

use vstd::prelude::*;
use crate::checks::{first_error_of, lemma_first_error_found};
use crate::command::Command;
use crate::external_image::{
    key_of, lock_requests, resolves_static_error, ExternalImageKey, LockedImage,
};
use crate::frame_loop::{is_drawn_from, pool_after, targets_needed};
use crate::gpu_store::{frame_uploads, GpuDataTextures};
use crate::tiling::Frame;
use crate::render_target::RenderTargetPool;
use crate::result_channel::{recorded, PipelineEpoch, PipelineEpochMap, RendererFrame, ResultMsg};
use crate::shader::{program_names, name_views, Shaders, PROGRAMS};
use crate::texture_cache::{
    created_formats, first_error, update_commands, TextureCacheUpdater, TextureUpdate,
};
use crate::types::{
    ColorF, DeviceUintSize, Epoch, FontRenderMode, ImageFormat, PipelineId, RenderError,
    RenderTargetKind, RendererKind, TextureId, TextureTarget, ONE_BITS,
};

verus! {

/// The name of the colour texture that is bound where a pass has no colour
/// target of an earlier pass to sample.
pub const DUMMY_RGBA8_ID: u32 = 2;

/// The name of the alpha texture that is bound where a pass has no alpha
/// target of an earlier pass to sample.
pub const DUMMY_A8_ID: u32 = 3;

/// The name of the texture that holds the dither matrix.
pub const DITHER_ID: u32 = 4;

/// What a renderer is built with. `device_pixel_ratio` is the bit pattern
/// of an `f32`.
#[derive(Clone, PartialEq, Eq, Debug)]
pub struct RendererOptions {
    pub device_pixel_ratio: u32,
    pub resource_override_path: Option<String>,
    pub enable_aa: bool,
    pub enable_dithering: bool,
    pub enable_profiler: bool,
    pub max_recorded_profiles: usize,
    pub debug: bool,
    pub enable_scrollbars: bool,
    pub precache_shaders: bool,
    pub renderer_kind: RendererKind,
    pub enable_subpixel_aa: bool,
    pub clear_framebuffer: bool,
    pub clear_color: ColorF,
    pub enable_batcher: bool,
    pub render_target_debug: bool,
    pub max_texture_size: Option<u32>,
}

impl Default for RendererOptions {
    fn default() -> (options: RendererOptions)
        ensures
            options.device_pixel_ratio == ONE_BITS,
            options.resource_override_path is None,
            options.enable_aa,
            options.enable_dithering,
            !options.enable_profiler,
            options.max_recorded_profiles == 0,
            !options.debug,
            !options.enable_scrollbars,
            !options.precache_shaders,
            options.renderer_kind == RendererKind::Native,
            !options.enable_subpixel_aa,
            options.clear_framebuffer,
            options.clear_color == ColorF::spec_white(),
            options.enable_batcher,
            !options.render_target_debug,
            options.max_texture_size is None,
    {
        RendererOptions {
            device_pixel_ratio: ONE_BITS,
            resource_override_path: None,
            enable_aa: true,
            enable_dithering: true,
            enable_profiler: false,
            max_recorded_profiles: 0,
            debug: false,
            enable_scrollbars: false,
            precache_shaders: false,
            renderer_kind: RendererKind::Native,
            enable_subpixel_aa: false,
            clear_framebuffer: true,
            clear_color: ColorF::white(),
            enable_batcher: true,
            render_target_debug: false,
            max_texture_size: None,
        }
    }
}

/// What the scene builder is configured with.
#[derive(Copy, Clone, PartialEq, Eq, Debug)]
pub struct FrameBuilderConfig {
    pub enable_scrollbars: bool,
    pub default_font_render_mode: FontRenderMode,
    pub debug: bool,
}

impl FrameBuilderConfig {
    pub fn new(enable_scrollbars: bool, default_font_render_mode: FontRenderMode, debug: bool) -> (config:
        FrameBuilderConfig)
        ensures
            config == (FrameBuilderConfig { enable_scrollbars, default_font_render_mode, debug }),
    {
        FrameBuilderConfig { enable_scrollbars, default_font_render_mode, debug }
    }
}

/// How text is rendered by default: subpixel anti-aliasing needs
/// anti-aliasing to be on.
pub open spec fn spec_default_font_render_mode(enable_aa: bool, enable_subpixel_aa: bool) -> FontRenderMode {
    if enable_aa && enable_subpixel_aa {
        FontRenderMode::Subpixel
    } else if enable_aa {
        FontRenderMode::Alpha
    } else {
        FontRenderMode::Mono
    }
}

#[verifier::when_used_as_spec(spec_default_font_render_mode)]
pub fn default_font_render_mode(enable_aa: bool, enable_subpixel_aa: bool) -> (mode: FontRenderMode)
    ensures
        mode == spec_default_font_render_mode(enable_aa, enable_subpixel_aa),
{
    match (enable_aa, enable_subpixel_aa) {
        (true, true) => FontRenderMode::Subpixel,
        (true, false) => FontRenderMode::Alpha,
        (false, _) => FontRenderMode::Mono,
    }
}

/// The largest texture that the texture cache may ask for: what the device
/// can do, or less where the options say so.
pub open spec fn spec_max_texture_size(device_max_size: u32, wanted: Option<u32>) -> u32 {
    match wanted {
        Some(size) => if size < device_max_size {
            size
        } else {
            device_max_size
        },
        None => device_max_size,
    }
}

#[verifier::when_used_as_spec(spec_max_texture_size)]
pub fn max_texture_size(device_max_size: u32, wanted: Option<u32>) -> (size: u32)
    ensures
        size == spec_max_texture_size(device_max_size, wanted),
{
    match wanted {
        Some(size) => if size < device_max_size {
            size
        } else {
            device_max_size
        },
        None => device_max_size,
    }
}

/// What has to be done outside the renderer when one is built: the
/// programs to compile, in the order of their ids, and what the scene
/// builder is started with.
#[derive(Clone, PartialEq, Eq, Debug)]
pub struct RendererSetup {
    pub program_names: Vec<String>,
    pub max_texture_size: u32,
    pub config: FrameBuilderConfig,
    pub device_pixel_ratio: u32,
    pub renderer_kind: RendererKind,
}

/// Submits to the GPU the work that the scene builder prepared.
pub struct Renderer {
    /// The cache operations that came with the messages taken in and are
    /// not applied yet, in the order of their arrival.
    pub pending_texture_updates: Vec<TextureUpdate>,
    pub pending_shader_updates: Vec<String>,
    pub current_frame: Option<RendererFrame>,
    pub shaders: Shaders,
    pub clear_framebuffer: bool,
    pub clear_color: ColorF,
    pub render_targets: RenderTargetPool,
    pub gpu_data_textures: GpuDataTextures,
    pub pipeline_epoch_map: PipelineEpochMap,
    pub texture_cache: TextureCacheUpdater,
    /// A 1x1 texture for shaders that sample the colour cache in a pass
    /// that has none.
    pub dummy_cache_texture_id: TextureId,
    pub dummy_cache_texture_a8_id: TextureId,
    pub dither_matrix_texture_id: Option<TextureId>,
    /// Whether the application installed a handler for external images.
    pub has_external_image_handler: bool,
}

/// The cache operations of one message.
pub open spec fn message_updates(msg: ResultMsg) -> Seq<TextureUpdate> {
    match msg {
        ResultMsg::NewFrame(_, list) => list.updates@,
        ResultMsg::RefreshShader(_) => Seq::empty(),
    }
}

/// The cache operations of all the messages, in the order of arrival.
pub open spec fn all_updates(msgs: Seq<ResultMsg>) -> Seq<TextureUpdate>
    decreases msgs.len(),
{
    if msgs.len() == 0 {
        Seq::empty()
    } else {
        all_updates(msgs.drop_last()) + message_updates(msgs.last())
    }
}

/// The shader that one message asks to reload, if it does.
pub open spec fn message_shader_updates(msg: ResultMsg) -> Seq<String> {
    match msg {
        ResultMsg::RefreshShader(path) => seq![path],
        ResultMsg::NewFrame(_, _) => Seq::empty(),
    }
}

/// The shaders that the messages ask to reload, in the order of arrival.
pub open spec fn all_shader_updates(msgs: Seq<ResultMsg>) -> Seq<String>
    decreases msgs.len(),
{
    if msgs.len() == 0 {
        Seq::empty()
    } else {
        all_shader_updates(msgs.drop_last()) + message_shader_updates(msgs.last())
    }
}

/// The frame to draw once one message is taken in: its frame, or the one
/// held before where it has none.
pub open spec fn message_frame(current: Option<RendererFrame>, msg: ResultMsg) -> Option<
    RendererFrame,
> {
    match msg {
        ResultMsg::NewFrame(frame, _) => Some(frame),
        ResultMsg::RefreshShader(_) => current,
    }
}

/// The frame to draw once the messages are taken in: the last that came,
/// or the one held before where none came.
pub open spec fn latest_frame(current: Option<RendererFrame>, msgs: Seq<ResultMsg>) -> Option<
    RendererFrame,
>
    decreases msgs.len(),
{
    if msgs.len() == 0 {
        current
    } else {
        message_frame(latest_frame(current, msgs.drop_last()), msgs.last())
    }
}

/// The epochs once one message is taken in: those of its frame are
/// recorded.
pub open spec fn message_epochs(epochs: Map<PipelineId, Epoch>, msg: ResultMsg) -> Map<
    PipelineId,
    Epoch,
> {
    match msg {
        ResultMsg::NewFrame(frame, _) => recorded(epochs, frame.pipeline_epoch_map@),
        ResultMsg::RefreshShader(_) => epochs,
    }
}

/// The epochs once the messages are taken in: those of every frame that
/// came are recorded, also of a frame that a later one replaced.
pub open spec fn epochs_after(epochs: Map<PipelineId, Epoch>, msgs: Seq<ResultMsg>) -> Map<
    PipelineId,
    Epoch,
>
    decreases msgs.len(),
{
    if msgs.len() == 0 {
        epochs
    } else {
        message_epochs(epochs_after(epochs, msgs.drop_last()), msgs.last())
    }
}

impl Renderer {
    /// Whether `self` differs from `before` at most in what messages
    /// change: the queues, the frame and the epochs.
    pub open spec fn same_device_state(&self, before: &Renderer) -> bool {
        &&& self.shaders == before.shaders
        &&& self.clear_framebuffer == before.clear_framebuffer
        &&& self.clear_color == before.clear_color
        &&& self.render_targets == before.render_targets
        &&& self.gpu_data_textures == before.gpu_data_textures
        &&& self.texture_cache == before.texture_cache
        &&& self.dummy_cache_texture_id == before.dummy_cache_texture_id
        &&& self.dummy_cache_texture_a8_id == before.dummy_cache_texture_a8_id
        &&& self.dither_matrix_texture_id == before.dither_matrix_texture_id
        &&& self.has_external_image_handler == before.has_external_image_handler
    }

    /// Builds a renderer that holds no frame, no texture and no target,
    /// and says what is to be set up around it. `device_max_texture_size`
    /// is what the device gives as its largest texture.
    pub fn new(options: &RendererOptions, device_max_texture_size: u32) -> (r: (Renderer, RendererSetup))
        ensures
            r.0.pending_texture_updates@.len() == 0,
            r.0.pending_shader_updates@.len() == 0,
            r.0.current_frame is None,
            r.0.shaders.spec_dithering() == options.enable_dithering,
            r.0.clear_framebuffer == options.clear_framebuffer,
            r.0.clear_color == options.clear_color,
            r.0.render_targets.color_render_targets@.len() == 0,
            r.0.render_targets.alpha_render_targets@.len() == 0,
            r.0.pipeline_epoch_map@ == Map::<PipelineId, Epoch>::empty(),
            r.0.texture_cache@.len() == 0,
            r.0.dummy_cache_texture_id == (TextureId {
                name: DUMMY_RGBA8_ID,
                target: TextureTarget::Default,
            }),
            r.0.dummy_cache_texture_a8_id == (TextureId {
                name: DUMMY_A8_ID,
                target: TextureTarget::Default,
            }),
            r.0.dither_matrix_texture_id == (if options.enable_dithering {
                Some(TextureId { name: DITHER_ID, target: TextureTarget::Default })
            } else {
                None
            }),
            !r.0.has_external_image_handler,
            name_views(r.1.program_names@) == program_names(options.enable_dithering),
            r.1.program_names@.len() == PROGRAMS,
            r.1.max_texture_size == spec_max_texture_size(
                device_max_texture_size,
                options.max_texture_size,
            ),
            r.1.config == (FrameBuilderConfig {
                enable_scrollbars: options.enable_scrollbars,
                default_font_render_mode: spec_default_font_render_mode(
                    options.enable_aa,
                    options.enable_subpixel_aa,
                ),
                debug: options.debug,
            }),
            r.1.device_pixel_ratio == options.device_pixel_ratio,
            r.1.renderer_kind == options.renderer_kind,
    {
        let (shaders, names) = Shaders::new(options.enable_dithering);
        let max_size = max_texture_size(device_max_texture_size, options.max_texture_size);
        let dummy_cache_texture_id = TextureId::new(DUMMY_RGBA8_ID, TextureTarget::Default);
        let dummy_cache_texture_a8_id = TextureId::new(DUMMY_A8_ID, TextureTarget::Default);
        let dither_matrix_texture_id = if options.enable_dithering {
            Some(TextureId::new(DITHER_ID, TextureTarget::Default))
        } else {
            None
        };
        let mode = default_font_render_mode(options.enable_aa, options.enable_subpixel_aa);
        let config = FrameBuilderConfig::new(options.enable_scrollbars, mode, options.debug);
        let renderer = Renderer {
            pending_texture_updates: Vec::new(),
            pending_shader_updates: Vec::new(),
            current_frame: None,
            shaders,
            clear_framebuffer: options.clear_framebuffer,
            clear_color: options.clear_color,
            render_targets: RenderTargetPool::new(),
            gpu_data_textures: GpuDataTextures::new(),
            pipeline_epoch_map: PipelineEpochMap::new(),
            texture_cache: TextureCacheUpdater::new(),
            dummy_cache_texture_id,
            dummy_cache_texture_a8_id,
            dither_matrix_texture_id,
            has_external_image_handler: false,
        };
        let setup = RendererSetup {
            program_names: names,
            max_texture_size: max_size,
            config,
            device_pixel_ratio: options.device_pixel_ratio,
            renderer_kind: options.renderer_kind,
        };
        (renderer, setup)
    }

    /// Records that the application installed a handler for external
    /// images; from now on frames and cache operations may name them.
    pub fn set_external_image_handler(&mut self)
        ensures
            final(self).has_external_image_handler,
            final(self).same_inbox(old(self)),
            final(self).shaders == old(self).shaders,
            final(self).clear_framebuffer == old(self).clear_framebuffer,
            final(self).clear_color == old(self).clear_color,
            final(self).render_targets == old(self).render_targets,
            final(self).texture_cache == old(self).texture_cache,
            final(self).dummy_cache_texture_id == old(self).dummy_cache_texture_id,
            final(self).dummy_cache_texture_a8_id == old(self).dummy_cache_texture_a8_id,
            final(self).dither_matrix_texture_id == old(self).dither_matrix_texture_id,
    {
        self.has_external_image_handler = true;
    }

    /// Whether `self` holds the messages' part of the state as `before`
    /// does.
    pub open spec fn same_inbox(&self, before: &Renderer) -> bool {
        &&& self.pending_texture_updates == before.pending_texture_updates
        &&& self.pending_shader_updates == before.pending_shader_updates
        &&& self.current_frame == before.current_frame
        &&& self.pipeline_epoch_map == before.pipeline_epoch_map
    }

    /// The epoch of the frame of a pipeline that came last.
    pub fn current_epoch(&self, pipeline_id: PipelineId) -> (r: Option<Epoch>)
        ensures
            r == (if self.pipeline_epoch_map@.contains_key(pipeline_id) {
                Some(self.pipeline_epoch_map@[pipeline_id])
            } else {
                None
            }),
    {
        self.pipeline_epoch_map.get(pipeline_id)
    }

    /// Hands out the epochs of the pipelines whose frames came since the
    /// last call, and forgets them.
    pub fn flush_rendered_epochs(&mut self) -> (epochs: PipelineEpochMap)
        ensures
            epochs@ == old(self).pipeline_epoch_map@,
            final(self).pipeline_epoch_map@ == Map::<PipelineId, Epoch>::empty(),
            final(self).same_device_state(old(self)),
            final(self).pending_texture_updates == old(self).pending_texture_updates,
            final(self).pending_shader_updates == old(self).pending_shader_updates,
            final(self).current_frame == old(self).current_frame,
    {
        let mut epochs = PipelineEpochMap::new();
        core::mem::swap(&mut epochs, &mut self.pipeline_epoch_map);
        epochs
    }

    /// Whether a layer of the frame held is bouncing back after an
    /// overscroll.
    pub fn layers_are_bouncing_back(&self) -> (r: bool)
        ensures
            r == match self.current_frame {
                None => false,
                Some(current_frame) => current_frame.layers_bouncing_back@.len() > 0,
            },
    {
        match &self.current_frame {
            None => false,
            Some(current_frame) => current_frame.layers_bouncing_back.len() > 0,
        }
    }

    /// Takes one message in. A frame replaces the frame held, whether that
    /// one was drawn or not; its cache operations join the queue, and its
    /// epochs are recorded. A shader to reload is put down for later.
    pub fn handle_message(&mut self, msg: ResultMsg)
        ensures
            final(self).pending_texture_updates@ == old(self).pending_texture_updates@
                + message_updates(msg),
            final(self).pending_shader_updates@ == old(self).pending_shader_updates@
                + message_shader_updates(msg),
            final(self).current_frame == message_frame(old(self).current_frame, msg),
            final(self).pipeline_epoch_map@ == message_epochs(old(self).pipeline_epoch_map@, msg),
            final(self).same_device_state(old(self)),
    {
        match msg {
            ResultMsg::NewFrame(frame, texture_update_list) => {
                let mut list = texture_update_list;
                self.pending_texture_updates.append(&mut list.updates);
                // Every frame's epochs are recorded, so that a caller can
                // wait for an epoch even if its frame is never drawn.
                let mut epochs = PipelineEpochMap::new();
                core::mem::swap(&mut epochs, &mut self.pipeline_epoch_map);
                let mut i: usize = 0;
                let ghost start = epochs@;
                proof {
                    assert(frame.pipeline_epoch_map@.take(0) =~= Seq::<PipelineEpoch>::empty());
                }
                while i < frame.pipeline_epoch_map.len()
                    invariant
                        i <= frame.pipeline_epoch_map@.len(),
                        epochs@ == recorded(start, frame.pipeline_epoch_map@.take(i as int)),
                    decreases frame.pipeline_epoch_map@.len() - i,
                {
                    let entry = frame.pipeline_epoch_map[i];
                    proof {
                        assert(frame.pipeline_epoch_map@.take(i + 1).drop_last()
                            =~= frame.pipeline_epoch_map@.take(i as int));
                    }
                    epochs = epochs.insert(entry.pipeline_id, entry.epoch);
                    i = i + 1;
                }
                proof {
                    assert(frame.pipeline_epoch_map@.take(i as int) =~= frame.pipeline_epoch_map@);
                }
                core::mem::swap(&mut epochs, &mut self.pipeline_epoch_map);
                self.current_frame = Some(frame);
                assert(self.pending_shader_updates@ =~= old(self).pending_shader_updates@
                    + message_shader_updates(msg));
            },
            ResultMsg::RefreshShader(path) => {
                self.pending_shader_updates.push(path);
                assert(self.pending_shader_updates@ =~= old(self).pending_shader_updates@
                    + message_shader_updates(msg));
                assert(self.pending_texture_updates@ =~= old(self).pending_texture_updates@
                    + message_updates(msg));
            },
        }
    }
    /// Takes in the messages that have arrived, in their order. Of the
    /// frames among them only the last is kept for drawing; the cache
    /// operations and the epochs of all of them count.
    pub fn update(&mut self, msgs: Vec<ResultMsg>)
        ensures
            final(self).pending_texture_updates@ == old(self).pending_texture_updates@
                + all_updates(msgs@),
            final(self).pending_shader_updates@ == old(self).pending_shader_updates@
                + all_shader_updates(msgs@),
            final(self).current_frame == latest_frame(old(self).current_frame, msgs@),
            final(self).pipeline_epoch_map@ == epochs_after(old(self).pipeline_epoch_map@, msgs@),
            final(self).same_device_state(old(self)),
    {
        let ghost all = msgs@;
        proof {
            assert(all.take(0) =~= Seq::<ResultMsg>::empty());
            assert(self.pending_texture_updates@ =~= old(self).pending_texture_updates@
                + all_updates(all.take(0)));
            assert(self.pending_shader_updates@ =~= old(self).pending_shader_updates@
                + all_shader_updates(all.take(0)));
        }
        for msg in iter: msgs.into_iter()
            invariant
                iter.seq() == all,
                self.pending_texture_updates@ == old(self).pending_texture_updates@ + all_updates(
                    all.take(iter.index() as int),
                ),
                self.pending_shader_updates@ == old(self).pending_shader_updates@
                    + all_shader_updates(all.take(iter.index() as int)),
                self.current_frame == latest_frame(
                    old(self).current_frame,
                    all.take(iter.index() as int),
                ),
                self.pipeline_epoch_map@ == epochs_after(
                    old(self).pipeline_epoch_map@,
                    all.take(iter.index() as int),
                ),
                self.same_device_state(old(self)),
        {
            let ghost n = iter.index() as int;
            proof {
                assert(all.take(n + 1).drop_last() =~= all.take(n));
                assert(all.take(n + 1).last() == msg);
            }
            self.handle_message(msg);
            proof {
                assert(self.pending_texture_updates@ =~= old(self).pending_texture_updates@
                    + all_updates(all.take(n + 1)));
                assert(self.pending_shader_updates@ =~= old(self).pending_shader_updates@
                    + all_shader_updates(all.take(n + 1)));
            }
        }
        proof {
            assert(all.take(all.len() as int) =~= all);
        }
    }
}

/// What has to be provided before the frame held can be drawn.
#[derive(Clone, PartialEq, Eq, Debug)]
pub struct RenderRequests {
    /// The formats of the textures to create for the texture cache.
    pub cache_textures: Vec<ImageFormat>,
    /// The number of colour targets to create.
    pub color_targets: usize,
    /// The number of alpha targets to create.
    pub alpha_targets: usize,
    /// The external images to lock, in this order.
    pub external_images: Vec<ExternalImageKey>,
}

/// What was provided for a render: each list answers the request of the
/// same name, item by item.
#[derive(Clone, PartialEq, Eq, Debug)]
pub struct RenderSupplies {
    pub cache_textures: Vec<TextureId>,
    pub color_targets: Vec<TextureId>,
    pub alpha_targets: Vec<TextureId>,
    pub locked_images: Vec<LockedImage>,
}

/// What a render asks to be done: the commands, in order, and the cache
/// operations that the commands read their pixels from.
#[derive(Clone, PartialEq, Eq, Debug)]
pub struct RenderOutput {
    pub commands: Vec<Command>,
    pub texture_updates: Vec<TextureUpdate>,
}

impl RenderSupplies {
    /// Supplies for a render that asked for nothing.
    pub fn new() -> (supplies: RenderSupplies)
        ensures
            supplies.is_empty(),
    {
        RenderSupplies {
            cache_textures: Vec::new(),
            color_targets: Vec::new(),
            alpha_targets: Vec::new(),
            locked_images: Vec::new(),
        }
    }

    pub open spec fn is_empty(&self) -> bool {
        &&& self.cache_textures@.len() == 0
        &&& self.color_targets@.len() == 0
        &&& self.alpha_targets@.len() == 0
        &&& self.locked_images@.len() == 0
    }
}

impl Renderer {
    /// The frame that a render draws: none where no frame has come, or
    /// where the one that came is empty.
    pub open spec fn frame_to_draw(&self) -> Option<Frame> {
        match self.current_frame {
            Some(current_frame) => current_frame.frame,
            None => None,
        }
    }

    /// What stops a render before anything is provided for it.
    pub open spec fn requests_error(&self) -> Option<RenderError> {
        match self.frame_to_draw() {
            None => None,
            Some(frame) => match first_error(
                self.texture_cache@.len(),
                self.has_external_image_handler,
                self.pending_texture_updates@,
            ) {
                Some(e) => Some(e),
                None => resolves_static_error(
                    frame.deferred_resolves@,
                    self.has_external_image_handler,
                ),
            },
        }
    }

    /// What stops a render, if anything: first what is wrong with the
    /// queued cache operations, then with the textures created for them,
    /// then with the frame.
    pub open spec fn render_error(&self, supplies: RenderSupplies) -> Option<RenderError> {
        match self.frame_to_draw() {
            None => if supplies.is_empty() {
                None
            } else {
                Some(RenderError::SupplyMismatch)
            },
            Some(frame) => match first_error(
                self.texture_cache@.len(),
                self.has_external_image_handler,
                self.pending_texture_updates@,
            ) {
                Some(e) => Some(e),
                None => {
                    let created = created_formats(
                        self.texture_cache@.len(),
                        self.pending_texture_updates@,
                    ).len();
                    if supplies.cache_textures@.len() != created {
                        Some(RenderError::SupplyMismatch)
                    } else if self.texture_cache@.len() + created > usize::MAX {
                        Some(RenderError::CountOutOfRange)
                    } else {
                        self.frame_error(
                            self.texture_cache@.len() + created,
                            frame,
                            supplies.locked_images@,
                            supplies.color_targets@.len(),
                            supplies.alpha_targets@.len(),
                        )
                    }
                },
            },
        }
    }

    /// Says what a render of the frame held needs: the textures that the
    /// device has to create, and the external images that the handler has
    /// to lock. Nothing is needed where there is no frame to draw.
    #[verifier::loop_isolation(false)]
    pub fn render_requests(&self) -> (r: Result<RenderRequests, RenderError>)
        ensures
            match r {
                Ok(requests) => {
                    &&& self.requests_error() is None
                    &&& match self.frame_to_draw() {
                        None => {
                            &&& requests.cache_textures@.len() == 0
                            &&& requests.color_targets == 0
                            &&& requests.alpha_targets == 0
                            &&& requests.external_images@.len() == 0
                        },
                        Some(frame) => {
                            &&& requests.cache_textures@ == created_formats(
                                self.texture_cache@.len(),
                                self.pending_texture_updates@,
                            )
                            &&& requests.color_targets == targets_needed(
                                self.render_targets.free(RenderTargetKind::Color),
                                frame.passes@,
                                RenderTargetKind::Color,
                            )
                            &&& requests.alpha_targets == targets_needed(
                                self.render_targets.free(RenderTargetKind::Alpha),
                                frame.passes@,
                                RenderTargetKind::Alpha,
                            )
                            &&& requests.external_images@ == lock_requests(frame.deferred_resolves@)
                        },
                    }
                },
                Err(e) => self.requests_error() == Some(e),
            },
    {
        let frame = match &self.current_frame {
            Some(current_frame) => match &current_frame.frame {
                Some(frame) => frame,
                None => {
                    return Ok(
                        RenderRequests {
                            cache_textures: Vec::new(),
                            color_targets: 0,
                            alpha_targets: 0,
                            external_images: Vec::new(),
                        },
                    );
                },
            },
            None => {
                return Ok(
                    RenderRequests {
                        cache_textures: Vec::new(),
                        color_targets: 0,
                        alpha_targets: 0,
                        external_images: Vec::new(),
                    },
                );
            },
        };
        let cache_textures = match self.texture_cache.texture_requests(
            &self.pending_texture_updates,
            self.has_external_image_handler,
        ) {
            Ok(formats) => formats,
            Err(e) => {
                return Err(e);
            },
        };
        let mut external_images: Vec<ExternalImageKey> = Vec::new();
        if frame.deferred_resolves.len() > 0 {
            if !self.has_external_image_handler {
                return Err(RenderError::NoExternalImageHandler);
            }
            let ghost error = |i: int| frame.deferred_resolves@[i].static_error();
            let mut i: usize = 0;
            while i < frame.deferred_resolves.len()
                invariant
                    i <= frame.deferred_resolves@.len(),
                    error == (|i: int| frame.deferred_resolves@[i].static_error()),
                    first_error_of(i as nat, error) is None,
                    external_images@ == lock_requests(frame.deferred_resolves@).take(i as int),
                decreases frame.deferred_resolves@.len() - i,
            {
                match frame.deferred_resolves[i].image_properties.external_image {
                    Some(image) => {
                        external_images.push(key_of(image));
                    },
                    None => {
                        proof {
                            lemma_first_error_found(
                                frame.deferred_resolves@.len(),
                                error,
                                i as int,
                            );
                        }
                        return Err(RenderError::ResolveNotExternal);
                    },
                }
                i = i + 1;
                assert(external_images@ =~= lock_requests(frame.deferred_resolves@).take(i as int));
            }
            assert(external_images@ =~= lock_requests(frame.deferred_resolves@));
        } else {
            assert(external_images@ =~= lock_requests(frame.deferred_resolves@));
        }
        let color_targets = self.targets_to_create(frame, RenderTargetKind::Color);
        let alpha_targets = self.targets_to_create(frame, RenderTargetKind::Alpha);
        Ok(RenderRequests { cache_textures, color_targets, alpha_targets, external_images })
    }

    /// Applies the queued cache operations to the texture cache's table.
    /// `fresh` holds the textures that the device created for them. The
    /// commands are returned with the operations, which hold the pixels
    /// that the commands upload; the queue is then empty. Operations that
    /// have something wrong stay queued and change nothing.
    pub fn update_texture_cache(&mut self, fresh: Vec<TextureId>) -> (r: Result<
        RenderOutput,
        RenderError,
    >)
        ensures
            match r {
                Ok(output) => {
                    &&& first_error(
                        old(self).texture_cache@.len(),
                        old(self).has_external_image_handler,
                        old(self).pending_texture_updates@,
                    ) is None
                    &&& fresh@.len() == created_formats(
                        old(self).texture_cache@.len(),
                        old(self).pending_texture_updates@,
                    ).len()
                    &&& final(self).texture_cache@ == old(self).texture_cache@ + fresh@
                    &&& output.texture_updates == old(self).pending_texture_updates
                    &&& output.commands@ == update_commands(
                        final(self).texture_cache@,
                        old(self).pending_texture_updates@,
                    )
                    &&& final(self).pending_texture_updates@.len() == 0
                    &&& final(self).same_but_cache(old(self))
                },
                Err(e) => {
                    &&& *final(self) == *old(self)
                    &&& match first_error(
                        old(self).texture_cache@.len(),
                        old(self).has_external_image_handler,
                        old(self).pending_texture_updates@,
                    ) {
                        Some(first) => e == first,
                        None => e == RenderError::SupplyMismatch && fresh@.len()
                            != created_formats(
                            old(self).texture_cache@.len(),
                            old(self).pending_texture_updates@,
                        ).len(),
                    }
                },
            },
    {
        let mut pending: Vec<TextureUpdate> = Vec::new();
        core::mem::swap(&mut pending, &mut self.pending_texture_updates);
        match self.texture_cache.apply(&pending, fresh, self.has_external_image_handler) {
            Ok(commands) => Ok(RenderOutput { commands, texture_updates: pending }),
            Err(e) => {
                core::mem::swap(&mut pending, &mut self.pending_texture_updates);
                Err(e)
            },
        }
    }

    /// Whether `self` differs from `before` at most in the texture cache's
    /// table and in the queue of cache operations.
    pub open spec fn same_but_cache(&self, before: &Renderer) -> bool {
        &&& self.pending_shader_updates == before.pending_shader_updates
        &&& self.current_frame == before.current_frame
        &&& self.pipeline_epoch_map == before.pipeline_epoch_map
        &&& self.shaders == before.shaders
        &&& self.clear_framebuffer == before.clear_framebuffer
        &&& self.clear_color == before.clear_color
        &&& self.render_targets == before.render_targets
        &&& self.gpu_data_textures == before.gpu_data_textures
        &&& self.dummy_cache_texture_id == before.dummy_cache_texture_id
        &&& self.dummy_cache_texture_a8_id == before.dummy_cache_texture_a8_id
        &&& self.dither_matrix_texture_id == before.dither_matrix_texture_id
        &&& self.has_external_image_handler == before.has_external_image_handler
    }

    /// Whether `self` holds everything that a render leaves alone as
    /// `before` does.
    pub open spec fn same_settings(&self, before: &Renderer) -> bool {
        &&& self.pending_shader_updates == before.pending_shader_updates
        &&& self.pipeline_epoch_map == before.pipeline_epoch_map
        &&& self.shaders == before.shaders
        &&& self.clear_framebuffer == before.clear_framebuffer
        &&& self.clear_color == before.clear_color
        &&& self.gpu_data_textures == before.gpu_data_textures
        &&& self.dummy_cache_texture_id == before.dummy_cache_texture_id
        &&& self.dummy_cache_texture_a8_id == before.dummy_cache_texture_a8_id
        &&& self.dither_matrix_texture_id == before.dither_matrix_texture_id
        &&& self.has_external_image_handler == before.has_external_image_handler
    }

    /// Renders the frame held: applies the queued cache operations, draws
    /// the frame, and flushes the device. The frame stays held and can be
    /// drawn again. Where there is no frame to draw, nothing is done and
    /// the cache operations stay queued. Where something is wrong, nothing
    /// is changed and no command is given.
    pub fn render(&mut self, framebuffer_size: DeviceUintSize, supplies: RenderSupplies) -> (r: Result<
        RenderOutput,
        RenderError,
    >)
        ensures
            match r {
                Ok(output) => {
                    &&& old(self).render_error(supplies) is None
                    &&& match old(self).frame_to_draw() {
                        None => {
                            &&& *final(self) == *old(self)
                            &&& output.commands@.len() == 0
                            &&& output.texture_updates@.len() == 0
                        },
                        Some(frame) => {
                            &&& final(self).texture_cache@ == old(self).texture_cache@
                                + supplies.cache_textures@
                            &&& final(self).pending_texture_updates@.len() == 0
                            &&& output.texture_updates == old(self).pending_texture_updates
                            &&& final(self).frame_to_draw() is Some
                            &&& is_drawn_like(*final(self), *old(self), supplies.locked_images@)
                            &&& output.commands@ == update_commands(
                                final(self).texture_cache@,
                                old(self).pending_texture_updates@,
                            ) + old(self).frame_draw_with(
                                final(self).texture_cache@,
                                frame,
                                framebuffer_size,
                                supplies.locked_images@,
                                supplies.color_targets@,
                                supplies.alpha_targets@,
                            ).commands(frame_uploads(final(self).frame_to_draw()->0)) + seq![
                                Command::Flush,
                            ]
                            &&& final(self).same_settings(old(self))
                            &&& forall|kind: RenderTargetKind|
                                final(self).render_targets.free(kind) == pool_after(
                                    old(self).render_targets.free(kind),
                                    if kind == RenderTargetKind::Color {
                                        supplies.color_targets@
                                    } else {
                                        supplies.alpha_targets@
                                    },
                                    frame.passes@,
                                    kind,
                                )
                        },
                    }
                },
                Err(e) => old(self).render_error(supplies) == Some(e) && *final(self) == *old(
                    self,
                ),
            },
    {
        // Test everything before anything is changed.
        let cache_len: usize;
        match &self.current_frame {
            Some(current_frame) => match &current_frame.frame {
                Some(frame) => {
                    let formats = match self.texture_cache.texture_requests(
                        &self.pending_texture_updates,
                        self.has_external_image_handler,
                    ) {
                        Ok(formats) => formats,
                        Err(e) => {
                            return Err(e);
                        },
                    };
                    if formats.len() != supplies.cache_textures.len() {
                        return Err(RenderError::SupplyMismatch);
                    }
                    cache_len = match self.texture_cache.len().checked_add(formats.len()) {
                        Some(len) => len,
                        None => {
                            return Err(RenderError::CountOutOfRange);
                        },
                    };
                    match self.check_frame(
                        cache_len,
                        frame,
                        &supplies.locked_images,
                        supplies.color_targets.len(),
                        supplies.alpha_targets.len(),
                    ) {
                        Some(e) => {
                            return Err(e);
                        },
                        None => {},
                    }
                },
                None => {
                    return self.render_nothing(supplies);
                },
            },
            None => {
                return self.render_nothing(supplies);
            },
        }
        let RenderSupplies { cache_textures, color_targets, alpha_targets, locked_images } =
            supplies;
        let ghost before = *self;
        let mut current = self.current_frame.take();
        let mut output = RenderOutput { commands: Vec::new(), texture_updates: Vec::new() };
        match current {
            Some(mut current_frame) => {
                let mut inner = current_frame.frame.take();
                match inner {
                    Some(mut frame) => {
                        let ghost old_frame = frame;
                        match self.update_texture_cache(cache_textures) {
                            Ok(updated) => {
                                output = updated;
                            },
                            // Not reached: the operations were tested.
                            Err(_) => {},
                        }
                        let ghost updated = output.commands@;
                        let ghost mid = *self;
                        let mut drawn = self.draw_checked_frame(
                            &mut frame,
                            framebuffer_size,
                            &locked_images,
                            &color_targets,
                            &alpha_targets,
                        );
                        let ghost drawn_commands = drawn@;
                        output.commands.append(&mut drawn);
                        output.commands.push(Command::Flush);
                        proof {
                            assert(mid.frame_draw(
                                old_frame,
                                framebuffer_size,
                                locked_images@,
                                color_targets@,
                                alpha_targets@,
                            ) == before.frame_draw_with(
                                mid.texture_cache@,
                                old_frame,
                                framebuffer_size,
                                locked_images@,
                                color_targets@,
                                alpha_targets@,
                            ));
                            assert(output.commands@ =~= updated + drawn_commands + seq![
                                Command::Flush,
                            ]);
                        }
                        current_frame.frame = Some(frame);
                    },
                    // Not reached: there is a frame to draw.
                    None => {},
                }
                // The frame stays: it is drawn again until another comes.
                self.current_frame = Some(current_frame);
            },
            // Not reached: there is a frame to draw.
            None => {},
        }
        Ok(output)
    }

    /// A render with no frame to draw: nothing may have been provided.
    fn render_nothing(&self, supplies: RenderSupplies) -> (r: Result<RenderOutput, RenderError>)
        ensures
            match r {
                Ok(output) => supplies.is_empty() && output.commands@.len() == 0
                    && output.texture_updates@.len() == 0,
                Err(e) => !supplies.is_empty() && e == RenderError::SupplyMismatch,
            },
    {
        if supplies.cache_textures.len() == 0 && supplies.color_targets.len() == 0
            && supplies.alpha_targets.len() == 0 && supplies.locked_images.len() == 0 {
            Ok(RenderOutput { commands: Vec::new(), texture_updates: Vec::new() })
        } else {
            Err(RenderError::SupplyMismatch)
        }
    }
}

/// Whether the frame that `after` holds is the frame that `before` holds
/// as drawing leaves it, with nothing else of what came with the frame
/// changed.
pub open spec fn is_drawn_like(after: Renderer, before: Renderer, locked: Seq<LockedImage>) -> bool {
    &&& after.current_frame is Some
    &&& before.current_frame is Some
    &&& after.current_frame->0.frame is Some
    &&& before.current_frame->0.frame is Some
    &&& after.current_frame->0.pipeline_epoch_map == before.current_frame->0.pipeline_epoch_map
    &&& after.current_frame->0.layers_bouncing_back == before.current_frame->0.layers_bouncing_back
    &&& is_drawn_from(
        after.current_frame->0.frame->0,
        before.current_frame->0.frame->0,
        locked,
    )
}

} // verus!
