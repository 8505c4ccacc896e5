//! Frame execution: what is drawn for a frame, and in which order.
//!
//! A frame is checked as a whole before anything is changed, so that a
//! frame that cannot be drawn leaves the renderer as it was and causes no
//! command. The commands of a frame then come in this order: the storage
//! of the targets of its passes, the uploads of its GPU data, its passes
//! one after another, and the unlocks of its external images.

use vstd::prelude::*;
use crate::batch::{
    check_target, lemma_extend_runs, lemma_start_runs, target_commands, target_error,
    DrawContext, PassDraw,
};
use crate::checks::{first_error_of, lemma_first_error_found, lemma_no_error_at};
use crate::command::{concat_runs, Command, PixelSource, Projection};
use crate::external_image::{
    append_unlocks, key_of, patched_rects, resolved_table, resolves_error, texture_target,
    unlock_commands, ExternalImageEntry, ExternalImageTable, LockedImage,
};
use crate::gpu_store::{
    frame_uploads, prepared, GradientDataTextureLayout, SplitGeometryTextureLayout, TexelRect,
    VertexDataTextureLayout,
};
use crate::render_target::{
    assigned, count_needed, free_after_frame, fresh_needed, lemma_count_needed_step,
    lemma_handed_out_is_supply_prefix,
};
use crate::renderer::Renderer;
use crate::tiling::{AlphaRenderTarget, ColorRenderTarget, DeferredResolve, Frame, RenderPass};
use crate::types::{
    ColorF, DeviceUintSize, RenderError, RenderTargetKind, RenderTargetMode, TextureId,
    TextureSampler,
};

verus! {

/// The errors of the colour targets of a pass, target by target.
pub open spec fn target_errors(
    cache_len: nat,
    external: Seq<ExternalImageEntry>,
    targets: Seq<ColorRenderTarget>,
) -> spec_fn(int) -> Option<RenderError> {
    |j: int| target_error(cache_len, external, targets[j])
}

/// The commands of the colour targets of a pass, target by target.
pub open spec fn target_runs(
    ctx: DrawContext,
    targets: Seq<ColorRenderTarget>,
    draw: PassDraw,
    pass: int,
) -> spec_fn(int) -> Seq<Command> {
    |j: int| target_commands(ctx, targets[j], draw, pass, j)
}

/// What is wrong with a pass, if anything. The framebuffer pass has no
/// alpha surface, so it may not have alpha layers; the number of layers of
/// a pooled target has to fit the device's signed 32 bits.
pub open spec fn pass_error(
    cache_len: nat,
    external: Seq<ExternalImageEntry>,
    pass: RenderPass,
) -> Option<RenderError> {
    if pass.is_framebuffer && pass.alpha_targets.targets@.len() > 0 {
        Some(RenderError::MissingAlphaTarget)
    } else if !pass.is_framebuffer && (pass.color_targets.targets@.len() > i32::MAX
        || pass.alpha_targets.targets@.len() > i32::MAX) {
        Some(RenderError::CountOutOfRange)
    } else {
        first_error_of(
            pass.color_targets.targets@.len(),
            target_errors(cache_len, external, pass.color_targets.targets@),
        )
    }
}

/// The errors of the passes of a frame, pass by pass.
pub open spec fn pass_errors(
    cache_len: nat,
    external: Seq<ExternalImageEntry>,
    passes: Seq<RenderPass>,
) -> spec_fn(int) -> Option<RenderError> {
    |i: int| pass_error(cache_len, external, passes[i])
}

/// The colour that the presentation surface is cleared to, if it is
/// cleared: the background of the frame, or the renderer's own clear colour
/// where the frame has none. It is cleared where the renderer is told to
/// clear, and in any case where the window is smaller than the surface, so
/// that nothing stale stays in the margin.
pub open spec fn spec_framebuffer_clear(
    clear_framebuffer: bool,
    clear_color: ColorF,
    background_color: Option<ColorF>,
    window_size: DeviceUintSize,
    framebuffer_size: DeviceUintSize,
) -> Option<ColorF> {
    if clear_framebuffer || window_size.width < framebuffer_size.width || window_size.height
        < framebuffer_size.height {
        match background_color {
            Some(color) => Some(color),
            None => Some(clear_color),
        }
    } else {
        None
    }
}

#[verifier::when_used_as_spec(spec_framebuffer_clear)]
pub fn framebuffer_clear(
    clear_framebuffer: bool,
    clear_color: ColorF,
    background_color: Option<ColorF>,
    window_size: DeviceUintSize,
    framebuffer_size: DeviceUintSize,
) -> (r: Option<ColorF>)
    ensures
        r == spec_framebuffer_clear(
            clear_framebuffer,
            clear_color,
            background_color,
            window_size,
            framebuffer_size,
        ),
{
    // A window smaller than the surface leaves a margin that would keep
    // what was drawn there before.
    let needs_clear: bool = window_size.width < framebuffer_size.width || window_size.height
        < framebuffer_size.height;
    if clear_framebuffer || needs_clear {
        match background_color {
            Some(color) => Some(color),
            None => Some(clear_color),
        }
    } else {
        None
    }
}

/// Everything that the commands of the passes of a frame depend on.
pub struct FrameDraw {
    pub ctx: DrawContext,
    pub passes: Seq<RenderPass>,
    /// The colour target of each pass.
    pub colors: Seq<Option<TextureId>>,
    /// The alpha target of each pass.
    pub alphas: Seq<Option<TextureId>>,
    pub cache_size: DeviceUintSize,
    pub framebuffer_size: DeviceUintSize,
    pub framebuffer_clear: Option<ColorF>,
    pub dummy_color: TextureId,
    pub dummy_alpha: TextureId,
}

/// The texture that pass `pass` samples as the result of the pass before:
/// the target of that pass, or the dummy texture where it had none, and in
/// the first pass.
pub open spec fn source_of(targets: Seq<Option<TextureId>>, pass: int, dummy: TextureId) -> TextureId {
    if pass <= 0 {
        dummy
    } else {
        match targets[pass - 1] {
            Some(texture) => texture,
            None => dummy,
        }
    }
}

/// The command that gives a pooled target its storage: `layers` layers of
/// the size of the frame's cache, in the format of the target's kind.
pub open spec fn target_storage(
    texture: TextureId,
    kind: RenderTargetKind,
    cache_size: DeviceUintSize,
    layers: nat,
) -> Command {
    Command::InitTexture {
        texture,
        width: cache_size.width,
        height: cache_size.height,
        format: kind.spec_image_format(),
        filter: kind.spec_texture_filter(),
        mode: RenderTargetMode::LayerRenderTarget(layers as i32),
        data: PixelSource::Empty,
    }
}

impl FrameDraw {
    /// How the targets of pass `i` are drawn.
    pub open spec fn pass_draw(self, i: int) -> PassDraw {
        if self.passes[i].is_framebuffer {
            PassDraw {
                pooled: self.colors[i] is Some,
                clear_color: self.framebuffer_clear,
                projection: Projection::Framebuffer {
                    width: self.framebuffer_size.width,
                    height: self.framebuffer_size.height,
                },
            }
        } else {
            PassDraw {
                pooled: self.colors[i] is Some,
                clear_color: Some(ColorF::spec_transparent()),
                projection: Projection::Cache {
                    width: self.cache_size.width,
                    height: self.cache_size.height,
                },
            }
        }
    }

    /// The storage of the targets of pass `i`: as many layers as the pass
    /// has targets of the kind, of the size of the frame's cache.
    pub open spec fn init_commands(self, i: int) -> Seq<Command> {
        (match self.colors[i] {
            Some(texture) => seq![
                target_storage(
                    texture,
                    RenderTargetKind::Color,
                    self.cache_size,
                    self.passes[i].color_targets.targets@.len(),
                ),
            ],
            None => Seq::empty(),
        }) + (match self.alphas[i] {
            Some(texture) => seq![
                target_storage(
                    texture,
                    RenderTargetKind::Alpha,
                    self.cache_size,
                    self.passes[i].alpha_targets.targets@.len(),
                ),
            ],
            None => Seq::empty(),
        })
    }

    /// The commands of pass `i`: what the pass before drew is bound as the
    /// cache to sample, then the colour targets of the pass are drawn.
    pub open spec fn pass_commands(self, i: int) -> Seq<Command> {
        seq![
            Command::BindTexture {
                sampler: TextureSampler::CacheA8,
                texture: source_of(self.alphas, i, self.dummy_alpha),
            },
            Command::BindTexture {
                sampler: TextureSampler::CacheRGBA8,
                texture: source_of(self.colors, i, self.dummy_color),
            },
        ] + concat_runs(
            self.passes[i].color_targets.targets@.len(),
            target_runs(self.ctx, self.passes[i].color_targets.targets@, self.pass_draw(i), i),
        )
    }

    pub open spec fn init_runs(self) -> spec_fn(int) -> Seq<Command> {
        |i: int| self.init_commands(i)
    }

    pub open spec fn pass_runs(self) -> spec_fn(int) -> Seq<Command> {
        |i: int| self.pass_commands(i)
    }

    /// The commands of a frame, given the uploads of its GPU data. A frame
    /// without passes only unlocks its external images.
    pub open spec fn commands(self, uploads: Seq<Command>) -> Seq<Command> {
        if self.passes.len() == 0 {
            unlock_commands(self.ctx.external)
        } else {
            concat_runs(self.passes.len(), self.init_runs()) + uploads + concat_runs(
                self.passes.len(),
                self.pass_runs(),
            ) + unlock_commands(self.ctx.external)
        }
    }
}

/// Which passes need a pooled target of the given kind.
pub open spec fn pass_needs(passes: Seq<RenderPass>, kind: RenderTargetKind) -> Seq<bool> {
    Seq::new(passes.len(), |i: int| passes[i].spec_needs_render_target_kind(kind))
}

/// The number of targets of a kind that the device has to create for a
/// frame: as many as its passes need beyond what the pool holds.
pub open spec fn targets_needed(
    free: Seq<TextureId>,
    passes: Seq<RenderPass>,
    kind: RenderTargetKind,
) -> nat {
    fresh_needed(free.len(), count_needed(pass_needs(passes, kind)))
}

/// Tests a pass against a cache table of `cache_len` slots.
pub fn check_pass(cache_len: usize, external: &ExternalImageTable, pass: &RenderPass) -> (r: Option<
    RenderError,
>)
    ensures
        r == pass_error(cache_len as nat, external@, *pass),
{
    if pass.is_framebuffer && pass.alpha_targets.targets.len() > 0 {
        return Some(RenderError::MissingAlphaTarget);
    }
    if !pass.is_framebuffer && (pass.color_targets.targets.len() > 0x7fff_ffff
        || pass.alpha_targets.targets.len() > 0x7fff_ffff) {
        return Some(RenderError::CountOutOfRange);
    }
    let ghost error = target_errors(cache_len as nat, external@, pass.color_targets.targets@);
    let mut j: usize = 0;
    while j < pass.color_targets.targets.len()
        invariant
            j <= pass.color_targets.targets@.len(),
            !(pass.is_framebuffer && pass.alpha_targets.targets@.len() > 0),
            !(!pass.is_framebuffer && (pass.color_targets.targets@.len() > i32::MAX
                || pass.alpha_targets.targets@.len() > i32::MAX)),
            error == target_errors(cache_len as nat, external@, pass.color_targets.targets@),
            first_error_of(j as nat, error) is None,
        decreases pass.color_targets.targets@.len() - j,
    {
        match check_target(cache_len, external, &pass.color_targets.targets[j]) {
            Some(e) => {
                proof {
                    lemma_first_error_found(pass.color_targets.targets@.len(), error, j as int);
                }
                return Some(e);
            },
            None => {},
        }
        j = j + 1;
    }
    None
}

/// Tests the passes of a frame, in order.
pub fn check_passes(cache_len: usize, external: &ExternalImageTable, passes: &Vec<RenderPass>) -> (r:
    Option<RenderError>)
    ensures
        r == first_error_of(passes@.len(), pass_errors(cache_len as nat, external@, passes@)),
{
    let ghost error = pass_errors(cache_len as nat, external@, passes@);
    let mut i: usize = 0;
    while i < passes.len()
        invariant
            i <= passes@.len(),
            error == pass_errors(cache_len as nat, external@, passes@),
            first_error_of(i as nat, error) is None,
        decreases passes@.len() - i,
    {
        match check_pass(cache_len, external, &passes[i]) {
            Some(e) => {
                proof {
                    lemma_first_error_found(passes@.len(), error, i as int);
                }
                return Some(e);
            },
            None => {},
        }
        i = i + 1;
    }
    None
}

/// Says for each pass whether it needs a pooled target of the given kind.
pub fn needs_of(passes: &Vec<RenderPass>, kind: RenderTargetKind) -> (needs: Vec<bool>)
    ensures
        needs@ == pass_needs(passes@, kind),
{
    let mut needs: Vec<bool> = Vec::new();
    let mut i: usize = 0;
    while i < passes.len()
        invariant
            i <= passes@.len(),
            needs@ == pass_needs(passes@, kind).take(i as int),
        decreases passes@.len() - i,
    {
        needs.push(passes[i].needs_render_target_kind(kind));
        i = i + 1;
        assert(needs@ =~= pass_needs(passes@, kind).take(i as int));
    }
    assert(needs@ =~= pass_needs(passes@, kind));
    needs
}

/// Tests the deferred resolves of a frame against what the locks of their
/// images gave.
pub fn check_resolves(
    resolves: &Vec<DeferredResolve>,
    locked: &Vec<LockedImage>,
    rects_len: usize,
    has_handler: bool,
) -> (r: Option<RenderError>)
    ensures
        r == resolves_error(resolves@, locked@, rects_len as nat, has_handler),
{
    if resolves.len() == 0 {
        if locked.len() == 0 {
            return None;
        } else {
            return Some(RenderError::SupplyMismatch);
        }
    }
    if !has_handler {
        return Some(RenderError::NoExternalImageHandler);
    }
    if locked.len() != resolves.len() {
        return Some(RenderError::SupplyMismatch);
    }
    let ghost error = |i: int| resolves@[i].error(locked@[i], rects_len as nat);
    let mut i: usize = 0;
    while i < resolves.len()
        invariant
            i <= resolves@.len(),
            resolves@.len() > 0,
            has_handler,
            locked@.len() == resolves@.len(),
            error == (|i: int| resolves@[i].error(locked@[i], rects_len as nat)),
            first_error_of(i as nat, error) is None,
        decreases resolves@.len() - i,
    {
        match resolves[i].check(&locked[i], rects_len) {
            Some(e) => {
                proof {
                    lemma_first_error_found(resolves@.len(), error, i as int);
                }
                return Some(e);
            },
            None => {},
        }
        i = i + 1;
    }
    None
}

/// Binds the native textures that the locks gave for the deferred resolves
/// of a frame.
pub(crate) fn bind_resolves(resolves: &Vec<DeferredResolve>, locked: &Vec<LockedImage>) -> (table:
    ExternalImageTable)
    requires
        resolves@.len() == locked@.len(),
        forall|i: int| 0 <= i < resolves@.len() ==> (#[trigger] resolves@[i]).binds(locked@[i]),
    ensures
        table@ == resolved_table(resolves@, locked@, resolves@.len()),
{
    let mut table = ExternalImageTable::new();
    let mut i: usize = 0;
    while i < resolves.len()
        invariant
            i <= resolves@.len(),
            resolves@.len() == locked@.len(),
            forall|i: int| 0 <= i < resolves@.len() ==> (#[trigger] resolves@[i]).binds(locked@[i]),
            table@ == resolved_table(resolves@, locked@, i as nat),
        decreases resolves@.len() - i,
    {
        let resolve = &resolves[i];
        assert(resolves@[i as int].binds(locked@[i as int]));
        match (resolve.image_properties.external_image, locked[i].native_texture) {
            (Some(image), Some(name)) => {
                match texture_target(image.image_type) {
                    Some(target) => {
                        table = table.insert(key_of(image), TextureId::new(name, target));
                    },
                    None => {},
                }
            },
            _ => {},
        }
        i = i + 1;
    }
    table
}

/// The number of passes, among `needs`, that need a target.
pub fn count_of(needs: &Vec<bool>) -> (count: usize)
    ensures
        count == count_needed(needs@),
{
    let mut count: usize = 0;
    let mut i: usize = 0;
    proof {
        assert(needs@.take(0) =~= Seq::<bool>::empty());
    }
    while i < needs.len()
        invariant
            i <= needs@.len(),
            count == count_needed(needs@.take(i as int)),
            count <= i,
        decreases needs@.len() - i,
    {
        proof {
            lemma_count_needed_step(needs@, i as int);
        }
        if needs[i] {
            count = count + 1;
        }
        i = i + 1;
    }
    proof {
        assert(needs@.take(i as int) =~= needs@);
    }
    count
}

/// The free list of a kind once a frame is drawn: a frame without passes
/// leaves it alone.
pub open spec fn pool_after(
    free: Seq<TextureId>,
    fresh: Seq<TextureId>,
    passes: Seq<RenderPass>,
    kind: RenderTargetKind,
) -> Seq<TextureId> {
    if passes.len() == 0 {
        free
    } else {
        free_after_frame(free, fresh, pass_needs(passes, kind))
    }
}

/// Whether `after` is `before` as drawing leaves it: the resource
/// rectangles of its deferred resolves are patched with what the locks
/// gave, and, where the frame has passes, every GPU data array is prepared
/// for its upload.
pub open spec fn is_drawn_from(after: Frame, before: Frame, locked: Seq<LockedImage>) -> bool {
    let rects = patched_rects(
        before.gpu_resource_rects@,
        before.deferred_resolves@,
        locked,
        before.deferred_resolves@.len(),
    );
    &&& after.window_size == before.window_size
    &&& after.background_color == before.background_color
    &&& after.cache_size == before.cache_size
    &&& after.passes == before.passes
    &&& after.deferred_resolves == before.deferred_resolves
    &&& if before.passes@.len() == 0 {
        &&& after.gpu_data16 == before.gpu_data16
        &&& after.gpu_data32 == before.gpu_data32
        &&& after.gpu_data64 == before.gpu_data64
        &&& after.gpu_data128 == before.gpu_data128
        &&& after.gpu_geometry == before.gpu_geometry
        &&& after.gpu_resource_rects@ == rects
        &&& after.layer_texture_data == before.layer_texture_data
        &&& after.render_task_data == before.render_task_data
        &&& after.gpu_split_geometry == before.gpu_split_geometry
        &&& after.gpu_gradient_data == before.gpu_gradient_data
    } else {
        &&& after.gpu_data16@ == prepared::<_, VertexDataTextureLayout>(before.gpu_data16@, 4)
        &&& after.gpu_data32@ == prepared::<_, VertexDataTextureLayout>(before.gpu_data32@, 8)
        &&& after.gpu_data64@ == prepared::<_, VertexDataTextureLayout>(before.gpu_data64@, 16)
        &&& after.gpu_data128@ == prepared::<_, VertexDataTextureLayout>(before.gpu_data128@, 32)
        &&& after.gpu_geometry@ == prepared::<_, VertexDataTextureLayout>(before.gpu_geometry@, 8)
        &&& after.gpu_resource_rects@ == prepared::<_, VertexDataTextureLayout>(rects, 4)
        &&& after.layer_texture_data@ == prepared::<_, VertexDataTextureLayout>(
            before.layer_texture_data@,
            36,
        )
        &&& after.render_task_data@ == prepared::<_, VertexDataTextureLayout>(
            before.render_task_data@,
            12,
        )
        &&& after.gpu_split_geometry@ == prepared::<_, SplitGeometryTextureLayout>(
            before.gpu_split_geometry@,
            12,
        )
        &&& after.gpu_gradient_data@ == prepared::<_, GradientDataTextureLayout>(
            before.gpu_gradient_data@,
            2080,
        )
    }
}

/// Whether `after` is `before` with the resource rectangles of its deferred
/// resolves patched with what the locks gave, and nothing else changed.
pub open spec fn is_patched_from(after: Frame, before: Frame, locked: Seq<LockedImage>) -> bool {
    &&& after.gpu_resource_rects@ == patched_rects(
        before.gpu_resource_rects@,
        before.deferred_resolves@,
        locked,
        before.deferred_resolves@.len(),
    )
    &&& after.window_size == before.window_size
    &&& after.background_color == before.background_color
    &&& after.cache_size == before.cache_size
    &&& after.passes == before.passes
    &&& after.deferred_resolves == before.deferred_resolves
    &&& after.gpu_data16 == before.gpu_data16
    &&& after.gpu_data32 == before.gpu_data32
    &&& after.gpu_data64 == before.gpu_data64
    &&& after.gpu_data128 == before.gpu_data128
    &&& after.gpu_geometry == before.gpu_geometry
    &&& after.layer_texture_data == before.layer_texture_data
    &&& after.render_task_data == before.render_task_data
    &&& after.gpu_split_geometry == before.gpu_split_geometry
    &&& after.gpu_gradient_data == before.gpu_gradient_data
}

/// Patching keeps the number of resource rectangles.
pub proof fn lemma_patched_len(
    rects: Seq<TexelRect>,
    resolves: Seq<DeferredResolve>,
    locked: Seq<LockedImage>,
    n: nat,
)
    requires
        forall|i: int|
            0 <= i < n ==> 0 <= (#[trigger] resolves[i]).resource_address.0 < rects.len(),
    ensures
        patched_rects(rects, resolves, locked, n).len() == rects.len(),
    decreases n,
{
    if n > 0 {
        lemma_patched_len(rects, resolves, locked, (n - 1) as nat);
    }
}

/// Patches the resource rectangles of the deferred resolves of a frame
/// with the texel rectangles that the locks gave.
pub(crate) fn patch_resolves(frame: &mut Frame, locked: &Vec<LockedImage>)
    requires
        old(frame).deferred_resolves@.len() == locked@.len(),
        forall|i: int|
            0 <= i < locked@.len() ==> 0 <= (#[trigger] old(frame).deferred_resolves@[i]).resource_address.0
                < old(frame).gpu_resource_rects@.len(),
    ensures
        is_patched_from(*final(frame), *old(frame), locked@),
{
    let ghost rects = frame.gpu_resource_rects@;
    let ghost resolves = frame.deferred_resolves@;
    let mut i: usize = 0;
    while i < frame.deferred_resolves.len()
        invariant
            i <= resolves.len(),
            resolves.len() == locked@.len(),
            rects == old(frame).gpu_resource_rects@,
            resolves == old(frame).deferred_resolves@,
            forall|i: int|
                0 <= i < locked@.len() ==> 0 <= (#[trigger] resolves[i]).resource_address.0
                    < rects.len(),
            frame.gpu_resource_rects@ == patched_rects(rects, resolves, locked@, i as nat),
            frame.window_size == old(frame).window_size,
            frame.background_color == old(frame).background_color,
            frame.cache_size == old(frame).cache_size,
            frame.passes == old(frame).passes,
            frame.deferred_resolves == old(frame).deferred_resolves,
            frame.gpu_data16 == old(frame).gpu_data16,
            frame.gpu_data32 == old(frame).gpu_data32,
            frame.gpu_data64 == old(frame).gpu_data64,
            frame.gpu_data128 == old(frame).gpu_data128,
            frame.gpu_geometry == old(frame).gpu_geometry,
            frame.layer_texture_data == old(frame).layer_texture_data,
            frame.render_task_data == old(frame).render_task_data,
            frame.gpu_split_geometry == old(frame).gpu_split_geometry,
            frame.gpu_gradient_data == old(frame).gpu_gradient_data,
        decreases resolves.len() - i,
    {
        proof {
            lemma_patched_len(rects, resolves, locked@, i as nat);
        }
        let resolve = frame.deferred_resolves[i];
        assert(0 <= resolves[i as int].resource_address.0 < rects.len());
        let index = resolve.resource_address.0 as usize;
        frame.gpu_resource_rects.set(index, locked[i].rect());
        i = i + 1;
    }
}

impl Renderer {
    /// What the commands of a frame depend on, where the frame can be
    /// drawn.
    pub open spec fn frame_draw(
        &self,
        frame: Frame,
        framebuffer_size: DeviceUintSize,
        locked: Seq<LockedImage>,
        fresh_color: Seq<TextureId>,
        fresh_alpha: Seq<TextureId>,
    ) -> FrameDraw {
        FrameDraw {
            ctx: self.context(
                resolved_table(frame.deferred_resolves@, locked, frame.deferred_resolves@.len()),
            ),
            passes: frame.passes@,
            colors: assigned(
                self.render_targets.free(RenderTargetKind::Color),
                fresh_color,
                pass_needs(frame.passes@, RenderTargetKind::Color),
            ),
            alphas: assigned(
                self.render_targets.free(RenderTargetKind::Alpha),
                fresh_alpha,
                pass_needs(frame.passes@, RenderTargetKind::Alpha),
            ),
            cache_size: frame.cache_size,
            framebuffer_size,
            framebuffer_clear: spec_framebuffer_clear(
                self.clear_framebuffer,
                self.clear_color,
                frame.background_color,
                frame.window_size,
                framebuffer_size,
            ),
            dummy_color: self.dummy_cache_texture_id,
            dummy_alpha: self.dummy_cache_texture_a8_id,
        }
    }

    /// What the commands of a frame depend on, where the cache table is
    /// `cache` when the frame is drawn.
    pub open spec fn frame_draw_with(
        &self,
        cache: Seq<TextureId>,
        frame: Frame,
        framebuffer_size: DeviceUintSize,
        locked: Seq<LockedImage>,
        fresh_color: Seq<TextureId>,
        fresh_alpha: Seq<TextureId>,
    ) -> FrameDraw {
        let draw = self.frame_draw(frame, framebuffer_size, locked, fresh_color, fresh_alpha);
        FrameDraw {
            ctx: DrawContext {
                cache,
                external: draw.ctx.external,
                dithering: draw.ctx.dithering,
                dither_texture: draw.ctx.dither_texture,
            },
            passes: draw.passes,
            colors: draw.colors,
            alphas: draw.alphas,
            cache_size: draw.cache_size,
            framebuffer_size: draw.framebuffer_size,
            framebuffer_clear: draw.framebuffer_clear,
            dummy_color: draw.dummy_color,
            dummy_alpha: draw.dummy_alpha,
        }
    }

    /// What stops a frame from being drawn, if anything, against a cache
    /// table of `cache_len` slots: first what is wrong with its deferred
    /// resolves, then with its passes in their order, then with the number
    /// of targets that the device created for it.
    pub open spec fn frame_error(
        &self,
        cache_len: nat,
        frame: Frame,
        locked: Seq<LockedImage>,
        fresh_color: nat,
        fresh_alpha: nat,
    ) -> Option<RenderError> {
        match resolves_error(
            frame.deferred_resolves@,
            locked,
            frame.gpu_resource_rects@.len(),
            self.has_external_image_handler,
        ) {
            Some(e) => Some(e),
            None => {
                let external = resolved_table(
                    frame.deferred_resolves@,
                    locked,
                    frame.deferred_resolves@.len(),
                );
                match first_error_of(
                    frame.passes@.len(),
                    pass_errors(cache_len, external, frame.passes@),
                ) {
                    Some(e) => Some(e),
                    None => if fresh_color != targets_needed(
                        self.render_targets.free(RenderTargetKind::Color),
                        frame.passes@,
                        RenderTargetKind::Color,
                    ) || fresh_alpha != targets_needed(
                        self.render_targets.free(RenderTargetKind::Alpha),
                        frame.passes@,
                        RenderTargetKind::Alpha,
                    ) {
                        Some(RenderError::SupplyMismatch)
                    } else {
                        None
                    },
                }
            },
        }
    }

    /// The number of targets of a kind that the device has to create
    /// before the frame can be drawn.
    pub fn targets_to_create(&self, frame: &Frame, kind: RenderTargetKind) -> (n: usize)
        ensures
            n == targets_needed(self.render_targets.free(kind), frame.passes@, kind),
    {
        let needs = needs_of(&frame.passes, kind);
        let needed = count_of(&needs);
        let free = self.render_targets.free_count(kind);
        if needed > free {
            needed - free
        } else {
            0
        }
    }

    /// Tests whether a frame can be drawn, against a cache table of
    /// `cache_len` slots.
    pub fn check_frame(
        &self,
        cache_len: usize,
        frame: &Frame,
        locked: &Vec<LockedImage>,
        fresh_color: usize,
        fresh_alpha: usize,
    ) -> (r: Option<RenderError>)
        ensures
            r == self.frame_error(
                cache_len as nat,
                *frame,
                locked@,
                fresh_color as nat,
                fresh_alpha as nat,
            ),
    {
        match check_resolves(
            &frame.deferred_resolves,
            locked,
            frame.gpu_resource_rects.len(),
            self.has_external_image_handler,
        ) {
            Some(e) => {
                return Some(e);
            },
            None => {},
        }
        proof {
            lemma_resolves_bind(
                frame.deferred_resolves@,
                locked@,
                frame.gpu_resource_rects@.len(),
                self.has_external_image_handler,
            );
        }
        let external = bind_resolves(&frame.deferred_resolves, locked);
        match check_passes(cache_len, &external, &frame.passes) {
            Some(e) => {
                return Some(e);
            },
            None => {},
        }
        if fresh_color != self.targets_to_create(frame, RenderTargetKind::Color) || fresh_alpha
            != self.targets_to_create(frame, RenderTargetKind::Alpha) {
            return Some(RenderError::SupplyMismatch);
        }
        None
    }
}

/// Deferred resolves that have nothing wrong come with as many locked
/// images, each of them a native texture, and patch rectangles that exist.
pub proof fn lemma_resolves_bind(
    resolves: Seq<DeferredResolve>,
    locked: Seq<LockedImage>,
    rects_len: nat,
    has_handler: bool,
)
    requires
        resolves_error(resolves, locked, rects_len, has_handler) is None,
    ensures
        resolves.len() == locked.len(),
        forall|i: int| 0 <= i < resolves.len() ==> (#[trigger] resolves[i]).binds(locked[i]),
        forall|i: int|
            0 <= i < resolves.len() ==> 0 <= (#[trigger] resolves[i]).resource_address.0
                < rects_len,
{
    if resolves.len() > 0 {
        let error = |i: int| resolves[i].error(locked[i], rects_len);
        assert forall|i: int| 0 <= i < resolves.len() implies (#[trigger] resolves[i]).binds(
            locked[i],
        ) by {
            lemma_no_error_at(resolves.len(), error, i);
            assert(error(i) is None);
        }
        assert forall|i: int| 0 <= i < resolves.len() implies 0 <= (
        #[trigger] resolves[i]).resource_address.0 < rects_len by {
            lemma_no_error_at(resolves.len(), error, i);
            assert(error(i) is None);
        }
    }
}

impl Renderer {
    /// Whether `self` differs from `before` in its pool of render targets
    /// at most.
    pub open spec fn same_but_targets(&self, before: &Renderer) -> bool {
        &&& self.pending_texture_updates == before.pending_texture_updates
        &&& self.pending_shader_updates == before.pending_shader_updates
        &&& self.current_frame == before.current_frame
        &&& self.pipeline_epoch_map == before.pipeline_epoch_map
        &&& self.shaders == before.shaders
        &&& self.clear_framebuffer == before.clear_framebuffer
        &&& self.clear_color == before.clear_color
        &&& self.gpu_data_textures == before.gpu_data_textures
        &&& self.texture_cache == before.texture_cache
        &&& self.dummy_cache_texture_id == before.dummy_cache_texture_id
        &&& self.dummy_cache_texture_a8_id == before.dummy_cache_texture_a8_id
        &&& self.dither_matrix_texture_id == before.dither_matrix_texture_id
        &&& self.has_external_image_handler == before.has_external_image_handler
    }

    /// Resolves the external images of a frame: binds, for each deferred
    /// resolve, the native texture that the lock of its image gave, and
    /// patches the texel rectangle that the lock gave into the resource
    /// rectangle of the resolve. `locked` holds what the locks gave, one
    /// for each resolve. Resolves that have something wrong change
    /// nothing.
    pub fn update_deferred_resolves(&self, frame: &mut Frame, locked: &Vec<LockedImage>) -> (r: Result<
        ExternalImageTable,
        RenderError,
    >)
        ensures
            match r {
                Ok(table) => {
                    &&& resolves_error(
                        old(frame).deferred_resolves@,
                        locked@,
                        old(frame).gpu_resource_rects@.len(),
                        self.has_external_image_handler,
                    ) is None
                    &&& table@ == resolved_table(
                        old(frame).deferred_resolves@,
                        locked@,
                        old(frame).deferred_resolves@.len(),
                    )
                    &&& is_patched_from(*final(frame), *old(frame), locked@)
                },
                Err(e) => {
                    &&& resolves_error(
                        old(frame).deferred_resolves@,
                        locked@,
                        old(frame).gpu_resource_rects@.len(),
                        self.has_external_image_handler,
                    ) == Some(e)
                    &&& *final(frame) == *old(frame)
                },
            },
    {
        match check_resolves(
            &frame.deferred_resolves,
            locked,
            frame.gpu_resource_rects.len(),
            self.has_external_image_handler,
        ) {
            Some(e) => {
                return Err(e);
            },
            None => {},
        }
        proof {
            lemma_resolves_bind(
                frame.deferred_resolves@,
                locked@,
                frame.gpu_resource_rects@.len(),
                self.has_external_image_handler,
            );
        }
        let table = bind_resolves(&frame.deferred_resolves, locked);
        patch_resolves(frame, locked);
        Ok(table)
    }

    /// Appends the commands of an alpha target to `out`: there are none.
    /// The clip masks of the target are not drawn by this renderer.
    pub fn draw_alpha_target(
        &self,
        out: &mut Vec<Command>,
        render_target: (TextureId, i32),
        target: &AlphaRenderTarget,
        target_size: DeviceUintSize,
        projection: Projection,
    )
        ensures
            final(out)@ == old(out)@,
    {
    }

    /// Appends the unlocks of the external images of a frame to `out`: one
    /// for each image, however often it was locked.
    pub fn unlock_external_images(&self, out: &mut Vec<Command>, external: &ExternalImageTable)
        ensures
            final(out)@ == old(out)@ + unlock_commands(external@),
    {
        append_unlocks(out, external);
    }

    /// Appends the commands of one pass to `out`.
    #[verifier::loop_isolation(false)]
    fn draw_pass(
        &self,
        out: &mut Vec<Command>,
        external: &ExternalImageTable,
        frame: &Frame,
        framebuffer_size: DeviceUintSize,
        i: usize,
        color: Option<TextureId>,
        alpha: Option<TextureId>,
        src_color: TextureId,
        src_alpha: TextureId,
        Ghost(draw): Ghost<FrameDraw>,
    )
        requires
            i < frame.passes@.len(),
            draw.passes == frame.passes@,
            draw.ctx == self.context(external@),
            draw.colors.len() == draw.passes.len(),
            draw.colors[i as int] == color,
            alpha is Some || frame.passes@[i as int].alpha_targets.targets@.len() == 0,
            src_color == source_of(draw.colors, i as int, draw.dummy_color),
            src_alpha == source_of(draw.alphas, i as int, draw.dummy_alpha),
            draw.cache_size == frame.cache_size,
            draw.framebuffer_size == framebuffer_size,
            draw.framebuffer_clear == spec_framebuffer_clear(
                self.clear_framebuffer,
                self.clear_color,
                frame.background_color,
                frame.window_size,
                framebuffer_size,
            ),
            pass_error(self.texture_cache@.len(), external@, frame.passes@[i as int]) is None,
        ensures
            final(out)@ == old(out)@ + draw.pass_commands(i as int),
    {
        let pass = &frame.passes[i];
        let size: DeviceUintSize;
        let clear_color: Option<ColorF>;
        let projection: Projection;
        if pass.is_framebuffer {
            clear_color = framebuffer_clear(
                self.clear_framebuffer,
                self.clear_color,
                frame.background_color,
                frame.window_size,
                framebuffer_size,
            );
            size = framebuffer_size;
            projection = Projection::Framebuffer { width: size.width, height: size.height };
        } else {
            size = frame.cache_size;
            clear_color = Some(ColorF::transparent());
            projection = Projection::Cache { width: size.width, height: size.height };
        }
        out.push(Command::BindTexture { sampler: TextureSampler::CacheA8, texture: src_alpha });
        out.push(Command::BindTexture { sampler: TextureSampler::CacheRGBA8, texture: src_color });
        let ghost bound = out@;
        let mut target_index: usize = 0;
        while target_index < pass.alpha_targets.targets.len()
            invariant
                target_index <= pass.alpha_targets.targets@.len(),
                out@ == bound,
            decreases pass.alpha_targets.targets@.len() - target_index,
        {
            match alpha {
                Some(texture_id) => {
                    self.draw_alpha_target(
                        out,
                        (texture_id, target_index as i32),
                        &pass.alpha_targets.targets[target_index],
                        size,
                        projection,
                    );
                },
                None => {},
            }
            target_index = target_index + 1;
        }
        let ghost pass_draw = draw.pass_draw(i as int);
        let ghost run = target_runs(draw.ctx, pass.color_targets.targets@, pass_draw, i as int);
        let ghost error = target_errors(
            self.texture_cache@.len(),
            external@,
            pass.color_targets.targets@,
        );
        proof {
            lemma_start_runs(bound, run);
        }
        let mut j: usize = 0;
        while j < pass.color_targets.targets.len()
            invariant
                j <= pass.color_targets.targets@.len(),
                out@ == bound + concat_runs(j as nat, run),
            decreases pass.color_targets.targets@.len() - j,
        {
            proof {
                lemma_no_error_at(pass.color_targets.targets@.len(), error, j as int);
                lemma_extend_runs(bound, j as nat, run);
            }
            let render_target = match color {
                Some(texture_id) => Some((texture_id, j as i32)),
                None => None,
            };
            self.draw_color_target(
                out,
                external,
                render_target,
                &pass.color_targets.targets[j],
                clear_color,
                projection,
                i,
                j,
            );
            j = j + 1;
        }
        assert(out@ =~= old(out)@ + draw.pass_commands(i as int));
    }

    /// Draws a frame that has nothing wrong.
    #[verifier::loop_isolation(false)]
    pub(crate) fn draw_checked_frame(
        &mut self,
        frame: &mut Frame,
        framebuffer_size: DeviceUintSize,
        locked: &Vec<LockedImage>,
        fresh_color: &Vec<TextureId>,
        fresh_alpha: &Vec<TextureId>,
    ) -> (commands: Vec<Command>)
        requires
            old(self).frame_error(
                old(self).texture_cache@.len(),
                *old(frame),
                locked@,
                fresh_color@.len(),
                fresh_alpha@.len(),
            ) is None,
        ensures
            commands@ == old(self).frame_draw(
                *old(frame),
                framebuffer_size,
                locked@,
                fresh_color@,
                fresh_alpha@,
            ).commands(frame_uploads(*final(frame))),
            is_drawn_from(*final(frame), *old(frame), locked@),
            final(self).same_but_targets(old(self)),
            forall|kind: RenderTargetKind|
                final(self).render_targets.free(kind) == pool_after(
                    old(self).render_targets.free(kind),
                    if kind == RenderTargetKind::Color {
                        fresh_color@
                    } else {
                        fresh_alpha@
                    },
                    old(frame).passes@,
                    kind,
                ),
    {
        let ghost draw = self.frame_draw(
            *frame,
            framebuffer_size,
            locked@,
            fresh_color@,
            fresh_alpha@,
        );
        let ghost cache_len = self.texture_cache@.len();
        proof {
            lemma_resolves_bind(
                frame.deferred_resolves@,
                locked@,
                frame.gpu_resource_rects@.len(),
                self.has_external_image_handler,
            );
        }
        // Bind the native textures of the external images and patch their
        // texel rectangles into the resource rectangles, before these are
        // uploaded.
        let external = bind_resolves(&frame.deferred_resolves, locked);
        patch_resolves(frame, locked);
        let mut commands: Vec<Command> = Vec::new();
        if frame.passes.len() > 0 {
            let n = frame.passes.len();
            let ghost passes = frame.passes@;
            let ghost error = pass_errors(cache_len, external@, passes);
            // Assign render targets to the passes.
            let needs_color = needs_of(&frame.passes, RenderTargetKind::Color);
            let needs_alpha = needs_of(&frame.passes, RenderTargetKind::Alpha);
            let ghost free_color = self.render_targets.free(RenderTargetKind::Color);
            let ghost free_alpha = self.render_targets.free(RenderTargetKind::Alpha);
            let colors = self.render_targets.assign(
                RenderTargetKind::Color,
                &needs_color,
                fresh_color,
            );
            let alphas = self.render_targets.assign(
                RenderTargetKind::Alpha,
                &needs_alpha,
                fresh_alpha,
            );
            assert(colors@ == draw.colors);
            assert(alphas@ == draw.alphas);
            // Give the targets their storage.
            let ghost init = draw.init_runs();
            proof {
                lemma_start_runs(commands@, init);
            }
            let mut i: usize = 0;
            while i < n
                invariant
                    i <= n,
                    commands@ == Seq::<Command>::empty() + concat_runs(i as nat, init),
                decreases n - i,
            {
                proof {
                    lemma_no_error_at(n as nat, error, i as int);
                    lemma_extend_runs(Seq::empty(), i as nat, init);
                }
                let pass = &frame.passes[i];
                let ghost before = commands@;
                match colors[i] {
                    Some(texture_id) => {
                        let kind = RenderTargetKind::Color;
                        let target_count = pass.required_target_count(kind);
                        commands.push(
                            Command::InitTexture {
                                texture: texture_id,
                                width: frame.cache_size.width,
                                height: frame.cache_size.height,
                                format: kind.image_format(),
                                filter: kind.texture_filter(),
                                mode: RenderTargetMode::LayerRenderTarget(target_count as i32),
                                data: PixelSource::Empty,
                            },
                        );
                    },
                    None => {},
                }
                match alphas[i] {
                    Some(texture_id) => {
                        let kind = RenderTargetKind::Alpha;
                        let target_count = pass.required_target_count(kind);
                        commands.push(
                            Command::InitTexture {
                                texture: texture_id,
                                width: frame.cache_size.width,
                                height: frame.cache_size.height,
                                format: kind.image_format(),
                                filter: kind.texture_filter(),
                                mode: RenderTargetMode::LayerRenderTarget(target_count as i32),
                                data: PixelSource::Empty,
                            },
                        );
                    },
                    None => {},
                }
                assert(commands@ =~= before + draw.init_commands(i as int));
                i = i + 1;
            }
            let ghost initialised = commands@;
            assert(initialised =~= concat_runs(n as nat, init));
            self.gpu_data_textures.init_frame(&mut commands, frame);
            let ghost uploaded = commands@;
            let ghost runs = draw.pass_runs();
            proof {
                lemma_start_runs(uploaded, runs);
            }
            let mut src_color_id = self.dummy_cache_texture_id;
            let mut src_alpha_id = self.dummy_cache_texture_a8_id;
            let mut i: usize = 0;
            while i < n
                invariant
                    i <= n,
                    frame.passes@ == passes,
                    commands@ == uploaded + concat_runs(i as nat, runs),
                    src_color_id == source_of(draw.colors, i as int, draw.dummy_color),
                    src_alpha_id == source_of(draw.alphas, i as int, draw.dummy_alpha),
                decreases n - i,
            {
                proof {
                    lemma_no_error_at(n as nat, error, i as int);
                    lemma_extend_runs(uploaded, i as nat, runs);
                }
                self.draw_pass(
                    &mut commands,
                    &external,
                    frame,
                    framebuffer_size,
                    i,
                    colors[i],
                    alphas[i],
                    src_color_id,
                    src_alpha_id,
                    Ghost(draw),
                );
                // What this pass drew is what the next one samples.
                src_color_id = match colors[i] {
                    Some(texture_id) => texture_id,
                    None => self.dummy_cache_texture_id,
                };
                src_alpha_id = match alphas[i] {
                    Some(texture_id) => texture_id,
                    None => self.dummy_cache_texture_a8_id,
                };
                i = i + 1;
            }
            // Return the targets to the pool for the next frame.
            self.render_targets.release_all(RenderTargetKind::Color, &colors);
            self.render_targets.release_all(RenderTargetKind::Alpha, &alphas);
            self.render_targets.end_frame();
            proof {
                lemma_handed_out_is_supply_prefix(
                    free_color,
                    fresh_color@,
                    needs_color@,
                    needs_color@.len() as int,
                );
                lemma_handed_out_is_supply_prefix(
                    free_alpha,
                    fresh_alpha@,
                    needs_alpha@,
                    needs_alpha@.len() as int,
                );
                assert(colors@.take(needs_color@.len() as int) =~= colors@);
                assert(alphas@.take(needs_alpha@.len() as int) =~= alphas@);
                assert(needs_color@.take(needs_color@.len() as int) =~= needs_color@);
                assert(needs_alpha@.take(needs_alpha@.len() as int) =~= needs_alpha@);
            }
        }
        self.unlock_external_images(&mut commands, &external);
        proof {
            if old(frame).passes@.len() == 0 {
                assert(commands@ =~= unlock_commands(external@));
            }
        }
        commands
    }

    /// Draws a frame: resolves its external images, hands a target to each
    /// pass that needs one, and gives the commands that draw the passes in
    /// their order. `locked` holds what the locks of the images of the
    /// deferred resolves gave, one for each resolve; `fresh_color` and
    /// `fresh_alpha` hold the targets that the device created because the
    /// pool has too few. A frame that has something wrong changes nothing.
    pub fn draw_tile_frame(
        &mut self,
        frame: &mut Frame,
        framebuffer_size: &DeviceUintSize,
        locked: &Vec<LockedImage>,
        fresh_color: &Vec<TextureId>,
        fresh_alpha: &Vec<TextureId>,
    ) -> (r: Result<Vec<Command>, RenderError>)
        ensures
            match r {
                Ok(commands) => {
                    &&& old(self).frame_error(
                        old(self).texture_cache@.len(),
                        *old(frame),
                        locked@,
                        fresh_color@.len(),
                        fresh_alpha@.len(),
                    ) is None
                    &&& commands@ == old(self).frame_draw(
                        *old(frame),
                        *framebuffer_size,
                        locked@,
                        fresh_color@,
                        fresh_alpha@,
                    ).commands(frame_uploads(*final(frame)))
                    &&& is_drawn_from(*final(frame), *old(frame), locked@)
                    &&& final(self).same_but_targets(old(self))
                    &&& forall|kind: RenderTargetKind|
                        final(self).render_targets.free(kind) == pool_after(
                            old(self).render_targets.free(kind),
                            if kind == RenderTargetKind::Color {
                                fresh_color@
                            } else {
                                fresh_alpha@
                            },
                            old(frame).passes@,
                            kind,
                        )
                },
                Err(e) => {
                    &&& old(self).frame_error(
                        old(self).texture_cache@.len(),
                        *old(frame),
                        locked@,
                        fresh_color@.len(),
                        fresh_alpha@.len(),
                    ) == Some(e)
                    &&& *final(self) == *old(self)
                    &&& *final(frame) == *old(frame)
                },
            },
    {
        match self.check_frame(
            self.texture_cache.len(),
            frame,
            locked,
            fresh_color.len(),
            fresh_alpha.len(),
        ) {
            Some(e) => Err(e),
            None => Ok(
                self.draw_checked_frame(frame, *framebuffer_size, locked, fresh_color, fresh_alpha),
            ),
        }
    }
}

/// The framebuffer pass draws to the presentation surface: it is handed no
/// target of the pool, of neither kind.
pub proof fn lemma_framebuffer_pass_has_no_target(
    free: Seq<TextureId>,
    fresh: Seq<TextureId>,
    passes: Seq<RenderPass>,
    kind: RenderTargetKind,
    pass: int,
)
    requires
        0 <= pass < passes.len(),
        passes[pass].is_framebuffer,
    ensures
        assigned(free, fresh, pass_needs(passes, kind))[pass] is None,
{
}

} // verus!
