//! Batches and colour targets: what is wrong with a batch, if anything,
//! and the commands that draw it.
//!
//! A batch binds its three source textures, then the dither matrix where
//! the renderer has one, and draws its instances with the program of its
//! variant. A colour target draws its opaque batches, then its alpha
//! batches.

use vstd::prelude::*;
use crate::checks::{first_error_of, lemma_first_error_found, lemma_no_error_at};
use crate::command::{
    concat_runs, lemma_concat_runs_empty, lemma_concat_runs_step, BatchRef, Command, Projection,
};
use crate::external_image::{
    bound_texture, key_of, spec_key_of, ExternalImageEntry, ExternalImageTable,
};
use crate::renderer::Renderer;
use crate::shader::{BlendMode, ProgramId, ShaderVariantKey};
use crate::tiling::{AlphaBatchKey, AlphaBatchKind, ColorRenderTarget, PrimitiveBatch};
use crate::types::{
    ColorF, RenderError, SourceTexture, TextureId, TextureSampler, TextureTarget, ONE_BITS,
};

verus! {

/// What drawing reads of the renderer, and of the frame's external images.
pub struct DrawContext {
    /// The native textures of the cache slots.
    pub cache: Seq<TextureId>,
    /// The native textures bound for the external images of the frame.
    pub external: Seq<ExternalImageEntry>,
    /// Whether the gradient programs dither.
    pub dithering: bool,
    /// The texture of the dither matrix, where there is one.
    pub dither_texture: Option<TextureId>,
}

/// What is wrong with a source texture of a batch, if anything: a cache
/// slot has to exist, and an external image has to be bound.
pub open spec fn source_error(
    cache_len: nat,
    external: Seq<ExternalImageEntry>,
    texture: SourceTexture,
) -> Option<RenderError> {
    match texture {
        SourceTexture::Invalid => None,
        SourceTexture::WebGL(_) => None,
        SourceTexture::External(image) => if bound_texture(external, spec_key_of(image)) is Some {
            None
        } else {
            Some(RenderError::UnresolvedExternalImage)
        },
        SourceTexture::TextureCache(slot) => if slot.0 < cache_len {
            None
        } else {
            Some(RenderError::UnknownCacheTexture)
        },
    }
}

/// The native texture of a source texture that has nothing wrong.
pub open spec fn source_texture(ctx: DrawContext, texture: SourceTexture) -> TextureId {
    match texture {
        SourceTexture::Invalid => TextureId::spec_invalid(),
        SourceTexture::WebGL(name) => TextureId { name, target: TextureTarget::Default },
        SourceTexture::External(image) => bound_texture(ctx.external, spec_key_of(image))->0,
        SourceTexture::TextureCache(slot) => ctx.cache[slot.0 as int],
    }
}

/// What is wrong with a batch, if anything. Clipping multiplies with the
/// mask through blending, so a batch that is clipped has to blend.
pub open spec fn batch_error(
    cache_len: nat,
    external: Seq<ExternalImageEntry>,
    key: AlphaBatchKey,
) -> Option<RenderError> {
    if key.flags.spec_needs_clipping() && key.blend_mode is NoBlend {
        Some(RenderError::ClipWithoutBlend)
    } else {
        first_error_of(3, |n: int| source_error(cache_len, external, key.textures.colors[n]))
    }
}

/// The variant of the program that draws a batch.
pub open spec fn variant_key(key: AlphaBatchKey, dithering: bool) -> ShaderVariantKey {
    ShaderVariantKey::spec_new(
        key.kind.spec_primitive(),
        key.flags.spec_transform_kind(),
        key.flags.spec_needs_clipping(),
        key.blend_mode is Subpixel,
        dithering,
        key.kind.spec_yuv_format(),
        key.kind.spec_yuv_color_space(),
    )
}

/// The binding of a source texture of a batch; the planes of a YUV image
/// are bound in their own way.
pub open spec fn bind_command(yuv: bool, sampler: TextureSampler, texture: TextureId) -> Command {
    if yuv {
        Command::BindYuvTexture { sampler, texture }
    } else {
        Command::BindTexture { sampler, texture }
    }
}

/// The commands of a batch: its three source textures are bound (after a
/// flush, for a YUV image), then the dither matrix where there is one, and
/// the instances are drawn with the program of the batch's variant.
pub open spec fn batch_commands(
    ctx: DrawContext,
    batch: PrimitiveBatch,
    projection: Projection,
    batch_ref: BatchRef,
) -> Seq<Command> {
    let yuv = batch.key.kind is YuvImage;
    (if yuv {
        seq![Command::Flush]
    } else {
        Seq::empty()
    }) + Seq::new(
        3,
        |n: int|
            bind_command(
                yuv,
                TextureSampler::spec_color(n),
                source_texture(ctx, batch.key.textures.colors[n]),
            ),
    ) + (match ctx.dither_texture {
        Some(texture) => seq![Command::BindTexture { sampler: TextureSampler::Dither, texture }],
        None => Seq::empty(),
    }) + seq![
        Command::Draw {
            program: variant_key(batch.key, ctx.dithering).program(),
            projection,
            batch: batch_ref,
            instances: batch.instances@.len() as usize,
            blend_mode: batch.key.blend_mode,
        },
    ]
}

/// The errors of the batches of a list, batch by batch.
pub open spec fn batch_errors(
    cache_len: nat,
    external: Seq<ExternalImageEntry>,
    batches: Seq<PrimitiveBatch>,
) -> spec_fn(int) -> Option<RenderError> {
    |k: int| batch_error(cache_len, external, batches[k].key)
}

/// The commands of the batches of one of the two lists of a target, batch
/// by batch.
pub open spec fn batch_runs(
    ctx: DrawContext,
    batches: Seq<PrimitiveBatch>,
    projection: Projection,
    pass: int,
    target: int,
    opaque: bool,
) -> spec_fn(int) -> Seq<Command> {
    |k: int|
        batch_commands(
            ctx,
            batches[k],
            projection,
            BatchRef { pass: pass as usize, target: target as usize, opaque, index: k as usize },
        )
}

/// What is wrong with a colour target, if anything: the first error among
/// its opaque batches, then among its alpha batches.
pub open spec fn target_error(
    cache_len: nat,
    external: Seq<ExternalImageEntry>,
    target: ColorRenderTarget,
) -> Option<RenderError> {
    let list = target.alpha_batcher.batch_list;
    match first_error_of(
        list.opaque_batches@.len(),
        batch_errors(cache_len, external, list.opaque_batches@),
    ) {
        Some(e) => Some(e),
        None => first_error_of(
            list.alpha_batches@.len(),
            batch_errors(cache_len, external, list.alpha_batches@),
        ),
    }
}

/// How the targets of one pass are drawn.
pub struct PassDraw {
    /// Whether the pass draws into a pooled target; it draws to the
    /// presentation surface where it does not.
    pub pooled: bool,
    pub clear_color: Option<ColorF>,
    pub projection: Projection,
}

/// The commands of a colour target: the presentation surface is cleared,
/// then the opaque batches are drawn, then the alpha batches, each list in
/// its order.
pub open spec fn target_commands(
    ctx: DrawContext,
    target: ColorRenderTarget,
    draw: PassDraw,
    pass: int,
    index: int,
) -> Seq<Command> {
    let list = target.alpha_batcher.batch_list;
    (if draw.pooled {
        Seq::empty()
    } else {
        seq![Command::ClearTarget { color: draw.clear_color, depth: Some(ONE_BITS) }]
    }) + concat_runs(
        list.opaque_batches@.len(),
        batch_runs(ctx, list.opaque_batches@, draw.projection, pass, index, true),
    ) + concat_runs(
        list.alpha_batches@.len(),
        batch_runs(ctx, list.alpha_batches@, draw.projection, pass, index, false),
    )
}

/// Appending a run to what came before and the runs before it.
pub proof fn lemma_extend_runs(start: Seq<Command>, n: nat, run: spec_fn(int) -> Seq<Command>)
    ensures
        (start + concat_runs(n, run)) + run(n as int) == start + concat_runs(n + 1, run),
{
    lemma_concat_runs_step(n, run);
    assert((start + concat_runs(n, run)) + run(n as int) =~= start + (concat_runs(n, run) + run(
        n as int,
    )));
}

/// What came before is what came before and the runs of no item.
pub proof fn lemma_start_runs(start: Seq<Command>, run: spec_fn(int) -> Seq<Command>)
    ensures
        start == start + concat_runs(0, run),
{
    lemma_concat_runs_empty(run);
    assert(start =~= start + concat_runs(0, run));
}

impl Renderer {
    /// What drawing reads of this renderer, with the external images of
    /// the frame.
    pub open spec fn context(&self, external: Seq<ExternalImageEntry>) -> DrawContext {
        DrawContext {
            cache: self.texture_cache@,
            external,
            dithering: self.shaders.spec_dithering(),
            dither_texture: self.dither_matrix_texture_id,
        }
    }

    /// The native texture behind a source texture of a batch.
    pub fn resolve_source_texture(&self, external: &ExternalImageTable, texture: &SourceTexture) -> (r:
        Result<TextureId, RenderError>)
        ensures
            match source_error(self.texture_cache@.len(), external@, *texture) {
                Some(e) => r == Err::<TextureId, RenderError>(e),
                None => r == Ok::<TextureId, RenderError>(
                    source_texture(self.context(external@), *texture),
                ),
            },
    {
        match *texture {
            SourceTexture::Invalid => Ok(TextureId::invalid()),
            SourceTexture::WebGL(name) => Ok(TextureId::new(name, TextureTarget::Default)),
            SourceTexture::External(image) => {
                match external.get(key_of(image)) {
                    Some(id) => Ok(id),
                    None => Err(RenderError::UnresolvedExternalImage),
                }
            },
            SourceTexture::TextureCache(slot) => {
                match self.texture_cache.get(slot) {
                    Some(id) => Ok(id),
                    None => Err(RenderError::UnknownCacheTexture),
                }
            },
        }
    }
}

/// Tests a source texture against a cache table of `cache_len` slots.
pub fn check_source_texture(cache_len: usize, external: &ExternalImageTable, texture: &SourceTexture) -> (r:
    Option<RenderError>)
    ensures
        r == source_error(cache_len as nat, external@, *texture),
{
    match *texture {
        SourceTexture::Invalid => None,
        SourceTexture::WebGL(_) => None,
        SourceTexture::External(image) => {
            match external.get(key_of(image)) {
                Some(_) => None,
                None => Some(RenderError::UnresolvedExternalImage),
            }
        },
        SourceTexture::TextureCache(slot) => {
            if slot.0 < cache_len {
                None
            } else {
                Some(RenderError::UnknownCacheTexture)
            }
        },
    }
}

/// Tests a batch against a cache table of `cache_len` slots.
pub fn check_batch(cache_len: usize, external: &ExternalImageTable, key: &AlphaBatchKey) -> (r: Option<
    RenderError,
>)
    ensures
        r == batch_error(cache_len as nat, external@, *key),
{
    let needs_blend: bool = key.flags.needs_clipping();
    let blends: bool = match key.blend_mode {
        BlendMode::Alpha => true,
        BlendMode::PremultipliedAlpha => true,
        BlendMode::Subpixel(_) => true,
        BlendMode::NoBlend => false,
    };
    if needs_blend && !blends {
        return Some(RenderError::ClipWithoutBlend);
    }
    let ghost error = |n: int| source_error(cache_len as nat, external@, key.textures.colors[n]);
    let mut n: usize = 0;
    while n < 3
        invariant
            n <= 3,
            !(key.flags.spec_needs_clipping() && key.blend_mode is NoBlend),
            error == (|n: int| source_error(cache_len as nat, external@, key.textures.colors[n])),
            first_error_of(n as nat, error) is None,
        decreases 3 - n,
    {
        match check_source_texture(cache_len, external, &key.textures.colors[n]) {
            Some(e) => {
                proof {
                    lemma_first_error_found(3, error, n as int);
                }
                return Some(e);
            },
            None => {},
        }
        n = n + 1;
    }
    None
}

/// Tests the batches of a list, in order.
pub fn check_batches(cache_len: usize, external: &ExternalImageTable, batches: &Vec<PrimitiveBatch>) -> (r:
    Option<RenderError>)
    ensures
        r == first_error_of(batches@.len(), batch_errors(cache_len as nat, external@, batches@)),
{
    let ghost error = batch_errors(cache_len as nat, external@, batches@);
    let mut k: usize = 0;
    while k < batches.len()
        invariant
            k <= batches@.len(),
            error == batch_errors(cache_len as nat, external@, batches@),
            first_error_of(k as nat, error) is None,
        decreases batches@.len() - k,
    {
        match check_batch(cache_len, external, &batches[k].key) {
            Some(e) => {
                proof {
                    lemma_first_error_found(batches@.len(), error, k as int);
                }
                return Some(e);
            },
            None => {},
        }
        k = k + 1;
    }
    None
}

/// Tests a colour target against a cache table of `cache_len` slots.
pub fn check_target(cache_len: usize, external: &ExternalImageTable, target: &ColorRenderTarget) -> (r:
    Option<RenderError>)
    ensures
        r == target_error(cache_len as nat, external@, *target),
{
    match check_batches(cache_len, external, &target.alpha_batcher.batch_list.opaque_batches) {
        Some(e) => Some(e),
        None => check_batches(cache_len, external, &target.alpha_batcher.batch_list.alpha_batches),
    }
}

impl Renderer {
    /// Appends the commands of a batch to `out`.
    pub(crate) fn submit_batch(
        &self,
        out: &mut Vec<Command>,
        external: &ExternalImageTable,
        batch: &PrimitiveBatch,
        projection: Projection,
        batch_ref: BatchRef,
    )
        requires
            batch_error(self.texture_cache@.len(), external@, batch.key) is None,
        ensures
            final(out)@ == old(out)@ + batch_commands(
                self.context(external@),
                *batch,
                projection,
                batch_ref,
            ),
    {
        let ghost ctx = self.context(external@);
        let ghost error = |n: int|
            source_error(self.texture_cache@.len(), external@, batch.key.textures.colors[n]);
        let transform_kind = batch.key.flags.transform_kind();
        let needs_clipping = batch.key.flags.needs_clipping();
        let yuv: bool = match batch.key.kind {
            AlphaBatchKind::YuvImage(_, _, _) => true,
            _ => false,
        };
        if yuv {
            out.push(Command::Flush);
        }
        let ghost flushed = out@;
        let mut n: usize = 0;
        while n < 3
            invariant
                n <= 3,
                ctx == self.context(external@),
                first_error_of(3, error) is None,
                error == (|n: int|
                    source_error(
                        self.texture_cache@.len(),
                        external@,
                        batch.key.textures.colors[n],
                    )),
                out@ == flushed + Seq::new(
                    n as nat,
                    |n: int|
                        bind_command(
                            yuv,
                            TextureSampler::spec_color(n),
                            source_texture(ctx, batch.key.textures.colors[n]),
                        ),
                ),
            decreases 3 - n,
        {
            proof {
                lemma_no_error_at(3, error, n as int);
            }
            let texture_id = match self.resolve_source_texture(external, &batch.key.textures.colors[n]) {
                Ok(id) => id,
                // Not reached: the batch has nothing wrong.
                Err(_) => TextureId::invalid(),
            };
            if yuv {
                out.push(
                    Command::BindYuvTexture { sampler: TextureSampler::color(n), texture: texture_id },
                );
            } else {
                out.push(
                    Command::BindTexture { sampler: TextureSampler::color(n), texture: texture_id },
                );
            }
            n = n + 1;
            assert(out@ =~= flushed + Seq::new(
                n as nat,
                |n: int|
                    bind_command(
                        yuv,
                        TextureSampler::spec_color(n),
                        source_texture(ctx, batch.key.textures.colors[n]),
                    ),
            ));
        }
        let subpixel: bool = match batch.key.blend_mode {
            BlendMode::Subpixel(_) => true,
            _ => false,
        };
        let key = ShaderVariantKey::new(
            batch.key.kind.primitive(),
            transform_kind,
            needs_clipping,
            subpixel,
            self.shaders.dithering(),
            batch.key.kind.yuv_format(),
            batch.key.kind.yuv_color_space(),
        );
        let program = match self.shaders.lookup(&key) {
            Some(program) => program,
            // Not reached: the key of a batch has a program.
            None => ProgramId(0),
        };
        match self.dither_matrix_texture_id {
            Some(id) => {
                out.push(Command::BindTexture { sampler: TextureSampler::Dither, texture: id });
            },
            None => {},
        }
        out.push(
            Command::Draw {
                program,
                projection,
                batch: batch_ref,
                instances: batch.instances.len(),
                blend_mode: batch.key.blend_mode,
            },
        );
        assert(out@ =~= old(out)@ + batch_commands(ctx, *batch, projection, batch_ref));
    }

    /// Appends the commands of the batches of one list of a target.
    fn submit_batches(
        &self,
        out: &mut Vec<Command>,
        external: &ExternalImageTable,
        batches: &Vec<PrimitiveBatch>,
        projection: Projection,
        pass: usize,
        target: usize,
        opaque: bool,
    )
        requires
            first_error_of(
                batches@.len(),
                batch_errors(self.texture_cache@.len(), external@, batches@),
            ) is None,
        ensures
            final(out)@ == old(out)@ + concat_runs(
                batches@.len(),
                batch_runs(
                    self.context(external@),
                    batches@,
                    projection,
                    pass as int,
                    target as int,
                    opaque,
                ),
            ),
    {
        let ghost run = batch_runs(
            self.context(external@),
            batches@,
            projection,
            pass as int,
            target as int,
            opaque,
        );
        let ghost error = batch_errors(self.texture_cache@.len(), external@, batches@);
        proof {
            lemma_start_runs(out@, run);
        }
        let mut k: usize = 0;
        while k < batches.len()
            invariant
                k <= batches@.len(),
                run == batch_runs(
                    self.context(external@),
                    batches@,
                    projection,
                    pass as int,
                    target as int,
                    opaque,
                ),
                error == batch_errors(self.texture_cache@.len(), external@, batches@),
                first_error_of(batches@.len(), error) is None,
                out@ == old(out)@ + concat_runs(k as nat, run),
            decreases batches@.len() - k,
        {
            proof {
                lemma_no_error_at(batches@.len(), error, k as int);
                lemma_extend_runs(old(out)@, k as nat, run);
            }
            self.submit_batch(
                out,
                external,
                &batches[k],
                projection,
                BatchRef { pass, target, opaque, index: k },
            );
            k = k + 1;
        }
    }

    /// Appends the commands of a colour target to `out`. A pass that has
    /// no pooled target draws to the presentation surface, which is
    /// cleared first.
    pub(crate) fn draw_color_target(
        &self,
        out: &mut Vec<Command>,
        external: &ExternalImageTable,
        render_target: Option<(TextureId, i32)>,
        target: &ColorRenderTarget,
        clear_color: Option<ColorF>,
        projection: Projection,
        pass: usize,
        index: usize,
    )
        requires
            target_error(self.texture_cache@.len(), external@, *target) is None,
        ensures
            final(out)@ == old(out)@ + target_commands(
                self.context(external@),
                *target,
                PassDraw { pooled: render_target is Some, clear_color, projection },
                pass as int,
                index as int,
            ),
    {
        let ghost ctx = self.context(external@);
        match render_target {
            Some(_) => {},
            None => {
                out.push(Command::ClearTarget { color: clear_color, depth: Some(ONE_BITS) });
            },
        }
        self.submit_batches(
            out,
            external,
            &target.alpha_batcher.batch_list.opaque_batches,
            projection,
            pass,
            index,
            true,
        );
        self.submit_batches(
            out,
            external,
            &target.alpha_batcher.batch_list.alpha_batches,
            projection,
            pass,
            index,
            false,
        );
        assert(out@ =~= old(out)@ + target_commands(
            ctx,
            *target,
            PassDraw { pooled: render_target is Some, clear_color, projection },
            pass as int,
            index as int,
        ));
    }
}

} // verus!
