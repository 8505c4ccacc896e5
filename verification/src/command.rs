//! The outbound interface: what the renderer asks of the graphics device and
//! of the external image handler. A render produces a list of commands; the
//! caller performs them in order. Bulk data is never copied into a command:
//! a command says where the bytes are.

use vstd::prelude::*;
use crate::shader::{BlendMode, ProgramId};
use crate::types::{
    ColorF, ExternalImageId, ImageFormat, RenderTargetMode, TextureFilter, TextureId,
    TextureSampler,
};

verus! {

/// Where the pixels of a texture upload are read from.
#[derive(Copy, Clone, PartialEq, Eq, Debug)]
pub enum PixelSource {
    /// No pixels: the texture's storage is allocated and left as it is.
    Empty,
    /// The bytes carried by the texture update at `index` in the list that
    /// the same render handed back, from byte `offset` on.
    Update { index: usize, offset: u32 },
    /// The bytes of the external buffer locked by the command just before,
    /// from byte `offset` on.
    LockedBuffer { offset: u32 },
}

/// An orthographic projection over a surface of the given size.
#[derive(Copy, Clone, PartialEq, Eq, Debug)]
pub enum Projection {
    /// The presentation surface: y grows downwards.
    Framebuffer { width: u32, height: u32 },
    /// An intermediate target: y grows upwards.
    Cache { width: u32, height: u32 },
}

/// Names one batch of a frame: pass, colour target within the pass, which of
/// the target's two lists, and the position in that list.
#[derive(Copy, Clone, PartialEq, Eq, Debug)]
pub struct BatchRef {
    pub pass: usize,
    pub target: usize,
    pub opaque: bool,
    pub index: usize,
}

/// One thing to do: a call of the graphics device, or of the external
/// image handler.
#[derive(Copy, Clone, PartialEq, Eq, Debug)]
pub enum Command {
    /// Ask the external image handler to lock an image.
    LockExternalImage { id: ExternalImageId, channel_index: u8 },
    /// Tell the external image handler that an image is no longer read.
    UnlockExternalImage { id: ExternalImageId, channel_index: u8 },
    InitTexture {
        texture: TextureId,
        width: u32,
        height: u32,
        format: ImageFormat,
        filter: TextureFilter,
        mode: RenderTargetMode,
        data: PixelSource,
    },
    ResizeTexture {
        texture: TextureId,
        width: u32,
        height: u32,
        format: ImageFormat,
        filter: TextureFilter,
        mode: RenderTargetMode,
    },
    UpdateTexture {
        texture: TextureId,
        x: u32,
        y: u32,
        width: u32,
        height: u32,
        stride: Option<u32>,
        data: PixelSource,
    },
    DeinitTexture { texture: TextureId },
    /// Upload one category of the frame's GPU data: the `records` records
    /// of the array behind `sampler`, each of `record_size` channels in the
    /// given format.
    UpdateSampler {
        sampler: TextureSampler,
        format: ImageFormat,
        records: usize,
        record_size: usize,
    },
    BindTexture { sampler: TextureSampler, texture: TextureId },
    BindYuvTexture { sampler: TextureSampler, texture: TextureId },
    /// Clear the bound draw destination; `depth` is the bit pattern of an
    /// `f32`.
    ClearTarget { color: Option<ColorF>, depth: Option<u32> },
    /// One instanced draw of all the instances of a batch.
    Draw {
        program: ProgramId,
        projection: Projection,
        batch: BatchRef,
        instances: usize,
        blend_mode: BlendMode,
    },
    Flush,
}

/// The commands produced for the items `0..n` of a list, one run per item,
/// in order.
pub open spec fn concat_runs(n: nat, run: spec_fn(int) -> Seq<Command>) -> Seq<Command> {
    Seq::new(n, run).flatten()
}

/// Taking one more item appends its run.
pub proof fn lemma_concat_runs_step(n: nat, run: spec_fn(int) -> Seq<Command>)
    ensures
        concat_runs(n + 1, run) == concat_runs(n, run) + run(n as int),
{
    broadcast use Seq::lemma_flatten_push;
    assert(Seq::new(n + 1, run) =~= Seq::new(n, run).push(run(n as int)));
}

/// No item gives no command.
pub proof fn lemma_concat_runs_empty(run: spec_fn(int) -> Seq<Command>)
    ensures
        concat_runs(0, run) == Seq::<Command>::empty(),
{
    assert(Seq::new(0, run) =~= Seq::<Seq<Command>>::empty());
}

} // verus!
