//! GPU data texture packer: lays the per-frame record arrays out as rows of
//! pseudo-textures that shaders read by row and column.
//!
//! A record takes a fixed number of texels. Where several records share a
//! row, an array is padded with blank records to a whole number of rows,
//! because the device uploads complete rows only. Where one record takes
//! several rows, nothing is padded.

use vstd::prelude::*;
use core::marker::PhantomData;
use crate::command::Command;
use crate::tiling::Frame;
use crate::types::{DevicePoint, ImageFormat, TextureFilter, TextureSampler};

verus! {

/// The largest width, in texels, of a texture that vertex shaders read.
pub const MAX_VERTEX_TEXTURE_WIDTH: usize = 1024;

/// The number of channels of a texel.
pub const RGBA_STRIDE: usize = 4;

/// The number of texels of a record of generic data of 16 bytes.
pub const VECS_PER_DATA_16: usize = 1;

/// The number of texels of a record of generic data of 32 bytes.
pub const VECS_PER_DATA_32: usize = 2;

/// The number of texels of a record of generic data of 64 bytes.
pub const VECS_PER_DATA_64: usize = 4;

/// The number of texels of a record of generic data of 128 bytes.
pub const VECS_PER_DATA_128: usize = 8;

/// The number of texels of a layer: two matrices and a rectangle.
pub const VECS_PER_LAYER: usize = 9;

/// The number of texels of a primitive's geometry: two rectangles.
pub const VECS_PER_PRIM_GEOM: usize = 2;

/// The number of texels of a render task.
pub const VECS_PER_RENDER_TASK: usize = 3;

/// The number of texels of a resource rectangle.
pub const VECS_PER_RESOURCE_RECTS: usize = 1;

/// The number of texels of a gradient's colour table.
pub const VECS_PER_GRADIENT_DATA: usize = 520;

/// The number of texels of a split polygon.
pub const VECS_PER_SPLIT_GEOM: usize = 3;

/// The number of bytes of the colour table of one gradient.
pub const GRADIENT_DATA_SIZE: usize = 2080;

/// The number of bytes of a texel of 8-bit channels.
pub const RGBA8_TEXEL_SIZE: usize = 4;

/// The number of texels in a row of the gradient table: a gradient takes
/// two rows.
pub const GRADIENT_TEXTURE_WIDTH: usize = GRADIENT_DATA_SIZE / RGBA8_TEXEL_SIZE / 2;

/// A record of a GPU data array.
pub trait GpuRecord: Sized + Copy {
    /// The record that fills the unused end of a row.
    spec fn spec_blank() -> Self;

    fn blank() -> (r: Self)
        ensures
            r == Self::spec_blank(),
    ;
}

/// How one category of GPU data is laid out in its texture.
pub trait GpuStoreLayout {
    spec fn spec_image_format() -> ImageFormat;

    fn image_format() -> (format: ImageFormat)
        ensures
            format == Self::spec_image_format(),
    ;

    /// The width of the texture in texels, for records of the given number
    /// of texels.
    spec fn spec_texture_width(texels_per_item: nat) -> nat;

    fn texture_width(texels_per_item: usize) -> (width: usize)
        requires
            texels_per_item > 0,
        ensures
            width == Self::spec_texture_width(texels_per_item as nat),
    ;

    spec fn spec_texture_filter() -> TextureFilter;

    fn texture_filter() -> (filter: TextureFilter)
        ensures
            filter == Self::spec_texture_filter(),
    ;
}

/// The number of texels of a record of `size` channels.
pub open spec fn spec_texels_per_item(size: nat) -> nat {
    size / (RGBA_STRIDE as nat)
}

pub fn texels_per_item(size: usize) -> (texels: usize)
    ensures
        texels == spec_texels_per_item(size as nat),
{
    size / RGBA_STRIDE
}

/// The number of whole records in a row; 0 where a record is wider than a
/// row.
pub open spec fn spec_items_per_row<L: GpuStoreLayout>(size: nat) -> nat {
    L::spec_texture_width(spec_texels_per_item(size)) / spec_texels_per_item(size)
}

pub fn items_per_row<L: GpuStoreLayout>(size: usize) -> (items: usize)
    requires
        size >= RGBA_STRIDE,
    ensures
        items == spec_items_per_row::<L>(size as nat),
{
    L::texture_width(texels_per_item(size)) / texels_per_item(size)
}

/// The number of rows that one record takes; 0 where records share a row.
pub open spec fn spec_rows_per_item<L: GpuStoreLayout>(size: nat) -> nat {
    if L::spec_texture_width(spec_texels_per_item(size)) == 0 {
        0
    } else {
        spec_texels_per_item(size) / L::spec_texture_width(spec_texels_per_item(size))
    }
}

/// The number of blank records that complete the last row of `len` records.
pub open spec fn padding(len: nat, items_per_row: nat) -> nat {
    if items_per_row == 0 || len % items_per_row == 0 {
        0
    } else {
        (items_per_row - len % items_per_row) as nat
    }
}

/// The records as they are uploaded: followed by blank records up to the end
/// of the last row.
pub open spec fn padded<T: GpuRecord>(records: Seq<T>, items_per_row: nat) -> Seq<T> {
    records + Seq::new(padding(records.len(), items_per_row), |i: int| T::spec_blank())
}

/// The row of the texture in which record `index` starts, where
/// `items_per_row` records share a row.
pub open spec fn row_of(index: nat, items_per_row: nat) -> nat {
    index / items_per_row
}

/// The place of record `index` within its row.
pub open spec fn slot_of(index: nat, items_per_row: nat) -> nat {
    index % items_per_row
}

/// The record that a shader finds at a row and a place within the row.
pub open spec fn record_at<T>(uploaded: Seq<T>, row: nat, slot: nat, items_per_row: nat) -> T {
    uploaded[(row * items_per_row + slot) as int]
}

/// An uploaded array is a whole number of rows.
pub proof fn lemma_padded_is_whole_rows<T: GpuRecord>(records: Seq<T>, items_per_row: nat)
    requires
        items_per_row > 0,
    ensures
        padded(records, items_per_row).len() % items_per_row == 0,
        padded(records, items_per_row).len() < records.len() + items_per_row,
{
    let len = records.len();
    let rest = len % items_per_row;
    if rest != 0 {
        let total: int = len + (items_per_row - rest);
        assert(total % (items_per_row as int) == 0) by (nonlinear_arith)
            requires
                items_per_row > 0,
                rest == len % items_per_row,
                rest != 0,
                total == len + (items_per_row - rest),
        ;
    }
}

/// Reading an uploaded array back by row and place gives every record of
/// the frame as it was, and no blank record is read for a frame's record.
pub proof fn lemma_round_trip<T: GpuRecord>(records: Seq<T>, items_per_row: nat, index: nat)
    requires
        items_per_row > 0,
        index < records.len(),
    ensures
        record_at(
            padded(records, items_per_row),
            row_of(index, items_per_row),
            slot_of(index, items_per_row),
            items_per_row,
        ) == records[index as int],
        row_of(index, items_per_row) * items_per_row + slot_of(index, items_per_row) == index,
        slot_of(index, items_per_row) < items_per_row,
{
    assert((index / items_per_row) * items_per_row + index % items_per_row == index)
        by (nonlinear_arith)
        requires
            items_per_row > 0,
    ;
}

/// Where rows hold whole records and nothing else, the texel at which a
/// record starts, counted along the rows of the texture, is where the
/// record starts in the uploaded array.
pub proof fn lemma_texel_address(
    index: nat,
    items_per_row: nat,
    texels_per_item: nat,
    width: nat,
)
    requires
        items_per_row > 0,
        width == items_per_row * texels_per_item,
    ensures
        row_of(index, items_per_row) * width + slot_of(index, items_per_row) * texels_per_item
            == index * texels_per_item,
{
    let row = index / items_per_row;
    let slot = index % items_per_row;
    assert(row * items_per_row + slot == index) by (nonlinear_arith)
        requires
            items_per_row > 0,
            row == index / items_per_row,
            slot == index % items_per_row,
    ;
    assert(row * (items_per_row * texels_per_item) + slot * texels_per_item == (row
        * items_per_row + slot) * texels_per_item) by (nonlinear_arith);
}

/// Where one record takes several whole rows, record `index` starts at the
/// beginning of row `index * rows`, and that texel, counted along the rows,
/// is where the record starts in the uploaded array.
pub proof fn lemma_wide_record_address(index: nat, rows: nat, texels_per_item: nat, width: nat)
    requires
        texels_per_item == rows * width,
    ensures
        (index * rows) * width == index * texels_per_item,
{
    assert((index * rows) * width == index * (rows * width)) by (nonlinear_arith);
}

/// The layout of the tables of vertex data: as many records to a row as fit
/// into the maximum width, in 32-bit float channels.
pub struct VertexDataTextureLayout {}

impl GpuStoreLayout for VertexDataTextureLayout {
    open spec fn spec_image_format() -> ImageFormat {
        ImageFormat::RGBAF32
    }

    fn image_format() -> (format: ImageFormat) {
        ImageFormat::RGBAF32
    }

    open spec fn spec_texture_width(texels_per_item: nat) -> nat {
        if texels_per_item == 0 {
            0
        } else {
            (MAX_VERTEX_TEXTURE_WIDTH - (MAX_VERTEX_TEXTURE_WIDTH as nat) % texels_per_item) as nat
        }
    }

    fn texture_width(texels_per_item: usize) -> (width: usize) {
        assert(1024int % (texels_per_item as int) <= 1024) by (nonlinear_arith)
            requires
                texels_per_item > 0,
        ;
        MAX_VERTEX_TEXTURE_WIDTH - (MAX_VERTEX_TEXTURE_WIDTH % texels_per_item)
    }

    open spec fn spec_texture_filter() -> TextureFilter {
        TextureFilter::Nearest
    }

    fn texture_filter() -> (filter: TextureFilter) {
        TextureFilter::Nearest
    }
}

/// The layout of the gradient table: one gradient to two rows, in 8-bit
/// channels, filtered linearly.
pub struct GradientDataTextureLayout;

impl GpuStoreLayout for GradientDataTextureLayout {
    open spec fn spec_image_format() -> ImageFormat {
        ImageFormat::RGBA8
    }

    fn image_format() -> (format: ImageFormat) {
        ImageFormat::RGBA8
    }

    open spec fn spec_texture_width(texels_per_item: nat) -> nat {
        GRADIENT_TEXTURE_WIDTH as nat
    }

    fn texture_width(texels_per_item: usize) -> (width: usize) {
        GRADIENT_TEXTURE_WIDTH
    }

    open spec fn spec_texture_filter() -> TextureFilter {
        TextureFilter::Linear
    }

    fn texture_filter() -> (filter: TextureFilter) {
        TextureFilter::Linear
    }
}

/// The layout of the table of split geometry: as the vertex data.
pub struct SplitGeometryTextureLayout;

impl GpuStoreLayout for SplitGeometryTextureLayout {
    open spec fn spec_image_format() -> ImageFormat {
        ImageFormat::RGBAF32
    }

    fn image_format() -> (format: ImageFormat) {
        ImageFormat::RGBAF32
    }

    open spec fn spec_texture_width(texels_per_item: nat) -> nat {
        if texels_per_item == 0 {
            0
        } else {
            (MAX_VERTEX_TEXTURE_WIDTH - (MAX_VERTEX_TEXTURE_WIDTH as nat) % texels_per_item) as nat
        }
    }

    fn texture_width(texels_per_item: usize) -> (width: usize) {
        assert(1024int % (texels_per_item as int) <= 1024) by (nonlinear_arith)
            requires
                texels_per_item > 0,
        ;
        MAX_VERTEX_TEXTURE_WIDTH - (MAX_VERTEX_TEXTURE_WIDTH % texels_per_item)
    }

    open spec fn spec_texture_filter() -> TextureFilter {
        TextureFilter::Nearest
    }

    fn texture_filter() -> (filter: TextureFilter) {
        TextureFilter::Nearest
    }
}

/// The upload of one category, if there is anything to upload: `len`
/// records of `size` channels each.
#[verifier::opaque]
pub open spec fn upload_command<L: GpuStoreLayout>(sampler: TextureSampler, len: nat, size: nat) -> Seq<
    Command,
> {
    if len == 0 {
        Seq::empty()
    } else {
        seq![
            Command::UpdateSampler {
                sampler,
                format: L::spec_image_format(),
                records: len as usize,
                record_size: size as usize,
            },
        ]
    }
}

/// The pseudo-texture of one category of GPU data.
pub struct GpuDataTexture<L> {
    layout: PhantomData<L>,
}

impl<L: GpuStoreLayout> GpuDataTexture<L> {
    pub fn new() -> GpuDataTexture<L> {
        GpuDataTexture { layout: PhantomData }
    }

    /// Completes the last row of `data` with blank records and appends the
    /// upload of `data` to `out`. An empty array is left alone and nothing
    /// is uploaded for it. `size` is the number of channels of a record.
    pub fn init<T: GpuRecord>(
        &self,
        out: &mut Vec<Command>,
        sampler: TextureSampler,
        data: &mut Vec<T>,
        size: usize,
    )
        requires
            size >= RGBA_STRIDE,
        ensures
            final(data)@ == prepared::<T, L>(old(data)@, size as nat),
            final(out)@ == old(out)@ + upload_command::<L>(
                sampler,
                final(data)@.len(),
                size as nat,
            ),
    {
        reveal(upload_command);
        if data.len() == 0 {
            assert(out@ =~= old(out)@ + upload_command::<L>(sampler, data@.len(), size as nat));
            return ;
        }
        let items_per_row = items_per_row::<L>(size);
        // Extend the array to a whole number of rows: the device reads it
        // row by row.
        if items_per_row != 0 {
            let rest: usize = data.len() % items_per_row;
            if rest != 0 {
                let missing: usize = items_per_row - rest;
                let mut added: usize = 0;
                while added < missing
                    invariant
                        added <= missing,
                        data@ == old(data)@ + Seq::new(added as nat, |i: int| T::spec_blank()),
                    decreases missing - added,
                {
                    data.push(T::blank());
                    added = added + 1;
                    assert(data@ =~= old(data)@ + Seq::new(added as nat, |i: int| T::spec_blank()));
                }
            } else {
                assert(data@ =~= padded(old(data)@, items_per_row as nat));
            }
        } else {
            assert(data@ =~= padded(old(data)@, items_per_row as nat));
        }
        out.push(
            Command::UpdateSampler {
                sampler,
                format: L::image_format(),
                records: data.len(),
                record_size: size,
            },
        );
        assert(out@ =~= old(out)@ + upload_command::<L>(sampler, data@.len(), size as nat));
    }
}

/// The texture of a category of vertex data.
pub type VertexDataTexture = GpuDataTexture<VertexDataTextureLayout>;

/// The texture of the gradient tables.
pub type GradientDataTexture = GpuDataTexture<GradientDataTextureLayout>;

/// The texture of the split polygons.
pub type SplitGeometryTexture = GpuDataTexture<SplitGeometryTextureLayout>;

/// A record of `N` float channels, each held as its bit pattern.
#[derive(Copy, Clone, PartialEq, Eq, Debug)]
pub struct GpuBlock<const N: usize> {
    pub data: [u32; N],
}

impl<const N: usize> GpuRecord for GpuBlock<N> {
    open spec fn spec_blank() -> Self {
        GpuBlock { data: vstd::array::spec_array_fill_for_copy_type::<u32, N>(0u32) }
    }

    fn blank() -> (r: Self) {
        GpuBlock { data: [0u32; N] }
    }
}

/// A record of generic data of one texel.
pub type GpuBlock16 = GpuBlock<4>;

/// A record of generic data of two texels.
pub type GpuBlock32 = GpuBlock<8>;

/// A record of generic data of four texels.
pub type GpuBlock64 = GpuBlock<16>;

/// A record of generic data of eight texels.
pub type GpuBlock128 = GpuBlock<32>;

/// The transform of a layer, its inverse and its clip rectangle.
pub type PackedLayer = GpuBlock<36>;

/// Where a render task draws, and with what parameters.
pub type RenderTaskData = GpuBlock<12>;

/// The rectangle of a primitive and the rectangle that clips it.
pub type PrimitiveGeometry = GpuBlock<8>;

/// The corners of a polygon that a plane split produced.
pub type SplitGeometry = GpuBlock<12>;

/// The part of a texture that a primitive samples, in texels.
#[derive(Copy, Clone, PartialEq, Eq, Debug)]
pub struct TexelRect {
    pub uv0: DevicePoint,
    pub uv1: DevicePoint,
}

impl GpuRecord for TexelRect {
    open spec fn spec_blank() -> Self {
        TexelRect { uv0: DevicePoint { x: 0, y: 0 }, uv1: DevicePoint { x: 0, y: 0 } }
    }

    fn blank() -> (r: Self) {
        TexelRect { uv0: DevicePoint { x: 0, y: 0 }, uv1: DevicePoint { x: 0, y: 0 } }
    }
}

/// The colour table of one gradient, in 8-bit channels.
#[derive(Copy, Clone, PartialEq, Eq, Debug)]
pub struct GradientData {
    pub data: [u8; 2080],
}

impl GpuRecord for GradientData {
    open spec fn spec_blank() -> Self {
        GradientData { data: vstd::array::spec_array_fill_for_copy_type::<u8, 2080>(0u8) }
    }

    fn blank() -> (r: Self) {
        GradientData { data: [0u8; 2080] }
    }
}

/// An array as it stands after its upload was prepared: an empty one as it
/// was, another with its last row completed.
pub open spec fn prepared<T: GpuRecord, L: GpuStoreLayout>(records: Seq<T>, size: nat) -> Seq<T> {
    if records.len() == 0 {
        records
    } else {
        padded(records, spec_items_per_row::<L>(size))
    }
}

/// Whether `after` is `before` with every GPU data array prepared for its
/// upload, and nothing else changed.
pub open spec fn is_prepared_from(after: Frame, before: Frame) -> bool {
    &&& after.window_size == before.window_size
    &&& after.background_color == before.background_color
    &&& after.cache_size == before.cache_size
    &&& after.passes == before.passes
    &&& after.deferred_resolves == before.deferred_resolves
    &&& after.gpu_data16@ == prepared::<_, VertexDataTextureLayout>(before.gpu_data16@, 4)
    &&& after.gpu_data32@ == prepared::<_, VertexDataTextureLayout>(before.gpu_data32@, 8)
    &&& after.gpu_data64@ == prepared::<_, VertexDataTextureLayout>(before.gpu_data64@, 16)
    &&& after.gpu_data128@ == prepared::<_, VertexDataTextureLayout>(before.gpu_data128@, 32)
    &&& after.gpu_geometry@ == prepared::<_, VertexDataTextureLayout>(before.gpu_geometry@, 8)
    &&& after.gpu_resource_rects@ == prepared::<_, VertexDataTextureLayout>(
        before.gpu_resource_rects@,
        4,
    )
    &&& after.layer_texture_data@ == prepared::<_, VertexDataTextureLayout>(
        before.layer_texture_data@,
        36,
    )
    &&& after.render_task_data@ == prepared::<_, VertexDataTextureLayout>(
        before.render_task_data@,
        12,
    )
    &&& after.gpu_split_geometry@ == prepared::<_, SplitGeometryTextureLayout>(
        before.gpu_split_geometry@,
        12,
    )
    &&& after.gpu_gradient_data@ == prepared::<_, GradientDataTextureLayout>(
        before.gpu_gradient_data@,
        2080,
    )
}

/// The uploads of a prepared frame: one for each array that is not empty,
/// in a fixed order.
pub open spec fn frame_uploads(frame: Frame) -> Seq<Command> {
    upload_command::<VertexDataTextureLayout>(TextureSampler::Data16, frame.gpu_data16@.len(), 4)
        + upload_command::<VertexDataTextureLayout>(
        TextureSampler::Data32,
        frame.gpu_data32@.len(),
        8,
    ) + upload_command::<VertexDataTextureLayout>(
        TextureSampler::Data64,
        frame.gpu_data64@.len(),
        16,
    ) + upload_command::<VertexDataTextureLayout>(
        TextureSampler::Data128,
        frame.gpu_data128@.len(),
        32,
    ) + upload_command::<VertexDataTextureLayout>(
        TextureSampler::Geometry,
        frame.gpu_geometry@.len(),
        8,
    ) + upload_command::<VertexDataTextureLayout>(
        TextureSampler::ResourceRects,
        frame.gpu_resource_rects@.len(),
        4,
    ) + upload_command::<VertexDataTextureLayout>(
        TextureSampler::Layers,
        frame.layer_texture_data@.len(),
        36,
    ) + upload_command::<VertexDataTextureLayout>(
        TextureSampler::RenderTasks,
        frame.render_task_data@.len(),
        12,
    ) + upload_command::<SplitGeometryTextureLayout>(
        TextureSampler::SplitGeometry,
        frame.gpu_split_geometry@.len(),
        12,
    ) + upload_command::<GradientDataTextureLayout>(
        TextureSampler::Gradients,
        frame.gpu_gradient_data@.len(),
        2080,
    )
}

/// The pseudo-textures of all the categories of GPU data.
pub struct GpuDataTextures {
    layer_texture: VertexDataTexture,
    render_task_texture: VertexDataTexture,
    prim_geom_texture: VertexDataTexture,
    data16_texture: VertexDataTexture,
    data32_texture: VertexDataTexture,
    data64_texture: VertexDataTexture,
    data128_texture: VertexDataTexture,
    resource_rects_texture: VertexDataTexture,
    gradient_data_texture: GradientDataTexture,
    split_geometry_texture: SplitGeometryTexture,
}

impl GpuDataTextures {
    pub fn new() -> GpuDataTextures {
        GpuDataTextures {
            layer_texture: VertexDataTexture::new(),
            render_task_texture: VertexDataTexture::new(),
            prim_geom_texture: VertexDataTexture::new(),
            data16_texture: VertexDataTexture::new(),
            data32_texture: VertexDataTexture::new(),
            data64_texture: VertexDataTexture::new(),
            data128_texture: VertexDataTexture::new(),
            resource_rects_texture: VertexDataTexture::new(),
            gradient_data_texture: GradientDataTexture::new(),
            split_geometry_texture: SplitGeometryTexture::new(),
        }
    }

    /// Prepares every GPU data array of the frame for its upload and
    /// appends the uploads to `out`. This is done for every frame anew.
    pub fn init_frame(&self, out: &mut Vec<Command>, frame: &mut Frame)
        ensures
            is_prepared_from(*final(frame), *old(frame)),
            final(out)@ == old(out)@ + frame_uploads(*final(frame)),
    {
        let ghost mut uploads: Seq<Command> = Seq::empty();
        self.data16_texture.init(
            out,
            TextureSampler::Data16,
            &mut frame.gpu_data16,
            VECS_PER_DATA_16 * RGBA_STRIDE,
        );
        proof {
            let upload = upload_command::<VertexDataTextureLayout>(
                TextureSampler::Data16,
                frame.gpu_data16@.len(),
                4,
            );
            uploads = upload;
        }
        self.data32_texture.init(
            out,
            TextureSampler::Data32,
            &mut frame.gpu_data32,
            VECS_PER_DATA_32 * RGBA_STRIDE,
        );
        proof {
            let upload = upload_command::<VertexDataTextureLayout>(
                TextureSampler::Data32,
                frame.gpu_data32@.len(),
                8,
            );
            lemma_append_assoc(old(out)@, uploads, upload);
            uploads = uploads + upload;
        }
        self.data64_texture.init(
            out,
            TextureSampler::Data64,
            &mut frame.gpu_data64,
            VECS_PER_DATA_64 * RGBA_STRIDE,
        );
        proof {
            let upload = upload_command::<VertexDataTextureLayout>(
                TextureSampler::Data64,
                frame.gpu_data64@.len(),
                16,
            );
            lemma_append_assoc(old(out)@, uploads, upload);
            uploads = uploads + upload;
        }
        self.data128_texture.init(
            out,
            TextureSampler::Data128,
            &mut frame.gpu_data128,
            VECS_PER_DATA_128 * RGBA_STRIDE,
        );
        proof {
            let upload = upload_command::<VertexDataTextureLayout>(
                TextureSampler::Data128,
                frame.gpu_data128@.len(),
                32,
            );
            lemma_append_assoc(old(out)@, uploads, upload);
            uploads = uploads + upload;
        }
        self.prim_geom_texture.init(
            out,
            TextureSampler::Geometry,
            &mut frame.gpu_geometry,
            VECS_PER_PRIM_GEOM * RGBA_STRIDE,
        );
        proof {
            let upload = upload_command::<VertexDataTextureLayout>(
                TextureSampler::Geometry,
                frame.gpu_geometry@.len(),
                8,
            );
            lemma_append_assoc(old(out)@, uploads, upload);
            uploads = uploads + upload;
        }
        self.resource_rects_texture.init(
            out,
            TextureSampler::ResourceRects,
            &mut frame.gpu_resource_rects,
            VECS_PER_RESOURCE_RECTS * RGBA_STRIDE,
        );
        proof {
            let upload = upload_command::<VertexDataTextureLayout>(
                TextureSampler::ResourceRects,
                frame.gpu_resource_rects@.len(),
                4,
            );
            lemma_append_assoc(old(out)@, uploads, upload);
            uploads = uploads + upload;
        }
        self.layer_texture.init(
            out,
            TextureSampler::Layers,
            &mut frame.layer_texture_data,
            VECS_PER_LAYER * RGBA_STRIDE,
        );
        proof {
            let upload = upload_command::<VertexDataTextureLayout>(
                TextureSampler::Layers,
                frame.layer_texture_data@.len(),
                36,
            );
            lemma_append_assoc(old(out)@, uploads, upload);
            uploads = uploads + upload;
        }
        self.render_task_texture.init(
            out,
            TextureSampler::RenderTasks,
            &mut frame.render_task_data,
            VECS_PER_RENDER_TASK * RGBA_STRIDE,
        );
        proof {
            let upload = upload_command::<VertexDataTextureLayout>(
                TextureSampler::RenderTasks,
                frame.render_task_data@.len(),
                12,
            );
            lemma_append_assoc(old(out)@, uploads, upload);
            uploads = uploads + upload;
        }
        self.split_geometry_texture.init(
            out,
            TextureSampler::SplitGeometry,
            &mut frame.gpu_split_geometry,
            VECS_PER_SPLIT_GEOM * RGBA_STRIDE,
        );
        proof {
            let upload = upload_command::<SplitGeometryTextureLayout>(
                TextureSampler::SplitGeometry,
                frame.gpu_split_geometry@.len(),
                12,
            );
            lemma_append_assoc(old(out)@, uploads, upload);
            uploads = uploads + upload;
        }
        self.gradient_data_texture.init(
            out,
            TextureSampler::Gradients,
            &mut frame.gpu_gradient_data,
            VECS_PER_GRADIENT_DATA * RGBA_STRIDE,
        );
        proof {
            let upload = upload_command::<GradientDataTextureLayout>(
                TextureSampler::Gradients,
                frame.gpu_gradient_data@.len(),
                2080,
            );
            lemma_append_assoc(old(out)@, uploads, upload);
            uploads = uploads + upload;
        }
    }
}

/// Appending in two steps is appending the two runs together.
pub proof fn lemma_append_assoc(a: Seq<Command>, b: Seq<Command>, c: Seq<Command>)
    ensures
        (a + b) + c == a + (b + c),
{
    assert((a + b) + c =~= a + (b + c));
}

} // verus!
