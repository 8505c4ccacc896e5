//! The frame as the scene builder delivers it: passes, their targets, the
//! batches of each target, the GPU data arrays, and the external images that
//! are resolved only when the frame is drawn.

use vstd::prelude::*;
use crate::gpu_store::{
    GpuBlock128, GpuBlock16, GpuBlock32, GpuBlock64, GradientData, PackedLayer,
    PrimitiveGeometry, RenderTaskData, SplitGeometry, TexelRect,
};
use crate::shader::{BlendMode, ImageBufferKind, PrimitiveKind};
use crate::types::{
    ColorF, DeviceUintSize, ExternalImageData, RenderTargetKind, SourceTexture,
    TransformedRectKind, YuvColorSpace, YuvFormat,
};

verus! {

/// What a batch draws.
#[derive(Copy, Clone, PartialEq, Eq, Hash, Debug)]
pub enum AlphaBatchKind {
    Composite,
    HardwareComposite,
    SplitComposite,
    Blend,
    Rectangle,
    TextRun,
    Image(ImageBufferKind),
    YuvImage(ImageBufferKind, YuvFormat, YuvColorSpace),
    BorderCorner,
    BorderEdge,
    AlignedGradient,
    AngleGradient,
    RadialGradient,
    BoxShadow,
    CacheImage,
}

impl AlphaBatchKind {
    pub open spec fn spec_primitive(&self) -> PrimitiveKind {
        match *self {
            AlphaBatchKind::Composite => PrimitiveKind::Composite,
            AlphaBatchKind::HardwareComposite => PrimitiveKind::HardwareComposite,
            AlphaBatchKind::SplitComposite => PrimitiveKind::SplitComposite,
            AlphaBatchKind::Blend => PrimitiveKind::Blend,
            AlphaBatchKind::Rectangle => PrimitiveKind::Rectangle,
            AlphaBatchKind::TextRun => PrimitiveKind::TextRun,
            AlphaBatchKind::Image(_) => PrimitiveKind::Image,
            AlphaBatchKind::YuvImage(_, _, _) => PrimitiveKind::YuvImage,
            AlphaBatchKind::BorderCorner => PrimitiveKind::BorderCorner,
            AlphaBatchKind::BorderEdge => PrimitiveKind::BorderEdge,
            AlphaBatchKind::AlignedGradient => PrimitiveKind::AlignedGradient,
            AlphaBatchKind::AngleGradient => PrimitiveKind::AngleGradient,
            AlphaBatchKind::RadialGradient => PrimitiveKind::RadialGradient,
            AlphaBatchKind::BoxShadow => PrimitiveKind::BoxShadow,
            AlphaBatchKind::CacheImage => PrimitiveKind::CacheImage,
        }
    }

    /// The primitive whose program draws batches of this kind.
    #[verifier::when_used_as_spec(spec_primitive)]
    pub fn primitive(&self) -> (kind: PrimitiveKind)
        ensures
            kind == self.spec_primitive(),
    {
        match *self {
            AlphaBatchKind::Composite => PrimitiveKind::Composite,
            AlphaBatchKind::HardwareComposite => PrimitiveKind::HardwareComposite,
            AlphaBatchKind::SplitComposite => PrimitiveKind::SplitComposite,
            AlphaBatchKind::Blend => PrimitiveKind::Blend,
            AlphaBatchKind::Rectangle => PrimitiveKind::Rectangle,
            AlphaBatchKind::TextRun => PrimitiveKind::TextRun,
            AlphaBatchKind::Image(_) => PrimitiveKind::Image,
            AlphaBatchKind::YuvImage(_, _, _) => PrimitiveKind::YuvImage,
            AlphaBatchKind::BorderCorner => PrimitiveKind::BorderCorner,
            AlphaBatchKind::BorderEdge => PrimitiveKind::BorderEdge,
            AlphaBatchKind::AlignedGradient => PrimitiveKind::AlignedGradient,
            AlphaBatchKind::AngleGradient => PrimitiveKind::AngleGradient,
            AlphaBatchKind::RadialGradient => PrimitiveKind::RadialGradient,
            AlphaBatchKind::BoxShadow => PrimitiveKind::BoxShadow,
            AlphaBatchKind::CacheImage => PrimitiveKind::CacheImage,
        }
    }

    pub open spec fn spec_yuv_format(&self) -> YuvFormat {
        match *self {
            AlphaBatchKind::YuvImage(_, format, _) => format,
            _ => YuvFormat::NV12,
        }
    }

    /// The sample format of a YUV image; the first format for anything else.
    #[verifier::when_used_as_spec(spec_yuv_format)]
    pub fn yuv_format(&self) -> (format: YuvFormat)
        ensures
            format == self.spec_yuv_format(),
    {
        match *self {
            AlphaBatchKind::YuvImage(_, format, _) => format,
            _ => YuvFormat::NV12,
        }
    }

    pub open spec fn spec_yuv_color_space(&self) -> YuvColorSpace {
        match *self {
            AlphaBatchKind::YuvImage(_, _, color_space) => color_space,
            _ => YuvColorSpace::Rec601,
        }
    }

    /// The colour space of a YUV image; the first one for anything else.
    #[verifier::when_used_as_spec(spec_yuv_color_space)]
    pub fn yuv_color_space(&self) -> (color_space: YuvColorSpace)
        ensures
            color_space == self.spec_yuv_color_space(),
    {
        match *self {
            AlphaBatchKind::YuvImage(_, _, color_space) => color_space,
            _ => YuvColorSpace::Rec601,
        }
    }
}

/// The flag of a batch whose primitives are clipped by a mask.
pub const NEEDS_CLIPPING: u8 = 1;

/// The flag of a batch whose primitives stay axis-aligned.
pub const AXIS_ALIGNED: u8 = 2;

/// The flags of a batch, as bits.
#[derive(Copy, Clone, PartialEq, Eq, Hash, Debug, Structural)]
pub struct AlphaBatchKeyFlags(pub u8);

impl AlphaBatchKeyFlags {
    pub open spec fn spec_transform_kind(&self) -> TransformedRectKind {
        if self.0 & AXIS_ALIGNED != 0 {
            TransformedRectKind::AxisAligned
        } else {
            TransformedRectKind::Complex
        }
    }

    #[verifier::when_used_as_spec(spec_transform_kind)]
    pub fn transform_kind(&self) -> (kind: TransformedRectKind)
        ensures
            kind == self.spec_transform_kind(),
    {
        if self.0 & AXIS_ALIGNED != 0 {
            TransformedRectKind::AxisAligned
        } else {
            TransformedRectKind::Complex
        }
    }

    pub open spec fn spec_needs_clipping(&self) -> bool {
        self.0 & NEEDS_CLIPPING != 0
    }

    #[verifier::when_used_as_spec(spec_needs_clipping)]
    pub fn needs_clipping(&self) -> (r: bool)
        ensures
            r == self.spec_needs_clipping(),
    {
        self.0 & NEEDS_CLIPPING != 0
    }

    /// The flags of a batch with the given transform and clipping.
    pub fn new(transform_kind: TransformedRectKind, needs_clipping: bool) -> (flags:
        AlphaBatchKeyFlags)
        ensures
            flags.spec_transform_kind() == transform_kind,
            flags.spec_needs_clipping() == needs_clipping,
    {
        assert(0u8 & 1u8 == 0 && 0u8 & 2u8 == 0 && 1u8 & 1u8 != 0 && 1u8 & 2u8 == 0 && 2u8 & 1u8
            == 0 && 2u8 & 2u8 != 0 && 3u8 & 1u8 != 0 && 3u8 & 2u8 != 0) by (bit_vector);
        match transform_kind {
            TransformedRectKind::AxisAligned => {
                if needs_clipping {
                    AlphaBatchKeyFlags(3)
                } else {
                    AlphaBatchKeyFlags(2)
                }
            },
            TransformedRectKind::Complex => {
                if needs_clipping {
                    AlphaBatchKeyFlags(1)
                } else {
                    AlphaBatchKeyFlags(0)
                }
            },
        }
    }
}

/// The textures that the primitives of a batch sample.
#[derive(Copy, Clone, PartialEq, Eq, Debug)]
pub struct BatchTextures {
    pub colors: [SourceTexture; 3],
}

impl BatchTextures {
    pub fn no_texture() -> (textures: BatchTextures)
        ensures
            forall|i: int| 0 <= i < 3 ==> textures.colors[i] == SourceTexture::Invalid,
    {
        BatchTextures {
            colors: [SourceTexture::Invalid, SourceTexture::Invalid, SourceTexture::Invalid],
        }
    }
}

/// What the instances of one batch have in common.
#[derive(Copy, Clone, PartialEq, Eq, Debug)]
pub struct AlphaBatchKey {
    pub kind: AlphaBatchKind,
    pub flags: AlphaBatchKeyFlags,
    pub blend_mode: BlendMode,
    pub textures: BatchTextures,
}

/// One drawn instance: indices into the GPU data arrays.
#[derive(Copy, Clone, PartialEq, Eq, Debug)]
pub struct PrimitiveInstance {
    pub global_prim_id: i32,
    pub prim_address: i32,
    pub task_index: i32,
    pub clip_task_index: i32,
    pub layer_index: i32,
    pub sub_index: i32,
    pub z_sort_index: i32,
    pub user_data: [i32; 2],
}

/// A run of instances that one draw call submits.
#[derive(Clone, PartialEq, Eq, Debug)]
pub struct PrimitiveBatch {
    pub key: AlphaBatchKey,
    pub instances: Vec<PrimitiveInstance>,
}

/// The batches of a target; the opaque ones are drawn first.
#[derive(Clone, PartialEq, Eq, Debug)]
pub struct BatchList {
    pub opaque_batches: Vec<PrimitiveBatch>,
    pub alpha_batches: Vec<PrimitiveBatch>,
}

/// The batches that the scene builder made of the primitives of a target.
#[derive(Clone, PartialEq, Eq, Debug)]
pub struct AlphaBatcher {
    pub batch_list: BatchList,
}

/// One layer of a pass's colour surface.
#[derive(Clone, PartialEq, Eq, Debug)]
pub struct ColorRenderTarget {
    pub alpha_batcher: AlphaBatcher,
}

/// One layer of a pass's alpha surface.
#[derive(Clone, PartialEq, Eq, Debug)]
pub struct AlphaRenderTarget {
}

/// The layers of one kind that a pass draws into.
#[derive(Clone, PartialEq, Eq, Debug)]
pub struct RenderTargetList<T> {
    pub targets: Vec<T>,
}

impl<T> RenderTargetList<T> {
    pub fn target_count(&self) -> (n: usize)
        ensures
            n == self.targets@.len(),
    {
        self.targets.len()
    }
}

/// One phase of rendering: the final image, or an intermediate surface that
/// later passes sample.
#[derive(Clone, PartialEq, Eq, Debug)]
pub struct RenderPass {
    pub is_framebuffer: bool,
    pub color_targets: RenderTargetList<ColorRenderTarget>,
    pub alpha_targets: RenderTargetList<AlphaRenderTarget>,
}

impl RenderPass {
    pub open spec fn spec_required_target_count(&self, kind: RenderTargetKind) -> nat {
        match kind {
            RenderTargetKind::Color => self.color_targets.targets@.len(),
            RenderTargetKind::Alpha => self.alpha_targets.targets@.len(),
        }
    }

    /// The number of layers of the given kind that this pass draws into.
    pub fn required_target_count(&self, kind: RenderTargetKind) -> (n: usize)
        ensures
            n == self.spec_required_target_count(kind),
    {
        match kind {
            RenderTargetKind::Color => self.color_targets.target_count(),
            RenderTargetKind::Alpha => self.alpha_targets.target_count(),
        }
    }

    /// The framebuffer pass draws to the presentation surface and never
    /// needs a pooled target; another pass needs one of a kind where it has
    /// layers of that kind.
    pub open spec fn spec_needs_render_target_kind(&self, kind: RenderTargetKind) -> bool {
        !self.is_framebuffer && self.spec_required_target_count(kind) > 0
    }

    #[verifier::when_used_as_spec(spec_needs_render_target_kind)]
    pub fn needs_render_target_kind(&self, kind: RenderTargetKind) -> (r: bool)
        ensures
            r == self.spec_needs_render_target_kind(kind),
            self.is_framebuffer ==> !r,
    {
        if self.is_framebuffer {
            false
        } else {
            self.required_target_count(kind) > 0
        }
    }
}

/// The place of a record in a GPU data array.
#[derive(Copy, Clone, PartialEq, Eq, Hash, Debug, Structural)]
pub struct GpuStoreAddress(pub i32);

/// What the scene builder knows of an image.
#[derive(Copy, Clone, PartialEq, Eq, Debug)]
pub struct ImageProperties {
    pub external_image: Option<ExternalImageData>,
}

/// An external image whose texture and texel rectangle are asked for when
/// the frame is drawn, and the resource rectangle that is then patched.
#[derive(Copy, Clone, PartialEq, Eq, Debug)]
pub struct DeferredResolve {
    pub image_properties: ImageProperties,
    pub resource_address: GpuStoreAddress,
}

/// A built frame.
#[derive(Clone, PartialEq, Eq, Debug)]
pub struct Frame {
    pub window_size: DeviceUintSize,
    pub background_color: Option<ColorF>,
    pub cache_size: DeviceUintSize,
    pub passes: Vec<RenderPass>,
    pub layer_texture_data: Vec<PackedLayer>,
    pub render_task_data: Vec<RenderTaskData>,
    pub gpu_data16: Vec<GpuBlock16>,
    pub gpu_data32: Vec<GpuBlock32>,
    pub gpu_data64: Vec<GpuBlock64>,
    pub gpu_data128: Vec<GpuBlock128>,
    pub gpu_geometry: Vec<PrimitiveGeometry>,
    pub gpu_gradient_data: Vec<GradientData>,
    pub gpu_split_geometry: Vec<SplitGeometry>,
    pub gpu_resource_rects: Vec<TexelRect>,
    pub deferred_resolves: Vec<DeferredResolve>,
}

impl Frame {
    /// A frame of the given sizes with nothing to draw.
    pub fn new(window_size: DeviceUintSize, cache_size: DeviceUintSize) -> (frame: Frame)
        ensures
            frame.window_size == window_size,
            frame.cache_size == cache_size,
            frame.background_color is None,
            frame.passes@.len() == 0,
            frame.layer_texture_data@.len() == 0,
            frame.render_task_data@.len() == 0,
            frame.gpu_data16@.len() == 0,
            frame.gpu_data32@.len() == 0,
            frame.gpu_data64@.len() == 0,
            frame.gpu_data128@.len() == 0,
            frame.gpu_geometry@.len() == 0,
            frame.gpu_gradient_data@.len() == 0,
            frame.gpu_split_geometry@.len() == 0,
            frame.gpu_resource_rects@.len() == 0,
            frame.deferred_resolves@.len() == 0,
    {
        Frame {
            window_size,
            background_color: None,
            cache_size,
            passes: Vec::new(),
            layer_texture_data: Vec::new(),
            render_task_data: Vec::new(),
            gpu_data16: Vec::new(),
            gpu_data32: Vec::new(),
            gpu_data64: Vec::new(),
            gpu_data128: Vec::new(),
            gpu_geometry: Vec::new(),
            gpu_gradient_data: Vec::new(),
            gpu_split_geometry: Vec::new(),
            gpu_resource_rects: Vec::new(),
            deferred_resolves: Vec::new(),
        }
    }
}

} // verus!
