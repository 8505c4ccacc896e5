//! Plain values shared by every component: identifiers, formats, sizes and
//! colours. Floating-point channels are carried as their IEEE-754 bit
//! patterns, so that every value here is an integer and can be compared.

use vstd::prelude::*;

verus! {

/// How a native texture is bound.
#[derive(Copy, Clone, PartialEq, Eq, Hash, Debug, Structural)]
pub enum TextureTarget {
    Default,
    Array,
    Rect,
    External,
}

/// A native texture handle: the device's name for it and how it is bound.
#[derive(Copy, Clone, PartialEq, Eq, Hash, Debug, Structural)]
pub struct TextureId {
    pub name: u32,
    pub target: TextureTarget,
}

impl TextureId {
    pub fn new(name: u32, target: TextureTarget) -> (id: TextureId)
        ensures
            id == (TextureId { name, target }),
    {
        TextureId { name, target }
    }

    /// The handle that stands for "no texture".
    pub open spec fn spec_invalid() -> TextureId {
        TextureId { name: 0, target: TextureTarget::Default }
    }

    #[verifier::when_used_as_spec(spec_invalid)]
    pub fn invalid() -> (id: TextureId)
        ensures
            id == Self::spec_invalid(),
    {
        TextureId { name: 0, target: TextureTarget::Default }
    }

    pub fn is_valid(&self) -> (r: bool)
        ensures
            r == (*self != Self::spec_invalid()),
    {
        !(self.name == 0 && self.target == TextureTarget::Default)
    }
}

/// How a texture is sampled between its texels.
#[derive(Copy, Clone, PartialEq, Eq, Hash, Debug, Structural)]
pub enum TextureFilter {
    Nearest,
    Linear,
}

/// The channels of a texel, and their width.
#[derive(Copy, Clone, PartialEq, Eq, Hash, Debug, Structural)]
pub enum ImageFormat {
    Invalid,
    A8,
    RGB8,
    RG8,
    RGBA8,
    RGBAF32,
}

/// Whether a texture is also a draw destination, and with how many layers.
#[derive(Copy, Clone, PartialEq, Eq, Hash, Debug, Structural)]
pub enum RenderTargetMode {
    NoTarget,
    SimpleRenderTarget,
    LayerRenderTarget(i32),
}

/// The two kinds of surface that a pass draws into.
#[derive(Copy, Clone, PartialEq, Eq, Hash, Debug, Structural)]
pub enum RenderTargetKind {
    Color,
    Alpha,
}

impl RenderTargetKind {
    /// The format of the targets of this kind: four channels for colour,
    /// one for alpha.
    pub open spec fn spec_image_format(self) -> ImageFormat {
        match self {
            RenderTargetKind::Color => ImageFormat::RGBA8,
            RenderTargetKind::Alpha => ImageFormat::A8,
        }
    }

    #[verifier::when_used_as_spec(spec_image_format)]
    pub fn image_format(self) -> (format: ImageFormat)
        ensures
            format == self.spec_image_format(),
    {
        match self {
            RenderTargetKind::Color => ImageFormat::RGBA8,
            RenderTargetKind::Alpha => ImageFormat::A8,
        }
    }

    /// How the targets of this kind are sampled by later passes.
    pub open spec fn spec_texture_filter(self) -> TextureFilter {
        match self {
            RenderTargetKind::Color => TextureFilter::Linear,
            RenderTargetKind::Alpha => TextureFilter::Nearest,
        }
    }

    #[verifier::when_used_as_spec(spec_texture_filter)]
    pub fn texture_filter(self) -> (filter: TextureFilter)
        ensures
            filter == self.spec_texture_filter(),
    {
        match self {
            RenderTargetKind::Color => TextureFilter::Linear,
            RenderTargetKind::Alpha => TextureFilter::Nearest,
        }
    }
}

/// The named sampler slots a texture can be bound to.
#[derive(Copy, Clone, PartialEq, Eq, Hash, Debug, Structural)]
pub enum TextureSampler {
    Color0,
    Color1,
    Color2,
    CacheA8,
    CacheRGBA8,
    Data16,
    Data32,
    Data64,
    Data128,
    Layers,
    RenderTasks,
    Geometry,
    ResourceRects,
    Gradients,
    SplitGeometry,
    Dither,
}

impl TextureSampler {
    /// The colour sampler of a batch's `n`-th source texture; a batch has
    /// three, and the last sampler stands for every `n` from 2 on.
    pub open spec fn spec_color(n: int) -> TextureSampler {
        if n == 0 {
            TextureSampler::Color0
        } else if n == 1 {
            TextureSampler::Color1
        } else {
            TextureSampler::Color2
        }
    }

    pub fn color(n: usize) -> (s: TextureSampler)
        ensures
            s == Self::spec_color(n as int),
    {
        if n == 0 {
            TextureSampler::Color0
        } else if n == 1 {
            TextureSampler::Color1
        } else {
            TextureSampler::Color2
        }
    }
}

/// The bit pattern of `1.0f32`.
pub const ONE_BITS: u32 = 0x3f80_0000;

/// An RGBA colour; each channel is the bit pattern of an `f32`.
#[derive(Copy, Clone, PartialEq, Eq, Hash, Debug, Structural)]
pub struct ColorF {
    pub r: u32,
    pub g: u32,
    pub b: u32,
    pub a: u32,
}

impl ColorF {
    pub fn new(r: u32, g: u32, b: u32, a: u32) -> (c: ColorF)
        ensures
            c == (ColorF { r, g, b, a }),
    {
        ColorF { r, g, b, a }
    }

    /// All four channels `0.0`: what an intermediate target is cleared to.
    pub open spec fn spec_transparent() -> ColorF {
        ColorF { r: 0, g: 0, b: 0, a: 0 }
    }

    #[verifier::when_used_as_spec(spec_transparent)]
    pub fn transparent() -> (c: ColorF)
        ensures
            c == Self::spec_transparent(),
    {
        ColorF { r: 0, g: 0, b: 0, a: 0 }
    }

    /// Opaque white, the clear colour of a renderer that was given none.
    pub open spec fn spec_white() -> ColorF {
        ColorF { r: ONE_BITS, g: ONE_BITS, b: ONE_BITS, a: ONE_BITS }
    }

    #[verifier::when_used_as_spec(spec_white)]
    pub fn white() -> (c: ColorF)
        ensures
            c == Self::spec_white(),
    {
        ColorF { r: ONE_BITS, g: ONE_BITS, b: ONE_BITS, a: ONE_BITS }
    }

    pub fn to_array(&self) -> (a: [u32; 4])
        ensures
            a@ == seq![self.r, self.g, self.b, self.a],
    {
        [self.r, self.g, self.b, self.a]
    }
}

/// A size in device pixels.
#[derive(Copy, Clone, PartialEq, Eq, Hash, Debug, Structural)]
pub struct DeviceUintSize {
    pub width: u32,
    pub height: u32,
}

impl DeviceUintSize {
    pub fn new(width: u32, height: u32) -> (s: DeviceUintSize)
        ensures
            s == (DeviceUintSize { width, height }),
    {
        DeviceUintSize { width, height }
    }
}

/// A point in device pixels, unsigned.
#[derive(Copy, Clone, PartialEq, Eq, Hash, Debug, Structural)]
pub struct DeviceUintPoint {
    pub x: u32,
    pub y: u32,
}

/// A rectangle in device pixels, unsigned.
#[derive(Copy, Clone, PartialEq, Eq, Hash, Debug, Structural)]
pub struct DeviceUintRect {
    pub origin: DeviceUintPoint,
    pub size: DeviceUintSize,
}

/// A point in fractional device pixels; each coordinate is the bit pattern
/// of an `f32`.
#[derive(Copy, Clone, PartialEq, Eq, Hash, Debug, Structural)]
pub struct DevicePoint {
    pub x: u32,
    pub y: u32,
}

impl DevicePoint {
    pub fn new(x: u32, y: u32) -> (p: DevicePoint)
        ensures
            p == (DevicePoint { x, y }),
    {
        DevicePoint { x, y }
    }
}

/// The generation of a pipeline's display list.
#[derive(Copy, Clone, PartialEq, Eq, Hash, Debug, Structural)]
pub struct Epoch(pub u32);

/// The name of a pipeline: a namespace and a number within it.
#[derive(Copy, Clone, PartialEq, Eq, Hash, Debug, Structural)]
pub struct PipelineId(pub u32, pub u32);

/// The application's name for an image that it supplies itself.
#[derive(Copy, Clone, PartialEq, Eq, Hash, Debug, Structural)]
pub struct ExternalImageId(pub u64);

/// What the application hands over for an external image.
#[derive(Copy, Clone, PartialEq, Eq, Hash, Debug, Structural)]
pub enum ExternalImageType {
    Texture2DHandle,
    TextureRectHandle,
    TextureExternalHandle,
    ExternalBuffer,
}

/// A reference to one channel of an external image.
#[derive(Copy, Clone, PartialEq, Eq, Hash, Debug, Structural)]
pub struct ExternalImageData {
    pub id: ExternalImageId,
    pub channel_index: u8,
    pub image_type: ExternalImageType,
}

/// The slot of a texture in the texture cache.
#[derive(Copy, Clone, PartialEq, Eq, Hash, Debug, Structural)]
pub struct CacheTextureId(pub usize);

/// Where the pixels that a batch samples come from.
#[derive(Copy, Clone, PartialEq, Eq, Hash, Debug, Structural)]
pub enum SourceTexture {
    Invalid,
    TextureCache(CacheTextureId),
    WebGL(u32),
    External(ExternalImageData),
}

/// How the planes of a YUV image are laid out.
#[derive(Copy, Clone, PartialEq, Eq, Hash, Debug, Structural)]
pub enum YuvFormat {
    NV12,
    PlanarYCbCr,
    InterleavedYCbCr,
}

/// The colour space of a YUV image.
#[derive(Copy, Clone, PartialEq, Eq, Hash, Debug, Structural)]
pub enum YuvColorSpace {
    Rec601,
    Rec709,
}

/// How glyphs are rasterised when a display item does not say.
#[derive(Copy, Clone, PartialEq, Eq, Hash, Debug, Structural)]
pub enum FontRenderMode {
    Mono,
    Alpha,
    Subpixel,
}

/// Whether a primitive's rectangle stays axis-aligned under its transform.
#[derive(Copy, Clone, PartialEq, Eq, Hash, Debug, Structural)]
pub enum TransformedRectKind {
    AxisAligned,
    Complex,
}

/// Which GL context flavour the renderer shares with the backend.
#[derive(Copy, Clone, PartialEq, Eq, Hash, Debug, Structural)]
pub enum RendererKind {
    Native,
    OSMesa,
}

/// Everything that stops a render. None of these is recovered from: the
/// caller is expected to abort, and no device command is handed out.
#[derive(Copy, Clone, PartialEq, Eq, Hash, Debug, Structural)]
pub enum RenderError {
    /// An external image was met and no handler is installed.
    NoExternalImageHandler,
    /// A texture-cache operation names a slot beyond the table.
    UnknownCacheTexture,
    /// A create operation carries an external texture handle, not a buffer.
    ExternalHandleInCreate,
    /// A create operation carries image data that is no pixel buffer.
    NoSuitableImageBuffer,
    /// An update starts reading beyond the end of its data.
    DataOffsetOutOfRange,
    /// A locked external image gave a native texture where bytes were needed.
    NoExternalBuffer,
    /// A locked external image gave bytes where a native texture was needed.
    NoNativeTexture,
    /// A deferred resolve names an image that is not external.
    ResolveNotExternal,
    /// A deferred resolve names an external buffer, which cannot be sampled.
    UnsuitableImageType,
    /// A deferred resolve patches a resource rectangle that does not exist.
    UnknownResourceRect,
    /// A batch samples an external image that no deferred resolve bound.
    UnresolvedExternalImage,
    /// A batch asks for clipping and blends with `BlendMode::NoBlend`.
    ClipWithoutBlend,
    /// The framebuffer pass has alpha targets, which have no texture.
    MissingAlphaTarget,
    /// The textures or locked images handed in are not those asked for.
    SupplyMismatch,
    /// A count does not fit the device's 32-bit signed range.
    CountOutOfRange,
}

impl RenderError {
    /// What went wrong, in words.
    pub open spec fn spec_message(&self) -> Seq<char> {
        match *self {
            RenderError::NoExternalImageHandler => "Found external image, but no handler set!"@,
            RenderError::UnknownCacheTexture => "Texture cache slot is beyond the table."@,
            RenderError::ExternalHandleInCreate => "External texture handle should not use TextureUpdateOp::Create."@,
            RenderError::NoSuitableImageBuffer => "No suitable image buffer for TextureUpdateOp::Create."@,
            RenderError::DataOffsetOutOfRange => "Update starts beyond the end of its data."@,
            RenderError::NoExternalBuffer => "No external buffer found"@,
            RenderError::NoNativeTexture => "No native texture found."@,
            RenderError::ResolveNotExternal => "BUG: Deferred resolves must be external images!"@,
            RenderError::UnsuitableImageType => "ExternalBuffer is not a suitable image type in update_deferred_resolves()."@,
            RenderError::UnknownResourceRect => "Deferred resolve patches a resource rectangle that does not exist."@,
            RenderError::UnresolvedExternalImage => "BUG: External image should be resolved by now!"@,
            RenderError::ClipWithoutBlend => "Batch needs clipping but does not blend."@,
            RenderError::MissingAlphaTarget => "Framebuffer pass has alpha targets but no alpha texture."@,
            RenderError::SupplyMismatch => "What was provided for the render is not what it asked for."@,
            RenderError::CountOutOfRange => "Count does not fit the device's range."@,
        }
    }

    /// The words for this error, for the message with which the caller
    /// stops.
    pub fn message(&self) -> (s: &'static str)
        ensures
            s@ == self.spec_message(),
    {
        match *self {
            RenderError::NoExternalImageHandler => "Found external image, but no handler set!",
            RenderError::UnknownCacheTexture => "Texture cache slot is beyond the table.",
            RenderError::ExternalHandleInCreate => "External texture handle should not use TextureUpdateOp::Create.",
            RenderError::NoSuitableImageBuffer => "No suitable image buffer for TextureUpdateOp::Create.",
            RenderError::DataOffsetOutOfRange => "Update starts beyond the end of its data.",
            RenderError::NoExternalBuffer => "No external buffer found",
            RenderError::NoNativeTexture => "No native texture found.",
            RenderError::ResolveNotExternal => "BUG: Deferred resolves must be external images!",
            RenderError::UnsuitableImageType => "ExternalBuffer is not a suitable image type in update_deferred_resolves().",
            RenderError::UnknownResourceRect => "Deferred resolve patches a resource rectangle that does not exist.",
            RenderError::UnresolvedExternalImage => "BUG: External image should be resolved by now!",
            RenderError::ClipWithoutBlend => "Batch needs clipping but does not blend.",
            RenderError::MissingAlphaTarget => "Framebuffer pass has alpha targets but no alpha texture.",
            RenderError::SupplyMismatch => "What was provided for the render is not what it asked for.",
            RenderError::CountOutOfRange => "Count does not fit the device's range.",
        }
    }
}

} // verus!
