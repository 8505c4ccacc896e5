//! Shader variant registry: which compiled program draws a batch.
//!
//! Programs are compiled once, when the renderer is built, from a fixed list
//! of names. A program is known by its position in that list. Primitives
//! whose shader depends on the transform come as a pair of programs, one for
//! axis-aligned rectangles and one for any other; the registry resolves a
//! variant key to exactly one program.

use vstd::prelude::*;
use vstd::string::StringExecFns;
use gleam::gl::GlType;
use crate::types::{ColorF, TransformedRectKind, YuvColorSpace, YuvFormat};

verus! {

/// `gleam::gl::GlType`, the flavour of GL that a device speaks, made known
/// to the verifier as gleam declares it: an enum of the two variants `Gl`
/// and `Gles`, without fields. Nothing is claimed of it beyond that.
#[verifier::external_type_specification]
pub struct ExGlType(GlType);

/// How a batch is blended into its destination.
#[derive(Copy, Clone, PartialEq, Eq, Debug)]
pub enum BlendMode {
    NoBlend,
    Alpha,
    PremultipliedAlpha,
    /// The colour of the text itself is the constant blend factor.
    Subpixel(ColorF),
}

/// The position of a compiled program in the list that the renderer was
/// built with.
#[derive(Copy, Clone, PartialEq, Eq, Hash, Debug, Structural)]
pub struct ProgramId(pub usize);

/// How the texture behind an image primitive is addressed by the GPU.
#[derive(Copy, Clone, PartialEq, Eq, Hash, Debug, Structural)]
pub enum ImageBufferKind {
    Texture2D,
    TextureRect,
    TextureExternal,
}

/// The kinds of image buffer, in the order of their positions.
pub const IMAGE_BUFFER_KINDS: [ImageBufferKind; 3] = [
    ImageBufferKind::Texture2D,
    ImageBufferKind::TextureRect,
    ImageBufferKind::TextureExternal,
];

/// The YUV sample formats, in the order of their positions.
pub const YUV_FORMATS: [YuvFormat; 3] = [
    YuvFormat::NV12,
    YuvFormat::PlanarYCbCr,
    YuvFormat::InterleavedYCbCr,
];

/// The YUV colour spaces, in the order of their positions.
pub const YUV_COLOR_SPACES: [YuvColorSpace; 2] = [YuvColorSpace::Rec601, YuvColorSpace::Rec709];

impl ImageBufferKind {
    /// The feature name under which shaders for this buffer kind are built.
    pub open spec fn feature_string(self) -> Seq<char> {
        match self {
            ImageBufferKind::Texture2D => ""@,
            ImageBufferKind::TextureRect => "TEXTURE_RECT"@,
            ImageBufferKind::TextureExternal => "TEXTURE_EXTERNAL"@,
        }
    }

    /// The feature name of this buffer kind; empty for plain 2D textures.
    pub fn get_feature_string(&self) -> (s: &'static str)
        ensures
            s@ == self.feature_string(),
    {
        match *self {
            ImageBufferKind::Texture2D => "",
            ImageBufferKind::TextureRect => "TEXTURE_RECT",
            ImageBufferKind::TextureExternal => "TEXTURE_EXTERNAL",
        }
    }

    /// External textures exist on GLES only; the other kinds everywhere.
    pub open spec fn supported_on(self, gl_type: GlType) -> bool {
        gl_type is Gles || self != ImageBufferKind::TextureExternal
    }

    /// Whether textures of this kind can be sampled on the given flavour of
    /// GL.
    pub fn has_platform_support(&self, gl_type: &GlType) -> (r: bool)
        ensures
            r == self.supported_on(*gl_type),
    {
        match *gl_type {
            GlType::Gles => true,
            GlType::Gl => match *self {
                ImageBufferKind::Texture2D => true,
                ImageBufferKind::TextureRect => true,
                ImageBufferKind::TextureExternal => false,
            },
        }
    }

    /// The position of this kind among the buffer kinds.
    pub open spec fn spec_index(self) -> nat {
        match self {
            ImageBufferKind::Texture2D => 0,
            ImageBufferKind::TextureRect => 1,
            ImageBufferKind::TextureExternal => 2,
        }
    }

    pub fn index(self) -> (i: usize)
        ensures
            i == self.spec_index(),
    {
        match self {
            ImageBufferKind::Texture2D => 0,
            ImageBufferKind::TextureRect => 1,
            ImageBufferKind::TextureExternal => 2,
        }
    }
}

/// The position of a sample format among the YUV formats.
pub open spec fn spec_yuv_format_index(format: YuvFormat) -> nat {
    match format {
        YuvFormat::NV12 => 0,
        YuvFormat::PlanarYCbCr => 1,
        YuvFormat::InterleavedYCbCr => 2,
    }
}

pub fn yuv_format_index(format: YuvFormat) -> (i: usize)
    ensures
        i == spec_yuv_format_index(format),
{
    match format {
        YuvFormat::NV12 => 0,
        YuvFormat::PlanarYCbCr => 1,
        YuvFormat::InterleavedYCbCr => 2,
    }
}

/// The position of a colour space among the YUV colour spaces.
pub open spec fn spec_yuv_color_space_index(color_space: YuvColorSpace) -> nat {
    match color_space {
        YuvColorSpace::Rec601 => 0,
        YuvColorSpace::Rec709 => 1,
    }
}

pub fn yuv_color_space_index(color_space: YuvColorSpace) -> (i: usize)
    ensures
        i == spec_yuv_color_space_index(color_space),
{
    match color_space {
        YuvColorSpace::Rec601 => 0,
        YuvColorSpace::Rec709 => 1,
    }
}

/// The row-major position of a YUV variant: buffer kinds outermost, then
/// sample formats, then colour spaces.
pub open spec fn spec_yuv_shader_index(
    buffer_kind: ImageBufferKind,
    format: YuvFormat,
    color_space: YuvColorSpace,
) -> nat {
    (buffer_kind.spec_index() * 3 + spec_yuv_format_index(format)) * 2
        + spec_yuv_color_space_index(color_space)
}

/// The position of the programs of a YUV variant among the YUV programs of
/// all buffer kinds.
pub fn get_yuv_shader_index(
    buffer_kind: ImageBufferKind,
    format: YuvFormat,
    color_space: YuvColorSpace,
) -> (i: usize)
    ensures
        i == spec_yuv_shader_index(buffer_kind, format, color_space),
        i < 18,
{
    (buffer_kind.index() * YUV_FORMATS.len() + yuv_format_index(format)) * YUV_COLOR_SPACES.len()
        + yuv_color_space_index(color_space)
}

/// Different YUV variants have different positions.
pub proof fn lemma_yuv_shader_index_injective(
    b1: ImageBufferKind,
    f1: YuvFormat,
    c1: YuvColorSpace,
    b2: ImageBufferKind,
    f2: YuvFormat,
    c2: YuvColorSpace,
)
    requires
        spec_yuv_shader_index(b1, f1, c1) == spec_yuv_shader_index(b2, f2, c2),
    ensures
        b1 == b2,
        f1 == f2,
        c1 == c2,
{
}

/// The programs of one primitive: for axis-aligned rectangles, and for any
/// other transform.
#[derive(Copy, Clone, PartialEq, Eq, Hash, Debug)]
pub struct ProgramPair(pub (ProgramId, ProgramId));

impl ProgramPair {
    /// The program of the pair for a transform.
    pub open spec fn spec_get(&self, transform_kind: TransformedRectKind) -> ProgramId {
        match transform_kind {
            TransformedRectKind::AxisAligned => (self.0).0,
            TransformedRectKind::Complex => (self.0).1,
        }
    }

    #[verifier::when_used_as_spec(spec_get)]
    pub fn get(&self, transform_kind: TransformedRectKind) -> (program: ProgramId)
        ensures
            program == self.spec_get(transform_kind),
    {
        match transform_kind {
            TransformedRectKind::AxisAligned => (self.0).0,
            TransformedRectKind::Complex => (self.0).1,
        }
    }
}

/// The primitive that a program draws.
#[derive(Copy, Clone, PartialEq, Eq, Hash, Debug, Structural)]
pub enum PrimitiveKind {
    Composite,
    HardwareComposite,
    SplitComposite,
    Blend,
    Rectangle,
    TextRun,
    Image,
    YuvImage,
    BorderCorner,
    BorderEdge,
    AlignedGradient,
    AngleGradient,
    RadialGradient,
    BoxShadow,
    CacheImage,
}

impl PrimitiveKind {
    /// Composites and blends are drawn by one program whatever the
    /// transform; every other primitive has a pair.
    pub open spec fn spec_has_transform_axis(self) -> bool {
        !(self is Composite || self is HardwareComposite || self is SplitComposite
            || self is Blend)
    }

    #[verifier::when_used_as_spec(spec_has_transform_axis)]
    pub fn has_transform_axis(self) -> (r: bool)
        ensures
            r == self.spec_has_transform_axis(),
    {
        match self {
            PrimitiveKind::Composite => false,
            PrimitiveKind::HardwareComposite => false,
            PrimitiveKind::SplitComposite => false,
            PrimitiveKind::Blend => false,
            _ => true,
        }
    }

    /// Whether the primitive is one of the three gradients, which are the
    /// primitives that can dither.
    pub open spec fn spec_is_gradient(self) -> bool {
        self is AlignedGradient || self is AngleGradient || self is RadialGradient
    }

    #[verifier::when_used_as_spec(spec_is_gradient)]
    pub fn is_gradient(self) -> (r: bool)
        ensures
            r == self.spec_is_gradient(),
    {
        match self {
            PrimitiveKind::AlignedGradient => true,
            PrimitiveKind::AngleGradient => true,
            PrimitiveKind::RadialGradient => true,
            _ => false,
        }
    }
}

/// Everything that the choice of a program depends on. A field that does
/// not matter for the primitive holds its first value, so that two keys
/// are equal exactly when they stand for the same variant.
#[derive(Copy, Clone, PartialEq, Eq, Hash, Debug, Structural)]
pub struct ShaderVariantKey {
    pub kind: PrimitiveKind,
    pub transform_kind: TransformedRectKind,
    pub needs_clipping: bool,
    pub subpixel: bool,
    pub dithering: bool,
    pub yuv_buffer_kind: ImageBufferKind,
    pub yuv_format: YuvFormat,
    pub yuv_color_space: YuvColorSpace,
}

impl ShaderVariantKey {
    /// The keys that are ever built for a registry made with or without
    /// dithering: clipping is a variant of rectangles only, subpixel
    /// blending of text runs only, dithering of gradients only, and the YUV
    /// axes of YUV images only, which are sampled from plain 2D textures.
    pub open spec fn reachable(self, dithering: bool) -> bool {
        &&& self.kind.spec_has_transform_axis() || self.transform_kind
            == TransformedRectKind::AxisAligned
        &&& self.needs_clipping ==> self.kind == PrimitiveKind::Rectangle
        &&& self.subpixel ==> self.kind == PrimitiveKind::TextRun
        &&& self.dithering == (dithering && self.kind.spec_is_gradient())
        &&& self.yuv_buffer_kind == ImageBufferKind::Texture2D
        &&& self.kind != PrimitiveKind::YuvImage ==> self.yuv_format == YuvFormat::NV12
            && self.yuv_color_space == YuvColorSpace::Rec601
    }

    /// The key of a primitive drawn with the given features: the features
    /// that the primitive has no variant for are dropped.
    pub open spec fn spec_new(
        kind: PrimitiveKind,
        transform_kind: TransformedRectKind,
        needs_clipping: bool,
        subpixel: bool,
        dithering: bool,
        yuv_format: YuvFormat,
        yuv_color_space: YuvColorSpace,
    ) -> ShaderVariantKey {
        ShaderVariantKey {
            kind,
            transform_kind: if kind.spec_has_transform_axis() {
                transform_kind
            } else {
                TransformedRectKind::AxisAligned
            },
            needs_clipping: needs_clipping && kind == PrimitiveKind::Rectangle,
            subpixel: subpixel && kind == PrimitiveKind::TextRun,
            dithering: dithering && kind.spec_is_gradient(),
            yuv_buffer_kind: ImageBufferKind::Texture2D,
            yuv_format: if kind == PrimitiveKind::YuvImage {
                yuv_format
            } else {
                YuvFormat::NV12
            },
            yuv_color_space: if kind == PrimitiveKind::YuvImage {
                yuv_color_space
            } else {
                YuvColorSpace::Rec601
            },
        }
    }

    #[verifier::when_used_as_spec(spec_new)]
    pub fn new(
        kind: PrimitiveKind,
        transform_kind: TransformedRectKind,
        needs_clipping: bool,
        subpixel: bool,
        dithering: bool,
        yuv_format: YuvFormat,
        yuv_color_space: YuvColorSpace,
    ) -> (key: ShaderVariantKey)
        ensures
            key == Self::spec_new(
                kind,
                transform_kind,
                needs_clipping,
                subpixel,
                dithering,
                yuv_format,
                yuv_color_space,
            ),
            key.reachable(dithering),
    {
        let is_yuv: bool = kind == PrimitiveKind::YuvImage;
        ShaderVariantKey {
            kind,
            transform_kind: if kind.has_transform_axis() {
                transform_kind
            } else {
                TransformedRectKind::AxisAligned
            },
            needs_clipping: needs_clipping && kind == PrimitiveKind::Rectangle,
            subpixel: subpixel && kind == PrimitiveKind::TextRun,
            dithering: dithering && kind.is_gradient(),
            yuv_buffer_kind: ImageBufferKind::Texture2D,
            yuv_format: if is_yuv {
                yuv_format
            } else {
                YuvFormat::NV12
            },
            yuv_color_space: if is_yuv {
                yuv_color_space
            } else {
                YuvColorSpace::Rec601
            },
        }
    }

    /// The place of this key's pair of programs among the pairs; only for
    /// primitives that have a pair.
    pub open spec fn pair_slot(self) -> nat {
        match self.kind {
            PrimitiveKind::Rectangle => if self.needs_clipping {
                1nat
            } else {
                0nat
            },
            PrimitiveKind::TextRun => if self.subpixel {
                3nat
            } else {
                2nat
            },
            PrimitiveKind::Image => 4nat,
            PrimitiveKind::YuvImage => 5 + spec_yuv_shader_index(
                self.yuv_buffer_kind,
                self.yuv_format,
                self.yuv_color_space,
            ),
            PrimitiveKind::BorderCorner => 11nat,
            PrimitiveKind::BorderEdge => 12nat,
            PrimitiveKind::AlignedGradient => 13nat,
            PrimitiveKind::AngleGradient => 14nat,
            PrimitiveKind::RadialGradient => 15nat,
            PrimitiveKind::BoxShadow => 16nat,
            _ => 17nat,
        }
    }

    /// The program of this key, as a position in the list of programs: the
    /// pairs first, two places each, then the four programs without a pair.
    pub open spec fn program(self) -> ProgramId {
        match self.kind {
            PrimitiveKind::Blend => ProgramId(36),
            PrimitiveKind::HardwareComposite => ProgramId(37),
            PrimitiveKind::SplitComposite => ProgramId(38),
            PrimitiveKind::Composite => ProgramId(39),
            _ => match self.transform_kind {
                TransformedRectKind::AxisAligned => ProgramId((2 * self.pair_slot()) as usize),
                TransformedRectKind::Complex => ProgramId((2 * self.pair_slot() + 1) as usize),
            },
        }
    }
}

/// The number of YUV program pairs: one per sample format and colour space.
pub const YUV_PAIRS: usize = 6;

/// The number of program pairs.
pub const PAIRS: usize = 18;

/// The number of programs: two per pair and the four that have no pair.
pub const PROGRAMS: usize = 40;

/// Two keys of one registry that are resolved to the same program are the
/// same key: every reachable variant has a program of its own.
pub proof fn lemma_program_injective(k1: ShaderVariantKey, k2: ShaderVariantKey, dithering: bool)
    requires
        k1.reachable(dithering),
        k2.reachable(dithering),
        k1.program() == k2.program(),
    ensures
        k1 == k2,
{
    if k1.kind == PrimitiveKind::YuvImage && k2.kind == PrimitiveKind::YuvImage {
        lemma_yuv_shader_index_injective(
            k1.yuv_buffer_kind,
            k1.yuv_format,
            k1.yuv_color_space,
            k2.yuv_buffer_kind,
            k2.yuv_format,
            k2.yuv_color_space,
        );
    }
}

/// Every reachable key has a program in the list.
pub proof fn lemma_program_in_range(key: ShaderVariantKey, dithering: bool)
    requires
        key.reachable(dithering),
    ensures
        key.program().0 < PROGRAMS,
{
}

/// The pair of programs that stands at place `slot` among the pairs.
pub open spec fn pair_at(slot: nat) -> ProgramPair {
    ProgramPair((ProgramId((2 * slot) as usize), ProgramId((2 * slot + 1) as usize)))
}

/// The names of the two programs of a primitive.
pub open spec fn pair_names(base: Seq<char>) -> Seq<Seq<char>> {
    seq![base, base + "_transform"@]
}

/// The names of the gradient programs, dithered or not.
pub open spec fn gradient_names(dithering: bool) -> Seq<Seq<char>> {
    if dithering {
        pair_names("ps_gradient_dither"@) + pair_names("ps_angle_gradient_dither"@) + pair_names(
            "ps_radial_gradient_dither"@,
        )
    } else {
        pair_names("ps_gradient"@) + pair_names("ps_angle_gradient"@) + pair_names(
            "ps_radial_gradient"@,
        )
    }
}

/// The names of the precompiled programs, in the order of their positions.
pub open spec fn program_names(dithering: bool) -> Seq<Seq<char>> {
    pair_names("ps_rectangle"@) + pair_names("ps_rectangle_clip"@) + pair_names("ps_text_run"@)
        + pair_names("ps_text_run_subpixel"@) + pair_names("ps_image"@) + pair_names(
        "ps_yuv_image_nv12_601"@,
    ) + pair_names("ps_yuv_image_nv12_709"@) + pair_names("ps_yuv_image_planar_601"@)
        + pair_names("ps_yuv_image_planar_709"@) + pair_names("ps_yuv_image_interleaved_601"@)
        + pair_names("ps_yuv_image_interleaved_709"@) + pair_names("ps_border_corner"@)
        + pair_names("ps_border_edge"@) + gradient_names(dithering) + pair_names(
        "ps_box_shadow"@,
    ) + pair_names("ps_cache_image"@) + seq![
        "ps_blend"@,
        "ps_hardware_composite"@,
        "ps_split_composite"@,
        "ps_composite"@,
    ]
}

/// What a list of names says, name by name.
pub open spec fn name_views(names: Seq<String>) -> Seq<Seq<char>> {
    names.map_values(|name: String| name@)
}

/// Adds a program to the list of those to compile; its position is its id.
fn create_program(names: &mut Vec<String>, name: &str) -> (program: ProgramId)
    ensures
        program == ProgramId(old(names)@.len() as usize),
        final(names)@.len() == old(names)@.len() + 1,
        name_views(final(names)@) == name_views(old(names)@).push(name@),
{
    let program = ProgramId(names.len());
    names.push(String::from_str(name));
    assert(name_views(names@) =~= name_views(old(names)@).push(name@));
    program
}

/// Adds the two programs of a primitive to the list of those to compile:
/// the one called `base`, and its variant for arbitrary transforms.
fn create_programs(names: &mut Vec<String>, base: &str) -> (pair: ProgramPair)
    requires
        old(names)@.len() % 2 == 0,
    ensures
        pair == pair_at((old(names)@.len() / 2) as nat),
        final(names)@.len() == old(names)@.len() + 2,
        name_views(final(names)@) == name_views(old(names)@) + pair_names(base@),
{
    let first = ProgramId(names.len());
    names.push(String::from_str(base));
    let second = ProgramId(names.len());
    names.push(String::from_str(base).concat("_transform"));
    assert(name_views(names@) =~= name_views(old(names)@) + pair_names(base@));
    ProgramPair((first, second))
}

/// The registry: one program, or one pair of programs, per primitive.
pub struct Shaders {
    ps_rectangle: ProgramPair,
    ps_rectangle_clip: ProgramPair,
    ps_text_run: ProgramPair,
    ps_text_run_subpixel: ProgramPair,
    ps_image: ProgramPair,
    ps_yuv_image: Vec<ProgramPair>,
    ps_border_corner: ProgramPair,
    ps_border_edge: ProgramPair,
    ps_gradient: ProgramPair,
    ps_angle_gradient: ProgramPair,
    ps_radial_gradient: ProgramPair,
    ps_box_shadow: ProgramPair,
    ps_cache_image: ProgramPair,
    ps_blend: ProgramId,
    ps_hw_composite: ProgramId,
    ps_split_composite: ProgramId,
    ps_composite: ProgramId,
    dithering: bool,
}

impl Shaders {
    #[verifier::type_invariant]
    spec fn wf(self) -> bool {
        &&& self.ps_rectangle == pair_at(0)
        &&& self.ps_rectangle_clip == pair_at(1)
        &&& self.ps_text_run == pair_at(2)
        &&& self.ps_text_run_subpixel == pair_at(3)
        &&& self.ps_image == pair_at(4)
        &&& self.ps_yuv_image@.len() == YUV_PAIRS
        &&& forall|i: int| 0 <= i < YUV_PAIRS ==> self.ps_yuv_image@[i] == pair_at((5 + i) as nat)
        &&& self.ps_border_corner == pair_at(11)
        &&& self.ps_border_edge == pair_at(12)
        &&& self.ps_gradient == pair_at(13)
        &&& self.ps_angle_gradient == pair_at(14)
        &&& self.ps_radial_gradient == pair_at(15)
        &&& self.ps_box_shadow == pair_at(16)
        &&& self.ps_cache_image == pair_at(17)
        &&& self.ps_blend == ProgramId(36)
        &&& self.ps_hw_composite == ProgramId(37)
        &&& self.ps_split_composite == ProgramId(38)
        &&& self.ps_composite == ProgramId(39)
    }

    /// Whether the gradient programs of this registry dither.
    pub closed spec fn spec_dithering(&self) -> bool {
        self.dithering
    }

    #[verifier::when_used_as_spec(spec_dithering)]
    pub fn dithering(&self) -> (r: bool)
        ensures
            r == self.spec_dithering(),
    {
        self.dithering
    }

    /// Builds the registry and the list of the programs to compile for it.
    /// The program at position `i` of the list is `ProgramId(i)`.
    pub fn new(enable_dithering: bool) -> (r: (Shaders, Vec<String>))
        ensures
            r.0.spec_dithering() == enable_dithering,
            name_views(r.1@) == program_names(enable_dithering),
            r.1@.len() == PROGRAMS,
    {
        let mut names: Vec<String> = Vec::new();
        assert(name_views(names@) =~= Seq::<Seq<char>>::empty());
        let ps_rectangle = create_programs(&mut names, "ps_rectangle");
        let ps_rectangle_clip = create_programs(&mut names, "ps_rectangle_clip");
        let ps_text_run = create_programs(&mut names, "ps_text_run");
        let ps_text_run_subpixel = create_programs(&mut names, "ps_text_run_subpixel");
        let ps_image = create_programs(&mut names, "ps_image");
        let mut ps_yuv_image: Vec<ProgramPair> = Vec::new();
        ps_yuv_image.push(create_programs(&mut names, "ps_yuv_image_nv12_601"));
        ps_yuv_image.push(create_programs(&mut names, "ps_yuv_image_nv12_709"));
        ps_yuv_image.push(create_programs(&mut names, "ps_yuv_image_planar_601"));
        ps_yuv_image.push(create_programs(&mut names, "ps_yuv_image_planar_709"));
        ps_yuv_image.push(create_programs(&mut names, "ps_yuv_image_interleaved_601"));
        ps_yuv_image.push(create_programs(&mut names, "ps_yuv_image_interleaved_709"));
        let ps_border_corner = create_programs(&mut names, "ps_border_corner");
        let ps_border_edge = create_programs(&mut names, "ps_border_edge");
        let ghost before_gradients = name_views(names@);
        let (ps_gradient, ps_angle_gradient, ps_radial_gradient) = if enable_dithering {
            (
                create_programs(&mut names, "ps_gradient_dither"),
                create_programs(&mut names, "ps_angle_gradient_dither"),
                create_programs(&mut names, "ps_radial_gradient_dither"),
            )
        } else {
            (
                create_programs(&mut names, "ps_gradient"),
                create_programs(&mut names, "ps_angle_gradient"),
                create_programs(&mut names, "ps_radial_gradient"),
            )
        };
        assert(name_views(names@) =~= before_gradients + gradient_names(enable_dithering));
        let ps_box_shadow = create_programs(&mut names, "ps_box_shadow");
        let ps_cache_image = create_programs(&mut names, "ps_cache_image");
        let ps_blend = create_program(&mut names, "ps_blend");
        let ps_hw_composite = create_program(&mut names, "ps_hardware_composite");
        let ps_split_composite = create_program(&mut names, "ps_split_composite");
        let ps_composite = create_program(&mut names, "ps_composite");
        assert(name_views(names@) =~= program_names(enable_dithering));
        assert(names@.len() == name_views(names@).len());
        (
            Shaders {
                ps_rectangle,
                ps_rectangle_clip,
                ps_text_run,
                ps_text_run_subpixel,
                ps_image,
                ps_yuv_image,
                ps_border_corner,
                ps_border_edge,
                ps_gradient,
                ps_angle_gradient,
                ps_radial_gradient,
                ps_box_shadow,
                ps_cache_image,
                ps_blend,
                ps_hw_composite,
                ps_split_composite,
                ps_composite,
                dithering: enable_dithering,
            },
            names,
        )
    }

    /// The program that draws the variant `key`. Every key has one, but for
    /// YUV images that are not sampled from a plain 2D texture.
    pub fn lookup(&self, key: &ShaderVariantKey) -> (r: Option<ProgramId>)
        ensures
            r == (if key.kind == PrimitiveKind::YuvImage && key.yuv_buffer_kind
                != ImageBufferKind::Texture2D {
                None
            } else {
                Some(key.program())
            }),
            key.reachable(self.spec_dithering()) ==> r == Some(key.program()),
    {
        proof {
            use_type_invariant(self);
        }
        let transform_kind = key.transform_kind;
        match key.kind {
            PrimitiveKind::Rectangle => {
                if key.needs_clipping {
                    Some(self.ps_rectangle_clip.get(transform_kind))
                } else {
                    Some(self.ps_rectangle.get(transform_kind))
                }
            },
            PrimitiveKind::Composite => Some(self.ps_composite),
            PrimitiveKind::SplitComposite => Some(self.ps_split_composite),
            PrimitiveKind::HardwareComposite => Some(self.ps_hw_composite),
            PrimitiveKind::Blend => Some(self.ps_blend),
            PrimitiveKind::TextRun => {
                if key.subpixel {
                    Some(self.ps_text_run_subpixel.get(transform_kind))
                } else {
                    Some(self.ps_text_run.get(transform_kind))
                }
            },
            PrimitiveKind::Image => Some(self.ps_image.get(transform_kind)),
            PrimitiveKind::YuvImage => {
                let shader_index = get_yuv_shader_index(
                    key.yuv_buffer_kind,
                    key.yuv_format,
                    key.yuv_color_space,
                );
                if shader_index < self.ps_yuv_image.len() {
                    Some(self.ps_yuv_image[shader_index].get(transform_kind))
                } else {
                    None
                }
            },
            PrimitiveKind::BorderCorner => Some(self.ps_border_corner.get(transform_kind)),
            PrimitiveKind::BorderEdge => Some(self.ps_border_edge.get(transform_kind)),
            PrimitiveKind::AlignedGradient => Some(self.ps_gradient.get(transform_kind)),
            PrimitiveKind::AngleGradient => Some(self.ps_angle_gradient.get(transform_kind)),
            PrimitiveKind::RadialGradient => Some(self.ps_radial_gradient.get(transform_kind)),
            PrimitiveKind::BoxShadow => Some(self.ps_box_shadow.get(transform_kind)),
            PrimitiveKind::CacheImage => Some(self.ps_cache_image.get(transform_kind)),
        }
    }
}

} // verus!
