use gleam::gl::GlType;
use webrender::shader::{
    get_yuv_shader_index, ImageBufferKind, PrimitiveKind, ProgramId, ProgramPair,
    ShaderVariantKey, Shaders, IMAGE_BUFFER_KINDS, YUV_COLOR_SPACES, YUV_FORMATS,
};
use webrender::types::{TransformedRectKind, YuvColorSpace, YuvFormat};

const KINDS: [PrimitiveKind; 15] = [
    PrimitiveKind::Composite,
    PrimitiveKind::HardwareComposite,
    PrimitiveKind::SplitComposite,
    PrimitiveKind::Blend,
    PrimitiveKind::Rectangle,
    PrimitiveKind::TextRun,
    PrimitiveKind::Image,
    PrimitiveKind::YuvImage,
    PrimitiveKind::BorderCorner,
    PrimitiveKind::BorderEdge,
    PrimitiveKind::AlignedGradient,
    PrimitiveKind::AngleGradient,
    PrimitiveKind::RadialGradient,
    PrimitiveKind::BoxShadow,
    PrimitiveKind::CacheImage,
];

fn key(kind: PrimitiveKind, transform_kind: TransformedRectKind) -> ShaderVariantKey {
    ShaderVariantKey::new(
        kind,
        transform_kind,
        false,
        false,
        false,
        YuvFormat::NV12,
        YuvColorSpace::Rec601,
    )
}

/// Every key that the construction rules give, for a registry with or
/// without dithering.
fn reachable_keys(dithering: bool) -> Vec<ShaderVariantKey> {
    let mut keys: Vec<ShaderVariantKey> = Vec::new();
    for kind in KINDS {
        for transform_kind in [TransformedRectKind::AxisAligned, TransformedRectKind::Complex] {
            for needs_clipping in [false, true] {
                for subpixel in [false, true] {
                    for format in YUV_FORMATS {
                        for color_space in YUV_COLOR_SPACES {
                            let key = ShaderVariantKey::new(
                                kind,
                                transform_kind,
                                needs_clipping,
                                subpixel,
                                dithering,
                                format,
                                color_space,
                            );
                            if !keys.contains(&key) {
                                keys.push(key);
                            }
                        }
                    }
                }
            }
        }
    }
    keys
}

#[test]
fn feature_strings_name_the_buffer_kind() {
    assert_eq!(ImageBufferKind::Texture2D.get_feature_string(), "");
    assert_eq!(ImageBufferKind::TextureRect.get_feature_string(), "TEXTURE_RECT");
    assert_eq!(ImageBufferKind::TextureExternal.get_feature_string(), "TEXTURE_EXTERNAL");
}

#[test]
fn external_textures_are_supported_on_gles_only() {
    for kind in IMAGE_BUFFER_KINDS {
        assert!(kind.has_platform_support(&GlType::Gles));
    }
    assert!(ImageBufferKind::Texture2D.has_platform_support(&GlType::Gl));
    assert!(ImageBufferKind::TextureRect.has_platform_support(&GlType::Gl));
    assert!(!ImageBufferKind::TextureExternal.has_platform_support(&GlType::Gl));
}

#[test]
fn yuv_index_is_row_major() {
    assert_eq!(
        get_yuv_shader_index(ImageBufferKind::Texture2D, YuvFormat::NV12, YuvColorSpace::Rec601),
        0
    );
    assert_eq!(
        get_yuv_shader_index(
            ImageBufferKind::TextureRect,
            YuvFormat::PlanarYCbCr,
            YuvColorSpace::Rec709
        ),
        9
    );
    assert_eq!(
        get_yuv_shader_index(
            ImageBufferKind::TextureExternal,
            YuvFormat::InterleavedYCbCr,
            YuvColorSpace::Rec709
        ),
        17
    );
    let mut seen: Vec<usize> = Vec::new();
    for buffer_kind in IMAGE_BUFFER_KINDS {
        for format in YUV_FORMATS {
            for color_space in YUV_COLOR_SPACES {
                seen.push(get_yuv_shader_index(buffer_kind, format, color_space));
            }
        }
    }
    let expected: Vec<usize> = (0..18).collect();
    assert_eq!(seen, expected);
}

#[test]
fn program_pair_selects_by_transform() {
    let pair = ProgramPair((ProgramId(4), ProgramId(5)));
    assert_eq!(pair.get(TransformedRectKind::AxisAligned), ProgramId(4));
    assert_eq!(pair.get(TransformedRectKind::Complex), ProgramId(5));
}

#[test]
fn names_of_the_programs_follow_their_ids() {
    let (_, names) = Shaders::new(false);
    assert_eq!(names.len(), 40);
    assert_eq!(names[0], "ps_rectangle");
    assert_eq!(names[1], "ps_rectangle_transform");
    assert_eq!(names[2], "ps_rectangle_clip");
    assert_eq!(names[7], "ps_text_run_subpixel_transform");
    assert_eq!(names[8], "ps_image");
    assert_eq!(names[10], "ps_yuv_image_nv12_601");
    assert_eq!(names[12], "ps_yuv_image_nv12_709");
    assert_eq!(names[14], "ps_yuv_image_planar_601");
    assert_eq!(names[21], "ps_yuv_image_interleaved_709_transform");
    assert_eq!(names[22], "ps_border_corner");
    assert_eq!(names[24], "ps_border_edge");
    assert_eq!(names[26], "ps_gradient");
    assert_eq!(names[28], "ps_angle_gradient");
    assert_eq!(names[31], "ps_radial_gradient_transform");
    assert_eq!(names[32], "ps_box_shadow");
    assert_eq!(names[34], "ps_cache_image");
    assert_eq!(names[36], "ps_blend");
    assert_eq!(names[37], "ps_hardware_composite");
    assert_eq!(names[38], "ps_split_composite");
    assert_eq!(names[39], "ps_composite");
    let mut sorted = names.clone();
    sorted.sort();
    sorted.dedup();
    assert_eq!(sorted.len(), 40);
}

#[test]
fn dithering_selects_the_dithered_gradients() {
    let (shaders, names) = Shaders::new(true);
    assert!(shaders.dithering());
    assert_eq!(names[26], "ps_gradient_dither");
    assert_eq!(names[27], "ps_gradient_dither_transform");
    assert_eq!(names[28], "ps_angle_gradient_dither");
    assert_eq!(names[30], "ps_radial_gradient_dither");
    assert_eq!(names[32], "ps_box_shadow");
    let (plain, _) = Shaders::new(false);
    assert!(!plain.dithering());
}

#[test]
fn yuv_program_is_named_after_its_key() {
    let (shaders, names) = Shaders::new(false);
    let expected = [
        (YuvFormat::NV12, YuvColorSpace::Rec601, "ps_yuv_image_nv12_601"),
        (YuvFormat::NV12, YuvColorSpace::Rec709, "ps_yuv_image_nv12_709"),
        (YuvFormat::PlanarYCbCr, YuvColorSpace::Rec601, "ps_yuv_image_planar_601"),
        (YuvFormat::PlanarYCbCr, YuvColorSpace::Rec709, "ps_yuv_image_planar_709"),
        (YuvFormat::InterleavedYCbCr, YuvColorSpace::Rec601, "ps_yuv_image_interleaved_601"),
        (YuvFormat::InterleavedYCbCr, YuvColorSpace::Rec709, "ps_yuv_image_interleaved_709"),
    ];
    for (format, color_space, name) in expected {
        let key = ShaderVariantKey::new(
            PrimitiveKind::YuvImage,
            TransformedRectKind::AxisAligned,
            false,
            false,
            false,
            format,
            color_space,
        );
        let program = shaders.lookup(&key).unwrap();
        assert_eq!(names[program.0], name);
    }
}

#[test]
fn every_reachable_key_has_a_program_of_its_own() {
    for dithering in [false, true] {
        let (shaders, names) = Shaders::new(dithering);
        let keys = reachable_keys(dithering);
        // 13 pairs beside the YUV pairs, 6 YUV pairs, 4 single programs.
        assert_eq!(keys.len(), 40);
        let mut programs: Vec<ProgramId> = Vec::new();
        for key in &keys {
            let program = shaders.lookup(key).unwrap();
            assert!(program.0 < names.len());
            assert!(!programs.contains(&program));
            programs.push(program);
        }
    }
}

#[test]
fn features_without_a_variant_are_dropped_from_the_key() {
    let composite = ShaderVariantKey::new(
        PrimitiveKind::Composite,
        TransformedRectKind::Complex,
        true,
        true,
        true,
        YuvFormat::PlanarYCbCr,
        YuvColorSpace::Rec709,
    );
    assert_eq!(composite, key(PrimitiveKind::Composite, TransformedRectKind::AxisAligned));
    let gradient = ShaderVariantKey::new(
        PrimitiveKind::AngleGradient,
        TransformedRectKind::Complex,
        false,
        false,
        true,
        YuvFormat::NV12,
        YuvColorSpace::Rec601,
    );
    assert!(gradient.dithering);
    assert_eq!(gradient.transform_kind, TransformedRectKind::Complex);
    let text = ShaderVariantKey::new(
        PrimitiveKind::TextRun,
        TransformedRectKind::AxisAligned,
        true,
        true,
        true,
        YuvFormat::NV12,
        YuvColorSpace::Rec601,
    );
    assert!(text.subpixel && !text.needs_clipping && !text.dithering);
}

#[test]
fn yuv_image_from_another_buffer_kind_has_no_program() {
    let (shaders, _) = Shaders::new(false);
    let mut key = key(PrimitiveKind::YuvImage, TransformedRectKind::AxisAligned);
    key.yuv_buffer_kind = ImageBufferKind::TextureRect;
    assert_eq!(shaders.lookup(&key), None);
    key.yuv_buffer_kind = ImageBufferKind::Texture2D;
    assert_eq!(shaders.lookup(&key), Some(ProgramId(10)));
}

#[test]
fn programs_without_a_pair_ignore_the_transform() {
    let (shaders, _) = Shaders::new(false);
    for (kind, program) in [
        (PrimitiveKind::Blend, 36),
        (PrimitiveKind::HardwareComposite, 37),
        (PrimitiveKind::SplitComposite, 38),
        (PrimitiveKind::Composite, 39),
    ] {
        let mut key = key(kind, TransformedRectKind::AxisAligned);
        assert_eq!(shaders.lookup(&key), Some(ProgramId(program)));
        key.transform_kind = TransformedRectKind::Complex;
        assert_eq!(shaders.lookup(&key), Some(ProgramId(program)));
    }
}
