use webrender::types::{
    ColorF, DevicePoint, DeviceUintSize, ImageFormat, RenderTargetKind, TextureFilter,
    TextureId, TextureSampler, TextureTarget, ONE_BITS,
};

#[test]
fn invalid_texture_is_name_zero() {
    assert_eq!(TextureId::invalid(), TextureId { name: 0, target: TextureTarget::Default });
    assert!(!TextureId::invalid().is_valid());
    assert!(TextureId::new(1, TextureTarget::Default).is_valid());
    assert!(TextureId::new(0, TextureTarget::Rect).is_valid());
    assert_eq!(TextureId::new(7, TextureTarget::External).name, 7);
}

#[test]
fn colour_samplers_by_position() {
    assert_eq!(TextureSampler::color(0), TextureSampler::Color0);
    assert_eq!(TextureSampler::color(1), TextureSampler::Color1);
    assert_eq!(TextureSampler::color(2), TextureSampler::Color2);
    assert_eq!(TextureSampler::color(9), TextureSampler::Color2);
}

#[test]
fn colours_are_bit_patterns() {
    assert_eq!(ONE_BITS, 1.0f32.to_bits());
    assert_eq!(ColorF::white(), ColorF::new(ONE_BITS, ONE_BITS, ONE_BITS, ONE_BITS));
    assert_eq!(ColorF::transparent(), ColorF::new(0, 0, 0, 0));
    assert_eq!(0.0f32.to_bits(), 0);
    assert_eq!(ColorF::new(1, 2, 3, 4).to_array(), [1, 2, 3, 4]);
    assert_eq!(DevicePoint::new(5, 6), DevicePoint { x: 5, y: 6 });
    assert_eq!(DeviceUintSize::new(7, 8), DeviceUintSize { width: 7, height: 8 });
}

#[test]
fn targets_of_a_kind_have_their_format_and_filter() {
    assert_eq!(RenderTargetKind::Color.image_format(), ImageFormat::RGBA8);
    assert_eq!(RenderTargetKind::Color.texture_filter(), TextureFilter::Linear);
    assert_eq!(RenderTargetKind::Alpha.image_format(), ImageFormat::A8);
    assert_eq!(RenderTargetKind::Alpha.texture_filter(), TextureFilter::Nearest);
}
