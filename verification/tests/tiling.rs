use webrender::shader::{ImageBufferKind, PrimitiveKind};
use webrender::tiling::{
    AlphaBatchKeyFlags, AlphaBatchKind, AlphaBatcher, AlphaRenderTarget, BatchList,
    BatchTextures, ColorRenderTarget, Frame, RenderPass, RenderTargetList, AXIS_ALIGNED,
    NEEDS_CLIPPING,
};
use webrender::types::{
    DeviceUintSize, RenderTargetKind, SourceTexture, TransformedRectKind, YuvColorSpace,
    YuvFormat,
};

fn color_target() -> ColorRenderTarget {
    ColorRenderTarget {
        alpha_batcher: AlphaBatcher {
            batch_list: BatchList { opaque_batches: Vec::new(), alpha_batches: Vec::new() },
        },
    }
}

fn pass(is_framebuffer: bool, colors: usize, alphas: usize) -> RenderPass {
    RenderPass {
        is_framebuffer,
        color_targets: RenderTargetList { targets: vec![color_target(); colors] },
        alpha_targets: RenderTargetList { targets: vec![AlphaRenderTarget {}; alphas] },
    }
}

#[test]
fn flags_hold_the_transform_and_the_clipping() {
    for transform_kind in [TransformedRectKind::AxisAligned, TransformedRectKind::Complex] {
        for needs_clipping in [false, true] {
            let flags = AlphaBatchKeyFlags::new(transform_kind, needs_clipping);
            assert_eq!(flags.transform_kind(), transform_kind);
            assert_eq!(flags.needs_clipping(), needs_clipping);
        }
    }
    assert_eq!((NEEDS_CLIPPING, AXIS_ALIGNED), (1, 2));
    assert_eq!(AlphaBatchKeyFlags(0).transform_kind(), TransformedRectKind::Complex);
    assert_eq!(AlphaBatchKeyFlags(2).transform_kind(), TransformedRectKind::AxisAligned);
    assert!(AlphaBatchKeyFlags(1).needs_clipping());
    assert!(!AlphaBatchKeyFlags(2).needs_clipping());
    // Bits that mean nothing change nothing.
    assert!(AlphaBatchKeyFlags(0xfd).needs_clipping());
    assert_eq!(AlphaBatchKeyFlags(0xfd).transform_kind(), TransformedRectKind::Complex);
}

#[test]
fn batch_kind_names_its_primitive() {
    assert_eq!(AlphaBatchKind::Rectangle.primitive(), PrimitiveKind::Rectangle);
    assert_eq!(
        AlphaBatchKind::Image(ImageBufferKind::TextureExternal).primitive(),
        PrimitiveKind::Image
    );
    let yuv = AlphaBatchKind::YuvImage(
        ImageBufferKind::TextureRect,
        YuvFormat::InterleavedYCbCr,
        YuvColorSpace::Rec709,
    );
    assert_eq!(yuv.primitive(), PrimitiveKind::YuvImage);
    assert_eq!(yuv.yuv_format(), YuvFormat::InterleavedYCbCr);
    assert_eq!(yuv.yuv_color_space(), YuvColorSpace::Rec709);
    assert_eq!(AlphaBatchKind::Blend.yuv_format(), YuvFormat::NV12);
    assert_eq!(AlphaBatchKind::Blend.yuv_color_space(), YuvColorSpace::Rec601);
    assert_eq!(AlphaBatchKind::CacheImage.primitive(), PrimitiveKind::CacheImage);
    assert_eq!(AlphaBatchKind::Composite.primitive(), PrimitiveKind::Composite);
}

#[test]
fn framebuffer_pass_needs_no_pooled_target() {
    let framebuffer = pass(true, 2, 0);
    assert!(!framebuffer.needs_render_target_kind(RenderTargetKind::Color));
    assert!(!framebuffer.needs_render_target_kind(RenderTargetKind::Alpha));
    assert_eq!(framebuffer.required_target_count(RenderTargetKind::Color), 2);
}

#[test]
fn pass_needs_a_target_of_each_kind_that_it_draws_into() {
    let both = pass(false, 1, 3);
    assert!(both.needs_render_target_kind(RenderTargetKind::Color));
    assert!(both.needs_render_target_kind(RenderTargetKind::Alpha));
    assert_eq!(both.required_target_count(RenderTargetKind::Alpha), 3);
    let color_only = pass(false, 1, 0);
    assert!(color_only.needs_render_target_kind(RenderTargetKind::Color));
    assert!(!color_only.needs_render_target_kind(RenderTargetKind::Alpha));
    let nothing = pass(false, 0, 0);
    assert!(!nothing.needs_render_target_kind(RenderTargetKind::Color));
    assert_eq!(nothing.color_targets.target_count(), 0);
}

#[test]
fn new_frame_is_empty() {
    let frame = Frame::new(DeviceUintSize::new(3, 4), DeviceUintSize::new(5, 6));
    assert_eq!(frame.window_size, DeviceUintSize::new(3, 4));
    assert_eq!(frame.cache_size, DeviceUintSize::new(5, 6));
    assert_eq!(frame.background_color, None);
    assert!(frame.passes.is_empty() && frame.deferred_resolves.is_empty());
    assert!(frame.gpu_data16.is_empty() && frame.gpu_resource_rects.is_empty());
    assert_eq!(BatchTextures::no_texture().colors, [SourceTexture::Invalid; 3]);
}
