use webrender::command::{BatchRef, Command, PixelSource, Projection};
use webrender::external_image::LockedImage;
use webrender::gpu_store::{GpuBlock, TexelRect};
use webrender::renderer::{Renderer, RendererOptions};
use webrender::shader::{BlendMode, ImageBufferKind, ProgramId};
use webrender::texture_cache::{TextureUpdate, TextureUpdateOp};
use webrender::tiling::{
    AlphaBatchKey, AlphaBatchKeyFlags, AlphaBatchKind, AlphaBatcher, AlphaRenderTarget,
    BatchList, BatchTextures, ColorRenderTarget, DeferredResolve, Frame, GpuStoreAddress,
    ImageProperties, PrimitiveBatch, PrimitiveInstance, RenderPass, RenderTargetList,
};
use webrender::types::{
    CacheTextureId, ColorF, DevicePoint, DeviceUintSize, ExternalImageData, ExternalImageId,
    ExternalImageType, ImageFormat, RenderError, RenderTargetKind, RenderTargetMode,
    SourceTexture, TextureFilter, TextureId, TextureSampler, TextureTarget,
    TransformedRectKind, YuvColorSpace, YuvFormat,
};

const ONE: u32 = 0x3f80_0000;

fn black() -> ColorF {
    ColorF::new(0, 0, 0, ONE)
}

fn texture(name: u32) -> TextureId {
    TextureId::new(name, TextureTarget::Default)
}

fn renderer(enable_dithering: bool, clear_framebuffer: bool) -> Renderer {
    let mut options = RendererOptions::default();
    options.enable_dithering = enable_dithering;
    options.clear_framebuffer = clear_framebuffer;
    Renderer::new(&options, 4096).0
}

fn size(width: u32, height: u32) -> DeviceUintSize {
    DeviceUintSize::new(width, height)
}

fn instance() -> PrimitiveInstance {
    PrimitiveInstance {
        global_prim_id: 0,
        prim_address: 0,
        task_index: 0,
        clip_task_index: 0,
        layer_index: 0,
        sub_index: 0,
        z_sort_index: 0,
        user_data: [0, 0],
    }
}

fn batch(
    kind: AlphaBatchKind,
    blend_mode: BlendMode,
    transform_kind: TransformedRectKind,
    needs_clipping: bool,
    instances: usize,
) -> PrimitiveBatch {
    PrimitiveBatch {
        key: AlphaBatchKey {
            kind,
            flags: AlphaBatchKeyFlags::new(transform_kind, needs_clipping),
            blend_mode,
            textures: BatchTextures::no_texture(),
        },
        instances: vec![instance(); instances],
    }
}

fn rectangle() -> PrimitiveBatch {
    batch(AlphaBatchKind::Rectangle, BlendMode::NoBlend, TransformedRectKind::AxisAligned, false, 1)
}

fn target(opaque: Vec<PrimitiveBatch>, alpha: Vec<PrimitiveBatch>) -> ColorRenderTarget {
    ColorRenderTarget {
        alpha_batcher: AlphaBatcher {
            batch_list: BatchList { opaque_batches: opaque, alpha_batches: alpha },
        },
    }
}

fn pass(is_framebuffer: bool, colors: Vec<ColorRenderTarget>, alphas: usize) -> RenderPass {
    RenderPass {
        is_framebuffer,
        color_targets: RenderTargetList { targets: colors },
        alpha_targets: RenderTargetList { targets: vec![AlphaRenderTarget {}; alphas] },
    }
}

fn frame(passes: Vec<RenderPass>) -> Frame {
    let mut frame = Frame::new(size(800, 600), size(256, 128));
    frame.passes = passes;
    frame
}

fn draws(commands: &[Command]) -> Vec<Command> {
    commands.iter().filter(|c| matches!(c, Command::Draw { .. })).cloned().collect()
}

fn position(commands: &[Command], wanted: &Command) -> usize {
    commands.iter().position(|c| c == wanted).unwrap()
}

fn resolve(id: u64, channel_index: u8, image_type: ExternalImageType, address: i32) -> DeferredResolve {
    DeferredResolve {
        image_properties: ImageProperties {
            external_image: Some(ExternalImageData {
                id: ExternalImageId(id),
                channel_index,
                image_type,
            }),
        },
        resource_address: GpuStoreAddress(address),
    }
}

fn native(name: u32) -> LockedImage {
    LockedImage { u0: 1, v0: 2, u1: 3, v1: 4, native_texture: Some(name) }
}

fn blank_rect() -> TexelRect {
    TexelRect { uv0: DevicePoint::new(0, 0), uv1: DevicePoint::new(0, 0) }
}

#[test]
fn one_opaque_rectangle_on_a_black_framebuffer() {
    let mut renderer = renderer(false, true);
    let mut frame = frame(vec![pass(true, vec![target(vec![rectangle()], Vec::new())], 0)]);
    frame.background_color = Some(black());
    let commands = renderer
        .draw_tile_frame(&mut frame, &size(800, 600), &Vec::new(), &Vec::new(), &Vec::new())
        .unwrap();
    let clear = Command::ClearTarget { color: Some(black()), depth: Some(ONE) };
    let draw = Command::Draw {
        program: ProgramId(0),
        projection: Projection::Framebuffer { width: 800, height: 600 },
        batch: BatchRef { pass: 0, target: 0, opaque: true, index: 0 },
        instances: 1,
        blend_mode: BlendMode::NoBlend,
    };
    assert_eq!(draws(&commands), vec![draw]);
    assert!(position(&commands, &clear) < position(&commands, &draw));
    assert_eq!(
        commands,
        vec![
            Command::BindTexture { sampler: TextureSampler::CacheA8, texture: texture(3) },
            Command::BindTexture { sampler: TextureSampler::CacheRGBA8, texture: texture(2) },
            clear,
            Command::BindTexture { sampler: TextureSampler::Color0, texture: TextureId::invalid() },
            Command::BindTexture { sampler: TextureSampler::Color1, texture: TextureId::invalid() },
            Command::BindTexture { sampler: TextureSampler::Color2, texture: TextureId::invalid() },
            draw,
        ]
    );
}

#[test]
fn external_image_without_handler_stops_the_frame() {
    let mut renderer = renderer(false, true);
    let mut frame = frame(vec![pass(true, vec![target(vec![rectangle()], Vec::new())], 0)]);
    frame.gpu_resource_rects = vec![blank_rect()];
    frame.deferred_resolves = vec![resolve(5, 0, ExternalImageType::Texture2DHandle, 0)];
    let before = frame.clone();
    let result =
        renderer.draw_tile_frame(&mut frame, &size(800, 600), &vec![native(40)], &Vec::new(), &Vec::new());
    assert_eq!(result, Err(RenderError::NoExternalImageHandler));
    assert_eq!(frame, before);
}

#[test]
fn second_frame_reuses_the_target_of_the_first() {
    let mut renderer = renderer(false, true);
    let passes = vec![pass(false, vec![target(vec![rectangle()], Vec::new())], 0)];
    let mut first = frame(passes.clone());
    assert_eq!(renderer.targets_to_create(&first, RenderTargetKind::Color), 1);
    assert_eq!(renderer.targets_to_create(&first, RenderTargetKind::Alpha), 0);
    let commands = renderer
        .draw_tile_frame(&mut first, &size(800, 600), &Vec::new(), &vec![texture(50)], &Vec::new())
        .unwrap();
    let init = Command::InitTexture {
        texture: texture(50),
        width: 256,
        height: 128,
        format: ImageFormat::RGBA8,
        filter: TextureFilter::Linear,
        mode: RenderTargetMode::LayerRenderTarget(1),
        data: PixelSource::Empty,
    };
    assert_eq!(commands[0], init);
    assert_eq!(renderer.render_targets.free_count(RenderTargetKind::Color), 1);

    let mut second = frame(passes);
    assert_eq!(renderer.targets_to_create(&second, RenderTargetKind::Color), 0);
    let commands = renderer
        .draw_tile_frame(&mut second, &size(800, 600), &Vec::new(), &Vec::new(), &Vec::new())
        .unwrap();
    assert_eq!(commands[0], init);
    assert_eq!(renderer.render_targets.color_render_targets, vec![texture(50)]);
}

#[test]
fn target_of_a_pass_is_pooled_when_the_next_pass_needs_none() {
    let mut renderer = renderer(false, true);
    let passes = vec![
        pass(false, vec![target(vec![rectangle()], Vec::new())], 0),
        pass(true, vec![target(vec![rectangle()], Vec::new())], 0),
    ];
    let mut first = frame(passes.clone());
    renderer
        .draw_tile_frame(&mut first, &size(800, 600), &Vec::new(), &vec![texture(60)], &Vec::new())
        .unwrap();
    assert_eq!(renderer.render_targets.color_render_targets, vec![texture(60)]);
    let mut next = frame(passes);
    let commands = renderer
        .draw_tile_frame(&mut next, &size(800, 600), &Vec::new(), &Vec::new(), &Vec::new())
        .unwrap();
    match commands[0] {
        Command::InitTexture { texture: id, .. } => assert_eq!(id, texture(60)),
        _ => panic!("the target's storage was expected first"),
    }
}

#[test]
fn targets_come_back_in_the_order_of_their_passes() {
    let mut renderer = renderer(false, true);
    let passes = vec![
        pass(false, vec![target(Vec::new(), Vec::new())], 1),
        pass(false, vec![target(Vec::new(), Vec::new()), target(Vec::new(), Vec::new())], 0),
        pass(true, vec![target(Vec::new(), Vec::new())], 0),
    ];
    let mut first = frame(passes.clone());
    let fresh_color = vec![texture(70), texture(71)];
    let fresh_alpha = vec![texture(80)];
    let commands = renderer
        .draw_tile_frame(&mut first, &size(800, 600), &Vec::new(), &fresh_color, &fresh_alpha)
        .unwrap();
    // The pool was reversed, so that the first pass is served first again.
    assert_eq!(renderer.render_targets.color_render_targets, vec![texture(71), texture(70)]);
    assert_eq!(renderer.render_targets.alpha_render_targets, vec![texture(80)]);
    let mut second = frame(passes);
    let again = renderer
        .draw_tile_frame(&mut second, &size(800, 600), &Vec::new(), &Vec::new(), &Vec::new())
        .unwrap();
    assert_eq!(again, commands);
    assert_eq!(renderer.render_targets.color_render_targets, vec![texture(71), texture(70)]);
}

#[test]
fn each_pass_samples_what_the_pass_before_drew() {
    let mut renderer = renderer(false, true);
    let passes = vec![
        pass(false, vec![target(Vec::new(), Vec::new())], 2),
        pass(false, vec![target(Vec::new(), Vec::new())], 0),
        pass(true, vec![target(Vec::new(), Vec::new())], 0),
    ];
    let mut frame = frame(passes);
    let commands = renderer
        .draw_tile_frame(
            &mut frame,
            &size(800, 600),
            &Vec::new(),
            &vec![texture(70), texture(71)],
            &vec![texture(80)],
        )
        .unwrap();
    let binds: Vec<Command> = commands
        .iter()
        .filter(|c| {
            matches!(
                c,
                Command::BindTexture { sampler: TextureSampler::CacheA8, .. }
                    | Command::BindTexture { sampler: TextureSampler::CacheRGBA8, .. }
            )
        })
        .cloned()
        .collect();
    assert_eq!(
        binds,
        vec![
            Command::BindTexture { sampler: TextureSampler::CacheA8, texture: texture(3) },
            Command::BindTexture { sampler: TextureSampler::CacheRGBA8, texture: texture(2) },
            Command::BindTexture { sampler: TextureSampler::CacheA8, texture: texture(80) },
            Command::BindTexture { sampler: TextureSampler::CacheRGBA8, texture: texture(70) },
            Command::BindTexture { sampler: TextureSampler::CacheA8, texture: texture(3) },
            Command::BindTexture { sampler: TextureSampler::CacheRGBA8, texture: texture(71) },
        ]
    );
    // The storage of the targets: layers as the passes have targets.
    assert_eq!(
        commands[1],
        Command::InitTexture {
            texture: texture(80),
            width: 256,
            height: 128,
            format: ImageFormat::A8,
            filter: TextureFilter::Nearest,
            mode: RenderTargetMode::LayerRenderTarget(2),
            data: PixelSource::Empty,
        }
    );
}

#[test]
fn frame_without_passes_draws_nothing_and_keeps_the_pool() {
    let mut renderer = renderer(false, true);
    renderer.render_targets.color_render_targets = vec![texture(1), texture(2)];
    let mut frame = frame(Vec::new());
    frame.gpu_data16 = vec![GpuBlock { data: [7; 4] }];
    let commands = renderer
        .draw_tile_frame(&mut frame, &size(800, 600), &Vec::new(), &Vec::new(), &Vec::new())
        .unwrap();
    assert_eq!(commands, Vec::new());
    assert_eq!(renderer.render_targets.color_render_targets, vec![texture(1), texture(2)]);
    assert_eq!(frame.gpu_data16.len(), 1);
}

#[test]
fn framebuffer_is_not_cleared_when_clearing_is_off_and_the_window_fills_it() {
    let mut renderer = renderer(false, false);
    let mut frame = frame(vec![pass(true, vec![target(vec![rectangle()], Vec::new())], 0)]);
    let commands = renderer
        .draw_tile_frame(&mut frame, &size(800, 600), &Vec::new(), &Vec::new(), &Vec::new())
        .unwrap();
    assert_eq!(commands[2], Command::ClearTarget { color: None, depth: Some(ONE) });
}

#[test]
fn framebuffer_is_cleared_when_the_window_is_smaller() {
    let mut renderer = renderer(false, false);
    for framebuffer in [size(801, 600), size(800, 601)] {
        let mut frame = frame(vec![pass(true, vec![target(vec![rectangle()], Vec::new())], 0)]);
        let commands = renderer
            .draw_tile_frame(&mut frame, &framebuffer, &Vec::new(), &Vec::new(), &Vec::new())
            .unwrap();
        // No background: the renderer's own clear colour, white by default.
        assert_eq!(
            commands[2],
            Command::ClearTarget { color: Some(ColorF::white()), depth: Some(ONE) }
        );
    }
}

#[test]
fn clipped_rectangle_uses_the_clip_program() {
    let mut renderer = renderer(false, true);
    let clipped = batch(
        AlphaBatchKind::Rectangle,
        BlendMode::Alpha,
        TransformedRectKind::Complex,
        true,
        3,
    );
    let mut frame = frame(vec![pass(true, vec![target(Vec::new(), vec![clipped])], 0)]);
    let commands = renderer
        .draw_tile_frame(&mut frame, &size(800, 600), &Vec::new(), &Vec::new(), &Vec::new())
        .unwrap();
    assert_eq!(
        draws(&commands),
        vec![Command::Draw {
            program: ProgramId(3),
            projection: Projection::Framebuffer { width: 800, height: 600 },
            batch: BatchRef { pass: 0, target: 0, opaque: false, index: 0 },
            instances: 3,
            blend_mode: BlendMode::Alpha,
        }]
    );
}

#[test]
fn clipping_without_blending_is_refused() {
    let mut renderer = renderer(false, true);
    let wrong = batch(
        AlphaBatchKind::Rectangle,
        BlendMode::NoBlend,
        TransformedRectKind::AxisAligned,
        true,
        1,
    );
    let mut frame = frame(vec![pass(true, vec![target(vec![rectangle(), wrong], Vec::new())], 0)]);
    let result =
        renderer.draw_tile_frame(&mut frame, &size(800, 600), &Vec::new(), &Vec::new(), &Vec::new());
    assert_eq!(result, Err(RenderError::ClipWithoutBlend));
}

#[test]
fn opaque_batches_are_drawn_before_alpha_batches() {
    let mut renderer = renderer(false, true);
    let text = batch(
        AlphaBatchKind::TextRun,
        BlendMode::Subpixel(black()),
        TransformedRectKind::AxisAligned,
        false,
        2,
    );
    let plain_text = batch(
        AlphaBatchKind::TextRun,
        BlendMode::Alpha,
        TransformedRectKind::Complex,
        false,
        2,
    );
    let composite = batch(
        AlphaBatchKind::Composite,
        BlendMode::PremultipliedAlpha,
        TransformedRectKind::Complex,
        false,
        1,
    );
    let mut frame = frame(vec![pass(
        false,
        vec![target(vec![rectangle(), composite], vec![text, plain_text])],
        0,
    )]);
    let commands = renderer
        .draw_tile_frame(&mut frame, &size(800, 600), &Vec::new(), &vec![texture(9)], &Vec::new())
        .unwrap();
    let drawn: Vec<(ProgramId, BatchRef)> = draws(&commands)
        .iter()
        .map(|c| match *c {
            Command::Draw { program, batch, .. } => (program, batch),
            _ => unreachable!(),
        })
        .collect();
    assert_eq!(
        drawn,
        vec![
            (ProgramId(0), BatchRef { pass: 0, target: 0, opaque: true, index: 0 }),
            (ProgramId(39), BatchRef { pass: 0, target: 0, opaque: true, index: 1 }),
            (ProgramId(6), BatchRef { pass: 0, target: 0, opaque: false, index: 0 }),
            (ProgramId(5), BatchRef { pass: 0, target: 0, opaque: false, index: 1 }),
        ]
    );
    // A pooled target is not cleared by the renderer.
    assert!(!commands.iter().any(|c| matches!(c, Command::ClearTarget { .. })));
    match commands.iter().find(|c| matches!(c, Command::Draw { .. })).unwrap() {
        Command::Draw { projection, .. } => {
            assert_eq!(*projection, Projection::Cache { width: 256, height: 128 })
        }
        _ => unreachable!(),
    }
}

#[test]
fn yuv_image_flushes_and_binds_its_planes() {
    let mut renderer = renderer(true, true);
    let mut yuv = batch(
        AlphaBatchKind::YuvImage(
            ImageBufferKind::Texture2D,
            YuvFormat::PlanarYCbCr,
            YuvColorSpace::Rec709,
        ),
        BlendMode::Alpha,
        TransformedRectKind::Complex,
        false,
        1,
    );
    yuv.key.textures.colors = [
        SourceTexture::WebGL(11),
        SourceTexture::WebGL(12),
        SourceTexture::Invalid,
    ];
    let mut frame = frame(vec![pass(true, vec![target(Vec::new(), vec![yuv])], 0)]);
    let commands = renderer
        .draw_tile_frame(&mut frame, &size(800, 600), &Vec::new(), &Vec::new(), &Vec::new())
        .unwrap();
    assert_eq!(
        commands[3..].to_vec(),
        vec![
            Command::Flush,
            Command::BindYuvTexture { sampler: TextureSampler::Color0, texture: texture(11) },
            Command::BindYuvTexture { sampler: TextureSampler::Color1, texture: texture(12) },
            Command::BindYuvTexture {
                sampler: TextureSampler::Color2,
                texture: TextureId::invalid(),
            },
            Command::BindTexture { sampler: TextureSampler::Dither, texture: texture(4) },
            Command::Draw {
                // Pair 5 + (1 * 2 + 1), second program of the pair.
                program: ProgramId(17),
                projection: Projection::Framebuffer { width: 800, height: 600 },
                batch: BatchRef { pass: 0, target: 0, opaque: false, index: 0 },
                instances: 1,
                blend_mode: BlendMode::Alpha,
            },
        ]
    );
}

#[test]
fn batch_texture_of_the_cache_is_resolved_through_the_table() {
    let mut renderer = renderer(false, true);
    let create = TextureUpdate {
        id: CacheTextureId(0),
        op: TextureUpdateOp::Create {
            width: 4,
            height: 4,
            format: ImageFormat::RGBA8,
            filter: TextureFilter::Linear,
            mode: RenderTargetMode::NoTarget,
            data: None,
        },
    };
    renderer.pending_texture_updates.push(create);
    renderer.update_texture_cache(vec![texture(33)]).unwrap();
    let mut image = batch(
        AlphaBatchKind::Image(ImageBufferKind::Texture2D),
        BlendMode::Alpha,
        TransformedRectKind::AxisAligned,
        false,
        1,
    );
    image.key.textures.colors[0] = SourceTexture::TextureCache(CacheTextureId(0));
    let mut good = frame(vec![pass(true, vec![target(Vec::new(), vec![image.clone()])], 0)]);
    let commands = renderer
        .draw_tile_frame(&mut good, &size(800, 600), &Vec::new(), &Vec::new(), &Vec::new())
        .unwrap();
    assert_eq!(
        commands[3],
        Command::BindTexture { sampler: TextureSampler::Color0, texture: texture(33) }
    );
    image.key.textures.colors[1] = SourceTexture::TextureCache(CacheTextureId(1));
    let mut bad = frame(vec![pass(true, vec![target(Vec::new(), vec![image])], 0)]);
    assert_eq!(
        renderer.draw_tile_frame(&mut bad, &size(800, 600), &Vec::new(), &Vec::new(), &Vec::new()),
        Err(RenderError::UnknownCacheTexture)
    );
}

#[test]
fn deferred_resolve_binds_patches_and_unlocks() {
    let mut renderer = renderer(false, true);
    renderer.set_external_image_handler();
    let mut image = batch(
        AlphaBatchKind::Image(ImageBufferKind::TextureRect),
        BlendMode::Alpha,
        TransformedRectKind::AxisAligned,
        false,
        1,
    );
    image.key.textures.colors[0] = SourceTexture::External(ExternalImageData {
        id: ExternalImageId(5),
        channel_index: 1,
        image_type: ExternalImageType::TextureRectHandle,
    });
    let mut frame = frame(vec![pass(true, vec![target(Vec::new(), vec![image])], 0)]);
    frame.gpu_resource_rects = vec![blank_rect(), blank_rect()];
    frame.deferred_resolves = vec![
        resolve(5, 1, ExternalImageType::TextureRectHandle, 1),
        resolve(6, 0, ExternalImageType::TextureExternalHandle, 0),
        resolve(5, 1, ExternalImageType::TextureRectHandle, 0),
    ];
    let locked = vec![
        LockedImage { u0: 10, v0: 11, u1: 12, v1: 13, native_texture: Some(100) },
        LockedImage { u0: 20, v0: 21, u1: 22, v1: 23, native_texture: Some(101) },
        LockedImage { u0: 30, v0: 31, u1: 32, v1: 33, native_texture: Some(102) },
    ];
    let commands = renderer
        .draw_tile_frame(&mut frame, &size(800, 600), &locked, &Vec::new(), &Vec::new())
        .unwrap();
    // The rectangles are patched in the order of the resolves.
    assert_eq!(
        frame.gpu_resource_rects[0],
        TexelRect { uv0: DevicePoint::new(30, 31), uv1: DevicePoint::new(32, 33) }
    );
    assert_eq!(
        frame.gpu_resource_rects[1],
        TexelRect { uv0: DevicePoint::new(10, 11), uv1: DevicePoint::new(12, 13) }
    );
    // The image locked twice is bound to what its last lock gave.
    assert!(commands.contains(&Command::BindTexture {
        sampler: TextureSampler::Color0,
        texture: TextureId::new(102, TextureTarget::Rect),
    }));
    // Every image is unlocked once, after the last draw.
    let unlocks: Vec<Command> = commands
        .iter()
        .filter(|c| matches!(c, Command::UnlockExternalImage { .. }))
        .cloned()
        .collect();
    assert_eq!(
        unlocks,
        vec![
            Command::UnlockExternalImage { id: ExternalImageId(5), channel_index: 1 },
            Command::UnlockExternalImage { id: ExternalImageId(6), channel_index: 0 },
        ]
    );
    let last_draw = commands.iter().rposition(|c| matches!(c, Command::Draw { .. })).unwrap();
    assert_eq!(last_draw + 3, commands.len());
    // The patched rectangles are uploaded, padded to a whole row.
    assert_eq!(frame.gpu_resource_rects.len(), 1024);
    assert!(commands.contains(&Command::UpdateSampler {
        sampler: TextureSampler::ResourceRects,
        format: ImageFormat::RGBAF32,
        records: 1024,
        record_size: 4,
    }));
}

#[test]
fn batch_of_an_unresolved_external_image_is_refused() {
    let mut renderer = renderer(false, true);
    renderer.set_external_image_handler();
    let mut image = rectangle();
    image.key.textures.colors[2] = SourceTexture::External(ExternalImageData {
        id: ExternalImageId(5),
        channel_index: 1,
        image_type: ExternalImageType::Texture2DHandle,
    });
    let mut frame = frame(vec![pass(true, vec![target(vec![image], Vec::new())], 0)]);
    frame.gpu_resource_rects = vec![blank_rect()];
    frame.deferred_resolves = vec![resolve(5, 0, ExternalImageType::Texture2DHandle, 0)];
    assert_eq!(
        renderer.draw_tile_frame(&mut frame, &size(800, 600), &vec![native(1)], &Vec::new(), &Vec::new()),
        Err(RenderError::UnresolvedExternalImage)
    );
}

#[test]
fn deferred_resolve_errors() {
    let mut renderer = renderer(false, true);
    renderer.set_external_image_handler();
    let base = {
        let mut frame = frame(Vec::new());
        frame.gpu_resource_rects = vec![blank_rect()];
        frame
    };
    let fb = size(800, 600);
    let none: Vec<TextureId> = Vec::new();
    let no_image: Vec<LockedImage> = Vec::new();

    let mut not_external = base.clone();
    not_external.deferred_resolves = vec![DeferredResolve {
        image_properties: ImageProperties { external_image: None },
        resource_address: GpuStoreAddress(0),
    }];
    assert_eq!(
        renderer.draw_tile_frame(&mut not_external, &fb, &vec![native(1)], &none, &none),
        Err(RenderError::ResolveNotExternal)
    );

    let mut buffer = base.clone();
    buffer.deferred_resolves = vec![resolve(1, 0, ExternalImageType::ExternalBuffer, 0)];
    assert_eq!(
        renderer.draw_tile_frame(&mut buffer, &fb, &vec![native(1)], &none, &none),
        Err(RenderError::UnsuitableImageType)
    );

    let mut raw = base.clone();
    raw.deferred_resolves = vec![resolve(1, 0, ExternalImageType::Texture2DHandle, 0)];
    let bytes = LockedImage { u0: 0, v0: 0, u1: 0, v1: 0, native_texture: None };
    assert_eq!(
        renderer.draw_tile_frame(&mut raw, &fb, &vec![bytes], &none, &none),
        Err(RenderError::NoNativeTexture)
    );

    for address in [-1, 1] {
        let mut beyond = base.clone();
        beyond.deferred_resolves =
            vec![resolve(1, 0, ExternalImageType::Texture2DHandle, address)];
        assert_eq!(
            renderer.draw_tile_frame(&mut beyond, &fb, &vec![native(1)], &none, &none),
            Err(RenderError::UnknownResourceRect)
        );
        assert_eq!(beyond.gpu_resource_rects, vec![blank_rect()]);
    }

    let mut unanswered = base.clone();
    unanswered.deferred_resolves = vec![resolve(1, 0, ExternalImageType::Texture2DHandle, 0)];
    assert_eq!(
        renderer.draw_tile_frame(&mut unanswered, &fb, &no_image, &none, &none),
        Err(RenderError::SupplyMismatch)
    );
    let mut unasked = base.clone();
    assert_eq!(
        renderer.draw_tile_frame(&mut unasked, &fb, &vec![native(1)], &none, &none),
        Err(RenderError::SupplyMismatch)
    );
}

#[test]
fn framebuffer_pass_with_alpha_targets_is_refused() {
    let mut renderer = renderer(false, true);
    let mut frame = frame(vec![pass(true, vec![target(Vec::new(), Vec::new())], 1)]);
    assert_eq!(
        renderer.draw_tile_frame(&mut frame, &size(1, 1), &Vec::new(), &Vec::new(), &Vec::new()),
        Err(RenderError::MissingAlphaTarget)
    );
}

#[test]
fn wrong_number_of_created_targets_is_refused() {
    let mut renderer = renderer(false, true);
    let passes = vec![pass(false, vec![target(Vec::new(), Vec::new())], 1)];
    let fb = size(1, 1);
    let none: Vec<LockedImage> = Vec::new();
    let mut frame = frame(passes);
    assert_eq!(
        renderer.draw_tile_frame(&mut frame, &fb, &none, &Vec::new(), &vec![texture(1)]),
        Err(RenderError::SupplyMismatch)
    );
    assert_eq!(
        renderer.draw_tile_frame(&mut frame, &fb, &none, &vec![texture(1)], &Vec::new()),
        Err(RenderError::SupplyMismatch)
    );
    assert_eq!(
        renderer.draw_tile_frame(
            &mut frame,
            &fb,
            &none,
            &vec![texture(1), texture(2)],
            &vec![texture(3)]
        ),
        Err(RenderError::SupplyMismatch)
    );
    assert!(renderer.render_targets.color_render_targets.is_empty());
    assert!(renderer
        .draw_tile_frame(&mut frame, &fb, &none, &vec![texture(1)], &vec![texture(3)])
        .is_ok());
}

#[test]
fn uploads_come_after_the_targets_and_before_the_passes() {
    let mut renderer = renderer(false, true);
    let mut frame = frame(vec![pass(false, vec![target(vec![rectangle()], Vec::new())], 0)]);
    frame.gpu_data32 = vec![GpuBlock { data: [1; 8] }; 3];
    frame.layer_texture_data = vec![GpuBlock { data: [2; 36] }; 2];
    let commands = renderer
        .draw_tile_frame(&mut frame, &size(800, 600), &Vec::new(), &vec![texture(9)], &Vec::new())
        .unwrap();
    assert!(matches!(commands[0], Command::InitTexture { .. }));
    assert_eq!(
        commands[1],
        Command::UpdateSampler {
            sampler: TextureSampler::Data32,
            format: ImageFormat::RGBAF32,
            records: 512,
            record_size: 8,
        }
    );
    assert_eq!(
        commands[2],
        Command::UpdateSampler {
            sampler: TextureSampler::Layers,
            format: ImageFormat::RGBAF32,
            records: 113,
            record_size: 36,
        }
    );
    assert_eq!(
        commands[3],
        Command::BindTexture { sampler: TextureSampler::CacheA8, texture: texture(3) }
    );
    assert_eq!(frame.gpu_data32[2], GpuBlock { data: [1; 8] });
    assert_eq!(frame.gpu_data32[3], GpuBlock { data: [0; 8] });
}
