use webrender::command::{Command, PixelSource};
use webrender::texture_cache::{
    ImageData, TextureCacheUpdater, TextureUpdate, TextureUpdateOp,
};
use webrender::types::{
    CacheTextureId, DeviceUintPoint, DeviceUintRect, DeviceUintSize, ExternalImageData,
    ExternalImageId, ExternalImageType, ImageFormat, RenderError, RenderTargetMode,
    TextureFilter, TextureId, TextureTarget,
};

fn texture(name: u32) -> TextureId {
    TextureId::new(name, TextureTarget::Default)
}

fn create(slot: usize, width: u32, height: u32, data: Option<ImageData>) -> TextureUpdate {
    TextureUpdate {
        id: CacheTextureId(slot),
        op: TextureUpdateOp::Create {
            width,
            height,
            format: ImageFormat::RGBA8,
            filter: TextureFilter::Linear,
            mode: RenderTargetMode::NoTarget,
            data,
        },
    }
}

fn update(slot: usize, data: Vec<u8>, offset: u32) -> TextureUpdate {
    TextureUpdate {
        id: CacheTextureId(slot),
        op: TextureUpdateOp::Update {
            page_pos_x: 1,
            page_pos_y: 2,
            width: 3,
            height: 4,
            data,
            stride: Some(16),
            offset,
        },
    }
}

fn free(slot: usize) -> TextureUpdate {
    TextureUpdate { id: CacheTextureId(slot), op: TextureUpdateOp::Free }
}

fn grow(slot: usize, width: u32, height: u32) -> TextureUpdate {
    TextureUpdate {
        id: CacheTextureId(slot),
        op: TextureUpdateOp::Grow {
            width,
            height,
            format: ImageFormat::A8,
            filter: TextureFilter::Nearest,
            mode: RenderTargetMode::SimpleRenderTarget,
        },
    }
}

fn external(image_type: ExternalImageType) -> ExternalImageData {
    ExternalImageData { id: ExternalImageId(77), channel_index: 1, image_type }
}

/// The size that the device holds for a texture once the commands are
/// performed: what the last command that allocates it said.
fn size_after(commands: &[Command], wanted: TextureId) -> Option<(u32, u32)> {
    let mut size: Option<(u32, u32)> = None;
    for command in commands {
        match *command {
            Command::InitTexture { texture, width, height, .. } if texture == wanted => {
                size = Some((width, height));
            }
            Command::ResizeTexture { texture, width, height, .. } if texture == wanted => {
                size = Some((width, height));
            }
            Command::DeinitTexture { texture } if texture == wanted => {
                size = None;
            }
            _ => {}
        }
    }
    size
}

#[test]
fn create_update_free_create_reuses_the_slot() {
    let updates = vec![
        create(0, 64, 64, None),
        update(0, vec![0u8; 48], 0),
        free(0),
        create(0, 128, 128, None),
    ];
    let mut cache = TextureCacheUpdater::new();
    let requests = cache.texture_requests(&updates, false).unwrap();
    assert_eq!(requests, vec![ImageFormat::RGBA8]);
    let commands = cache.apply(&updates, vec![texture(10)], false).unwrap();
    assert_eq!(cache.len(), 1);
    assert_eq!(cache.get(CacheTextureId(0)), Some(texture(10)));
    assert_eq!(cache.get(CacheTextureId(1)), None);
    assert_eq!(size_after(&commands, texture(10)), Some((128, 128)));
    assert_eq!(
        commands,
        vec![
            Command::InitTexture {
                texture: texture(10),
                width: 64,
                height: 64,
                format: ImageFormat::RGBA8,
                filter: TextureFilter::Linear,
                mode: RenderTargetMode::NoTarget,
                data: PixelSource::Empty,
            },
            Command::UpdateTexture {
                texture: texture(10),
                x: 1,
                y: 2,
                width: 3,
                height: 4,
                stride: Some(16),
                data: PixelSource::Update { index: 1, offset: 0 },
            },
            Command::DeinitTexture { texture: texture(10) },
            Command::InitTexture {
                texture: texture(10),
                width: 128,
                height: 128,
                format: ImageFormat::RGBA8,
                filter: TextureFilter::Linear,
                mode: RenderTargetMode::NoTarget,
                data: PixelSource::Empty,
            },
        ]
    );
}

#[test]
fn table_length_is_highest_create_index_plus_one() {
    let updates = vec![
        create(0, 8, 8, None),
        create(1, 8, 8, None),
        create(0, 16, 16, None),
        create(2, 8, 8, None),
        free(1),
        create(1, 32, 32, None),
    ];
    let mut cache = TextureCacheUpdater::new();
    let requests = cache.texture_requests(&updates, false).unwrap();
    assert_eq!(requests.len(), 3);
    let fresh = vec![texture(5), texture(6), texture(7)];
    let commands = cache.apply(&updates, fresh, false).unwrap();
    assert_eq!(cache.len(), 3);
    assert_eq!(cache.get(CacheTextureId(0)), Some(texture(5)));
    assert_eq!(cache.get(CacheTextureId(1)), Some(texture(6)));
    assert_eq!(cache.get(CacheTextureId(2)), Some(texture(7)));
    assert_eq!(size_after(&commands, texture(5)), Some((16, 16)));
    assert_eq!(size_after(&commands, texture(6)), Some((32, 32)));
}

#[test]
fn no_operation_leaves_an_empty_table_empty() {
    let updates: Vec<TextureUpdate> = Vec::new();
    let mut cache = TextureCacheUpdater::new();
    assert_eq!(cache.texture_requests(&updates, false), Ok(Vec::new()));
    assert_eq!(cache.apply(&updates, Vec::new(), false), Ok(Vec::new()));
    assert_eq!(cache.len(), 0);
}

#[test]
fn later_lists_see_the_slots_of_earlier_ones() {
    let mut cache = TextureCacheUpdater::new();
    cache.apply(&vec![create(0, 8, 8, None)], vec![texture(3)], false).unwrap();
    let second = vec![grow(0, 20, 30), create(1, 4, 4, None)];
    assert_eq!(cache.texture_requests(&second, false), Ok(vec![ImageFormat::RGBA8]));
    let commands = cache.apply(&second, vec![texture(9)], false).unwrap();
    assert_eq!(cache.len(), 2);
    assert_eq!(
        commands[0],
        Command::ResizeTexture {
            texture: texture(3),
            width: 20,
            height: 30,
            format: ImageFormat::A8,
            filter: TextureFilter::Nearest,
            mode: RenderTargetMode::SimpleRenderTarget,
        }
    );
    assert_eq!(size_after(&commands, texture(3)), Some((20, 30)));
    assert_eq!(size_after(&commands, texture(9)), Some((4, 4)));
}

#[test]
fn raw_pixels_are_read_from_the_operation() {
    let updates = vec![create(0, 2, 2, Some(ImageData::Raw(vec![1u8; 16])))];
    let mut cache = TextureCacheUpdater::new();
    let commands = cache.apply(&updates, vec![texture(1)], false).unwrap();
    assert_eq!(commands.len(), 1);
    match commands[0] {
        Command::InitTexture { data, width, height, .. } => {
            assert_eq!(data, PixelSource::Update { index: 0, offset: 0 });
            assert_eq!((width, height), (2, 2));
        }
        _ => panic!("an upload was expected"),
    }
}

#[test]
fn external_buffer_is_locked_for_the_upload_only() {
    let image = external(ExternalImageType::ExternalBuffer);
    let updates = vec![create(0, 2, 2, Some(ImageData::External(image)))];
    let mut cache = TextureCacheUpdater::new();
    let commands = cache.apply(&updates, vec![texture(1)], true).unwrap();
    assert_eq!(
        commands,
        vec![
            Command::LockExternalImage { id: ExternalImageId(77), channel_index: 1 },
            Command::InitTexture {
                texture: texture(1),
                width: 2,
                height: 2,
                format: ImageFormat::RGBA8,
                filter: TextureFilter::Linear,
                mode: RenderTargetMode::NoTarget,
                data: PixelSource::LockedBuffer { offset: 0 },
            },
            Command::UnlockExternalImage { id: ExternalImageId(77), channel_index: 1 },
        ]
    );
}

#[test]
fn update_from_external_buffer_is_bracketed_by_lock_and_unlock() {
    let mut cache = TextureCacheUpdater::new();
    cache.apply(&vec![create(0, 8, 8, None)], vec![texture(4)], true).unwrap();
    let rect = DeviceUintRect {
        origin: DeviceUintPoint { x: 5, y: 6 },
        size: DeviceUintSize { width: 7, height: 8 },
    };
    let updates = vec![TextureUpdate {
        id: CacheTextureId(0),
        op: TextureUpdateOp::UpdateForExternalBuffer {
            rect,
            id: ExternalImageId(9),
            channel_index: 2,
            stride: None,
            offset: 12,
        },
    }];
    let commands = cache.apply(&updates, Vec::new(), true).unwrap();
    assert_eq!(
        commands,
        vec![
            Command::LockExternalImage { id: ExternalImageId(9), channel_index: 2 },
            Command::UpdateTexture {
                texture: texture(4),
                x: 5,
                y: 6,
                width: 7,
                height: 8,
                stride: None,
                data: PixelSource::LockedBuffer { offset: 12 },
            },
            Command::UnlockExternalImage { id: ExternalImageId(9), channel_index: 2 },
        ]
    );
}

#[test]
fn update_of_a_missing_slot_is_refused() {
    let mut cache = TextureCacheUpdater::new();
    let updates = vec![update(0, vec![0u8; 4], 0)];
    assert_eq!(cache.texture_requests(&updates, true), Err(RenderError::UnknownCacheTexture));
    assert_eq!(cache.apply(&updates, Vec::new(), true), Err(RenderError::UnknownCacheTexture));
    assert_eq!(cache.len(), 0);
}

#[test]
fn create_beyond_the_end_is_refused() {
    let mut cache = TextureCacheUpdater::new();
    let updates = vec![create(0, 1, 1, None), create(2, 1, 1, None)];
    assert_eq!(
        cache.apply(&updates, vec![texture(1), texture(2)], false),
        Err(RenderError::UnknownCacheTexture)
    );
    assert_eq!(cache.len(), 0);
}

#[test]
fn free_and_grow_of_a_missing_slot_are_refused() {
    let cache = TextureCacheUpdater::new();
    assert_eq!(cache.texture_requests(&vec![free(0)], false), Err(RenderError::UnknownCacheTexture));
    assert_eq!(
        cache.texture_requests(&vec![grow(3, 1, 1)], false),
        Err(RenderError::UnknownCacheTexture)
    );
}

#[test]
fn blob_data_is_no_pixel_buffer() {
    let cache = TextureCacheUpdater::new();
    let updates = vec![create(0, 1, 1, Some(ImageData::Blob(vec![1, 2, 3])))];
    assert_eq!(cache.texture_requests(&updates, true), Err(RenderError::NoSuitableImageBuffer));
}

#[test]
fn external_texture_handle_cannot_create_a_cache_texture() {
    let cache = TextureCacheUpdater::new();
    for image_type in [
        ExternalImageType::Texture2DHandle,
        ExternalImageType::TextureRectHandle,
        ExternalImageType::TextureExternalHandle,
    ] {
        let updates = vec![create(0, 1, 1, Some(ImageData::External(external(image_type))))];
        assert_eq!(
            cache.texture_requests(&updates, true),
            Err(RenderError::ExternalHandleInCreate)
        );
    }
}

#[test]
fn external_buffer_needs_a_handler() {
    let mut cache = TextureCacheUpdater::new();
    let image = external(ExternalImageType::ExternalBuffer);
    let updates = vec![create(0, 1, 1, Some(ImageData::External(image)))];
    assert_eq!(
        cache.apply(&updates, vec![texture(1)], false),
        Err(RenderError::NoExternalImageHandler)
    );
    assert_eq!(cache.len(), 0);
}

#[test]
fn missing_handler_is_reported_before_the_missing_slot() {
    let cache = TextureCacheUpdater::new();
    let rect = DeviceUintRect {
        origin: DeviceUintPoint { x: 0, y: 0 },
        size: DeviceUintSize { width: 1, height: 1 },
    };
    let updates = vec![TextureUpdate {
        id: CacheTextureId(4),
        op: TextureUpdateOp::UpdateForExternalBuffer {
            rect,
            id: ExternalImageId(1),
            channel_index: 0,
            stride: None,
            offset: 0,
        },
    }];
    assert_eq!(cache.texture_requests(&updates, false), Err(RenderError::NoExternalImageHandler));
    assert_eq!(cache.texture_requests(&updates, true), Err(RenderError::UnknownCacheTexture));
}

#[test]
fn offset_beyond_the_data_is_refused() {
    let mut cache = TextureCacheUpdater::new();
    cache.apply(&vec![create(0, 8, 8, None)], vec![texture(4)], false).unwrap();
    assert_eq!(
        cache.texture_requests(&vec![update(0, vec![0u8; 4], 5)], false),
        Err(RenderError::DataOffsetOutOfRange)
    );
    assert_eq!(cache.texture_requests(&vec![update(0, vec![0u8; 4], 4)], false), Ok(Vec::new()));
}

#[test]
fn first_error_in_order_is_reported() {
    let cache = TextureCacheUpdater::new();
    let updates = vec![
        create(0, 1, 1, Some(ImageData::Blob(Vec::new()))),
        update(7, Vec::new(), 0),
    ];
    assert_eq!(cache.texture_requests(&updates, false), Err(RenderError::NoSuitableImageBuffer));
}

#[test]
fn wrong_number_of_created_textures_is_refused() {
    let mut cache = TextureCacheUpdater::new();
    let updates = vec![create(0, 1, 1, None), create(1, 1, 1, None)];
    assert_eq!(cache.apply(&updates, vec![texture(1)], false), Err(RenderError::SupplyMismatch));
    assert_eq!(
        cache.apply(&updates, vec![texture(1), texture(2), texture(3)], false),
        Err(RenderError::SupplyMismatch)
    );
    assert_eq!(cache.len(), 0);
    assert!(cache.apply(&updates, vec![texture(1), texture(2)], false).is_ok());
    assert_eq!(cache.len(), 2);
}
