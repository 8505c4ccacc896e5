use webrender::command::Command;
use webrender::external_image::{
    append_unlocks, key_of, release_locked, texture_target, ExternalImage, ExternalImageKey,
    ExternalImageSource, ExternalImageTable, LockedImage,
};
use webrender::gpu_store::TexelRect;
use webrender::types::{
    DevicePoint, ExternalImageData, ExternalImageId, ExternalImageType, RenderError, TextureId,
    TextureTarget,
};

fn key(id: u64, channel_index: u8) -> ExternalImageKey {
    ExternalImageKey { id: ExternalImageId(id), channel_index }
}

fn texture(name: u32) -> TextureId {
    TextureId::new(name, TextureTarget::External)
}

#[test]
fn buffer_is_read_from_the_offset() {
    let bytes: [u8; 5] = [1, 2, 3, 4, 5];
    let source = ExternalImageSource::RawData(&bytes);
    assert_eq!(source.buffer(0), Ok(&bytes[..]));
    assert_eq!(source.buffer(2), Ok(&bytes[2..]));
    assert_eq!(source.buffer(5), Ok(&bytes[5..]));
    assert_eq!(source.buffer(6), Err(RenderError::DataOffsetOutOfRange));
    assert_eq!(source.native_texture(), None);
}

#[test]
fn native_texture_is_no_buffer() {
    let source = ExternalImageSource::NativeTexture(12);
    assert_eq!(source.buffer(0), Err(RenderError::NoExternalBuffer));
    assert_eq!(source.native_texture(), Some(12));
}

#[test]
fn locked_image_keeps_the_rectangle_and_the_texture() {
    let image = ExternalImage {
        u0: 1,
        v0: 2,
        u1: 3,
        v1: 4,
        source: ExternalImageSource::NativeTexture(9),
    };
    let locked = image.locked();
    assert_eq!(locked, LockedImage { u0: 1, v0: 2, u1: 3, v1: 4, native_texture: Some(9) });
    assert_eq!(
        locked.rect(),
        TexelRect { uv0: DevicePoint::new(1, 2), uv1: DevicePoint::new(3, 4) }
    );
    let bytes: [u8; 1] = [0];
    let raw = ExternalImage { u0: 0, v0: 0, u1: 0, v1: 0, source: ExternalImageSource::RawData(&bytes) };
    assert_eq!(raw.locked().native_texture, None);
}

#[test]
fn texture_target_follows_the_image_type() {
    assert_eq!(texture_target(ExternalImageType::Texture2DHandle), Some(TextureTarget::Default));
    assert_eq!(texture_target(ExternalImageType::TextureRectHandle), Some(TextureTarget::Rect));
    assert_eq!(
        texture_target(ExternalImageType::TextureExternalHandle),
        Some(TextureTarget::External)
    );
    assert_eq!(texture_target(ExternalImageType::ExternalBuffer), None);
}

#[test]
fn key_is_the_image_and_its_channel() {
    let image = ExternalImageData {
        id: ExternalImageId(7),
        channel_index: 2,
        image_type: ExternalImageType::Texture2DHandle,
    };
    assert_eq!(key_of(image), key(7, 2));
}

#[test]
fn table_binds_one_texture_per_image() {
    let table = ExternalImageTable::new();
    assert!(table.is_empty());
    assert_eq!(table.get(key(1, 0)), None);
    let table = table.insert(key(1, 0), texture(10));
    let table = table.insert(key(1, 1), texture(11));
    let table = table.insert(key(2, 0), texture(12));
    assert_eq!(table.len(), 3);
    assert_eq!(table.get(key(1, 0)), Some(texture(10)));
    assert_eq!(table.get(key(1, 1)), Some(texture(11)));
    assert_eq!(table.get(key(2, 0)), Some(texture(12)));
    assert_eq!(table.get(key(2, 1)), None);
    // Binding again replaces the texture and keeps the place.
    let table = table.insert(key(1, 0), texture(20));
    assert_eq!(table.len(), 3);
    assert_eq!(table.get(key(1, 0)), Some(texture(20)));
    assert_eq!(table.entry(0).unwrap().key, key(1, 0));
    assert_eq!(table.entry(0).unwrap().texture, texture(20));
    assert_eq!(table.entry(2).unwrap().key, key(2, 0));
    assert_eq!(table.entry(3), None);
    assert!(!table.is_empty());
}

#[test]
fn every_image_of_the_table_is_unlocked() {
    let table = ExternalImageTable::new()
        .insert(key(3, 0), texture(1))
        .insert(key(1, 2), texture(2))
        .insert(key(3, 0), texture(3));
    let mut out = vec![Command::Flush];
    append_unlocks(&mut out, &table);
    assert_eq!(
        out,
        vec![
            Command::Flush,
            Command::UnlockExternalImage { id: ExternalImageId(3), channel_index: 0 },
            Command::UnlockExternalImage { id: ExternalImageId(1), channel_index: 2 },
        ]
    );
}

#[test]
fn stopped_render_releases_each_locked_image_once() {
    assert_eq!(release_locked(&Vec::new()), Vec::new());
    let keys = vec![key(1, 0), key(2, 0), key(1, 0), key(1, 1), key(2, 0)];
    assert_eq!(
        release_locked(&keys),
        vec![
            Command::UnlockExternalImage { id: ExternalImageId(1), channel_index: 0 },
            Command::UnlockExternalImage { id: ExternalImageId(2), channel_index: 0 },
            Command::UnlockExternalImage { id: ExternalImageId(1), channel_index: 1 },
        ]
    );
}
