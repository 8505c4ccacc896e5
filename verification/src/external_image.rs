//! External image bridge: images that the application owns and hands over
//! for the time of a frame, as a native texture or as a buffer of bytes.
//!
//! The handler itself stays with the caller. The renderer says when an
//! image is to be locked and unlocked, reads what a lock gave, and keeps,
//! for one frame, the table of the native textures that were bound.

use vstd::prelude::*;
use crate::checks::first_error_of;
use crate::command::Command;
use crate::gpu_store::TexelRect;
use crate::tiling::DeferredResolve;
use crate::types::{
    DevicePoint, ExternalImageData, ExternalImageId, ExternalImageType, RenderError,
    TextureId, TextureTarget,
};

verus! {

/// What a locked image consists of.
#[derive(Copy, Clone, PartialEq, Eq, Debug)]
pub enum ExternalImageSource<'a> {
    /// A buffer of pixels.
    RawData(&'a [u8]),
    /// The device's name of a texture.
    NativeTexture(u32),
}

/// What the handler gives for a locked image: the part of the image to
/// sample, in texels, and the image. The four coordinates are bit patterns
/// of `f32` values.
#[derive(Copy, Clone, PartialEq, Eq, Debug)]
pub struct ExternalImage<'a> {
    pub u0: u32,
    pub v0: u32,
    pub u1: u32,
    pub v1: u32,
    pub source: ExternalImageSource<'a>,
}

/// What a deferred resolve reads of a locked image.
#[derive(Copy, Clone, PartialEq, Eq, Debug)]
pub struct LockedImage {
    pub u0: u32,
    pub v0: u32,
    pub u1: u32,
    pub v1: u32,
    pub native_texture: Option<u32>,
}

impl<'a> ExternalImageSource<'a> {
    pub open spec fn spec_native_texture(&self) -> Option<u32> {
        match *self {
            ExternalImageSource::NativeTexture(name) => Some(name),
            ExternalImageSource::RawData(_) => None,
        }
    }

    /// The texture of this image, where it is one.
    #[verifier::when_used_as_spec(spec_native_texture)]
    pub fn native_texture(&self) -> (r: Option<u32>)
        ensures
            r == self.spec_native_texture(),
    {
        match *self {
            ExternalImageSource::NativeTexture(name) => Some(name),
            ExternalImageSource::RawData(_) => None,
        }
    }

    /// The bytes of this image from `offset` on: what an upload from a
    /// locked buffer reads. There are none where the image is a texture,
    /// or where the buffer ends before `offset`.
    pub fn buffer(&self, offset: u32) -> (r: Result<&'a [u8], RenderError>)
        ensures
            match *self {
                ExternalImageSource::NativeTexture(_) => r == Err::<&[u8], RenderError>(
                    RenderError::NoExternalBuffer,
                ),
                ExternalImageSource::RawData(data) => if offset <= data@.len() {
                    r is Ok && r->Ok_0@ == data@.skip(offset as int)
                } else {
                    r == Err::<&[u8], RenderError>(RenderError::DataOffsetOutOfRange)
                },
            },
    {
        match *self {
            ExternalImageSource::NativeTexture(_) => Err(RenderError::NoExternalBuffer),
            ExternalImageSource::RawData(data) => {
                if offset as usize <= data.len() {
                    let rest = vstd::slice::slice_subrange(data, offset as usize, data.len());
                    assert(rest@ =~= data@.skip(offset as int));
                    Ok(rest)
                } else {
                    Err(RenderError::DataOffsetOutOfRange)
                }
            },
        }
    }
}

impl<'a> ExternalImage<'a> {
    pub open spec fn spec_locked(&self) -> LockedImage {
        LockedImage {
            u0: self.u0,
            v0: self.v0,
            u1: self.u1,
            v1: self.v1,
            native_texture: self.source.spec_native_texture(),
        }
    }

    /// What a deferred resolve reads of this image.
    #[verifier::when_used_as_spec(spec_locked)]
    pub fn locked(&self) -> (r: LockedImage)
        ensures
            r == self.spec_locked(),
    {
        LockedImage {
            u0: self.u0,
            v0: self.v0,
            u1: self.u1,
            v1: self.v1,
            native_texture: self.source.native_texture(),
        }
    }
}

impl LockedImage {
    /// The texel rectangle that this image is sampled in.
    pub open spec fn spec_rect(&self) -> TexelRect {
        TexelRect {
            uv0: DevicePoint { x: self.u0, y: self.v0 },
            uv1: DevicePoint { x: self.u1, y: self.v1 },
        }
    }

    #[verifier::when_used_as_spec(spec_rect)]
    pub fn rect(&self) -> (r: TexelRect)
        ensures
            r == self.spec_rect(),
    {
        TexelRect {
            uv0: DevicePoint::new(self.u0, self.v0),
            uv1: DevicePoint::new(self.u1, self.v1),
        }
    }
}

/// One channel of an external image: what a lock is asked for and what the
/// table of a frame is keyed by.
#[derive(Copy, Clone, PartialEq, Eq, Hash, Debug, Structural)]
pub struct ExternalImageKey {
    pub id: ExternalImageId,
    pub channel_index: u8,
}

/// How the texture of an external image is bound; an external buffer is no
/// texture.
pub open spec fn spec_texture_target(image_type: ExternalImageType) -> Option<TextureTarget> {
    match image_type {
        ExternalImageType::Texture2DHandle => Some(TextureTarget::Default),
        ExternalImageType::TextureRectHandle => Some(TextureTarget::Rect),
        ExternalImageType::TextureExternalHandle => Some(TextureTarget::External),
        ExternalImageType::ExternalBuffer => None,
    }
}

#[verifier::when_used_as_spec(spec_texture_target)]
pub fn texture_target(image_type: ExternalImageType) -> (r: Option<TextureTarget>)
    ensures
        r == spec_texture_target(image_type),
{
    match image_type {
        ExternalImageType::Texture2DHandle => Some(TextureTarget::Default),
        ExternalImageType::TextureRectHandle => Some(TextureTarget::Rect),
        ExternalImageType::TextureExternalHandle => Some(TextureTarget::External),
        ExternalImageType::ExternalBuffer => None,
    }
}

/// The key of an external image.
pub open spec fn spec_key_of(image: ExternalImageData) -> ExternalImageKey {
    ExternalImageKey { id: image.id, channel_index: image.channel_index }
}

#[verifier::when_used_as_spec(spec_key_of)]
pub fn key_of(image: ExternalImageData) -> (key: ExternalImageKey)
    ensures
        key == spec_key_of(image),
{
    ExternalImageKey { id: image.id, channel_index: image.channel_index }
}

/// A native texture bound for an external image.
#[derive(Copy, Clone, PartialEq, Eq, Debug)]
pub struct ExternalImageEntry {
    pub key: ExternalImageKey,
    pub texture: TextureId,
}

/// The place of the entry for `key`, if there is one: the first such place.
pub open spec fn find(entries: Seq<ExternalImageEntry>, key: ExternalImageKey) -> Option<int>
    decreases entries.len(),
{
    if entries.len() == 0 {
        None
    } else {
        match find(entries.drop_last(), key) {
            Some(i) => Some(i),
            None => if entries.last().key == key {
                Some(entries.len() - 1)
            } else {
                None
            },
        }
    }
}

/// The texture bound for `key`, if any.
pub open spec fn bound_texture(entries: Seq<ExternalImageEntry>, key: ExternalImageKey) -> Option<
    TextureId,
> {
    match find(entries, key) {
        Some(i) => Some(entries[i].texture),
        None => None,
    }
}

/// The entries once `texture` is bound for `key`: a key keeps the place at
/// which it was bound first.
pub open spec fn bind(
    entries: Seq<ExternalImageEntry>,
    key: ExternalImageKey,
    texture: TextureId,
) -> Seq<ExternalImageEntry> {
    match find(entries, key) {
        Some(i) => entries.update(i, ExternalImageEntry { key, texture }),
        None => entries.push(ExternalImageEntry { key, texture }),
    }
}

/// Whether every key has one entry at most.
pub open spec fn distinct_keys(entries: Seq<ExternalImageEntry>) -> bool {
    forall|i: int, j: int|
        0 <= i < j < entries.len() ==> (#[trigger] entries[i]).key != (#[trigger] entries[j]).key
}

/// What `find` gives is the first place at which the key stands, and it
/// gives nothing only where the key stands nowhere.
pub proof fn lemma_find(entries: Seq<ExternalImageEntry>, key: ExternalImageKey)
    ensures
        match find(entries, key) {
            Some(i) => 0 <= i < entries.len() && entries[i].key == key && forall|j: int|
                0 <= j < i ==> (#[trigger] entries[j]).key != key,
            None => forall|j: int| 0 <= j < entries.len() ==> (#[trigger] entries[j]).key != key,
        },
    decreases entries.len(),
{
    if entries.len() > 0 {
        lemma_find(entries.drop_last(), key);
        assert(forall|j: int|
            0 <= j < entries.len() - 1 ==> entries.drop_last()[j] == entries[j]);
    }
}

/// The first place at which a key stands is what `find` gives.
pub proof fn lemma_find_at(entries: Seq<ExternalImageEntry>, key: ExternalImageKey, i: int)
    requires
        0 <= i < entries.len(),
        entries[i].key == key,
        forall|j: int| 0 <= j < i ==> (#[trigger] entries[j]).key != key,
    ensures
        find(entries, key) == Some(i),
{
    lemma_find(entries, key);
}

/// Binding keeps the keys distinct, and the key that was bound resolves to
/// its new texture while every other key resolves as before.
pub proof fn lemma_bind(
    entries: Seq<ExternalImageEntry>,
    key: ExternalImageKey,
    texture: TextureId,
    other: ExternalImageKey,
)
    requires
        distinct_keys(entries),
    ensures
        distinct_keys(bind(entries, key, texture)),
        bound_texture(bind(entries, key, texture), key) == Some(texture),
        other != key ==> bound_texture(bind(entries, key, texture), other) == bound_texture(
            entries,
            other,
        ),
{
    lemma_find(entries, key);
    lemma_find(entries, other);
    let after = bind(entries, key, texture);
    lemma_find(after, key);
    lemma_find(after, other);
    match find(entries, key) {
        Some(i) => {
            assert(after[i].key == key);
        },
        None => {
            assert(after[entries.len() as int].key == key);
        },
    }
    if other != key {
        match find(entries, other) {
            Some(i) => {
                assert(after[i] == entries[i]);
            },
            None => {},
        }
        match find(after, other) {
            Some(i) => {
                assert(after[i] == entries[i]);
            },
            None => {},
        }
    }
}

/// The native textures bound for the external images of one frame.
pub struct ExternalImageTable {
    entries: Vec<ExternalImageEntry>,
}

impl View for ExternalImageTable {
    type V = Seq<ExternalImageEntry>;

    closed spec fn view(&self) -> Seq<ExternalImageEntry> {
        self.entries@
    }
}

impl ExternalImageTable {
    #[verifier::type_invariant]
    spec fn wf(self) -> bool {
        distinct_keys(self.entries@)
    }

    pub fn new() -> (table: ExternalImageTable)
        ensures
            table@ == Seq::<ExternalImageEntry>::empty(),
    {
        ExternalImageTable { entries: Vec::new() }
    }

    pub fn len(&self) -> (n: usize)
        ensures
            n == self@.len(),
            distinct_keys(self@),
    {
        proof {
            use_type_invariant(self);
        }
        self.entries.len()
    }

    pub fn is_empty(&self) -> (r: bool)
        ensures
            r == (self@.len() == 0),
    {
        self.entries.len() == 0
    }

    /// The entry at a place of the table, if the table has so many.
    pub fn entry(&self, index: usize) -> (e: Option<ExternalImageEntry>)
        ensures
            e == (if index < self@.len() {
                Some(self@[index as int])
            } else {
                None
            }),
    {
        if index < self.entries.len() {
            Some(self.entries[index])
        } else {
            None
        }
    }

    fn position(&self, key: ExternalImageKey) -> (r: Option<usize>)
        ensures
            r is Some == find(self@, key) is Some,
            r is Some ==> find(self@, key) == Some(r->0 as int) && r->0 < self@.len(),
    {
        let mut i: usize = 0;
        while i < self.entries.len()
            invariant
                i <= self.entries@.len(),
                forall|j: int| 0 <= j < i ==> (#[trigger] self.entries@[j]).key != key,
            decreases self.entries@.len() - i,
        {
            if self.entries[i].key == key {
                proof {
                    lemma_find_at(self.entries@, key, i as int);
                }
                return Some(i);
            }
            i = i + 1;
        }
        proof {
            lemma_find(self.entries@, key);
        }
        None
    }

    /// The texture bound for an image, if any.
    pub fn get(&self, key: ExternalImageKey) -> (r: Option<TextureId>)
        ensures
            r == bound_texture(self@, key),
    {
        match self.position(key) {
            Some(i) => Some(self.entries[i].texture),
            None => None,
        }
    }

    /// The table with a texture bound for an image; it replaces the one
    /// bound before.
    pub fn insert(self, key: ExternalImageKey, texture: TextureId) -> (table: ExternalImageTable)
        ensures
            table@ == bind(self@, key, texture),
            distinct_keys(table@),
    {
        proof {
            use_type_invariant(&self);
            lemma_bind(self.entries@, key, texture, key);
        }
        let position = self.position(key);
        let mut entries = self.entries;
        match position {
            Some(i) => {
                entries.set(i, ExternalImageEntry { key, texture });
            },
            None => {
                entries.push(ExternalImageEntry { key, texture });
            },
        }
        ExternalImageTable { entries }
    }
}

impl DeferredResolve {
    /// What is wrong with this resolve, given what the lock of its image
    /// gave and the number of resource rectangles of the frame.
    pub open spec fn error(self, locked: LockedImage, rects_len: nat) -> Option<RenderError> {
        match self.image_properties.external_image {
            None => Some(RenderError::ResolveNotExternal),
            Some(image) => {
                if image.image_type == ExternalImageType::ExternalBuffer {
                    Some(RenderError::UnsuitableImageType)
                } else if locked.native_texture is None {
                    Some(RenderError::NoNativeTexture)
                } else if !(0 <= self.resource_address.0 < rects_len) {
                    Some(RenderError::UnknownResourceRect)
                } else {
                    None
                }
            },
        }
    }

    /// Whether a texture can be bound for this resolve: its image is an
    /// external texture, and the lock gave one.
    pub open spec fn binds(self, locked: LockedImage) -> bool {
        self.image_properties.external_image matches Some(image) && image.image_type
            != ExternalImageType::ExternalBuffer && locked.native_texture is Some
    }

    /// What is wrong with this resolve before its image is locked.
    pub open spec fn static_error(self) -> Option<RenderError> {
        match self.image_properties.external_image {
            None => Some(RenderError::ResolveNotExternal),
            Some(image) => None,
        }
    }

    /// The image that is locked for this resolve.
    pub open spec fn key(self) -> ExternalImageKey {
        spec_key_of(self.image_properties.external_image->0)
    }

    /// The texture that is bound for this resolve.
    pub open spec fn texture(self, locked: LockedImage) -> TextureId {
        TextureId {
            name: locked.native_texture->0,
            target: spec_texture_target(self.image_properties.external_image->0.image_type)->0,
        }
    }

    pub fn check(&self, locked: &LockedImage, rects_len: usize) -> (r: Option<RenderError>)
        ensures
            r == self.error(*locked, rects_len as nat),
    {
        match self.image_properties.external_image {
            None => Some(RenderError::ResolveNotExternal),
            Some(image) => {
                match image.image_type {
                    ExternalImageType::ExternalBuffer => Some(RenderError::UnsuitableImageType),
                    _ => {
                        if locked.native_texture.is_none() {
                            Some(RenderError::NoNativeTexture)
                        } else if self.resource_address.0 < 0 || self.resource_address.0 as usize
                            >= rects_len {
                            Some(RenderError::UnknownResourceRect)
                        } else {
                            None
                        }
                    },
                }
            },
        }
    }
}

/// What is wrong with the deferred resolves of a frame, given what the
/// locks of their images gave, in the order of the resolves.
pub open spec fn resolves_error(
    resolves: Seq<DeferredResolve>,
    locked: Seq<LockedImage>,
    rects_len: nat,
    has_handler: bool,
) -> Option<RenderError> {
    if resolves.len() == 0 {
        if locked.len() == 0 {
            None
        } else {
            Some(RenderError::SupplyMismatch)
        }
    } else if !has_handler {
        Some(RenderError::NoExternalImageHandler)
    } else if locked.len() != resolves.len() {
        Some(RenderError::SupplyMismatch)
    } else {
        first_error_of(resolves.len(), |i: int| resolves[i].error(locked[i], rects_len))
    }
}

/// What is wrong with the deferred resolves of a frame before any image is
/// locked.
pub open spec fn resolves_static_error(resolves: Seq<DeferredResolve>, has_handler: bool) -> Option<
    RenderError,
> {
    if resolves.len() == 0 {
        None
    } else if !has_handler {
        Some(RenderError::NoExternalImageHandler)
    } else {
        first_error_of(resolves.len(), |i: int| resolves[i].static_error())
    }
}

/// The images to lock for the resolves of a frame: one lock per resolve, in
/// the order of the resolves.
pub open spec fn lock_requests(resolves: Seq<DeferredResolve>) -> Seq<ExternalImageKey> {
    Seq::new(resolves.len(), |i: int| resolves[i].key())
}

/// The table of a frame once its first `n` resolves are bound.
pub open spec fn resolved_table(
    resolves: Seq<DeferredResolve>,
    locked: Seq<LockedImage>,
    n: nat,
) -> Seq<ExternalImageEntry>
    decreases n,
{
    if n == 0 {
        Seq::empty()
    } else {
        bind(
            resolved_table(resolves, locked, (n - 1) as nat),
            resolves[n - 1].key(),
            resolves[n - 1].texture(locked[n - 1]),
        )
    }
}

/// The resource rectangles of a frame once its first `n` resolves have
/// patched them.
pub open spec fn patched_rects(
    rects: Seq<TexelRect>,
    resolves: Seq<DeferredResolve>,
    locked: Seq<LockedImage>,
    n: nat,
) -> Seq<TexelRect>
    decreases n,
{
    if n == 0 {
        rects
    } else {
        patched_rects(rects, resolves, locked, (n - 1) as nat).update(
            resolves[n - 1].resource_address.0 as int,
            locked[n - 1].spec_rect(),
        )
    }
}

/// The unlocks at the end of a frame: one for each image of the table.
pub open spec fn unlock_commands(entries: Seq<ExternalImageEntry>) -> Seq<Command> {
    Seq::new(
        entries.len(),
        |i: int|
            Command::UnlockExternalImage {
                id: entries[i].key.id,
                channel_index: entries[i].key.channel_index,
            },
    )
}

/// Binding never unbinds: a key that had a texture has one afterwards.
pub proof fn lemma_bind_keeps(
    entries: Seq<ExternalImageEntry>,
    key: ExternalImageKey,
    texture: TextureId,
    other: ExternalImageKey,
)
    requires
        distinct_keys(entries),
        bound_texture(entries, other) is Some,
    ensures
        bound_texture(bind(entries, key, texture), other) is Some,
{
    lemma_bind(entries, key, texture, other);
}

/// The table of a frame has one entry at most for an image.
pub proof fn lemma_resolved_table_distinct(
    resolves: Seq<DeferredResolve>,
    locked: Seq<LockedImage>,
    n: nat,
)
    ensures
        distinct_keys(resolved_table(resolves, locked, n)),
    decreases n,
{
    if n > 0 {
        lemma_resolved_table_distinct(resolves, locked, (n - 1) as nat);
        lemma_bind(
            resolved_table(resolves, locked, (n - 1) as nat),
            resolves[n - 1].key(),
            resolves[n - 1].texture(locked[n - 1]),
            resolves[n - 1].key(),
        );
    }
}

/// Every image that was locked for a deferred resolve of a frame is in
/// the table of the frame, and so is unlocked when the frame ends.
pub proof fn lemma_every_lock_is_bound(
    resolves: Seq<DeferredResolve>,
    locked: Seq<LockedImage>,
    n: nat,
    i: int,
)
    requires
        0 <= i < n,
    ensures
        bound_texture(resolved_table(resolves, locked, n), resolves[i].key()) is Some,
    decreases n,
{
    let before = resolved_table(resolves, locked, (n - 1) as nat);
    lemma_resolved_table_distinct(resolves, locked, (n - 1) as nat);
    if i == n - 1 {
        lemma_bind(before, resolves[i].key(), resolves[i].texture(locked[i]), resolves[i].key());
    } else {
        lemma_every_lock_is_bound(resolves, locked, (n - 1) as nat, i);
        lemma_bind_keeps(
            before,
            resolves[n - 1].key(),
            resolves[n - 1].texture(locked[n - 1]),
            resolves[i].key(),
        );
    }
}

/// No image is unlocked twice at the end of a frame, however often it was
/// locked, and every image of the table is unlocked.
pub proof fn lemma_unlocked_once(entries: Seq<ExternalImageEntry>, i: int, j: int)
    requires
        distinct_keys(entries),
        0 <= i < j < entries.len(),
    ensures
        unlock_commands(entries).len() == entries.len(),
        unlock_commands(entries)[i] != unlock_commands(entries)[j],
{
    assert(entries[i].key != entries[j].key);
}

/// The image of a deferred resolve that was bound last decides the
/// texture: a batch that samples the image gets what its last lock gave.
pub proof fn lemma_last_bind_wins(
    resolves: Seq<DeferredResolve>,
    locked: Seq<LockedImage>,
    n: nat,
    i: int,
)
    requires
        0 <= i < n,
        forall|j: int| i < j < n ==> (#[trigger] resolves[j]).key() != resolves[i].key(),
    ensures
        bound_texture(resolved_table(resolves, locked, n), resolves[i].key()) == Some(
            resolves[i].texture(locked[i]),
        ),
    decreases n,
{
    let before = resolved_table(resolves, locked, (n - 1) as nat);
    lemma_resolved_table_distinct(resolves, locked, (n - 1) as nat);
    lemma_bind(
        before,
        resolves[n - 1].key(),
        resolves[n - 1].texture(locked[n - 1]),
        resolves[i].key(),
    );
    if i < n - 1 {
        lemma_last_bind_wins(resolves, locked, (n - 1) as nat, i);
    }
}

/// The table in which each of the first `n` of the given images has its
/// entry, with no texture bound.
pub open spec fn locked_table(keys: Seq<ExternalImageKey>, n: nat) -> Seq<ExternalImageEntry>
    decreases n,
{
    if n == 0 {
        Seq::empty()
    } else {
        bind(locked_table(keys, (n - 1) as nat), keys[n - 1], TextureId::spec_invalid())
    }
}

/// Every image among the first `n` has one entry in their table, and no
/// image has two.
pub proof fn lemma_locked_table(keys: Seq<ExternalImageKey>, n: nat, i: int)
    requires
        0 <= i < n,
    ensures
        distinct_keys(locked_table(keys, n)),
        bound_texture(locked_table(keys, n), keys[i]) is Some,
    decreases n,
{
    let before = locked_table(keys, (n - 1) as nat);
    if n > 1 {
        lemma_locked_table(keys, (n - 1) as nat, if i < n - 1 {
            i
        } else {
            0
        });
    } else {
        assert(distinct_keys(before));
    }
    lemma_bind(before, keys[n - 1], TextureId::spec_invalid(), keys[i]);
}

/// Appends to `out` the unlock of each image of a table.
pub fn append_unlocks(out: &mut Vec<Command>, table: &ExternalImageTable)
    ensures
        final(out)@ == old(out)@ + unlock_commands(table@),
{
    let mut i: usize = 0;
    while i < table.len()
        invariant
            i <= table@.len(),
            out@ == old(out)@ + unlock_commands(table@).take(i as int),
        decreases table@.len() - i,
    {
        match table.entry(i) {
            Some(entry) => {
                out.push(
                    Command::UnlockExternalImage {
                        id: entry.key.id,
                        channel_index: entry.key.channel_index,
                    },
                );
            },
            None => {},
        }
        i = i + 1;
        assert(out@ =~= old(out)@ + unlock_commands(table@).take(i as int));
    }
    assert(out@ =~= old(out)@ + unlock_commands(table@));
}

/// The unlocks that release the given images, each of them once however
/// often it was locked: for a render that was stopped after its images
/// were locked, so that no lock outlives it.
pub fn release_locked(keys: &Vec<ExternalImageKey>) -> (commands: Vec<Command>)
    ensures
        commands@ == unlock_commands(locked_table(keys@, keys@.len())),
{
    let mut table = ExternalImageTable::new();
    let mut i: usize = 0;
    while i < keys.len()
        invariant
            i <= keys@.len(),
            table@ == locked_table(keys@, i as nat),
        decreases keys@.len() - i,
    {
        table = table.insert(keys[i], TextureId::invalid());
        i = i + 1;
    }
    let mut commands: Vec<Command> = Vec::new();
    append_unlocks(&mut commands, &table);
    assert(commands@ =~= unlock_commands(table@));
    commands
}

} // verus!
