//! Texture cache updater: applies the queued cache operations of the scene
//! builder, in arrival order, to the table that maps a cache slot to its
//! native texture.
//!
//! The table only grows: a create operation on the slot just past the end
//! appends a texture that the device made, any other operation works on a
//! slot that exists, and a free keeps the slot.

use vstd::prelude::*;
use crate::command::{concat_runs, lemma_concat_runs_empty, lemma_concat_runs_step, Command, PixelSource};
use crate::types::{
    CacheTextureId, DeviceUintRect, ExternalImageData, ExternalImageId, ExternalImageType,
    ImageFormat, RenderError, RenderTargetMode, TextureFilter, TextureId,
};

verus! {

/// The pixels that come with the creation of a cache texture.
#[derive(Clone, PartialEq, Eq, Debug)]
pub enum ImageData {
    Raw(Vec<u8>),
    Blob(Vec<u8>),
    External(ExternalImageData),
}

/// What an operation does to its slot.
#[derive(Clone, PartialEq, Eq, Debug)]
pub enum TextureUpdateOp {
    Create {
        width: u32,
        height: u32,
        format: ImageFormat,
        filter: TextureFilter,
        mode: RenderTargetMode,
        data: Option<ImageData>,
    },
    Update {
        page_pos_x: u32,
        page_pos_y: u32,
        width: u32,
        height: u32,
        data: Vec<u8>,
        stride: Option<u32>,
        offset: u32,
    },
    UpdateForExternalBuffer {
        rect: DeviceUintRect,
        id: ExternalImageId,
        channel_index: u8,
        stride: Option<u32>,
        offset: u32,
    },
    Grow {
        width: u32,
        height: u32,
        format: ImageFormat,
        filter: TextureFilter,
        mode: RenderTargetMode,
    },
    Free,
}

/// One operation on one cache slot.
#[derive(Clone, PartialEq, Eq, Debug)]
pub struct TextureUpdate {
    pub id: CacheTextureId,
    pub op: TextureUpdateOp,
}

/// The operations that came with one frame, in the order to apply them.
#[derive(Clone, PartialEq, Eq, Debug)]
pub struct TextureUpdateList {
    pub updates: Vec<TextureUpdate>,
}

impl TextureUpdateList {
    pub fn new() -> (list: TextureUpdateList)
        ensures
            list.updates@.len() == 0,
    {
        TextureUpdateList { updates: Vec::new() }
    }
}

impl TextureUpdate {
    /// Whether this operation appends a texture to a table of `table_len`
    /// slots.
    pub open spec fn creates(self, table_len: nat) -> bool {
        self.op is Create && self.id.0 == table_len
    }

    /// The format of the texture that a create operation asks for.
    pub open spec fn format(self) -> ImageFormat {
        match self.op {
            TextureUpdateOp::Create { format, .. } => format,
            TextureUpdateOp::Grow { format, .. } => format,
            _ => ImageFormat::Invalid,
        }
    }

    /// What is wrong with this operation against a table of `table_len`
    /// slots, if anything.
    pub open spec fn error(self, table_len: nat, has_handler: bool) -> Option<RenderError> {
        match self.op {
            TextureUpdateOp::Create { data, .. } => {
                if self.id.0 > table_len {
                    Some(RenderError::UnknownCacheTexture)
                } else {
                    match data {
                        None => None,
                        Some(ImageData::Raw(_)) => None,
                        Some(ImageData::Blob(_)) => Some(RenderError::NoSuitableImageBuffer),
                        Some(ImageData::External(ext)) => {
                            if ext.image_type != ExternalImageType::ExternalBuffer {
                                Some(RenderError::ExternalHandleInCreate)
                            } else if !has_handler {
                                Some(RenderError::NoExternalImageHandler)
                            } else {
                                None
                            }
                        },
                    }
                }
            },
            TextureUpdateOp::Update { data, offset, .. } => {
                if self.id.0 >= table_len {
                    Some(RenderError::UnknownCacheTexture)
                } else if offset > data@.len() {
                    Some(RenderError::DataOffsetOutOfRange)
                } else {
                    None
                }
            },
            TextureUpdateOp::UpdateForExternalBuffer { .. } => {
                if !has_handler {
                    Some(RenderError::NoExternalImageHandler)
                } else if self.id.0 >= table_len {
                    Some(RenderError::UnknownCacheTexture)
                } else {
                    None
                }
            },
            TextureUpdateOp::Grow { .. } | TextureUpdateOp::Free => {
                if self.id.0 >= table_len {
                    Some(RenderError::UnknownCacheTexture)
                } else {
                    None
                }
            },
        }
    }

    /// The commands of this operation, which stands at `index` in its list,
    /// on the native texture of its slot.
    pub open spec fn commands(self, texture: TextureId, index: int) -> Seq<Command> {
        match self.op {
            TextureUpdateOp::Create { width, height, format, filter, mode, data } => {
                match data {
                    Some(ImageData::External(ext)) => seq![
                        Command::LockExternalImage { id: ext.id, channel_index: ext.channel_index },
                        Command::InitTexture {
                            texture,
                            width,
                            height,
                            format,
                            filter,
                            mode,
                            data: PixelSource::LockedBuffer { offset: 0 },
                        },
                        Command::UnlockExternalImage {
                            id: ext.id,
                            channel_index: ext.channel_index,
                        },
                    ],
                    Some(_) => seq![
                        Command::InitTexture {
                            texture,
                            width,
                            height,
                            format,
                            filter,
                            mode,
                            data: PixelSource::Update { index: index as usize, offset: 0 },
                        },
                    ],
                    None => seq![
                        Command::InitTexture {
                            texture,
                            width,
                            height,
                            format,
                            filter,
                            mode,
                            data: PixelSource::Empty,
                        },
                    ],
                }
            },
            TextureUpdateOp::Grow { width, height, format, filter, mode } => seq![
                Command::ResizeTexture { texture, width, height, format, filter, mode },
            ],
            TextureUpdateOp::Update { page_pos_x, page_pos_y, width, height, data, stride, offset } => seq![
                Command::UpdateTexture {
                    texture,
                    x: page_pos_x,
                    y: page_pos_y,
                    width,
                    height,
                    stride,
                    data: PixelSource::Update { index: index as usize, offset },
                },
            ],
            TextureUpdateOp::UpdateForExternalBuffer { rect, id, channel_index, stride, offset } => seq![
                Command::LockExternalImage { id, channel_index },
                Command::UpdateTexture {
                    texture,
                    x: rect.origin.x,
                    y: rect.origin.y,
                    width: rect.size.width,
                    height: rect.size.height,
                    stride,
                    data: PixelSource::LockedBuffer { offset },
                },
                Command::UnlockExternalImage { id, channel_index },
            ],
            TextureUpdateOp::Free => seq![Command::DeinitTexture { texture }],
        }
    }

    /// Tests this operation against a table of `base + grown` slots.
    fn check(&self, base: usize, grown: usize, has_handler: bool) -> (r: Option<RenderError>)
        ensures
            r == self.error((base + grown) as nat, has_handler),
    {
        let slot: usize = self.id.0;
        let exists: bool = slot < base || slot - base < grown;
        let at_end: bool = slot >= base && slot - base == grown;
        match &self.op {
            TextureUpdateOp::Create { data, .. } => {
                if !exists && !at_end {
                    Some(RenderError::UnknownCacheTexture)
                } else {
                    match data {
                        None => None,
                        Some(ImageData::Raw(_)) => None,
                        Some(ImageData::Blob(_)) => Some(RenderError::NoSuitableImageBuffer),
                        Some(ImageData::External(ext)) => {
                            match ext.image_type {
                                ExternalImageType::ExternalBuffer => {
                                    if has_handler {
                                        None
                                    } else {
                                        Some(RenderError::NoExternalImageHandler)
                                    }
                                },
                                _ => Some(RenderError::ExternalHandleInCreate),
                            }
                        },
                    }
                }
            },
            TextureUpdateOp::Update { data, offset, .. } => {
                if !exists {
                    Some(RenderError::UnknownCacheTexture)
                } else if *offset as usize > data.len() {
                    Some(RenderError::DataOffsetOutOfRange)
                } else {
                    None
                }
            },
            TextureUpdateOp::UpdateForExternalBuffer { .. } => {
                if !has_handler {
                    Some(RenderError::NoExternalImageHandler)
                } else if !exists {
                    Some(RenderError::UnknownCacheTexture)
                } else {
                    None
                }
            },
            TextureUpdateOp::Grow { .. } => {
                if !exists {
                    Some(RenderError::UnknownCacheTexture)
                } else {
                    None
                }
            },
            TextureUpdateOp::Free => {
                if !exists {
                    Some(RenderError::UnknownCacheTexture)
                } else {
                    None
                }
            },
        }
    }

    /// Appends the commands of this operation to `out`.
    fn emit(&self, texture: TextureId, index: usize, out: &mut Vec<Command>)
        ensures
            final(out)@ == old(out)@ + self.commands(texture, index as int),
    {
        match &self.op {
            TextureUpdateOp::Create { width, height, format, filter, mode, data } => {
                match data {
                    Some(ImageData::External(ext)) => {
                        out.push(
                            Command::LockExternalImage {
                                id: ext.id,
                                channel_index: ext.channel_index,
                            },
                        );
                        out.push(
                            Command::InitTexture {
                                texture,
                                width: *width,
                                height: *height,
                                format: *format,
                                filter: *filter,
                                mode: *mode,
                                data: PixelSource::LockedBuffer { offset: 0 },
                            },
                        );
                        out.push(
                            Command::UnlockExternalImage {
                                id: ext.id,
                                channel_index: ext.channel_index,
                            },
                        );
                    },
                    Some(_) => {
                        out.push(
                            Command::InitTexture {
                                texture,
                                width: *width,
                                height: *height,
                                format: *format,
                                filter: *filter,
                                mode: *mode,
                                data: PixelSource::Update { index, offset: 0 },
                            },
                        );
                    },
                    None => {
                        out.push(
                            Command::InitTexture {
                                texture,
                                width: *width,
                                height: *height,
                                format: *format,
                                filter: *filter,
                                mode: *mode,
                                data: PixelSource::Empty,
                            },
                        );
                    },
                }
            },
            TextureUpdateOp::Grow { width, height, format, filter, mode } => {
                out.push(
                    Command::ResizeTexture {
                        texture,
                        width: *width,
                        height: *height,
                        format: *format,
                        filter: *filter,
                        mode: *mode,
                    },
                );
            },
            TextureUpdateOp::Update { page_pos_x, page_pos_y, width, height, stride, offset, .. } => {
                out.push(
                    Command::UpdateTexture {
                        texture,
                        x: *page_pos_x,
                        y: *page_pos_y,
                        width: *width,
                        height: *height,
                        stride: *stride,
                        data: PixelSource::Update { index, offset: *offset },
                    },
                );
            },
            TextureUpdateOp::UpdateForExternalBuffer { rect, id, channel_index, stride, offset } => {
                out.push(Command::LockExternalImage { id: *id, channel_index: *channel_index });
                out.push(
                    Command::UpdateTexture {
                        texture,
                        x: rect.origin.x,
                        y: rect.origin.y,
                        width: rect.size.width,
                        height: rect.size.height,
                        stride: *stride,
                        data: PixelSource::LockedBuffer { offset: *offset },
                    },
                );
                out.push(Command::UnlockExternalImage { id: *id, channel_index: *channel_index });
            },
            TextureUpdateOp::Free => {
                out.push(Command::DeinitTexture { texture });
            },
        }
        assert(out@ =~= old(out)@ + self.commands(texture, index as int));
    }
}

/// The formats of the textures that `updates` append to a table of
/// `table_len` slots, in the order in which they are appended.
pub open spec fn created_formats(table_len: nat, updates: Seq<TextureUpdate>) -> Seq<ImageFormat>
    decreases updates.len(),
{
    if updates.len() == 0 {
        Seq::empty()
    } else {
        let before = created_formats(table_len, updates.drop_last());
        if updates.last().creates(table_len + before.len()) {
            before.push(updates.last().format())
        } else {
            before
        }
    }
}

/// The number of slots of the table once `updates` are applied.
pub open spec fn len_after(table_len: nat, updates: Seq<TextureUpdate>) -> nat {
    table_len + created_formats(table_len, updates).len()
}

/// The first thing wrong in `updates`, applied in order to a table of
/// `table_len` slots.
pub open spec fn first_error(table_len: nat, has_handler: bool, updates: Seq<TextureUpdate>) -> Option<
    RenderError,
>
    decreases updates.len(),
{
    if updates.len() == 0 {
        None
    } else {
        match first_error(table_len, has_handler, updates.drop_last()) {
            Some(e) => Some(e),
            None => updates.last().error(len_after(table_len, updates.drop_last()), has_handler),
        }
    }
}

/// The commands of `updates`, given the table as it is once they are all
/// applied. (A slot never changes its texture, so the final table resolves
/// every operation as the table of its own moment did.)
pub open spec fn update_commands(table: Seq<TextureId>, updates: Seq<TextureUpdate>) -> Seq<Command> {
    concat_runs(
        updates.len(),
        |i: int| updates[i].commands(table[updates[i].id.0 as int], i),
    )
}

/// One more than the highest slot that a create operation of `updates`
/// names; 0 where there is none.
pub open spec fn create_bound(updates: Seq<TextureUpdate>) -> nat
    decreases updates.len(),
{
    if updates.len() == 0 {
        0
    } else {
        let before = create_bound(updates.drop_last());
        if updates.last().op is Create && updates.last().id.0 + 1 > before {
            (updates.last().id.0 + 1) as nat
        } else {
            before
        }
    }
}

/// The table from cache slots to native textures.
pub struct TextureCacheUpdater {
    pub cache_texture_id_map: Vec<TextureId>,
}

impl View for TextureCacheUpdater {
    type V = Seq<TextureId>;

    open spec fn view(&self) -> Seq<TextureId> {
        self.cache_texture_id_map@
    }
}

impl TextureCacheUpdater {
    pub fn new() -> (updater: TextureCacheUpdater)
        ensures
            updater@ == Seq::<TextureId>::empty(),
    {
        TextureCacheUpdater { cache_texture_id_map: Vec::new() }
    }

    pub fn len(&self) -> (n: usize)
        ensures
            n == self@.len(),
    {
        self.cache_texture_id_map.len()
    }

    /// The native texture of a cache slot, if the slot exists.
    pub fn get(&self, id: CacheTextureId) -> (r: Option<TextureId>)
        ensures
            r == (if id.0 < self@.len() {
                Some(self@[id.0 as int])
            } else {
                None
            }),
    {
        if id.0 < self.cache_texture_id_map.len() {
            Some(self.cache_texture_id_map[id.0])
        } else {
            None
        }
    }

    /// Validates `updates` against the table and says which textures the
    /// device has to create for them: one per format, in this order.
    pub fn texture_requests(&self, updates: &Vec<TextureUpdate>, has_handler: bool) -> (r: Result<
        Vec<ImageFormat>,
        RenderError,
    >)
        ensures
            match r {
                Ok(formats) => first_error(self@.len(), has_handler, updates@) is None
                    && formats@ == created_formats(self@.len(), updates@),
                Err(e) => first_error(self@.len(), has_handler, updates@) == Some(e),
            },
    {
        let base: usize = self.cache_texture_id_map.len();
        let mut formats: Vec<ImageFormat> = Vec::new();
        let mut i: usize = 0;
        while i < updates.len()
            invariant
                i <= updates@.len(),
                base == self@.len(),
                formats@ == created_formats(base as nat, updates@.take(i as int)),
                first_error(base as nat, has_handler, updates@.take(i as int)) is None,
                formats@.len() <= i,
            decreases updates@.len() - i,
        {
            let update = &updates[i];
            proof {
                assert(updates@.take(i + 1).drop_last() =~= updates@.take(i as int));
                assert(updates@.take(i + 1).last() == updates@[i as int]);
            }
            let grown: usize = formats.len();
            match update.check(base, grown, has_handler) {
                Some(e) => {
                    proof {
                        lemma_first_error_prefix(
                            base as nat,
                            has_handler,
                            updates@,
                            i + 1,
                        );
                    }
                    return Err(e);
                },
                None => {},
            }
            match &update.op {
                TextureUpdateOp::Create { format, .. } => {
                    if update.id.0 >= base && update.id.0 - base == grown {
                        formats.push(*format);
                    }
                },
                _ => {},
            }
            i = i + 1;
        }
        proof {
            assert(updates@.take(i as int) =~= updates@);
        }
        Ok(formats)
    }

    /// Applies `updates` in order. `fresh` holds the textures that the
    /// device created for them, as `texture_requests` asked. On success the
    /// table has grown by exactly these and the commands to perform are
    /// returned; on failure nothing has changed.
    pub fn apply(&mut self, updates: &Vec<TextureUpdate>, fresh: Vec<TextureId>, has_handler: bool) -> (r:
        Result<Vec<Command>, RenderError>)
        ensures
            match r {
                Ok(commands) => {
                    &&& first_error(old(self)@.len(), has_handler, updates@) is None
                    &&& fresh@.len() == created_formats(old(self)@.len(), updates@).len()
                    &&& final(self)@ == old(self)@ + fresh@
                    &&& commands@ == update_commands(final(self)@, updates@)
                },
                Err(e) => {
                    &&& *final(self) == *old(self)
                    &&& match first_error(old(self)@.len(), has_handler, updates@) {
                        Some(first) => e == first,
                        None => e == RenderError::SupplyMismatch && fresh@.len() != created_formats(
                            old(self)@.len(),
                            updates@,
                        ).len(),
                    }
                },
            },
    {
        let formats = match self.texture_requests(updates, has_handler) {
            Ok(formats) => formats,
            Err(e) => {
                return Err(e);
            },
        };
        if formats.len() != fresh.len() {
            return Err(RenderError::SupplyMismatch);
        }
        let ghost base = self@.len();
        let mut fresh = fresh;
        self.cache_texture_id_map.append(&mut fresh);
        let ghost table = self@;
        let mut commands: Vec<Command> = Vec::new();
        let ghost run = |k: int| updates@[k].commands(table[updates@[k].id.0 as int], k);
        proof {
            lemma_concat_runs_empty(run);
        }
        let mut i: usize = 0;
        while i < updates.len()
            invariant
                i <= updates@.len(),
                self@ == table,
                table.len() == base + created_formats(base, updates@).len(),
                first_error(base, has_handler, updates@) is None,
                run == (|k: int| updates@[k].commands(table[updates@[k].id.0 as int], k)),
                commands@ == concat_runs(i as nat, run),
            decreases updates@.len() - i,
        {
            let update = &updates[i];
            proof {
                lemma_valid_slot(base, has_handler, updates@, i as int);
                lemma_concat_runs_step(i as nat, run);
            }
            let texture = self.cache_texture_id_map[update.id.0];
            update.emit(texture, i, &mut commands);
            i = i + 1;
        }
        Ok(commands)
    }
}

/// An error among the first `n` operations is the error of the whole list.
pub proof fn lemma_first_error_prefix(
    table_len: nat,
    has_handler: bool,
    updates: Seq<TextureUpdate>,
    n: int,
)
    requires
        0 <= n <= updates.len(),
        first_error(table_len, has_handler, updates.take(n)) is Some,
    ensures
        first_error(table_len, has_handler, updates) == first_error(
            table_len,
            has_handler,
            updates.take(n),
        ),
    decreases updates.len() - n,
{
    if n == updates.len() {
        assert(updates.take(n) =~= updates);
    } else {
        assert(updates.take(n + 1).drop_last() =~= updates.take(n));
        lemma_first_error_prefix(table_len, has_handler, updates, n + 1);
    }
}

/// A list without error has no error in any of its prefixes.
pub proof fn lemma_no_error_prefix(
    table_len: nat,
    has_handler: bool,
    updates: Seq<TextureUpdate>,
    n: int,
)
    requires
        0 <= n <= updates.len(),
        first_error(table_len, has_handler, updates) is None,
    ensures
        first_error(table_len, has_handler, updates.take(n)) is None,
{
    if first_error(table_len, has_handler, updates.take(n)) is Some {
        lemma_first_error_prefix(table_len, has_handler, updates, n);
    }
}

/// The table never shrinks while a list is applied.
pub proof fn lemma_created_monotone(table_len: nat, updates: Seq<TextureUpdate>, n: int)
    requires
        0 <= n <= updates.len(),
    ensures
        created_formats(table_len, updates.take(n)).len() <= created_formats(
            table_len,
            updates,
        ).len(),
    decreases updates.len() - n,
{
    if n == updates.len() {
        assert(updates.take(n) =~= updates);
    } else {
        assert(updates.take(n + 1).drop_last() =~= updates.take(n));
        lemma_created_monotone(table_len, updates, n + 1);
    }
}

/// In a list without error every operation names a slot of the final table.
pub proof fn lemma_valid_slot(
    table_len: nat,
    has_handler: bool,
    updates: Seq<TextureUpdate>,
    i: int,
)
    requires
        0 <= i < updates.len(),
        first_error(table_len, has_handler, updates) is None,
    ensures
        updates[i].id.0 < len_after(table_len, updates),
{
    lemma_no_error_prefix(table_len, has_handler, updates, i + 1);
    let prefix = updates.take(i + 1);
    assert(prefix.drop_last() =~= updates.take(i));
    assert(prefix.last() == updates[i]);
    lemma_created_monotone(table_len, updates, i + 1);
}

/// Applied to a table of `table_len` slots without error, a list leaves the
/// table with as many slots as its highest create operation asks for, and
/// never fewer than it had.
pub proof fn lemma_len_is_create_bound(
    table_len: nat,
    has_handler: bool,
    updates: Seq<TextureUpdate>,
)
    requires
        first_error(table_len, has_handler, updates) is None,
    ensures
        len_after(table_len, updates) == if create_bound(updates) > table_len {
            create_bound(updates)
        } else {
            table_len
        },
    decreases updates.len(),
{
    if updates.len() > 0 {
        lemma_len_is_create_bound(table_len, has_handler, updates.drop_last());
    }
}

/// Applied to an empty table without error, a list leaves a table whose
/// length is the highest create index plus one.
pub proof fn lemma_len_from_empty(has_handler: bool, updates: Seq<TextureUpdate>)
    requires
        first_error(0, has_handler, updates) is None,
    ensures
        len_after(0, updates) == create_bound(updates),
{
    lemma_len_is_create_bound(0, has_handler, updates);
}

/// A freed slot stays: a create operation on it that follows, at once or
/// later, names a slot of the table and reuses the slot's texture instead
/// of asking for a new one.
pub proof fn lemma_freed_slot_is_reused(
    table_len: nat,
    has_handler: bool,
    updates: Seq<TextureUpdate>,
    i: int,
    create: TextureUpdate,
)
    requires
        0 <= i < updates.len(),
        first_error(table_len, has_handler, updates) is None,
        updates[i].op is Free,
        create.op is Create,
        create.id == updates[i].id,
    ensures
        create.error(len_after(table_len, updates), has_handler) != Some(
            RenderError::UnknownCacheTexture,
        ),
        first_error(table_len, has_handler, updates.push(create)) == create.error(
            len_after(table_len, updates),
            has_handler,
        ),
        created_formats(table_len, updates.push(create)) == created_formats(table_len, updates),
        len_after(table_len, updates.push(create)) == len_after(table_len, updates),
{
    lemma_valid_slot(table_len, has_handler, updates, i);
    assert(updates.push(create).drop_last() =~= updates);
}

/// An external buffer is locked for one upload only: where an operation
/// locks, the lock is the first of its three commands, the second is the
/// upload that reads the locked buffer, and the third unlocks the same
/// image. An operation that does not lock reads no locked buffer.
pub proof fn lemma_lock_is_scoped(update: TextureUpdate, texture: TextureId, index: int, k: int)
    requires
        0 <= k < update.commands(texture, index).len(),
    ensures
        ({
            let commands = update.commands(texture, index);
            match commands[k] {
                Command::LockExternalImage { id, channel_index } => {
                    &&& k == 0
                    &&& commands.len() == 3
                    &&& match commands[1] {
                        Command::InitTexture { data, .. } => data is LockedBuffer,
                        Command::UpdateTexture { data, .. } => data is LockedBuffer,
                        _ => false,
                    }
                    &&& commands[2] == (Command::UnlockExternalImage { id, channel_index })
                },
                Command::UnlockExternalImage { id, channel_index } => {
                    &&& k == 2
                    &&& commands[0] == (Command::LockExternalImage { id, channel_index })
                },
                Command::InitTexture { data, .. } => data is LockedBuffer ==> k == 1
                    && commands[0] is LockExternalImage,
                Command::UpdateTexture { data, .. } => data is LockedBuffer ==> k == 1
                    && commands[0] is LockExternalImage,
                _ => true,
            }
        }),
{
}

} // verus!
