//! What the scene builder sends, and the record of the epochs that came
//! with its frames.

use vstd::prelude::*;
use crate::texture_cache::TextureUpdateList;
use crate::tiling::Frame;
use crate::types::{Epoch, PipelineId};

verus! {

/// A layer that scrolls, within its pipeline.
#[derive(Copy, Clone, PartialEq, Eq, Hash, Debug, Structural)]
pub struct ScrollLayerId {
    pub pipeline_id: PipelineId,
    pub index: usize,
}

/// The epoch that a pipeline had when a frame was built.
#[derive(Copy, Clone, PartialEq, Eq, Hash, Debug, Structural)]
pub struct PipelineEpoch {
    pub pipeline_id: PipelineId,
    pub epoch: Epoch,
}

/// A frame with what the caller is told about it.
#[derive(Clone, PartialEq, Eq, Debug)]
pub struct RendererFrame {
    /// The epoch of every pipeline in the frame, in no particular order; of
    /// two entries for one pipeline the later one counts.
    pub pipeline_epoch_map: Vec<PipelineEpoch>,
    /// The layers that are bouncing back after an overscroll.
    pub layers_bouncing_back: Vec<ScrollLayerId>,
    /// What to draw; nothing where the scene is empty.
    pub frame: Option<Frame>,
}

/// A message of the scene builder.
#[derive(Clone, PartialEq, Eq, Debug)]
pub enum ResultMsg {
    /// A shader's source changed: the name of its file.
    RefreshShader(String),
    /// A frame is built; with it come the cache operations that it needs.
    NewFrame(RendererFrame, TextureUpdateList),
}

/// The epochs once the given entries are recorded, one after another.
pub open spec fn recorded(epochs: Map<PipelineId, Epoch>, entries: Seq<PipelineEpoch>) -> Map<
    PipelineId,
    Epoch,
>
    decreases entries.len(),
{
    if entries.len() == 0 {
        epochs
    } else {
        recorded(epochs, entries.drop_last()).insert(
            entries.last().pipeline_id,
            entries.last().epoch,
        )
    }
}

/// The map that a list of entries stands for.
pub open spec fn as_map(entries: Seq<PipelineEpoch>) -> Map<PipelineId, Epoch> {
    recorded(Map::empty(), entries)
}

/// The latest epoch seen of each pipeline.
pub struct PipelineEpochMap {
    entries: Vec<PipelineEpoch>,
}

impl View for PipelineEpochMap {
    type V = Map<PipelineId, Epoch>;

    closed spec fn view(&self) -> Map<PipelineId, Epoch> {
        as_map(self.entries@)
    }
}

/// A pipeline that no entry names is not in the map of the entries, and a
/// pipeline that an entry names last has the epoch of that entry.
pub proof fn lemma_as_map(entries: Seq<PipelineEpoch>, pipeline_id: PipelineId)
    ensures
        as_map(entries).contains_key(pipeline_id) <==> exists|i: int|
            0 <= i < entries.len() && (#[trigger] entries[i]).pipeline_id == pipeline_id,
        forall|i: int|
            0 <= i < entries.len() && (#[trigger] entries[i]).pipeline_id == pipeline_id && (forall|
                j: int,
            |
                i < j < entries.len() ==> (#[trigger] entries[j]).pipeline_id != pipeline_id)
                ==> as_map(entries)[pipeline_id] == entries[i].epoch,
    decreases entries.len(),
{
    if entries.len() > 0 {
        let before = entries.drop_last();
        lemma_as_map(before, pipeline_id);
        assert(forall|j: int| 0 <= j < before.len() ==> before[j] == entries[j]);
        if entries.last().pipeline_id == pipeline_id {
            assert(entries[entries.len() - 1].pipeline_id == pipeline_id);
        } else {
            if as_map(entries).contains_key(pipeline_id) {
                let i = choose|i: int|
                    0 <= i < before.len() && (#[trigger] before[i]).pipeline_id == pipeline_id;
                assert(entries[i].pipeline_id == pipeline_id);
            }
            assert forall|i: int|
                0 <= i < entries.len() && (#[trigger] entries[i]).pipeline_id == pipeline_id
                    && (forall|j: int|
                    i < j < entries.len() ==> (#[trigger] entries[j]).pipeline_id
                        != pipeline_id) implies as_map(entries)[pipeline_id]
                == entries[i].epoch by {
                assert(before[i].pipeline_id == pipeline_id);
                assert forall|j: int| i < j < before.len() implies (#[trigger] before[j]).pipeline_id
                    != pipeline_id by {
                    assert(entries[j].pipeline_id != pipeline_id);
                }
            }
        }
    }
}

impl PipelineEpochMap {
    /// No pipeline has two entries.
    #[verifier::type_invariant]
    spec fn wf(self) -> bool {
        forall|i: int, j: int|
            0 <= i < j < self.entries@.len() ==> (#[trigger] self.entries@[i]).pipeline_id != (
            #[trigger] self.entries@[j]).pipeline_id
    }

    pub fn new() -> (map: PipelineEpochMap)
        ensures
            map@ == Map::<PipelineId, Epoch>::empty(),
    {
        PipelineEpochMap { entries: Vec::new() }
    }

    /// The epoch recorded for a pipeline, if any.
    pub fn get(&self, pipeline_id: PipelineId) -> (r: Option<Epoch>)
        ensures
            r == (if self@.contains_key(pipeline_id) {
                Some(self@[pipeline_id])
            } else {
                None
            }),
    {
        proof {
            use_type_invariant(self);
        }
        let mut i: usize = 0;
        while i < self.entries.len()
            invariant
                i <= self.entries@.len(),
                forall|j: int| 0 <= j < i ==> (#[trigger] self.entries@[j]).pipeline_id != pipeline_id,
                forall|a: int, b: int|
                    0 <= a < b < self.entries@.len() ==> (#[trigger] self.entries@[a]).pipeline_id
                        != (#[trigger] self.entries@[b]).pipeline_id,
            decreases self.entries@.len() - i,
        {
            if self.entries[i].pipeline_id == pipeline_id {
                proof {
                    lemma_as_map(self.entries@, pipeline_id);
                    assert forall|j: int| i < j < self.entries@.len() implies (
                    #[trigger] self.entries@[j]).pipeline_id != pipeline_id by {
                        assert(self.entries@[i as int].pipeline_id != self.entries@[j].pipeline_id);
                    }
                }
                return Some(self.entries[i].epoch);
            }
            i = i + 1;
        }
        proof {
            lemma_as_map(self.entries@, pipeline_id);
        }
        None
    }

    /// The map with an epoch recorded for a pipeline, in place of the one
    /// recorded before.
    pub fn insert(self, pipeline_id: PipelineId, epoch: Epoch) -> (map: PipelineEpochMap)
        ensures
            map@ == self@.insert(pipeline_id, epoch),
    {
        proof {
            use_type_invariant(&self);
        }
        let ghost before = self.entries@;
        let mut entries = self.entries;
        let mut i: usize = 0;
        let mut found: bool = false;
        while i < entries.len() && !found
            invariant
                i <= entries@.len(),
                entries@ == before,
                !found ==> forall|j: int|
                    0 <= j < i ==> (#[trigger] entries@[j]).pipeline_id != pipeline_id,
                found ==> i < entries@.len() && entries@[i as int].pipeline_id == pipeline_id,
            decreases entries@.len() - i + if found { 0int } else { 1int },
        {
            if entries[i].pipeline_id == pipeline_id {
                found = true;
            } else {
                i = i + 1;
            }
        }
        let entry = PipelineEpoch { pipeline_id, epoch };
        if found {
            entries.set(i, entry);
        } else {
            entries.push(entry);
        }
        proof {
            let after = entries@;
            assert forall|key: PipelineId| #[trigger]
                as_map(after).contains_key(key) == as_map(before).insert(
                    pipeline_id,
                    epoch,
                ).contains_key(key) by {
                lemma_as_map(after, key);
                lemma_as_map(before, key);
                if as_map(after).contains_key(key) {
                    let k = choose|k: int|
                        0 <= k < after.len() && (#[trigger] after[k]).pipeline_id == key;
                    if key != pipeline_id {
                        assert(before[k].pipeline_id == key);
                    }
                }
                if as_map(before).insert(pipeline_id, epoch).contains_key(key) {
                    if key == pipeline_id {
                        let k = if found { i as int } else { before.len() as int };
                        assert(after[k].pipeline_id == key);
                    } else {
                        let k = choose|k: int|
                            0 <= k < before.len() && (#[trigger] before[k]).pipeline_id == key;
                        assert(after[k].pipeline_id == key);
                    }
                }
            }
            assert forall|key: PipelineId| #[trigger]
                as_map(after).contains_key(key) implies as_map(after)[key] == as_map(
                before,
            ).insert(pipeline_id, epoch)[key] by {
                lemma_as_map(after, key);
                lemma_as_map(before, key);
                let k = choose|k: int|
                    0 <= k < after.len() && (#[trigger] after[k]).pipeline_id == key;
                assert forall|j: int| k < j < after.len() implies (#[trigger] after[j]).pipeline_id
                    != key by {
                    lemma_distinct_after(before, after, pipeline_id, found, i as int, k, j);
                }
                if key != pipeline_id {
                    assert(before[k] == after[k]);
                    assert forall|j: int|
                        k < j < before.len() implies (#[trigger] before[j]).pipeline_id
                        != key by {}
                }
            }
            assert(as_map(after) =~= as_map(before).insert(pipeline_id, epoch));
        }
        proof {
            assert forall|a: int, b: int| 0 <= a < b < entries@.len() implies (
            #[trigger] entries@[a]).pipeline_id != (#[trigger] entries@[b]).pipeline_id by {
                lemma_distinct_after(before, entries@, pipeline_id, found, i as int, a, b);
            }
        }
        PipelineEpochMap { entries }
    }

    /// The recorded epochs, entry by entry; each pipeline occurs once.
    pub fn into_entries(self) -> (entries: Vec<PipelineEpoch>)
        ensures
            as_map(entries@) == self@,
            forall|i: int, j: int|
                0 <= i < j < entries@.len() ==> (#[trigger] entries@[i]).pipeline_id != (
                #[trigger] entries@[j]).pipeline_id,
    {
        proof {
            use_type_invariant(&self);
        }
        self.entries
    }
}

proof fn lemma_distinct_after(
    before: Seq<PipelineEpoch>,
    after: Seq<PipelineEpoch>,
    pipeline_id: PipelineId,
    found: bool,
    i: int,
    a: int,
    b: int,
)
    requires
        forall|x: int, y: int|
            0 <= x < y < before.len() ==> (#[trigger] before[x]).pipeline_id != (
            #[trigger] before[y]).pipeline_id,
        found ==> 0 <= i < before.len() && before[i].pipeline_id == pipeline_id && after.len()
            == before.len() && forall|k: int|
            0 <= k < before.len() && k != i ==> after[k] == before[k],
        found ==> after[i].pipeline_id == pipeline_id,
        !found ==> after.len() == before.len() + 1 && after[before.len() as int].pipeline_id
            == pipeline_id && (forall|k: int| 0 <= k < before.len() ==> after[k] == before[k])
            && forall|k: int| 0 <= k < before.len() ==> (#[trigger] before[k]).pipeline_id != pipeline_id,
        0 <= a < b < after.len(),
    ensures
        after[a].pipeline_id != after[b].pipeline_id,
{
    if found {
        assert(before[a].pipeline_id != before[b].pipeline_id);
    } else {
        if b < before.len() {
            assert(before[a].pipeline_id != before[b].pipeline_id);
        } else {
            assert(before[a].pipeline_id != pipeline_id);
        }
    }
}

} // verus!
