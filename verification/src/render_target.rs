//! Render target pool: the textures that passes draw into are kept and
//! handed out again, colour and alpha targets apart.
//!
//! A target is taken from the end of its free list, or made by the device
//! where the list is empty, and put back at the end of its pass. After a
//! frame both lists are reversed, so that the next frame hands the targets
//! out in the order in which this frame took them. The pool never shrinks.

use vstd::prelude::*;
use crate::types::{RenderTargetKind, TextureId};

verus! {

/// The number of passes, among `needs`, that need a target.
pub open spec fn count_needed(needs: Seq<bool>) -> nat
    decreases needs.len(),
{
    if needs.len() == 0 {
        0
    } else {
        count_needed(needs.drop_last()) + if needs.last() {
            1nat
        } else {
            0nat
        }
    }
}

/// The number of targets that the device has to create so that `needed`
/// passes get one, with `free_len` targets in the free list.
pub open spec fn fresh_needed(free_len: nat, needed: nat) -> nat {
    if needed > free_len {
        (needed - free_len) as nat
    } else {
        0
    }
}

/// The targets in the order in which they are handed out: the free list
/// from its end, then the targets that the device created.
pub open spec fn supply(free: Seq<TextureId>, fresh: Seq<TextureId>) -> Seq<TextureId> {
    free.reverse() + fresh
}

/// The target of each pass: the passes that need one are served in order.
pub open spec fn assigned(free: Seq<TextureId>, fresh: Seq<TextureId>, needs: Seq<bool>) -> Seq<
    Option<TextureId>,
> {
    Seq::new(
        needs.len(),
        |i: int|
            if needs[i] {
                Some(supply(free, fresh)[count_needed(needs.take(i)) as int])
            } else {
                None
            },
    )
}

/// The free list once the targets of a frame are handed out.
pub open spec fn free_after_assign(free: Seq<TextureId>, needs: Seq<bool>) -> Seq<TextureId> {
    if count_needed(needs) >= free.len() {
        Seq::empty()
    } else {
        free.take(free.len() - count_needed(needs))
    }
}

/// The targets that were handed out, in the order of their passes.
pub open spec fn handed_out(targets: Seq<Option<TextureId>>) -> Seq<TextureId>
    decreases targets.len(),
{
    if targets.len() == 0 {
        Seq::empty()
    } else {
        match targets.last() {
            Some(texture) => handed_out(targets.drop_last()).push(texture),
            None => handed_out(targets.drop_last()),
        }
    }
}

/// The free list at the end of a frame: what was left, then the targets of
/// the passes in the order in which the passes gave them back, all of it
/// reversed.
pub open spec fn free_after_frame(
    free: Seq<TextureId>,
    fresh: Seq<TextureId>,
    needs: Seq<bool>,
) -> Seq<TextureId> {
    (free_after_assign(free, needs) + supply(free, fresh).take(
        count_needed(needs) as int,
    )).reverse()
}

/// One more pass counts where it needs a target; no more passes need a
/// target than there are.
pub proof fn lemma_count_needed_step(needs: Seq<bool>, i: int)
    requires
        0 <= i < needs.len(),
    ensures
        count_needed(needs.take(i + 1)) == count_needed(needs.take(i)) + if needs[i] {
            1nat
        } else {
            0nat
        },
        count_needed(needs.take(i)) <= i,
    decreases i,
{
    assert(needs.take(i + 1).drop_last() =~= needs.take(i));
    if i > 0 {
        lemma_count_needed_step(needs, i - 1);
    }
}

/// The passes that need a target get the first targets of the supply, in
/// order.
pub proof fn lemma_handed_out_is_supply_prefix(
    free: Seq<TextureId>,
    fresh: Seq<TextureId>,
    needs: Seq<bool>,
    n: int,
)
    requires
        0 <= n <= needs.len(),
        fresh.len() == fresh_needed(free.len(), count_needed(needs)),
    ensures
        handed_out(assigned(free, fresh, needs).take(n)) == supply(free, fresh).take(
            count_needed(needs.take(n)) as int,
        ),
        count_needed(needs.take(n)) <= count_needed(needs),
        count_needed(needs) <= supply(free, fresh).len(),
    decreases needs.len() - n,
{
    let targets = assigned(free, fresh, needs);
    let all = supply(free, fresh);
    if n == needs.len() {
        assert(needs.take(n) =~= needs);
        lemma_handed_out_prefix(free, fresh, needs, n);
    } else {
        lemma_handed_out_is_supply_prefix(free, fresh, needs, n + 1);
        lemma_count_needed_step(needs, n);
        lemma_handed_out_prefix(free, fresh, needs, n);
    }
}

proof fn lemma_handed_out_prefix(
    free: Seq<TextureId>,
    fresh: Seq<TextureId>,
    needs: Seq<bool>,
    n: int,
)
    requires
        0 <= n <= needs.len(),
        count_needed(needs.take(n)) <= supply(free, fresh).len(),
    ensures
        handed_out(assigned(free, fresh, needs).take(n)) == supply(free, fresh).take(
            count_needed(needs.take(n)) as int,
        ),
    decreases n,
{
    let targets = assigned(free, fresh, needs);
    let all = supply(free, fresh);
    if n == 0 {
        assert(needs.take(0) =~= Seq::<bool>::empty());
        assert(targets.take(0) =~= Seq::<Option<TextureId>>::empty());
        assert(all.take(0) =~= Seq::<TextureId>::empty());
    } else {
        lemma_count_needed_step(needs, n - 1);
        lemma_handed_out_prefix(free, fresh, needs, n - 1);
        assert(targets.take(n).drop_last() =~= targets.take(n - 1));
        let before = count_needed(needs.take(n - 1)) as int;
        if needs[n - 1] {
            assert(all.take(before + 1) =~= all.take(before).push(all[before]));
        }
    }
}

/// The free lists of the two kinds of target.
pub struct RenderTargetPool {
    pub color_render_targets: Vec<TextureId>,
    pub alpha_render_targets: Vec<TextureId>,
}

impl RenderTargetPool {
    /// The free list of one kind.
    pub open spec fn free(&self, kind: RenderTargetKind) -> Seq<TextureId> {
        match kind {
            RenderTargetKind::Color => self.color_render_targets@,
            RenderTargetKind::Alpha => self.alpha_render_targets@,
        }
    }

    pub fn new() -> (pool: RenderTargetPool)
        ensures
            pool.free(RenderTargetKind::Color) == Seq::<TextureId>::empty(),
            pool.free(RenderTargetKind::Alpha) == Seq::<TextureId>::empty(),
    {
        RenderTargetPool { color_render_targets: Vec::new(), alpha_render_targets: Vec::new() }
    }

    /// The number of targets of a kind that wait to be used again.
    pub fn free_count(&self, kind: RenderTargetKind) -> (n: usize)
        ensures
            n == self.free(kind).len(),
    {
        match kind {
            RenderTargetKind::Color => self.color_render_targets.len(),
            RenderTargetKind::Alpha => self.alpha_render_targets.len(),
        }
    }

    /// Takes a target of the given kind: the last of the free list, or,
    /// where the list is empty, the one that the device created.
    pub fn acquire(&mut self, kind: RenderTargetKind, created: Option<TextureId>) -> (r: Option<
        TextureId,
    >)
        ensures
            old(self).free(kind).len() > 0 ==> r == Some(old(self).free(kind).last())
                && final(self).free(kind) == old(self).free(kind).drop_last(),
            old(self).free(kind).len() == 0 ==> r == created && final(self).free(kind) == old(
                self,
            ).free(kind),
            forall|other: RenderTargetKind|
                other != kind ==> final(self).free(other) == old(self).free(other),
    {
        let popped = match kind {
            RenderTargetKind::Color => self.color_render_targets.pop(),
            RenderTargetKind::Alpha => self.alpha_render_targets.pop(),
        };
        match popped {
            Some(texture) => Some(texture),
            None => created,
        }
    }

    /// Puts a target back at the end of the free list of its kind.
    pub fn release(&mut self, kind: RenderTargetKind, texture: TextureId)
        ensures
            final(self).free(kind) == old(self).free(kind).push(texture),
            forall|other: RenderTargetKind|
                other != kind ==> final(self).free(other) == old(self).free(other),
    {
        match kind {
            RenderTargetKind::Color => self.color_render_targets.push(texture),
            RenderTargetKind::Alpha => self.alpha_render_targets.push(texture),
        }
    }

    /// Reverses both free lists: done once a frame is drawn.
    pub fn end_frame(&mut self)
        ensures
            forall|kind: RenderTargetKind|
                final(self).free(kind) == old(self).free(kind).reverse(),
    {
        reverse(&mut self.color_render_targets);
        reverse(&mut self.alpha_render_targets);
    }

    /// Hands a target of the given kind to each pass that needs one.
    /// `fresh` holds the targets that the device created for this frame:
    /// as many as the free list falls short.
    pub(crate) fn assign(&mut self, kind: RenderTargetKind, needs: &Vec<bool>, fresh: &Vec<TextureId>) -> (targets:
        Vec<Option<TextureId>>)
        requires
            fresh@.len() == fresh_needed(old(self).free(kind).len(), count_needed(needs@)),
        ensures
            targets@ == assigned(old(self).free(kind), fresh@, needs@),
            final(self).free(kind) == free_after_assign(old(self).free(kind), needs@),
            forall|other: RenderTargetKind|
                other != kind ==> final(self).free(other) == old(self).free(other),
    {
        let ghost free = self.free(kind);
        let ghost all = supply(free, fresh@);
        let mut targets: Vec<Option<TextureId>> = Vec::new();
        let mut created: usize = 0;
        let mut i: usize = 0;
        proof {
            assert(needs@.take(0) =~= Seq::<bool>::empty());
        }
        while i < needs.len()
            invariant
                i <= needs@.len(),
                free == old(self).free(kind),
                all == supply(free, fresh@),
                fresh@.len() == fresh_needed(free.len(), count_needed(needs@)),
                count_needed(needs@.take(i as int)) <= count_needed(needs@),
                self.free(kind) == free_after_assign(free, needs@.take(i as int)),
                created == fresh_needed(free.len(), count_needed(needs@.take(i as int))),
                targets@ == assigned(free, fresh@, needs@).take(i as int),
                forall|other: RenderTargetKind|
                    other != kind ==> self.free(other) == old(self).free(other),
            decreases needs@.len() - i,
        {
            proof {
                lemma_count_needed_step(needs@, i as int);
                lemma_count_monotone(needs@, i as int + 1);
            }
            let ghost taken = count_needed(needs@.take(i as int));
            if needs[i] {
                let next = if created < fresh.len() {
                    Some(fresh[created])
                } else {
                    None
                };
                let ghost before = self.free(kind);
                let was_empty: bool = self.free_count(kind) == 0;
                let target = self.acquire(kind, next);
                if was_empty {
                    created = created + 1;
                }
                proof {
                    if before.len() > 0 {
                        assert(before =~= free.take(free.len() - taken));
                        assert(all[taken as int] == free[free.len() - 1 - taken]);
                        assert(self.free(kind) =~= free_after_assign(
                            free,
                            needs@.take(i as int + 1),
                        ));
                    } else {
                        assert(all[taken as int] == fresh@[taken - free.len()]);
                    }
                }
                targets.push(target);
            } else {
                targets.push(None);
            }
            i = i + 1;
            assert(targets@ =~= assigned(free, fresh@, needs@).take(i as int));
        }
        proof {
            assert(needs@.take(i as int) =~= needs@);
            assert(targets@ =~= assigned(free, fresh@, needs@));
        }
        targets
    }

    /// Puts the targets of the passes back, pass by pass.
    pub fn release_all(&mut self, kind: RenderTargetKind, targets: &Vec<Option<TextureId>>)
        ensures
            final(self).free(kind) == old(self).free(kind) + handed_out(targets@),
            forall|other: RenderTargetKind|
                other != kind ==> final(self).free(other) == old(self).free(other),
    {
        let mut i: usize = 0;
        proof {
            assert(targets@.take(0) =~= Seq::<Option<TextureId>>::empty());
            assert(self.free(kind) =~= old(self).free(kind) + handed_out(targets@.take(0)));
        }
        while i < targets.len()
            invariant
                i <= targets@.len(),
                self.free(kind) == old(self).free(kind) + handed_out(targets@.take(i as int)),
                forall|other: RenderTargetKind|
                    other != kind ==> self.free(other) == old(self).free(other),
            decreases targets@.len() - i,
        {
            proof {
                assert(targets@.take(i as int + 1).drop_last() =~= targets@.take(i as int));
            }
            match targets[i] {
                Some(texture) => {
                    self.release(kind, texture);
                    assert(self.free(kind) =~= old(self).free(kind) + handed_out(
                        targets@.take(i as int + 1),
                    ));
                },
                None => {},
            }
            i = i + 1;
        }
        proof {
            assert(targets@.take(i as int) =~= targets@);
        }
    }
}

/// The first passes of a frame need no more targets than all of them.
pub proof fn lemma_count_monotone(needs: Seq<bool>, n: int)
    requires
        0 <= n <= needs.len(),
    ensures
        count_needed(needs.take(n)) <= count_needed(needs),
    decreases needs.len() - n,
{
    if n == needs.len() {
        assert(needs.take(n) =~= needs);
    } else {
        lemma_count_needed_step(needs, n);
        lemma_count_monotone(needs, n + 1);
    }
}

/// Reverses a list of textures in place.
pub fn reverse(list: &mut Vec<TextureId>)
    ensures
        final(list)@ == old(list)@.reverse(),
{
    let mut reversed: Vec<TextureId> = Vec::new();
    let ghost all = list@;
    while list.len() > 0
        invariant
            reversed@.len() + list@.len() == all.len(),
            list@ == all.take(list@.len() as int),
            reversed@ == Seq::new(reversed@.len(), |j: int| all[all.len() - 1 - j]),
        decreases list@.len(),
    {
        let last = list.pop();
        match last {
            Some(texture) => {
                reversed.push(texture);
            },
            None => {},
        }
        assert(list@ =~= all.take(list@.len() as int));
        assert(reversed@ =~= Seq::new(reversed@.len(), |j: int| all[all.len() - 1 - j]));
    }
    assert(reversed@ =~= all.reverse());
    *list = reversed;
}

/// A list reversed twice is the list.
pub proof fn lemma_reverse_twice(list: Seq<TextureId>)
    ensures
        list.reverse().reverse() == list,
{
    assert(list.reverse().reverse() =~= list);
}

/// At the end of a frame the pool holds what it held before and what the
/// device created for the frame: nothing is lost, and the pool has grown to
/// the largest number of targets that a frame has needed so far.
pub proof fn lemma_free_after_frame_len(
    free: Seq<TextureId>,
    fresh: Seq<TextureId>,
    needs: Seq<bool>,
)
    requires
        fresh.len() == fresh_needed(free.len(), count_needed(needs)),
    ensures
        free_after_frame(free, fresh, needs).len() == free.len() + fresh.len(),
        free_after_frame(free, fresh, needs).len() >= count_needed(needs),
{
}

/// The target that a pass gave back is in the pool when the frame ends, so
/// that a later frame can take it.
pub proof fn lemma_released_target_is_pooled(
    free: Seq<TextureId>,
    fresh: Seq<TextureId>,
    needs: Seq<bool>,
    pass: int,
)
    requires
        fresh.len() == fresh_needed(free.len(), count_needed(needs)),
        0 <= pass < needs.len(),
        needs[pass],
    ensures
        assigned(free, fresh, needs)[pass] is Some,
        free_after_frame(free, fresh, needs).contains(assigned(free, fresh, needs)[pass]->0),
{
    lemma_count_needed_step(needs, pass);
    lemma_count_monotone(needs, pass + 1);
    let rank = count_needed(needs.take(pass)) as int;
    let count = count_needed(needs) as int;
    let all = supply(free, fresh);
    let kept = free_after_assign(free, needs);
    let before = kept + all.take(count);
    assert(before[kept.len() + rank] == all[rank]);
    let after = before.reverse();
    assert(after[before.len() - 1 - (kept.len() + rank)] == all[rank]);
}

/// A frame that follows and needs no more targets than the pool now holds
/// has none created: in particular a frame with the same passes.
pub proof fn lemma_next_frame_creates_nothing(
    free: Seq<TextureId>,
    fresh: Seq<TextureId>,
    needs: Seq<bool>,
    next_needs: Seq<bool>,
)
    requires
        fresh.len() == fresh_needed(free.len(), count_needed(needs)),
        count_needed(next_needs) <= count_needed(needs) || count_needed(next_needs)
            <= free.len(),
    ensures
        fresh_needed(
            free_after_frame(free, fresh, needs).len(),
            count_needed(next_needs),
        ) == 0,
{
}

/// Where a frame used up the pool, a frame with the same passes that
/// follows gives every pass the target that it had before.
pub proof fn lemma_same_targets_again(
    free: Seq<TextureId>,
    fresh: Seq<TextureId>,
    needs: Seq<bool>,
)
    requires
        fresh.len() == fresh_needed(free.len(), count_needed(needs)),
        free.len() <= count_needed(needs),
    ensures
        assigned(free_after_frame(free, fresh, needs), Seq::empty(), needs) == assigned(
            free,
            fresh,
            needs,
        ),
{
    let all = supply(free, fresh);
    let count = count_needed(needs) as int;
    assert(all.take(count) =~= all);
    assert(free_after_assign(free, needs) + all =~= all);
    lemma_reverse_twice(all);
    assert(supply(all.reverse(), Seq::empty()) =~= all);
}

} // verus!
