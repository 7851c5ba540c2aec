//! A whole frame: the texture upserts first, then the primitives, and the
//! textures that are given up last.

use vstd::prelude::*;
use crate::command::Command;
use crate::painter::{ContractViolation, Painter, PainterState};
use crate::primitive::ClippedPrimitive;
use crate::scissor::target_fits;
use crate::texture::{ImageDelta, TextureId};

verus! {

/// What a frame does to the textures.
#[derive(Debug, PartialEq, Eq)]
pub struct TexturesDelta {
    /// New or changed textures, to be applied before painting, in this order.
    pub set: Vec<(TextureId, ImageDelta)>,
    /// Textures to free after painting, in this order.
    pub free: Vec<TextureId>,
}

/// The calls of one frame, in the order `uploads`, `paint`, `frees`.
#[derive(Debug, PartialEq, Eq)]
pub struct FramePlan {
    /// For each entry of the upsert list, in its order, the calls that bring
    /// its pixels onto its texture.
    pub uploads: Vec<Vec<Command>>,
    /// The calls that paint the primitives.
    pub paint: Vec<Command>,
    /// The calls that delete the textures given up.
    pub frees: Vec<Command>,
}

impl PainterState {
    /// The identifiers that have a texture once the first `count` upserts of
    /// `set` are done: those of the table, and those upserted.
    pub open spec fn upsert_domain(self, set: Seq<(TextureId, ImageDelta)>, count: nat) -> Set<TextureId> {
        Set::new(
            |id: TextureId|
                self.textures.contains_key(id) || exists|i: int| 0 <= i < count && (#[trigger] set[i]).0 == id,
        )
    }

    /// Whether upsert number `index` of `set` needs a new texture: neither
    /// the table nor an earlier upsert of the list has one for its
    /// identifier.
    pub open spec fn needs_fresh(self, set: Seq<(TextureId, ImageDelta)>, index: int) -> bool {
        !self.upsert_domain(set, index as nat).contains(set[index].0)
    }

    /// How many new textures the first `count` upserts of `set` need.
    pub open spec fn fresh_used(self, set: Seq<(TextureId, ImageDelta)>, count: nat) -> nat
        decreases count,
    {
        if count == 0 {
            0
        } else {
            self.fresh_used(set, (count - 1) as nat) + if self.needs_fresh(set, count - 1) {
                1nat
            } else {
                0nat
            }
        }
    }

    /// The new texture that upsert number `index` of `set` takes from
    /// `fresh`: the next one that no earlier upsert took, where it needs
    /// one.
    pub open spec fn fresh_for(
        self,
        set: Seq<(TextureId, ImageDelta)>,
        fresh: Seq<glow::Texture>,
        index: int,
    ) -> Option<glow::Texture> {
        if self.needs_fresh(set, index) {
            Some(fresh[self.fresh_used(set, index as nat) as int])
        } else {
            None
        }
    }

    /// The painter after the first `count` upserts of `set`.
    pub open spec fn after_upserts(
        self,
        set: Seq<(TextureId, ImageDelta)>,
        fresh: Seq<glow::Texture>,
        count: nat,
    ) -> PainterState
        decreases count,
    {
        if count == 0 {
            self
        } else {
            self.after_upserts(set, fresh, (count - 1) as nat).set_texture(
                set[count - 1].0,
                self.fresh_for(set, fresh, count - 1),
            )
        }
    }

    /// The calls of upsert number `index` of `set`.
    pub open spec fn upsert_commands(
        self,
        set: Seq<(TextureId, ImageDelta)>,
        fresh: Seq<glow::Texture>,
        index: int,
    ) -> Seq<Command> {
        self.after_upserts(set, fresh, index as nat).set_texture_commands(
            set[index].0,
            set[index].1,
            self.fresh_for(set, fresh, index),
        )
    }

    /// The painter after the first `count` textures of `free` are freed.
    pub open spec fn after_frees(self, free: Seq<TextureId>, count: nat) -> PainterState
        decreases count,
    {
        if count == 0 {
            self
        } else {
            self.after_frees(free, (count - 1) as nat).free_texture(free[count - 1])
        }
    }

    /// The calls that free the first `count` textures of `free`.
    pub open spec fn frees_commands(self, free: Seq<TextureId>, count: nat) -> Seq<Command>
        decreases count,
    {
        if count == 0 {
            Seq::empty()
        } else {
            self.frees_commands(free, (count - 1) as nat) + self.after_frees(
                free,
                (count - 1) as nat,
            ).free_texture_commands(free[count - 1])
        }
    }

    /// The painter after a frame with `textures_delta`: all its upserts are
    /// done, then all its frees.
    pub open spec fn after_frame(self, textures_delta: TexturesDelta, fresh: Seq<glow::Texture>) -> PainterState {
        self.after_upserts(textures_delta.set@, fresh, textures_delta.set@.len()).after_frees(
            textures_delta.free@,
            textures_delta.free@.len(),
        )
    }

    /// `plan` is the plan of a frame of `primitives` with `textures_delta`:
    /// one list of calls for each upsert, the painting with the textures as
    /// the upserts leave them, and the frees after it.
    pub open spec fn is_frame(
        self,
        screen_size_px: [u32; 2],
        primitives: Seq<ClippedPrimitive>,
        textures_delta: TexturesDelta,
        fresh: Seq<glow::Texture>,
        plan: FramePlan,
    ) -> bool {
        let upserted = self.after_upserts(textures_delta.set@, fresh, textures_delta.set@.len());
        &&& plan.uploads@.len() == textures_delta.set@.len()
        &&& forall|i: int|
            0 <= i < textures_delta.set@.len() ==> (#[trigger] plan.uploads@[i])@ == self.upsert_commands(
                textures_delta.set@,
                fresh,
                i,
            )
        &&& plan.paint@ == upserted.paint_commands(screen_size_px, primitives)
        &&& plan.frees@ == upserted.frees_commands(textures_delta.free@, textures_delta.free@.len())
    }

    /// The first upserts of a list need no more new textures than all of it.
    pub proof fn lemma_fresh_used_grows(self, set: Seq<(TextureId, ImageDelta)>, fewer: nat, more: nat)
        requires
            fewer <= more,
        ensures
            self.fresh_used(set, fewer) <= self.fresh_used(set, more),
        decreases more,
    {
        if fewer < more {
            self.lemma_fresh_used_grows(set, fewer, (more - 1) as nat);
        }
    }

    /// Upserts change the texture table and nothing else, and the table
    /// then holds the identifiers that [`Self::upsert_domain`] names.
    pub proof fn lemma_after_upserts(
        self,
        set: Seq<(TextureId, ImageDelta)>,
        fresh: Seq<glow::Texture>,
        count: nat,
    )
        requires
            count <= set.len(),
        ensures
            self.after_upserts(set, fresh, count) == (PainterState {
                textures: self.after_upserts(set, fresh, count).textures,
                ..self
            }),
            self.after_upserts(set, fresh, count).textures.dom() == self.upsert_domain(set, count),
        decreases count,
    {
        if count > 0 {
            self.lemma_after_upserts(set, fresh, (count - 1) as nat);
            assert(self.after_upserts(set, fresh, count).textures.dom() =~= self.upsert_domain(set, count));
        } else {
            assert(self.textures.dom() =~= self.upsert_domain(set, 0));
        }
    }
}

fn contains_id(ids: &Vec<TextureId>, id: TextureId) -> (found: bool)
    ensures
        found == ids@.contains(id),
{
    let mut i: usize = 0;
    while i < ids.len()
        invariant
            i <= ids@.len(),
            forall|j: int| 0 <= j < i ==> ids@[j] != id,
        decreases ids@.len() - i,
    {
        if ids[i] == id {
            return true;
        }
        i = i + 1;
    }
    false
}

impl Painter {
    /// How many new texture objects the upserts of `textures_delta` need:
    /// one for each of its identifiers that has no texture yet.
    pub fn textures_needed(&self, textures_delta: &TexturesDelta) -> (needed: usize)
        ensures
            needed == self@.fresh_used(textures_delta.set@, textures_delta.set@.len()),
    {
        let mut upserted: Vec<TextureId> = Vec::new();
        let mut i: usize = 0;
        while i < textures_delta.set.len()
            invariant
                i <= textures_delta.set@.len(),
                upserted@.len() == self@.fresh_used(textures_delta.set@, i as nat),
                upserted@.len() <= i,
                forall|id: TextureId| #[trigger]
                    upserted@.contains(id) <==> !self@.textures.contains_key(id) && self@.upsert_domain(
                        textures_delta.set@,
                        i as nat,
                    ).contains(id),
            decreases textures_delta.set@.len() - i,
        {
            let id = textures_delta.set[i].0;
            let ghost before = upserted@;
            if self.texture(id).is_none() && !contains_id(&upserted, id) {
                upserted.push(id);
            }
            proof {
                let set = textures_delta.set@;
                assert forall|other: TextureId| #[trigger]
                    upserted@.contains(other) <==> !self@.textures.contains_key(other) && self@.upsert_domain(
                        set,
                        (i + 1) as nat,
                    ).contains(other) by {
                    if upserted@.contains(other) {
                        let j = choose|j: int| 0 <= j < upserted@.len() && upserted@[j] == other;
                        if j < before.len() {
                            assert(before.contains(other));
                            let k = choose|k: int| 0 <= k < i && (#[trigger] set[k]).0 == other;
                        } else {
                            assert(set[i as int].0 == other);
                        }
                    }
                    if !self@.textures.contains_key(other) && self@.upsert_domain(set, (i + 1) as nat).contains(
                        other,
                    ) {
                        let k = choose|k: int| 0 <= k < i + 1 && (#[trigger] set[k]).0 == other;
                        if k < i {
                            assert(before.contains(other));
                            let j = choose|j: int| 0 <= j < before.len() && before[j] == other;
                            assert(upserted@[j] == other);
                        } else if before.contains(other) {
                            let j = choose|j: int| 0 <= j < before.len() && before[j] == other;
                            assert(upserted@[j] == other);
                        } else {
                            assert(upserted@[before.len() as int] == other);
                        }
                    }
                }
            }
            i = i + 1;
        }
        upserted.len()
    }

    /// Plans a whole frame if the painter is live. A destroyed painter
    /// refuses: it plans no call and stays as it is, and nothing is asked of
    /// the deltas or of `fresh`.
    pub fn try_paint_and_update_textures(
        &mut self,
        screen_size_px: [u32; 2],
        clipped_primitives: &[ClippedPrimitive],
        textures_delta: &TexturesDelta,
        fresh: &Vec<glow::Texture>,
    ) -> (outcome: Result<FramePlan, ContractViolation>)
        requires
            target_fits(screen_size_px),
            !old(self)@.destroyed ==> forall|i: int|
                0 <= i < textures_delta.set@.len() ==> old(self)@.upload_violation(
                    (#[trigger] textures_delta.set@[i]).1,
                ) is None,
            !old(self)@.destroyed ==> fresh@.len() == old(self)@.fresh_used(
                textures_delta.set@,
                textures_delta.set@.len(),
            ),
        ensures
            final(self)@.wf(),
            old(self)@.destroyed ==> outcome is Err && outcome->Err_0 == ContractViolation::Destroyed
                && final(self)@ == old(self)@,
            !old(self)@.destroyed ==> outcome is Ok && old(self)@.is_frame(
                screen_size_px,
                clipped_primitives@,
                *textures_delta,
                fresh@,
                outcome->Ok_0,
            ) && final(self)@ == old(self)@.after_frame(*textures_delta, fresh@),
    {
        proof {
            self.textures.lemma_finite();
            use_type_invariant(&self.native_ids);
            use_type_invariant(&self.storage);
        }
        if self.destroyed {
            Err(ContractViolation::Destroyed)
        } else {
            Ok(self.paint_and_update_textures(screen_size_px, clipped_primitives, textures_delta, fresh))
        }
    }

    /// Plans a whole frame: every upsert of `textures_delta`, in its order,
    /// then the primitives, then every free of `textures_delta`, in its
    /// order. The colour buffer is expected to have been cleared.
    ///
    /// `fresh` holds the texture objects that the host has just created for
    /// this frame, as many as [`Painter::textures_needed`] says: the upserts
    /// that find no texture take them one after the other.
    pub fn paint_and_update_textures(
        &mut self,
        screen_size_px: [u32; 2],
        clipped_primitives: &[ClippedPrimitive],
        textures_delta: &TexturesDelta,
        fresh: &Vec<glow::Texture>,
    ) -> (plan: FramePlan)
        requires
            !old(self)@.destroyed,
            target_fits(screen_size_px),
            forall|i: int|
                0 <= i < textures_delta.set@.len() ==> old(self)@.upload_violation(
                    (#[trigger] textures_delta.set@[i]).1,
                ) is None,
            fresh@.len() == old(self)@.fresh_used(textures_delta.set@, textures_delta.set@.len()),
        ensures
            final(self)@ == old(self)@.after_frame(*textures_delta, fresh@),
            final(self)@.wf(),
            old(self)@.is_frame(screen_size_px, clipped_primitives@, *textures_delta, fresh@, plan),
    {
        let ghost start = self@;
        let ghost set = textures_delta.set@;
        let mut uploads: Vec<Vec<Command>> = Vec::new();
        let mut used: usize = 0;
        let mut i: usize = 0;
        while i < textures_delta.set.len()
            invariant
                i <= set.len(),
                set == textures_delta.set@,
                start == old(self)@,
                forall|k: int| 0 <= k < set.len() ==> start.upload_violation((#[trigger] set[k]).1) is None,
                !start.destroyed,
                fresh@.len() == start.fresh_used(set, set.len()),
                used == start.fresh_used(set, i as nat),
                self@ == start.after_upserts(set, fresh@, i as nat),
                uploads@.len() == i,
                forall|k: int| 0 <= k < i ==> (#[trigger] uploads@[k])@ == start.upsert_commands(set, fresh@, k),
            decreases set.len() - i,
        {
            let id = textures_delta.set[i].0;
            let delta = &textures_delta.set[i].1;
            proof {
                start.lemma_after_upserts(set, fresh@, i as nat);
                start.lemma_fresh_used_grows(set, (i + 1) as nat, set.len());
                assert(start.upload_violation(set[i as int].1) is None);
            }
            let texture = if self.texture(id).is_none() {
                assert(start.needs_fresh(set, i as int));
                assert(start.fresh_used(set, (i + 1) as nat) == used + 1);
                let texture = fresh[used];
                assert(used < fresh.len());
                used = used + 1;
                Some(texture)
            } else {
                None
            };
            let upload = self.set_texture(id, delta, texture);
            uploads.push(upload);
            i = i + 1;
        }
        proof {
            start.lemma_after_upserts(set, fresh@, set.len());
        }

        let paint = self.paint_primitives(screen_size_px, clipped_primitives);

        proof {
            self.textures.lemma_finite();
            use_type_invariant(&self.native_ids);
            use_type_invariant(&self.storage);
        }
        let ghost painted = self@;
        let ghost free = textures_delta.free@;
        let mut frees: Vec<Command> = Vec::new();
        let mut j: usize = 0;
        while j < textures_delta.free.len()
            invariant
                j <= free.len(),
                free == textures_delta.free@,
                !painted.destroyed,
                self@ == painted.after_frees(free, j as nat),
                self@.wf(),
                frees@ == painted.frees_commands(free, j as nat),
            decreases free.len() - j,
        {
            proof {
                lemma_after_frees_live(painted, free, j as nat);
            }
            let mut more = self.free_texture(textures_delta.free[j]);
            frees.append(&mut more);
            j = j + 1;
        }
        FramePlan { uploads, paint, frees }
    }
}

/// Freeing textures does not destroy the painter.
proof fn lemma_after_frees_live(state: PainterState, free: Seq<TextureId>, count: nat)
    ensures
        state.after_frees(free, count).destroyed == state.destroyed,
    decreases count,
{
    if count > 0 {
        lemma_after_frees_live(state, free, (count - 1) as nat);
    }
}

} // verus!
