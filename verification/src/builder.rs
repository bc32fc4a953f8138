//! The incremental construction context: an [`OperationBuilder`] accumulates
//! operands, attributes, regions and successors for one operation, tracks
//! the active region and active block through a small cursor, and freezes
//! the result with [`OperationBuilder::finish`].

use vstd::prelude::*;

use crate::attrs::{assoc_map, unique_keys};
use crate::attrs::{
    lemma_assoc_map_contains, lemma_assoc_map_len, lemma_assoc_map_push, lemma_assoc_map_update,
    lemma_assoc_map_value,
};
use crate::ir::{Attribute, BasicBlock, Intrinsic, Operation, Region, Var};
use crate::trace::{fresh_model, model_of, model_step, BuildStep};
use vstd::string::StringExecFns;

verus! {

/// The typed errors of the construction layer. Cursor misuse is reported at
/// the point of discovery; nothing panics and nothing is silently
/// defaulted.
#[derive(Clone, Copy, Debug, PartialEq, Eq, Structural)]
pub enum BuilderError {
    /// A region-scoped operation was attempted while the cursor addresses no
    /// region.
    NoActiveRegion,
    /// A block-scoped operation was attempted while the cursor addresses a
    /// region but no block within it.
    NoActiveBlock,
    /// Reserved for a collaborating factory's construction-time failure;
    /// never raised by the builder itself.
    BuilderCreationFailure,
    /// Reserved for a collaborator's exhaustive-match failure; never raised
    /// by the builder itself.
    Caseless,
}

/// Index of the first entry of `attrs` whose key reads as `key`, if any.
pub(crate) fn find_key<A>(attrs: &Vec<(String, A)>, key: &String) -> (r: Option<usize>)
    ensures
        match r {
            Some(i) => i < attrs@.len() && attrs@[i as int].0@ == key@,
            None => forall|j: int| 0 <= j < attrs@.len() ==> attrs@[j].0@ != key@,
        },
{
    let mut i: usize = 0;
    while i < attrs.len()
        invariant
            i <= attrs@.len(),
            forall|j: int| 0 <= j < i ==> attrs@[j].0@ != key@,
        decreases attrs@.len() - i,
    {
        let ki = &attrs[i].0;
        if ki.eq(key) {
            return Some(i);
        }
        i = i + 1;
    }
    None
}

/// The stateful construction context for one operation. The cursor pair
/// `(region half, block half)` locates the insertion point: the active
/// region is the one at index `region half - 1`, the active block the one
/// at index `block half - 1` within it.
pub struct OperationBuilder<I: Intrinsic, A: Attribute> {
    latest: Vec<Var>,
    cursor: (usize, usize),
    intrinsic: I,
    operands: Vec<Var>,
    attrs: Vec<(String, A)>,
    regions: Vec<Region<I, A>>,
    successors: Vec<BasicBlock<I, A>>,
}

impl<I: Intrinsic, A: Attribute> OperationBuilder<I, A> {
    /// The accumulated attribute entries, in table order.
    pub closed spec fn attr_entries(self) -> Seq<(String, A)> {
        self.attrs@
    }

    /// Well-formedness: the attribute entries carry pairwise distinct keys.
    /// `default` establishes it and every method preserves it.
    pub open spec fn wf(self) -> bool {
        unique_keys(self.attr_entries())
    }

    /// The most recent primary-result handle, if an operation was pushed.
    pub closed spec fn latest(self) -> Seq<Var> {
        self.latest@
    }

    /// The cursor: `(region half, block half)`.
    pub closed spec fn cursor(self) -> (usize, usize) {
        self.cursor
    }

    /// The fixed intrinsic handle the builder was created with.
    pub closed spec fn intrinsic(self) -> I {
        self.intrinsic
    }

    /// The accumulated operand handles.
    pub closed spec fn operands(self) -> Seq<Var> {
        self.operands@
    }

    /// The accumulated name-to-attribute mapping.
    pub open spec fn attrs(self) -> Map<Seq<char>, A> {
        assoc_map(self.attr_entries())
    }

    /// The accumulated regions, in push order.
    pub closed spec fn regions(self) -> Seq<Region<I, A>> {
        self.regions@
    }

    /// The accumulated successor blocks.
    pub closed spec fn successors(self) -> Seq<BasicBlock<I, A>> {
        self.successors@
    }

    /// The cursor's region half addresses a region that exists.
    pub open spec fn has_active_region(self) -> bool {
        1 <= self.cursor().0 && self.cursor().0 <= self.regions().len()
    }

    /// Index of the active region.
    pub open spec fn active_region_idx(self) -> int {
        self.cursor().0 - 1
    }

    /// The active region.
    pub open spec fn active_region(self) -> Region<I, A> {
        self.regions()[self.active_region_idx()]
    }

    /// The cursor addresses a block that exists within the active region.
    pub open spec fn has_active_block(self) -> bool {
        &&& self.has_active_region()
        &&& 1 <= self.cursor().1
        &&& self.cursor().1 <= self.active_region().blocks().len()
    }

    /// Index of the active block within the active region.
    pub open spec fn active_block_idx(self) -> int {
        self.cursor().1 - 1
    }

    /// The active block.
    pub open spec fn active_block(self) -> BasicBlock<I, A> {
        self.active_region().blocks()[self.active_block_idx()]
    }

    /// A fresh builder bound to `intr`: empty operand, attribute, region and
    /// successor state, cursor `(0, 0)`. Never fails.
    pub fn default(intr: I) -> (b: Self)
        ensures
            b.wf(),
            b.attr_entries() == Seq::<(String, A)>::empty(),
            b.latest() == Seq::<Var>::empty(),
            b.cursor().0 == 0 && b.cursor().1 == 0,
            b.intrinsic() == intr,
            b.operands() == Seq::<Var>::empty(),
            b.attrs() == Map::<Seq<char>, A>::empty(),
            b.regions() == Seq::<Region<I, A>>::empty(),
            b.successors() == Seq::<BasicBlock<I, A>>::empty(),
            model_of(b) == fresh_model(),
    {
        let b = OperationBuilder {
            latest: Vec::new(),
            cursor: (0, 0),
            intrinsic: intr,
            operands: Vec::new(),
            attrs: Vec::new(),
            regions: Vec::new(),
            successors: Vec::new(),
        };
        proof {
            assert(model_of(b).counts =~= fresh_model().counts);
        }
        b
    }

    /// The most recent primary-result handle, as recorded by `push_op`.
    pub fn get_latest(&self) -> (r: Vec<Var>)
        ensures
            r@ == self.latest(),
    {
        let mut out: Vec<Var> = Vec::new();
        let mut i: usize = 0;
        while i < self.latest.len()
            invariant
                i <= self.latest@.len(),
                out@ == self.latest@.subrange(0, i as int),
            decreases self.latest@.len() - i,
        {
            out.push(self.latest[i]);
            proof {
                assert(out@ =~= self.latest@.subrange(0, i + 1));
            }
            i = i + 1;
        }
        proof {
            assert(out@ =~= self.latest@);
        }
        out
    }

    /// Shared view of the intrinsic handle.
    pub fn get_intrinsic(&self) -> (r: &I)
        ensures
            *r == self.intrinsic(),
    {
        &self.intrinsic
    }

    /// Appends `arg` to the operand list; no liveness check is performed.
    pub fn push_operand(&mut self, arg: Var)
        ensures
            final(self).operands() == old(self).operands().push(arg),
            final(self).latest() == old(self).latest(),
            final(self).cursor() == old(self).cursor(),
            final(self).intrinsic() == old(self).intrinsic(),
            final(self).attr_entries() == old(self).attr_entries(),
            final(self).regions() == old(self).regions(),
            final(self).successors() == old(self).successors(),
            model_of(*final(self)) == model_step(model_of(*old(self)), BuildStep::PushOperand),
    {
        self.operands.push(arg);
    }

    /// Replaces the operand list wholesale.
    pub fn set_operands(&mut self, args: Vec<Var>)
        ensures
            final(self).operands() == args@,
            final(self).latest() == old(self).latest(),
            final(self).cursor() == old(self).cursor(),
            final(self).intrinsic() == old(self).intrinsic(),
            final(self).attr_entries() == old(self).attr_entries(),
            final(self).regions() == old(self).regions(),
            final(self).successors() == old(self).successors(),
    {
        self.operands = args;
    }

    /// The accumulated operand list. The handle parameter is accepted and
    /// ignored.
    pub fn get_operands(&self, _arg: Var) -> (r: Vec<Var>)
        ensures
            r@ == self.operands(),
    {
        let mut out: Vec<Var> = Vec::new();
        let mut i: usize = 0;
        while i < self.operands.len()
            invariant
                i <= self.operands@.len(),
                out@ == self.operands@.subrange(0, i as int),
            decreases self.operands@.len() - i,
        {
            out.push(self.operands[i]);
            proof {
                assert(out@ =~= self.operands@.subrange(0, i + 1));
            }
            i = i + 1;
        }
        proof {
            assert(out@ =~= self.operands@);
        }
        out
    }

    /// Repositions the cursor. The new position is taken as given; a
    /// position that addresses nothing makes the scoped operations fail
    /// with the documented errors.
    pub fn set_cursor(&mut self, reg: usize, blk: usize)
        ensures
            final(self).cursor() == (reg, blk),
            final(self).latest() == old(self).latest(),
            final(self).intrinsic() == old(self).intrinsic(),
            final(self).operands() == old(self).operands(),
            final(self).attr_entries() == old(self).attr_entries(),
            final(self).regions() == old(self).regions(),
            final(self).successors() == old(self).successors(),
    {
        self.cursor = (reg, blk);
    }

    /// The cursor: `(region half, block half)`.
    pub fn get_cursor(&self) -> (r: (usize, usize))
        ensures
            r == self.cursor(),
    {
        self.cursor
    }

    /// Mints a fresh argument handle for the active block. When the active
    /// block is the region's entry block (index 0), the minted handle is
    /// also appended to the builder's own operand list, linking entry-block
    /// parameters to the enclosing operation's operands. Fails with the
    /// documented error, leaving the builder unchanged, when no region or no
    /// block is active.
    pub fn push_arg(&mut self) -> (r: Result<Var, BuilderError>)
        requires
            old(self).has_active_block() ==> old(self).active_region().next_id() < usize::MAX,
        ensures
            match r {
                Ok(v) => {
                    &&& old(self).has_active_block()
                    &&& final(self).regions().len() == old(self).regions().len()
                    &&& (forall|j: int|
                        0 <= j < old(self).regions().len() && j != old(self).active_region_idx()
                            ==> final(self).regions()[j] == old(self).regions()[j])
                    &&& old(self).active_region().arg_pushed(
                        final(self).regions()[old(self).active_region_idx()],
                        old(self).active_block_idx(),
                        v,
                    )
                    &&& final(self).operands() == (if old(self).cursor().1 == 1 {
                        old(self).operands().push(v)
                    } else {
                        old(self).operands()
                    })
                    &&& final(self).latest() == old(self).latest()
                    &&& final(self).cursor() == old(self).cursor()
                    &&& final(self).intrinsic() == old(self).intrinsic()
                    &&& final(self).attr_entries() == old(self).attr_entries()
                    &&& final(self).successors() == old(self).successors()
                },
                Err(e) => {
                    &&& !old(self).has_active_block()
                    &&& *final(self) == *old(self)
                    &&& e == (if !old(self).has_active_region() {
                        BuilderError::NoActiveRegion
                    } else {
                        BuilderError::NoActiveBlock
                    })
                },
            },
            model_of(*final(self)) == model_step(model_of(*old(self)), BuildStep::PushArg),
    {
        if !(1 <= self.cursor.0 && self.cursor.0 <= self.regions.len()) {
            return Err(BuilderError::NoActiveRegion);
        }
        let reg: usize = self.cursor.0 - 1;
        let nblocks = self.regions[reg].num_blocks();
        if !(1 <= self.cursor.1 && self.cursor.1 <= nblocks) {
            return Err(BuilderError::NoActiveBlock);
        }
        let blk: usize = self.cursor.1 - 1;
        let region = &mut self.regions[reg];
        let res = region.push_arg(blk);
        match res {
            Ok(v) => {
                if blk == 0 {
                    self.operands.push(v);
                }
                proof {
                    assert(model_of(*self).counts =~= model_step(
                        model_of(*old(self)),
                        BuildStep::PushArg,
                    ).counts);
                }
                Ok(v)
            },
            Err(e) => Err(e),
        }
    }

    /// Inserts `attr` under `k`, overwriting any previous entry under the
    /// same key ("last write wins").
    pub fn insert_attr(&mut self, k: &str, attr: A)
        requires
            old(self).wf(),
        ensures
            final(self).wf(),
            final(self).attrs() == old(self).attrs().insert(k@, attr),
            final(self).latest() == old(self).latest(),
            final(self).cursor() == old(self).cursor(),
            final(self).intrinsic() == old(self).intrinsic(),
            final(self).operands() == old(self).operands(),
            final(self).regions() == old(self).regions(),
            final(self).successors() == old(self).successors(),
    {
        let key = String::from_str(k);
        match find_key(&self.attrs, &key) {
            Some(i) => {
                proof {
                    lemma_assoc_map_update(self.attrs@, i as int, (key, attr));
                }
                self.attrs[i] = (key, attr);
            },
            None => {
                proof {
                    lemma_assoc_map_push(self.attrs@, (key, attr));
                }
                self.attrs.push((key, attr));
            },
        }
    }

    /// The accumulated attribute mapping, as ordered entries with pairwise
    /// distinct keys: one entry per key of the mapping.
    pub fn get_attrs(&self) -> (r: &Vec<(String, A)>)
        requires
            self.wf(),
        ensures
            unique_keys(r@),
            assoc_map(r@) == self.attrs(),
            r@.len() == self.attrs().dom().len(),
    {
        proof {
            lemma_assoc_map_len(self.attrs@);
        }
        &self.attrs
    }

    /// Looks up the attribute stored under `key`; an absent key is not an
    /// error.
    pub fn get_attr(&self, key: &str) -> (r: Option<&A>)
        requires
            self.wf(),
        ensures
            match r {
                Some(a) => self.attrs().contains_key(key@) && *a == self.attrs()[key@],
                None => !self.attrs().contains_key(key@),
            },
    {
        let k = String::from_str(key);
        match find_key(&self.attrs, &k) {
            Some(i) => {
                proof {
                    lemma_assoc_map_value(self.attrs@, i as int);
                }
                Some(&self.attrs[i].1)
            },
            None => {
                proof {
                    lemma_assoc_map_contains(self.attrs@, key@);
                }
                None
            },
        }
    }

    /// Appends `r` and makes it the active region. The block half of the
    /// cursor deliberately carries over from whatever it was before: the
    /// active-block lookup depends on the inherited value until the first
    /// `push_block` in the new region.
    pub fn push_region(&mut self, r: Region<I, A>)
        requires
            old(self).cursor().0 < usize::MAX,
        ensures
            final(self).regions() == old(self).regions().push(r),
            final(self).cursor().0 == old(self).cursor().0 + 1,
            final(self).cursor().1 == old(self).cursor().1,
            final(self).latest() == old(self).latest(),
            final(self).intrinsic() == old(self).intrinsic(),
            final(self).operands() == old(self).operands(),
            final(self).attr_entries() == old(self).attr_entries(),
            final(self).successors() == old(self).successors(),
            model_of(*final(self)) == model_step(
                model_of(*old(self)),
                BuildStep::PushRegion { blocks: r.blocks().len() as int },
            ),
    {
        let ghost seed: int = r.blocks().len() as int;
        self.regions.push(r);
        self.cursor = (self.cursor.0 + 1, self.cursor.1);
        proof {
            assert(model_of(*self).counts =~= model_step(
                model_of(*old(self)),
                BuildStep::PushRegion { blocks: seed },
            ).counts);
        }
    }

    /// Shared view of the active region; fails when the cursor addresses no
    /// region.
    pub fn get_region(&self) -> (r: Result<&Region<I, A>, BuilderError>)
        ensures
            match r {
                Ok(rg) => self.has_active_region() && *rg == self.active_region(),
                Err(e) => !self.has_active_region() && e == BuilderError::NoActiveRegion,
            },
    {
        if 1 <= self.cursor.0 && self.cursor.0 <= self.regions.len() {
            Ok(&self.regions[self.cursor.0 - 1])
        } else {
            Err(BuilderError::NoActiveRegion)
        }
    }

    /// Shared view of the accumulated region list.
    pub fn get_regions(&self) -> (r: &Vec<Region<I, A>>)
        ensures
            r@ == self.regions(),
    {
        &self.regions
    }

    /// Appends `b` to the active region and advances the block half of the
    /// cursor. Fails with `NoActiveRegion`, leaving the builder unchanged,
    /// when no region is active.
    pub fn push_block(&mut self, b: BasicBlock<I, A>) -> (r: Result<(), BuilderError>)
        requires
            old(self).cursor().1 < usize::MAX,
        ensures
            match r {
                Ok(_) => {
                    &&& old(self).has_active_region()
                    &&& final(self).regions().len() == old(self).regions().len()
                    &&& (forall|j: int|
                        0 <= j < old(self).regions().len() && j != old(self).active_region_idx()
                            ==> final(self).regions()[j] == old(self).regions()[j])
                    &&& final(self).regions()[old(self).active_region_idx()].blocks() == old(
                        self,
                    ).active_region().blocks().push(b)
                    &&& final(self).regions()[old(self).active_region_idx()].next_id() == old(
                        self,
                    ).active_region().next_id()
                    &&& final(self).cursor().0 == old(self).cursor().0
                    &&& final(self).cursor().1 == old(self).cursor().1 + 1
                    &&& final(self).latest() == old(self).latest()
                    &&& final(self).intrinsic() == old(self).intrinsic()
                    &&& final(self).operands() == old(self).operands()
                    &&& final(self).attr_entries() == old(self).attr_entries()
                    &&& final(self).successors() == old(self).successors()
                },
                Err(e) => {
                    &&& !old(self).has_active_region()
                    &&& *final(self) == *old(self)
                    &&& e == BuilderError::NoActiveRegion
                },
            },
            model_of(*final(self)) == model_step(model_of(*old(self)), BuildStep::PushBlock),
    {
        if !(1 <= self.cursor.0 && self.cursor.0 <= self.regions.len()) {
            return Err(BuilderError::NoActiveRegion);
        }
        let reg: usize = self.cursor.0 - 1;
        let region = &mut self.regions[reg];
        region.push_block(b);
        self.cursor = (self.cursor.0, self.cursor.1 + 1);
        proof {
            assert(model_of(*self).counts =~= model_step(
                model_of(*old(self)),
                BuildStep::PushBlock,
            ).counts);
        }
        Ok(())
    }

    /// Shared view of the active block; fails when no region or no block is
    /// active.
    pub fn get_block(&self) -> (r: Result<&BasicBlock<I, A>, BuilderError>)
        ensures
            match r {
                Ok(b) => self.has_active_block() && *b == self.active_block(),
                Err(e) => {
                    &&& !self.has_active_block()
                    &&& e == (if !self.has_active_region() {
                        BuilderError::NoActiveRegion
                    } else {
                        BuilderError::NoActiveBlock
                    })
                },
            },
    {
        if !(1 <= self.cursor.0 && self.cursor.0 <= self.regions.len()) {
            return Err(BuilderError::NoActiveRegion);
        }
        let region = &self.regions[self.cursor.0 - 1];
        let nblocks = region.num_blocks();
        if !(1 <= self.cursor.1 && self.cursor.1 <= nblocks) {
            return Err(BuilderError::NoActiveBlock);
        }
        region.get_block(self.cursor.1 - 1)
    }

    /// Inserts a finished child operation into the active block: the child
    /// is appended in call order, and the freshly minted handle for its
    /// primary result replaces the builder's "latest" value. Fails with the
    /// documented error, leaving the builder unchanged, when no region or no
    /// block is active.
    pub fn push_op(&mut self, v: Operation<I, A>) -> (r: Result<Var, BuilderError>)
        requires
            old(self).has_active_block() ==> old(self).active_region().next_id() < usize::MAX,
        ensures
            match r {
                Ok(ret) => {
                    &&& old(self).has_active_block()
                    &&& final(self).regions().len() == old(self).regions().len()
                    &&& (forall|j: int|
                        0 <= j < old(self).regions().len() && j != old(self).active_region_idx()
                            ==> final(self).regions()[j] == old(self).regions()[j])
                    &&& old(self).active_region().op_pushed(
                        final(self).regions()[old(self).active_region_idx()],
                        old(self).active_block_idx(),
                        v,
                        ret,
                    )
                    &&& final(self).latest() == seq![ret]
                    &&& final(self).cursor() == old(self).cursor()
                    &&& final(self).intrinsic() == old(self).intrinsic()
                    &&& final(self).operands() == old(self).operands()
                    &&& final(self).attr_entries() == old(self).attr_entries()
                    &&& final(self).successors() == old(self).successors()
                },
                Err(e) => {
                    &&& !old(self).has_active_block()
                    &&& *final(self) == *old(self)
                    &&& e == (if !old(self).has_active_region() {
                        BuilderError::NoActiveRegion
                    } else {
                        BuilderError::NoActiveBlock
                    })
                },
            },
    {
        if !(1 <= self.cursor.0 && self.cursor.0 <= self.regions.len()) {
            return Err(BuilderError::NoActiveRegion);
        }
        let reg: usize = self.cursor.0 - 1;
        let nblocks = self.regions[reg].num_blocks();
        if !(1 <= self.cursor.1 && self.cursor.1 <= nblocks) {
            return Err(BuilderError::NoActiveBlock);
        }
        let blk: usize = self.cursor.1 - 1;
        let region = &mut self.regions[reg];
        let res = region.push_op(blk, v);
        match res {
            Ok(ret) => {
                let mut l: Vec<Var> = Vec::new();
                l.push(ret);
                self.latest = l;
                Ok(ret)
            },
            Err(e) => Err(e),
        }
    }

    /// Consumes the builder into an immutable `Operation` assembled from the
    /// accumulated intrinsic, operands, attributes, regions and successors.
    /// Always succeeds; no semantic validation is performed here — that is
    /// an external collaborator's job.
    pub fn finish(self) -> (r: Result<Operation<I, A>, BuilderError>)
        requires
            self.wf(),
        ensures
            match r {
                Ok(op) => {
                    &&& op.wf()
                    &&& op.attr_entries() == self.attr_entries()
                    &&& op.intrinsic() == self.intrinsic()
                    &&& op.operands() == self.operands()
                    &&& op.attrs() == self.attrs()
                    &&& op.regions() == self.regions()
                    &&& op.successors() == self.successors()
                },
                Err(_) => false,
            },
    {
        let OperationBuilder { latest: _, cursor: _, intrinsic, operands, attrs, regions, successors } =
            self;
        Ok(Operation::new(intrinsic, operands, attrs, regions, successors))
    }
}

} // verus!
