//! The minimal data model the builder assembles: `Var` handles,
//! `BasicBlock`s, `Region`s and finished `Operation`s, together with the two
//! open capability interfaces (`Intrinsic`, `Attribute`) the whole model is
//! generic over.

use vstd::prelude::*;

use crate::attrs::{assoc_map, unique_keys};
use crate::attrs::{lemma_assoc_map_contains, lemma_assoc_map_len, lemma_assoc_map_value};
use crate::builder::BuilderError;
use vstd::string::StringExecFns;

verus! {

/// Opaque handle to a produced value (a block argument or an operation
/// result): identity only. A handle is meaningful within the construction
/// session that minted it; no use-after-finish check is performed — liveness
/// is a caller responsibility.
#[derive(Clone, Copy, Debug, PartialEq, Eq, Structural)]
pub struct Var {
    id: usize,
}

impl Var {
    /// The identity behind the handle.
    pub closed spec fn spec_id(self) -> nat {
        self.id as nat
    }

    /// Wraps a raw identity as a handle.
    pub fn new(id: usize) -> (v: Var)
        ensures
            v.spec_id() == id as nat,
    {
        Var { id }
    }

    /// The raw identity.
    pub fn get_id(&self) -> (r: usize)
        ensures
            r as nat == self.spec_id(),
    {
        self.id
    }
}

/// Open capability interface for opcode handles. The core stores and
/// forwards an intrinsic opaquely; the reported name and semantic trait tags
/// are consumed by external verifiers and optimizers, never interpreted here.
pub trait Intrinsic: Sized {
    /// Stable identifying name.
    fn get_name(&self) -> String;

    /// Open set of semantic trait tags (for example "terminator",
    /// "commutative" or "pure").
    fn get_traits(&self) -> Vec<String>;
}

/// Open capability interface for per-key operation metadata. The payload
/// must expose a structured serialized form so an attribute mapping can be
/// round-tripped generically; the core never inspects or compares it.
pub trait Attribute: Sized {
    /// Structured serialized form of the payload.
    fn to_bytes(&self) -> Vec<u8>;
}

/// One straight-line code unit: an ordered, append-only list of argument
/// handles and an ordered, append-only list of operations in program order.
#[derive(Debug)]
pub struct BasicBlock<I: Intrinsic, A: Attribute> {
    args: Vec<Var>,
    ops: Vec<Operation<I, A>>,
}

impl<I: Intrinsic, A: Attribute> BasicBlock<I, A> {
    /// The ordered argument handles of the block.
    pub closed spec fn args(self) -> Seq<Var> {
        self.args@
    }

    /// The ordered operations of the block, in program order.
    pub closed spec fn ops(self) -> Seq<Operation<I, A>> {
        self.ops@
    }

    /// A fresh, empty block.
    pub fn new() -> (b: Self)
        ensures
            b.args() == Seq::<Var>::empty(),
            b.ops() == Seq::<Operation<I, A>>::empty(),
    {
        BasicBlock { args: Vec::new(), ops: Vec::new() }
    }

    /// Shared view of the argument list.
    pub fn get_args(&self) -> (r: &Vec<Var>)
        ensures
            r@ == self.args(),
    {
        &self.args
    }

    /// Shared view of the operation list.
    pub fn get_ops(&self) -> (r: &Vec<Operation<I, A>>)
        ensures
            r@ == self.ops(),
    {
        &self.ops
    }

    /// Appends an argument handle to the block's own argument list.
    pub fn push_arg_var(&mut self, v: Var)
        ensures
            final(self).args() == old(self).args().push(v),
            final(self).ops() == old(self).ops(),
    {
        self.args.push(v);
    }

    /// Appends a finished operation at the end of the block.
    pub fn push_op(&mut self, op: Operation<I, A>)
        ensures
            final(self).ops() == old(self).ops().push(op),
            final(self).args() == old(self).args(),
    {
        self.ops.push(op);
    }
}

/// One nested lexical/control scope: an ordered, append-only list of basic
/// blocks, of which index 0 is the entry block. The region also owns the
/// counter its fresh value handles are minted from.
#[derive(Debug)]
pub struct Region<I: Intrinsic, A: Attribute> {
    blocks: Vec<BasicBlock<I, A>>,
    next_id: usize,
}

impl<I: Intrinsic, A: Attribute> Region<I, A> {
    /// The ordered blocks of the region.
    pub closed spec fn blocks(self) -> Seq<BasicBlock<I, A>> {
        self.blocks@
    }

    /// The identity the region's next minted handle will carry.
    pub closed spec fn next_id(self) -> usize {
        self.next_id
    }

    /// Holds when `post` is `self` with the fresh handle `v` minted and
    /// appended to the argument list of block `blk`.
    pub open spec fn arg_pushed(self, post: Self, blk: int, v: Var) -> bool {
        &&& v.spec_id() == self.next_id()
        &&& post.next_id() == self.next_id() + 1
        &&& post.blocks().len() == self.blocks().len()
        &&& (forall|j: int|
            0 <= j < self.blocks().len() && j != blk ==> post.blocks()[j] == self.blocks()[j])
        &&& post.blocks()[blk].args() == self.blocks()[blk].args().push(v)
        &&& post.blocks()[blk].ops() == self.blocks()[blk].ops()
    }

    /// Holds when `post` is `self` with `op` appended to block `blk`, whose
    /// primary result is the fresh handle `v`.
    pub open spec fn op_pushed(self, post: Self, blk: int, op: Operation<I, A>, v: Var) -> bool {
        &&& v.spec_id() == self.next_id()
        &&& post.next_id() == self.next_id() + 1
        &&& post.blocks().len() == self.blocks().len()
        &&& (forall|j: int|
            0 <= j < self.blocks().len() && j != blk ==> post.blocks()[j] == self.blocks()[j])
        &&& post.blocks()[blk].ops() == self.blocks()[blk].ops().push(op)
        &&& post.blocks()[blk].args() == self.blocks()[blk].args()
    }

    /// A fresh, empty region.
    pub fn new() -> (r: Self)
        ensures
            r.blocks() == Seq::<BasicBlock<I, A>>::empty(),
            r.next_id() == 0,
    {
        Region { blocks: Vec::new(), next_id: 0 }
    }

    /// How many blocks the region holds.
    pub fn num_blocks(&self) -> (n: usize)
        ensures
            n == self.blocks().len(),
    {
        self.blocks.len()
    }

    /// Shared view of the block list.
    pub fn get_blocks(&self) -> (r: &Vec<BasicBlock<I, A>>)
        ensures
            r@ == self.blocks(),
    {
        &self.blocks
    }

    /// Appends `b` as the region's last block.
    pub fn push_block(&mut self, b: BasicBlock<I, A>)
        ensures
            final(self).blocks() == old(self).blocks().push(b),
            final(self).next_id() == old(self).next_id(),
    {
        self.blocks.push(b);
    }

    /// Shared access to the block at `blk`; fails when the index is out of
    /// range.
    pub fn get_block(&self, blk: usize) -> (r: Result<&BasicBlock<I, A>, BuilderError>)
        ensures
            match r {
                Ok(b) => blk < self.blocks().len() && *b == self.blocks()[blk as int],
                Err(e) => blk >= self.blocks().len() && e == BuilderError::NoActiveBlock,
            },
    {
        if blk < self.blocks.len() {
            Ok(&self.blocks[blk])
        } else {
            Err(BuilderError::NoActiveBlock)
        }
    }

    /// Mints a fresh handle and appends it to the argument list of block
    /// `blk`; fails when the index is out of range.
    pub fn push_arg(&mut self, blk: usize) -> (r: Result<Var, BuilderError>)
        requires
            blk < old(self).blocks().len() ==> old(self).next_id() < usize::MAX,
        ensures
            match r {
                Ok(v) => blk < old(self).blocks().len() && old(self).arg_pushed(
                    *final(self),
                    blk as int,
                    v,
                ),
                Err(e) => {
                    &&& blk >= old(self).blocks().len()
                    &&& e == BuilderError::NoActiveBlock
                    &&& *final(self) == *old(self)
                },
            },
    {
        if blk < self.blocks.len() {
            let v = Var { id: self.next_id };
            self.next_id = self.next_id + 1;
            let b = &mut self.blocks[blk];
            b.args.push(v);
            Ok(v)
        } else {
            Err(BuilderError::NoActiveBlock)
        }
    }

    /// Appends `op` to block `blk` and returns the freshly minted handle for
    /// the operation's primary result; fails when the index is out of range.
    pub fn push_op(&mut self, blk: usize, op: Operation<I, A>) -> (r: Result<Var, BuilderError>)
        requires
            blk < old(self).blocks().len() ==> old(self).next_id() < usize::MAX,
        ensures
            match r {
                Ok(v) => blk < old(self).blocks().len() && old(self).op_pushed(
                    *final(self),
                    blk as int,
                    op,
                    v,
                ),
                Err(e) => {
                    &&& blk >= old(self).blocks().len()
                    &&& e == BuilderError::NoActiveBlock
                    &&& *final(self) == *old(self)
                },
            },
    {
        if blk < self.blocks.len() {
            let v = Var { id: self.next_id };
            self.next_id = self.next_id + 1;
            let b = &mut self.blocks[blk];
            b.ops.push(op);
            Ok(v)
        } else {
            Err(BuilderError::NoActiveBlock)
        }
    }
}

/// One finished operation, immutable once built: an intrinsic handle,
/// ordered operand handles, a name-to-attribute mapping with pairwise
/// distinct keys, ordered nested regions and ordered successor blocks.
#[derive(Debug)]
pub struct Operation<I: Intrinsic, A: Attribute> {
    intrinsic: I,
    operands: Vec<Var>,
    attrs: Vec<(String, A)>,
    regions: Vec<Region<I, A>>,
    successors: Vec<BasicBlock<I, A>>,
}

impl<I: Intrinsic, A: Attribute> Operation<I, A> {
    /// The attribute entries, in table order.
    pub closed spec fn attr_entries(self) -> Seq<(String, A)> {
        self.attrs@
    }

    /// Well-formedness: the attribute entries carry pairwise distinct keys,
    /// as `new` demands and the builder maintains.
    pub open spec fn wf(self) -> bool {
        unique_keys(self.attr_entries())
    }

    /// The intrinsic handle.
    pub closed spec fn intrinsic(self) -> I {
        self.intrinsic
    }

    /// The ordered operand handles.
    pub closed spec fn operands(self) -> Seq<Var> {
        self.operands@
    }

    /// The name-to-attribute mapping.
    pub open spec fn attrs(self) -> Map<Seq<char>, A> {
        assoc_map(self.attr_entries())
    }

    /// The ordered nested regions.
    pub closed spec fn regions(self) -> Seq<Region<I, A>> {
        self.regions@
    }

    /// The ordered successor blocks (explicit control-flow edges).
    pub closed spec fn successors(self) -> Seq<BasicBlock<I, A>> {
        self.successors@
    }

    /// Freezes one operation from its accumulated parts. The attribute
    /// entries must carry pairwise distinct keys, as the builder maintains
    /// them.
    pub fn new(
        intrinsic: I,
        operands: Vec<Var>,
        attrs: Vec<(String, A)>,
        regions: Vec<Region<I, A>>,
        successors: Vec<BasicBlock<I, A>>,
    ) -> (op: Self)
        requires
            unique_keys(attrs@),
        ensures
            op.wf(),
            op.attr_entries() == attrs@,
            op.intrinsic() == intrinsic,
            op.operands() == operands@,
            op.attrs() == assoc_map(attrs@),
            op.regions() == regions@,
            op.successors() == successors@,
    {
        Operation { intrinsic, operands, attrs, regions, successors }
    }

    /// Shared view of the intrinsic handle.
    pub fn get_intrinsic(&self) -> (r: &I)
        ensures
            *r == self.intrinsic(),
    {
        &self.intrinsic
    }

    /// Shared view of the operand list.
    pub fn get_operands(&self) -> (r: &Vec<Var>)
        ensures
            r@ == self.operands(),
    {
        &self.operands
    }

    /// The attribute mapping, as ordered entries with pairwise distinct
    /// keys: one entry per key of the mapping.
    pub fn get_attrs(&self) -> (r: &Vec<(String, A)>)
        requires
            self.wf(),
        ensures
            unique_keys(r@),
            assoc_map(r@) == self.attrs(),
            r@.len() == self.attrs().dom().len(),
    {
        proof {
            lemma_assoc_map_len(self.attrs@);
        }
        &self.attrs
    }

    /// Looks up the attribute stored under `key`; an absent key is not an
    /// error.
    pub fn get_attr(&self, key: &str) -> (r: Option<&A>)
        requires
            self.wf(),
        ensures
            match r {
                Some(a) => self.attrs().contains_key(key@) && *a == self.attrs()[key@],
                None => !self.attrs().contains_key(key@),
            },
    {
        let k = String::from_str(key);
        match crate::builder::find_key(&self.attrs, &k) {
            Some(i) => {
                proof {
                    lemma_assoc_map_value(self.attrs@, i as int);
                }
                Some(&self.attrs[i].1)
            },
            None => {
                proof {
                    lemma_assoc_map_contains(self.attrs@, key@);
                }
                None
            },
        }
    }

    /// Shared view of the nested region list.
    pub fn get_regions(&self) -> (r: &Vec<Region<I, A>>)
        ensures
            r@ == self.regions(),
    {
        &self.regions
    }

    /// Shared view of the successor block list.
    pub fn get_successors(&self) -> (r: &Vec<BasicBlock<I, A>>)
        ensures
            r@ == self.successors(),
    {
        &self.successors
    }
}

} // verus!
