//! Counting laws over whole build sequences. A builder state is abstracted
//! to a small model (block count per region, cursor, operand count); each
//! push method of the builder guarantees that it transforms the model by
//! [`model_step`]. The lemmas here then quantify over arbitrary sequences of
//! push operations: the final operand count equals the explicit operand
//! pushes plus the entry-block arguments minted, the region count equals the
//! region pushes, and each region's block count equals the blocks it was
//! pushed with plus the block pushes issued while it was active.

use vstd::prelude::*;

use crate::builder::OperationBuilder;
use crate::ir::{Attribute, Intrinsic, Region};

verus! {

/// Abstract view of a builder: how many blocks each region holds, the
/// cursor, and how many operands have accumulated.
pub ghost struct ModelState {
    pub counts: Seq<int>,
    pub cur_reg: int,
    pub cur_blk: int,
    pub operands: int,
}

/// One push operation of a build sequence, as far as the counting laws see
/// it. A pushed region carries the number of blocks it already holds.
pub ghost enum BuildStep {
    PushOperand,
    PushRegion { blocks: int },
    PushBlock,
    PushArg,
}

/// The abstract view of a builder state.
pub open spec fn model_of<I: Intrinsic, A: Attribute>(b: OperationBuilder<I, A>) -> ModelState {
    ModelState {
        counts: b.regions().map_values(|r: Region<I, A>| r.blocks().len() as int),
        cur_reg: b.cursor().0 as int,
        cur_blk: b.cursor().1 as int,
        operands: b.operands().len() as int,
    }
}

/// The abstract view of a fresh builder.
pub open spec fn fresh_model() -> ModelState {
    ModelState { counts: Seq::empty(), cur_reg: 0, cur_blk: 0, operands: 0 }
}

/// The cursor's region half addresses a region that exists.
pub open spec fn m_has_active_region(s: ModelState) -> bool {
    1 <= s.cur_reg <= s.counts.len()
}

/// The cursor addresses a block that exists within the active region.
pub open spec fn m_has_active_block(s: ModelState) -> bool {
    m_has_active_region(s) && 1 <= s.cur_blk <= s.counts[s.cur_reg - 1]
}

/// How one push operation transforms the abstract state. A push whose
/// precondition fails leaves the state unchanged, as the builder leaves the
/// concrete state unchanged.
pub open spec fn model_step(s: ModelState, st: BuildStep) -> ModelState {
    match st {
        BuildStep::PushOperand => ModelState { operands: s.operands + 1, ..s },
        BuildStep::PushRegion { blocks } => ModelState {
            counts: s.counts.push(blocks),
            cur_reg: s.cur_reg + 1,
            ..s
        },
        BuildStep::PushBlock => if m_has_active_region(s) {
            ModelState {
                counts: s.counts.update(s.cur_reg - 1, s.counts[s.cur_reg - 1] + 1),
                cur_blk: s.cur_blk + 1,
                ..s
            }
        } else {
            s
        },
        BuildStep::PushArg => if m_has_active_block(s) && s.cur_blk == 1 {
            ModelState { operands: s.operands + 1, ..s }
        } else {
            s
        },
    }
}

/// Runs a whole sequence of push operations over the abstract state.
pub open spec fn run_steps(s: ModelState, steps: Seq<BuildStep>) -> ModelState
    decreases steps.len(),
{
    if steps.len() == 0 {
        s
    } else {
        model_step(run_steps(s, steps.drop_last()), steps.last())
    }
}

/// How many explicit operand pushes a sequence holds.
pub open spec fn operand_pushes(steps: Seq<BuildStep>) -> int
    decreases steps.len(),
{
    if steps.len() == 0 {
        0
    } else {
        operand_pushes(steps.drop_last()) + (if steps.last() is PushOperand {
            1int
        } else {
            0int
        })
    }
}

/// How many entry-block arguments a sequence mints when run from `s`: the
/// argument pushes that succeed while the active block is its region's
/// entry block.
pub open spec fn entry_args_minted(s: ModelState, steps: Seq<BuildStep>) -> int
    decreases steps.len(),
{
    if steps.len() == 0 {
        0
    } else {
        entry_args_minted(s, steps.drop_last()) + (if steps.last() is PushArg
            && m_has_active_block(run_steps(s, steps.drop_last())) && run_steps(
            s,
            steps.drop_last(),
        ).cur_blk == 1 {
            1int
        } else {
            0int
        })
    }
}

/// How many region pushes a sequence holds.
pub open spec fn region_pushes(steps: Seq<BuildStep>) -> int
    decreases steps.len(),
{
    if steps.len() == 0 {
        0
    } else {
        region_pushes(steps.drop_last()) + (if steps.last() is PushRegion {
            1int
        } else {
            0int
        })
    }
}

/// The blocks region `i` was seeded with: the block count its
/// `PushRegion` step carried, or its block count in `s` for a region that
/// predates the sequence.
pub open spec fn seeded_blocks(s: ModelState, steps: Seq<BuildStep>, i: int) -> int
    decreases steps.len(),
{
    if steps.len() == 0 {
        if 0 <= i < s.counts.len() {
            s.counts[i]
        } else {
            0
        }
    } else {
        match steps.last() {
            BuildStep::PushRegion { blocks } => if i == run_steps(
                s,
                steps.drop_last(),
            ).counts.len() {
                blocks
            } else {
                seeded_blocks(s, steps.drop_last(), i)
            },
            _ => seeded_blocks(s, steps.drop_last(), i),
        }
    }
}

/// How many block pushes a sequence issues while region `i` is active.
pub open spec fn blocks_pushed_at(s: ModelState, steps: Seq<BuildStep>, i: int) -> int
    decreases steps.len(),
{
    if steps.len() == 0 {
        0
    } else {
        blocks_pushed_at(s, steps.drop_last(), i) + (if steps.last() is PushBlock
            && m_has_active_region(run_steps(s, steps.drop_last())) && run_steps(
            s,
            steps.drop_last(),
        ).cur_reg - 1 == i {
            1int
        } else {
            0int
        })
    }
}

/// Over any sequence of push operations, the operand count grows by exactly
/// the explicit operand pushes plus the entry-block arguments minted across
/// all regions.
pub proof fn lemma_operand_count(s: ModelState, steps: Seq<BuildStep>)
    ensures
        run_steps(s, steps).operands == s.operands + operand_pushes(steps) + entry_args_minted(
            s,
            steps,
        ),
    decreases steps.len(),
{
    if steps.len() > 0 {
        lemma_operand_count(s, steps.drop_last());
    }
}

/// Over any sequence of push operations, the region count grows by exactly
/// the region pushes.
pub proof fn lemma_region_count(s: ModelState, steps: Seq<BuildStep>)
    ensures
        run_steps(s, steps).counts.len() == s.counts.len() + region_pushes(steps),
    decreases steps.len(),
{
    if steps.len() > 0 {
        lemma_region_count(s, steps.drop_last());
    }
}

/// A sequence issues no successful block push at a region index that does
/// not exist at its end.
pub proof fn lemma_no_blocks_beyond(s: ModelState, steps: Seq<BuildStep>, i: int)
    requires
        i >= run_steps(s, steps).counts.len(),
    ensures
        blocks_pushed_at(s, steps, i) == 0,
    decreases steps.len(),
{
    if steps.len() > 0 {
        let prev = run_steps(s, steps.drop_last());
        assert(prev.counts.len() <= run_steps(s, steps).counts.len());
        lemma_no_blocks_beyond(s, steps.drop_last(), i);
    }
}

/// Over any sequence of push operations, each region's final block count
/// equals the blocks it was seeded with plus the block pushes issued while
/// it was the active region.
pub proof fn lemma_block_counts(s: ModelState, steps: Seq<BuildStep>, i: int)
    requires
        0 <= i < run_steps(s, steps).counts.len(),
    ensures
        run_steps(s, steps).counts[i] == seeded_blocks(s, steps, i) + blocks_pushed_at(
            s,
            steps,
            i,
        ),
    decreases steps.len(),
{
    if steps.len() > 0 {
        let prev = run_steps(s, steps.drop_last());
        match steps.last() {
            BuildStep::PushRegion { blocks } => {
                if i == prev.counts.len() {
                    lemma_no_blocks_beyond(s, steps.drop_last(), i);
                } else {
                    lemma_block_counts(s, steps.drop_last(), i);
                }
            },
            _ => {
                lemma_block_counts(s, steps.drop_last(), i);
            },
        }
    }
}

/// From a fresh builder, the final operand count is exactly the explicit
/// operand pushes plus the entry-block arguments minted.
pub proof fn lemma_operand_count_from_fresh(steps: Seq<BuildStep>)
    ensures
        run_steps(fresh_model(), steps).operands == operand_pushes(steps) + entry_args_minted(
            fresh_model(),
            steps,
        ),
{
    lemma_operand_count(fresh_model(), steps);
}

/// From a fresh builder, the final region count is exactly the number of
/// region pushes, and each region ends with the blocks it was pushed with
/// plus the block pushes issued while it was the active region.
pub proof fn lemma_region_shape_from_fresh(steps: Seq<BuildStep>)
    ensures
        run_steps(fresh_model(), steps).counts.len() == region_pushes(steps),
        forall|i: int|
            0 <= i < run_steps(fresh_model(), steps).counts.len() ==> run_steps(
                fresh_model(),
                steps,
            ).counts[i] == seeded_blocks(fresh_model(), steps, i) + blocks_pushed_at(
                fresh_model(),
                steps,
                i,
            ),
{
    lemma_region_count(fresh_model(), steps);
    assert forall|i: int| 0 <= i < run_steps(fresh_model(), steps).counts.len() implies run_steps(
        fresh_model(),
        steps,
    ).counts[i] == seeded_blocks(fresh_model(), steps, i) + blocks_pushed_at(
        fresh_model(),
        steps,
        i,
    ) by {
        lemma_block_counts(fresh_model(), steps, i);
    }
}

} // verus!
