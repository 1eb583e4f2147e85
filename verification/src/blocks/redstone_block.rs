//! The redstone block: a solid source that gives full strong power to every side.

use vstd::prelude::*;
use crate::block_position::BlockPos;
use crate::blocks::{
    Block, BlockType, NeighbourUpdate, Outcome, RecomputedResult, Tickable, changed,
    check_stands_on_solid, stands_on_solid,
};
use crate::changes::{BlockChangeQueue, Change};
use crate::grid::Grid;

verus! {

#[derive(Debug, Copy, Clone, PartialEq, Eq, Hash, Structural)]
pub struct RedStone;

impl Default for RedStone {
    fn default() -> (b: RedStone)
        ensures
            b == RedStone,
    {
        RedStone
    }
}

/// What a redstone block answers where its cell is still empty.
pub open spec fn redstone_appears() -> Outcome {
    changed(Some(BlockType::RedStone(RedStone)), true, None, NeighbourUpdate::default_spec())
}

impl Block for RedStone {
    /// Into an empty cell the block goes and tells its six neighbours. An
    /// occupied cell stays as it is.
    open spec fn placement_outcome(
        &self,
        grid: Map<BlockPos, BlockType>,
        position: BlockPos,
        normal: BlockPos,
    ) -> Outcome {
        if !grid.contains_key(position) {
            redstone_appears()
        } else {
            Outcome::Unchanged
        }
    }

    /// A redstone block in the grid never changes. One that is not yet there
    /// asks to be put there.
    open spec fn neighbor_outcome(
        &self,
        grid: Map<BlockPos, BlockType>,
        position: BlockPos,
    ) -> Outcome {
        if !grid.contains_key(position) {
            redstone_appears()
        } else {
            Outcome::Unchanged
        }
    }

    /// A solid block needs a solid block beneath it.
    open spec fn placeable(&self, grid: Map<BlockPos, BlockType>, position: BlockPos) -> bool {
        stands_on_solid(grid, position)
    }

    open spec fn removal_requests(&self, position: BlockPos) -> Seq<Change> {
        Seq::empty()
    }

    fn on_placement(&self, grid: &Grid, position: BlockPos, normal: BlockPos) -> (r:
        RecomputedResult)
        ensures
            r@.wf(),
    {
        if grid.get(position).is_none() {
            RecomputedResult::Changed {
                new_block: Some(BlockType::RedStone(RedStone)),
                visual_update: true,
                self_tick: None,
                neighbor_tick: NeighbourUpdate::default_set(),
            }
        } else {
            RecomputedResult::Unchanged
        }
    }

    fn neighbor_changed(&self, grid: &Grid, position: BlockPos) -> (r: RecomputedResult)
        ensures
            r@.wf(),
    {
        if grid.get(position).is_none() {
            RecomputedResult::Changed {
                new_block: Some(BlockType::RedStone(RedStone)),
                visual_update: true,
                self_tick: None,
                neighbor_tick: NeighbourUpdate::default_set(),
            }
        } else {
            RecomputedResult::Unchanged
        }
    }

    fn try_place(&self, grid: &Grid, position: BlockPos) -> (ok: bool)
        ensures
            ok == stands_on_solid(grid@, position),
    {
        check_stands_on_solid(grid, position)
    }

    fn on_remove(&self, grid: &Grid, position: &BlockPos, queue: &mut BlockChangeQueue)
        ensures
            final(queue)@ == old(queue)@,
    {
    }
}

impl Tickable for RedStone {
    open spec fn tick_outcome(&self, grid: Map<BlockPos, BlockType>, position: BlockPos) -> Outcome {
        Outcome::Unchanged
    }

    open spec fn power_level(&self) -> u8 {
        0
    }

    fn on_tick(&self, grid: &Grid, position: BlockPos) -> (r: RecomputedResult)
        ensures
            r@.wf(),
    {
        RecomputedResult::Unchanged
    }

    fn power(&self) -> (p: u8)
        ensures
            p == 0,
    {
        0
    }
}

} // verus!
