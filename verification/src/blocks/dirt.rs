//! Dirt: a solid block without behaviour of its own.

use vstd::prelude::*;
use crate::block_position::BlockPos;
use crate::blocks::{
    Block, BlockType, MAX_POWER, NeighbourUpdate, Outcome, RecomputedResult, Tickable, changed,
    check_stands_on_solid, stands_on_solid,
};
use crate::changes::{BlockChangeQueue, Change};
use crate::grid::Grid;
use crate::redstone::scheduler::NotifyDelay;

verus! {

#[derive(Debug, Copy, Clone, PartialEq, Eq, Hash, Structural)]
pub struct Dirt {
    pub power: u8,
}

impl Default for Dirt {
    fn default() -> (b: Dirt)
        ensures
            b == (Dirt { power: 0 }),
    {
        Dirt { power: 0 }
    }
}

impl Block for Dirt {
    /// Into an empty cell the dirt goes as it is, ticks at once and tells its
    /// six neighbours. An occupied cell stays as it is.
    open spec fn placement_outcome(
        &self,
        grid: Map<BlockPos, BlockType>,
        position: BlockPos,
        normal: BlockPos,
    ) -> Outcome {
        if !grid.contains_key(position) {
            changed(
                Some(BlockType::Dirt(*self)),
                true,
                Some(NotifyDelay::Immediate),
                NeighbourUpdate::default_spec(),
            )
        } else {
            Outcome::Unchanged
        }
    }

    open spec fn neighbor_outcome(
        &self,
        grid: Map<BlockPos, BlockType>,
        position: BlockPos,
    ) -> Outcome {
        Outcome::Unchanged
    }

    /// A solid block needs a solid block beneath it.
    open spec fn placeable(&self, grid: Map<BlockPos, BlockType>, position: BlockPos) -> bool {
        stands_on_solid(grid, position)
    }

    open spec fn removal_requests(&self, position: BlockPos) -> Seq<Change> {
        Seq::empty()
    }

    fn on_placement(&self, grid: &Grid, position: BlockPos, normal: BlockPos) -> (r:
        RecomputedResult)
        ensures
            self.power <= MAX_POWER ==> r@.wf(),
    {
        if grid.get(position).is_none() {
            RecomputedResult::Changed {
                new_block: Some(BlockType::Dirt(*self)),
                visual_update: true,
                self_tick: Some(NotifyDelay::Immediate),
                neighbor_tick: NeighbourUpdate::default_set(),
            }
        } else {
            RecomputedResult::Unchanged
        }
    }

    fn neighbor_changed(&self, grid: &Grid, position: BlockPos) -> (r: RecomputedResult)
        ensures
            self.power <= MAX_POWER ==> r@.wf(),
    {
        RecomputedResult::Unchanged
    }

    fn try_place(&self, grid: &Grid, position: BlockPos) -> (ok: bool)
        ensures
            ok == stands_on_solid(grid@, position),
    {
        check_stands_on_solid(grid, position)
    }

    fn on_remove(&self, grid: &Grid, position: &BlockPos, queue: &mut BlockChangeQueue)
        ensures
            final(queue)@ == old(queue)@,
    {
    }
}

impl Tickable for Dirt {
    open spec fn tick_outcome(&self, grid: Map<BlockPos, BlockType>, position: BlockPos) -> Outcome {
        Outcome::Unchanged
    }

    open spec fn power_level(&self) -> u8 {
        self.power
    }

    fn on_tick(&self, grid: &Grid, position: BlockPos) -> (r: RecomputedResult)
        ensures
            self.power <= MAX_POWER ==> r@.wf(),
    {
        RecomputedResult::Unchanged
    }

    fn power(&self) -> (p: u8)
        ensures
            p == self.power,
    {
        self.power
    }
}

} // verus!
