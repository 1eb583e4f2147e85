//! Grass: a solid block that turns to dirt under another grass or dirt block.

use vstd::prelude::*;
use crate::block_position::{BlockPos, axis_y, unit_y};
use crate::blocks::{
    Block, BlockType, MAX_POWER, Dirt, NeighbourUpdate, Outcome, RecomputedResult, Tickable, changed,
    check_stands_on_solid, stands_on_solid,
};
use crate::changes::{BlockChangeQueue, Change};
use crate::grid::{Grid, block_at};
use crate::redstone::scheduler::NotifyDelay;

verus! {

#[derive(Debug, Copy, Clone, PartialEq, Eq, Hash, Structural)]
pub struct StandardGrass {
    pub power: u8,
}

impl Default for StandardGrass {
    fn default() -> (b: StandardGrass)
        ensures
            b == (StandardGrass { power: 0 }),
    {
        StandardGrass { power: 0 }
    }
}

/// Whether `above` is a block under which grass does not grow.
pub open spec fn smothers(above: Option<BlockType>) -> bool {
    match above {
        Some(b) => b is StandardGrass || b is Dirt,
        None => false,
    }
}

impl Block for StandardGrass {
    /// Into an empty cell the grass goes as it is, ticks at once and tells its
    /// six neighbours. An occupied cell stays as it is.
    open spec fn placement_outcome(
        &self,
        grid: Map<BlockPos, BlockType>,
        position: BlockPos,
        normal: BlockPos,
    ) -> Outcome {
        if !grid.contains_key(position) {
            changed(
                Some(BlockType::StandardGrass(*self)),
                true,
                Some(NotifyDelay::Immediate),
                NeighbourUpdate::default_spec(),
            )
        } else {
            Outcome::Unchanged
        }
    }

    /// Grass with grass or dirt right above it becomes dirt of the same power.
    /// Grass that stands in the grid and has anything else above it, or
    /// nothing, stays. Grass that is not yet in the grid asks to be put there.
    open spec fn neighbor_outcome(
        &self,
        grid: Map<BlockPos, BlockType>,
        position: BlockPos,
    ) -> Outcome {
        let above = block_at(grid, position.plus(axis_y()));
        if smothers(above) {
            changed(
                Some(BlockType::Dirt(Dirt { power: self.power })),
                true,
                if grid.contains_key(position) {
                    Some(NotifyDelay::Immediate)
                } else {
                    None
                },
                NeighbourUpdate::none_spec(),
            )
        } else if grid.contains_key(position) {
            Outcome::Unchanged
        } else if above is None {
            changed(
                Some(BlockType::StandardGrass(*self)),
                true,
                Some(NotifyDelay::Immediate),
                NeighbourUpdate::default_spec(),
            )
        } else {
            changed(
                Some(BlockType::StandardGrass(*self)),
                true,
                None,
                NeighbourUpdate::none_spec(),
            )
        }
    }

    /// A solid block needs a solid block beneath it.
    open spec fn placeable(&self, grid: Map<BlockPos, BlockType>, position: BlockPos) -> bool {
        stands_on_solid(grid, position)
    }

    open spec fn removal_requests(&self, position: BlockPos) -> Seq<Change> {
        Seq::empty()
    }

    fn on_placement(&self, grid: &Grid, position: BlockPos, normal: BlockPos) -> (r:
        RecomputedResult)
        ensures
            self.power <= MAX_POWER ==> r@.wf(),
    {
        if grid.get(position).is_none() {
            RecomputedResult::Changed {
                new_block: Some(BlockType::StandardGrass(*self)),
                visual_update: true,
                self_tick: Some(NotifyDelay::Immediate),
                neighbor_tick: NeighbourUpdate::default_set(),
            }
        } else {
            RecomputedResult::Unchanged
        }
    }

    fn neighbor_changed(&self, grid: &Grid, position: BlockPos) -> (r: RecomputedResult)
        ensures
            self.power <= MAX_POWER ==> r@.wf(),
    {
        let above = grid.block_at(position.offset(unit_y()));
        let present = grid.get(position).is_some();
        let smothered = match above {
            Some(BlockType::StandardGrass(_)) => true,
            Some(BlockType::Dirt(_)) => true,
            _ => false,
        };
        if smothered {
            return RecomputedResult::Changed {
                new_block: Some(BlockType::Dirt(Dirt { power: self.power })),
                visual_update: true,
                self_tick: if present {
                    Some(NotifyDelay::Immediate)
                } else {
                    None
                },
                neighbor_tick: NeighbourUpdate::none(),
            };
        }
        if present {
            return RecomputedResult::Unchanged;
        }
        if above.is_none() {
            RecomputedResult::Changed {
                new_block: Some(BlockType::StandardGrass(*self)),
                visual_update: true,
                self_tick: Some(NotifyDelay::Immediate),
                neighbor_tick: NeighbourUpdate::default_set(),
            }
        } else {
            RecomputedResult::Changed {
                new_block: Some(BlockType::StandardGrass(*self)),
                visual_update: true,
                self_tick: None,
                neighbor_tick: NeighbourUpdate::none(),
            }
        }
    }

    fn try_place(&self, grid: &Grid, position: BlockPos) -> (ok: bool)
        ensures
            ok == stands_on_solid(grid@, position),
    {
        check_stands_on_solid(grid, position)
    }

    fn on_remove(&self, grid: &Grid, position: &BlockPos, queue: &mut BlockChangeQueue)
        ensures
            final(queue)@ == old(queue)@,
    {
    }
}

impl Tickable for StandardGrass {
    /// Grass does nothing of its own accord.
    open spec fn tick_outcome(&self, grid: Map<BlockPos, BlockType>, position: BlockPos) -> Outcome {
        Outcome::Unchanged
    }

    open spec fn power_level(&self) -> u8 {
        self.power
    }

    fn on_tick(&self, grid: &Grid, position: BlockPos) -> (r: RecomputedResult)
        ensures
            self.power <= MAX_POWER ==> r@.wf(),
    {
        RecomputedResult::Unchanged
    }

    fn power(&self) -> (p: u8)
        ensures
            p == self.power,
    {
        self.power
    }
}

} // verus!
