//! The lamp: a solid block that stores the power its neighbours give it.

use vstd::prelude::*;
use crate::block_position::{BlockPos, all_dirs, all_dirs_spec};
use crate::blocks::{
    Block, BlockType, MAX_POWER, NeighbourUpdate, Outcome, RecomputedResult, Tickable, changed,
    check_stands_on_solid, stands_on_solid,
};
use crate::changes::{BlockChangeQueue, Change};
use crate::grid::{Grid, level_upto, power_bounded};
use crate::redstone::scheduler::NotifyDelay;

verus! {

#[derive(Debug, Copy, Clone, PartialEq, Eq, Hash, Structural)]
pub struct RedStoneLamp {
    pub power: u8,
}

impl Default for RedStoneLamp {
    fn default() -> (b: RedStoneLamp)
        ensures
            b == (RedStoneLamp { power: 0 }),
    {
        RedStoneLamp { power: 0 }
    }
}

impl RedStoneLamp {
    /// The power that reaches a lamp at `position`: the largest of what its
    /// six face neighbours give it, strong power in full and weak power one
    /// level lower.
    pub open spec fn received(&self, grid: Map<BlockPos, BlockType>, position: BlockPos) -> u8 {
        level_upto(grid, position, BlockType::RedStoneLamp(*self), all_dirs_spec(), 6, true, true)
    }

    /// Whether the lamp is on.
    pub fn is_powered(&self) -> (on: bool)
        ensures
            on == (self.power > 0),
    {
        self.power > 0
    }

    /// The power that reaches the lamp from its neighbours.
    pub fn resolve_power(&self, grid: &Grid, position: BlockPos) -> (level: u8)
        ensures
            level == self.received(grid@, position),
            power_bounded(grid@) ==> level <= MAX_POWER,
    {
        let dirs = all_dirs();
        grid.level_from(position, &BlockType::RedStoneLamp(*self), &dirs, true, true)
    }
}

impl Block for RedStoneLamp {
    /// Into an empty cell the lamp goes with the power that reaches it there.
    /// An occupied cell stays as it is.
    open spec fn placement_outcome(
        &self,
        grid: Map<BlockPos, BlockType>,
        position: BlockPos,
        normal: BlockPos,
    ) -> Outcome {
        if !grid.contains_key(position) {
            changed(
                Some(BlockType::RedStoneLamp(RedStoneLamp { power: self.received(grid, position) })),
                true,
                None,
                NeighbourUpdate::none_spec(),
            )
        } else {
            Outcome::Unchanged
        }
    }

    /// A lamp in the grid waits for its tick. One that is not yet there asks
    /// to be put there.
    open spec fn neighbor_outcome(
        &self,
        grid: Map<BlockPos, BlockType>,
        position: BlockPos,
    ) -> Outcome {
        if !grid.contains_key(position) {
            changed(
                Some(BlockType::RedStoneLamp(*self)),
                true,
                Some(NotifyDelay::Immediate),
                NeighbourUpdate::default_spec(),
            )
        } else {
            Outcome::Unchanged
        }
    }

    /// A solid block needs a solid block beneath it.
    open spec fn placeable(&self, grid: Map<BlockPos, BlockType>, position: BlockPos) -> bool {
        stands_on_solid(grid, position)
    }

    open spec fn removal_requests(&self, position: BlockPos) -> Seq<Change> {
        Seq::empty()
    }

    fn on_placement(&self, grid: &Grid, position: BlockPos, normal: BlockPos) -> (r:
        RecomputedResult)
        ensures
            self.power <= MAX_POWER && power_bounded(grid@) ==> r@.wf(),
    {
        if grid.get(position).is_none() {
            let power = self.resolve_power(grid, position);
            RecomputedResult::Changed {
                new_block: Some(BlockType::RedStoneLamp(RedStoneLamp { power })),
                visual_update: true,
                self_tick: None,
                neighbor_tick: NeighbourUpdate::none(),
            }
        } else {
            RecomputedResult::Unchanged
        }
    }

    fn neighbor_changed(&self, grid: &Grid, position: BlockPos) -> (r: RecomputedResult)
        ensures
            self.power <= MAX_POWER && power_bounded(grid@) ==> r@.wf(),
    {
        if grid.get(position).is_none() {
            RecomputedResult::Changed {
                new_block: Some(BlockType::RedStoneLamp(*self)),
                visual_update: true,
                self_tick: Some(NotifyDelay::Immediate),
                neighbor_tick: NeighbourUpdate::default_set(),
            }
        } else {
            RecomputedResult::Unchanged
        }
    }

    fn try_place(&self, grid: &Grid, position: BlockPos) -> (ok: bool)
        ensures
            ok == stands_on_solid(grid@, position),
    {
        check_stands_on_solid(grid, position)
    }

    fn on_remove(&self, grid: &Grid, position: &BlockPos, queue: &mut BlockChangeQueue)
        ensures
            final(queue)@ == old(queue)@,
    {
    }
}

impl Tickable for RedStoneLamp {
    /// The lamp takes the power that reaches it. Where that is what it stores
    /// already, nothing changes.
    open spec fn tick_outcome(&self, grid: Map<BlockPos, BlockType>, position: BlockPos) -> Outcome {
        if self.power != self.received(grid, position) {
            changed(
                Some(BlockType::RedStoneLamp(RedStoneLamp { power: self.received(grid, position) })),
                true,
                Some(NotifyDelay::Immediate),
                NeighbourUpdate::default_spec(),
            )
        } else {
            Outcome::Unchanged
        }
    }

    open spec fn power_level(&self) -> u8 {
        self.power
    }

    fn on_tick(&self, grid: &Grid, position: BlockPos) -> (r: RecomputedResult)
        ensures
            self.power <= MAX_POWER && power_bounded(grid@) ==> r@.wf(),
    {
        let new_power = self.resolve_power(grid, position);
        if self.power != new_power {
            RecomputedResult::Changed {
                new_block: Some(BlockType::RedStoneLamp(RedStoneLamp { power: new_power })),
                visual_update: true,
                self_tick: Some(NotifyDelay::Immediate),
                neighbor_tick: NeighbourUpdate::default_set(),
            }
        } else {
            RecomputedResult::Unchanged
        }
    }

    fn power(&self) -> (p: u8)
        ensures
            p == self.power,
    {
        self.power
    }
}

} // verus!
