//! The torch: lit while the block that carries it receives no power.
//!
//! A torch never changes in the moment its surroundings change. A change next
//! to it only books a tick for the next step of the clock, and the tick flips
//! it. The lag keeps two torches that feed each other from flickering within
//! one frame.

use vstd::prelude::*;
use crate::block_position::BlockPos;
use crate::blocks::{
    Block, BlockType, NeighbourUpdate, Outcome, RecomputedResult, Tickable, changed,
    check_hangs_on_solid, hangs_on_solid,
};
use crate::changes::{BlockChangeQueue, Change};
use crate::grid::{Grid, signal_at};
use crate::redstone::scheduler::NotifyDelay;

verus! {

#[derive(Debug, Copy, Clone, PartialEq, Eq, Hash, Structural)]
pub struct RedStoneTorch {
    pub lit: bool,
    /// The normal of the face the torch was placed on.
    pub attached_face: BlockPos,
}

impl Default for RedStoneTorch {
    fn default() -> (b: RedStoneTorch)
        ensures
            b == (RedStoneTorch { lit: false, attached_face: BlockPos { x: 0, y: 0, z: 0 } }),
    {
        RedStoneTorch { lit: false, attached_face: BlockPos { x: 0, y: 0, z: 0 } }
    }
}

/// Whether the block that carries something mounted at `position` by `face`
/// receives power.
pub open spec fn carrier_powered(
    grid: Map<BlockPos, BlockType>,
    position: BlockPos,
    face: BlockPos,
) -> bool {
    signal_at(grid, position.minus(face)) > 0
}

/// Whether the block that carries something mounted at `position` by `face`
/// receives power.
pub fn check_carrier_powered(grid: &Grid, position: BlockPos, face: BlockPos) -> (r: bool)
    ensures
        r == carrier_powered(grid@, position, face),
{
    grid.signal_at(position.offset_back(face)) > 0
}

impl RedStoneTorch {
    /// The torch shows what its carrier received at the last tick: `lit` is
    /// the opposite of "the carrier receives power".
    pub open spec fn settled(&self, grid: Map<BlockPos, BlockType>, position: BlockPos) -> bool {
        self.lit != carrier_powered(grid, position, self.attached_face)
    }
}

impl Block for RedStoneTorch {
    /// Into an empty cell the torch goes mounted by `normal`, lit unless its
    /// carrier receives power, and tells its six neighbours. An occupied cell
    /// stays as it is.
    open spec fn placement_outcome(
        &self,
        grid: Map<BlockPos, BlockType>,
        position: BlockPos,
        normal: BlockPos,
    ) -> Outcome {
        if !grid.contains_key(position) {
            changed(
                Some(
                    BlockType::RedStoneTorch(
                        RedStoneTorch {
                            lit: !carrier_powered(grid, position, normal),
                            attached_face: normal,
                        },
                    ),
                ),
                true,
                None,
                NeighbourUpdate::default_spec(),
            )
        } else {
            Outcome::Unchanged
        }
    }

    /// A torch that no longer shows the opposite of its carrier's power stays
    /// as it is and books its tick for the next step of the clock.
    open spec fn neighbor_outcome(
        &self,
        grid: Map<BlockPos, BlockType>,
        position: BlockPos,
    ) -> Outcome {
        if !self.settled(grid, position) {
            changed(
                Some(BlockType::RedStoneTorch(*self)),
                false,
                Some(NotifyDelay::NextTick),
                NeighbourUpdate::none_spec(),
            )
        } else {
            Outcome::Unchanged
        }
    }

    /// A torch needs a solid block to hang on, and does not hang from an
    /// underside.
    open spec fn placeable(&self, grid: Map<BlockPos, BlockType>, position: BlockPos) -> bool {
        hangs_on_solid(grid, position, self.attached_face)
    }

    open spec fn removal_requests(&self, position: BlockPos) -> Seq<Change> {
        Seq::empty()
    }

    fn on_placement(&self, grid: &Grid, position: BlockPos, normal: BlockPos) -> (r:
        RecomputedResult)
        ensures
            r@.wf(),
    {
        let attached_block_has_power = check_carrier_powered(grid, position, normal);
        if grid.get(position).is_none() {
            RecomputedResult::Changed {
                new_block: Some(
                    BlockType::RedStoneTorch(
                        RedStoneTorch { lit: !attached_block_has_power, attached_face: normal },
                    ),
                ),
                visual_update: true,
                self_tick: None,
                neighbor_tick: NeighbourUpdate::default_set(),
            }
        } else {
            RecomputedResult::Unchanged
        }
    }

    fn neighbor_changed(&self, grid: &Grid, position: BlockPos) -> (r: RecomputedResult)
        ensures
            r@.wf(),
    {
        let attached_block_has_power = check_carrier_powered(grid, position, self.attached_face);
        if self.lit == attached_block_has_power {
            RecomputedResult::Changed {
                new_block: Some(BlockType::RedStoneTorch(*self)),
                visual_update: false,
                self_tick: Some(NotifyDelay::NextTick),
                neighbor_tick: NeighbourUpdate::none(),
            }
        } else {
            RecomputedResult::Unchanged
        }
    }

    fn try_place(&self, grid: &Grid, position: BlockPos) -> (ok: bool)
        ensures
            ok == hangs_on_solid(grid@, position, self.attached_face),
    {
        check_hangs_on_solid(grid, position, self.attached_face)
    }

    fn on_remove(&self, grid: &Grid, position: &BlockPos, queue: &mut BlockChangeQueue)
        ensures
            final(queue)@ == old(queue)@,
    {
    }
}

impl Tickable for RedStoneTorch {
    /// A torch that no longer shows the opposite of its carrier's power
    /// flips, and tells its six neighbours.
    open spec fn tick_outcome(&self, grid: Map<BlockPos, BlockType>, position: BlockPos) -> Outcome {
        if !self.settled(grid, position) {
            changed(
                Some(
                    BlockType::RedStoneTorch(
                        RedStoneTorch { lit: !self.lit, attached_face: self.attached_face },
                    ),
                ),
                true,
                None,
                NeighbourUpdate::default_spec(),
            )
        } else {
            Outcome::Unchanged
        }
    }

    open spec fn power_level(&self) -> u8 {
        0
    }

    fn on_tick(&self, grid: &Grid, position: BlockPos) -> (r: RecomputedResult)
        ensures
            r@.wf(),
    {
        let attached_block_has_power = check_carrier_powered(grid, position, self.attached_face);
        if self.lit == attached_block_has_power {
            RecomputedResult::Changed {
                new_block: Some(
                    BlockType::RedStoneTorch(
                        RedStoneTorch {
                            lit: !attached_block_has_power,
                            attached_face: self.attached_face,
                        },
                    ),
                ),
                visual_update: true,
                self_tick: None,
                neighbor_tick: NeighbourUpdate::default_set(),
            }
        } else {
            RecomputedResult::Unchanged
        }
    }

    fn power(&self) -> (p: u8)
        ensures
            p == 0,
    {
        0
    }
}

} // verus!
