//! Dust: the wire. It stores a power level and a shape, both derived from the
//! cells around it.

use vstd::prelude::*;
use crate::block_position::{BlockPos, all_dirs, all_dirs_spec};
use crate::blocks::{
    Block, BlockType, MAX_POWER, NeighbourUpdate, Outcome, RecomputedResult, Tickable, changed,
    check_stands_on_solid, stands_on_solid, stronger_of,
};
use crate::changes::{BlockChange, BlockChangeQueue, Change};
use crate::grid::{Grid, level_upto, power_bounded};
use crate::redstone::junctions::{JunctionType, junction_at, resolve_junction};
use crate::redstone::scheduler::NotifyDelay;

verus! {

#[derive(Debug, Copy, Clone, PartialEq, Eq, Hash, Structural)]
pub struct Dust {
    pub shape: JunctionType,
    pub power: u8,
}

impl Default for Dust {
    fn default() -> (b: Dust)
        ensures
            b == (Dust { shape: JunctionType::Dot, power: 0 }),
    {
        Dust { shape: JunctionType::Dot, power: 0 }
    }
}

/// The eight cells one step sideways and one step up or down, as offsets:
/// first the four above, then the four below, each time south, north, east,
/// west. Through them power climbs a step in the ground.
pub open spec fn corner_dirs_spec() -> Seq<BlockPos> {
    seq![
        BlockPos { x: 0, y: 1, z: 1 },
        BlockPos { x: 0, y: 1, z: -1i32 },
        BlockPos { x: 1, y: 1, z: 0 },
        BlockPos { x: -1i32, y: 1, z: 0 },
        BlockPos { x: 0, y: -1i32, z: 1 },
        BlockPos { x: 0, y: -1i32, z: -1i32 },
        BlockPos { x: 1, y: -1i32, z: 0 },
        BlockPos { x: -1i32, y: -1i32, z: 0 },
    ]
}

/// The eight corner offsets.
pub fn corner_dirs() -> (d: [BlockPos; 8])
    ensures
        d@ == corner_dirs_spec(),
{
    let d = [
        BlockPos { x: 0, y: 1, z: 1 },
        BlockPos { x: 0, y: 1, z: -1 },
        BlockPos { x: 1, y: 1, z: 0 },
        BlockPos { x: -1, y: 1, z: 0 },
        BlockPos { x: 0, y: -1, z: 1 },
        BlockPos { x: 0, y: -1, z: -1 },
        BlockPos { x: 1, y: -1, z: 0 },
        BlockPos { x: -1, y: -1, z: 0 },
    ];
    assert(d@ =~= corner_dirs_spec());
    d
}

impl Dust {
    /// The power that reaches dust at `position`. It is the largest of: the
    /// strong power that a face neighbour gives it, in full; the weak power
    /// that a face neighbour gives it, one level lower; and the weak power
    /// that one of the eight corner cells gives it, one level lower.
    pub open spec fn received(&self, grid: Map<BlockPos, BlockType>, position: BlockPos) -> u8 {
        stronger_of(
            level_upto(grid, position, BlockType::Dust(*self), all_dirs_spec(), 6, true, true),
            level_upto(grid, position, BlockType::Dust(*self), corner_dirs_spec(), 8, false, true),
        )
    }

    /// What dust answers where its cell is still empty: it appears in the
    /// shape its neighbours give it, ticks at once and tells the cells it can
    /// reach.
    pub open spec fn appears(&self, grid: Map<BlockPos, BlockType>, position: BlockPos) -> Outcome {
        changed(
            Some(
                BlockType::Dust(Dust { shape: junction_at(grid, position), power: self.power }),
            ),
            true,
            Some(NotifyDelay::Immediate),
            NeighbourUpdate::extended_spec(),
        )
    }

    /// The power that reaches the dust from the cells around it.
    pub fn resolve_power(&self, grid: &Grid, position: BlockPos) -> (level: u8)
        ensures
            level == self.received(grid@, position),
            crate::grid::power_bounded(grid@) ==> level <= MAX_POWER,
    {
        let asking = BlockType::Dust(*self);
        let faces = all_dirs();
        let corners = corner_dirs();
        let direct = grid.level_from(position, &asking, &faces, true, true);
        let around = grid.level_from(position, &asking, &corners, false, true);
        if direct >= around {
            direct
        } else {
            around
        }
    }
}

impl Block for Dust {
    /// Into an empty cell the dust goes in the shape its neighbours give it.
    /// An occupied cell stays as it is.
    open spec fn placement_outcome(
        &self,
        grid: Map<BlockPos, BlockType>,
        position: BlockPos,
        normal: BlockPos,
    ) -> Outcome {
        if !grid.contains_key(position) {
            self.appears(grid, position)
        } else {
            Outcome::Unchanged
        }
    }

    /// Dust whose shape is not the one its neighbours give it takes that
    /// shape, ticks at once and tells its six neighbours. Dust in the grid
    /// that has the right shape stays. Dust that is not yet in the grid asks
    /// to be put there.
    open spec fn neighbor_outcome(
        &self,
        grid: Map<BlockPos, BlockType>,
        position: BlockPos,
    ) -> Outcome {
        if junction_at(grid, position) != self.shape {
            changed(
                Some(
                    BlockType::Dust(Dust { shape: junction_at(grid, position), power: self.power }),
                ),
                true,
                Some(NotifyDelay::Immediate),
                NeighbourUpdate::default_spec(),
            )
        } else if grid.contains_key(position) {
            Outcome::Unchanged
        } else {
            changed(Some(BlockType::Dust(*self)), true, None, NeighbourUpdate::none_spec())
        }
    }

    /// Dust lies on a solid block.
    open spec fn placeable(&self, grid: Map<BlockPos, BlockType>, position: BlockPos) -> bool {
        stands_on_solid(grid, position)
    }

    /// Dust that leaves has its face neighbours look at their surroundings
    /// again, so that the wire around it takes its new shape.
    open spec fn removal_requests(&self, position: BlockPos) -> Seq<Change> {
        seq![Change::NotifyNeighbours(position)]
    }

    fn on_placement(&self, grid: &Grid, position: BlockPos, normal: BlockPos) -> (r:
        RecomputedResult)
        ensures
            self.power <= MAX_POWER && power_bounded(grid@) ==> r@.wf(),
    {
        if grid.get(position).is_none() {
            let junction = resolve_junction(position, grid);
            RecomputedResult::Changed {
                new_block: Some(BlockType::Dust(Dust { shape: junction, power: self.power })),
                visual_update: true,
                self_tick: Some(NotifyDelay::Immediate),
                neighbor_tick: NeighbourUpdate::extended(),
            }
        } else {
            RecomputedResult::Unchanged
        }
    }

    fn neighbor_changed(&self, grid: &Grid, position: BlockPos) -> (r: RecomputedResult)
        ensures
            self.power <= MAX_POWER && power_bounded(grid@) ==> r@.wf(),
    {
        let junction = resolve_junction(position, grid);
        if junction != self.shape {
            return RecomputedResult::Changed {
                new_block: Some(BlockType::Dust(Dust { shape: junction, power: self.power })),
                visual_update: true,
                self_tick: Some(NotifyDelay::Immediate),
                neighbor_tick: NeighbourUpdate::default_set(),
            };
        }
        if grid.get(position).is_some() {
            return RecomputedResult::Unchanged;
        }
        RecomputedResult::Changed {
            new_block: Some(BlockType::Dust(Dust { shape: junction, power: self.power })),
            visual_update: true,
            self_tick: None,
            neighbor_tick: NeighbourUpdate::none(),
        }
    }

    fn try_place(&self, grid: &Grid, position: BlockPos) -> (ok: bool)
        ensures
            ok == stands_on_solid(grid@, position),
    {
        check_stands_on_solid(grid, position)
    }

    fn on_remove(&self, grid: &Grid, position: &BlockPos, queue: &mut BlockChangeQueue)
        ensures
            final(queue)@ == old(queue)@.push(Change::NotifyNeighbours(*position)),
    {
        queue.push(BlockChange::NotifyNeighbours(*position));
    }
}

impl Tickable for Dust {
    /// The dust takes the power that reaches it, ticks again at once and
    /// tells the cells it can reach. Where that power is what it stores
    /// already, nothing changes.
    open spec fn tick_outcome(&self, grid: Map<BlockPos, BlockType>, position: BlockPos) -> Outcome {
        if self.power != self.received(grid, position) {
            changed(
                Some(
                    BlockType::Dust(
                        Dust { shape: self.shape, power: self.received(grid, position) },
                    ),
                ),
                true,
                Some(NotifyDelay::Immediate),
                NeighbourUpdate::extended_spec(),
            )
        } else {
            Outcome::Unchanged
        }
    }

    open spec fn power_level(&self) -> u8 {
        self.power
    }

    fn on_tick(&self, grid: &Grid, position: BlockPos) -> (r: RecomputedResult)
        ensures
            self.power <= MAX_POWER && power_bounded(grid@) ==> r@.wf(),
    {
        let new_power = self.resolve_power(grid, position);
        if self.power != new_power {
            RecomputedResult::Changed {
                new_block: Some(BlockType::Dust(Dust { shape: self.shape, power: new_power })),
                visual_update: true,
                self_tick: Some(NotifyDelay::Immediate),
                neighbor_tick: NeighbourUpdate::extended(),
            }
        } else {
            RecomputedResult::Unchanged
        }
    }

    fn power(&self) -> (p: u8)
        ensures
            p == self.power,
    {
        self.power
    }
}

} // verus!
