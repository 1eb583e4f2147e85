//! The button: held down for a number of ticks after it was pressed.

use vstd::prelude::*;
use crate::block_position::BlockPos;
use crate::blocks::{
    Block, BlockType, NeighbourUpdate, Outcome, RecomputedResult, Tickable, changed,
    check_leans_on_solid, leans_on_solid,
};
use crate::changes::{BlockChangeQueue, Change};
use crate::grid::Grid;
use crate::redstone::scheduler::NotifyDelay;

verus! {

/// For how many ticks a button stays down.
pub const BUTTON_TICKS: u8 = 10;

#[derive(Debug, Copy, Clone, PartialEq, Eq, Hash, Structural)]
pub struct StoneButton {
    pub pressed: bool,
    /// The direction towards the block that the button is mounted against:
    /// the opposite of the normal of the face it was placed on.
    pub attached_face: BlockPos,
    /// The ticks that are left until the button comes up again.
    pub ticks: u8,
}

impl Default for StoneButton {
    fn default() -> (b: StoneButton)
        ensures
            b == (StoneButton {
                pressed: false,
                attached_face: BlockPos { x: 0, y: 0, z: 0 },
                ticks: BUTTON_TICKS,
            }),
    {
        StoneButton {
            pressed: false,
            attached_face: BlockPos { x: 0, y: 0, z: 0 },
            ticks: BUTTON_TICKS,
        }
    }
}

impl StoneButton {
    /// The button mounted against the face with normal `normal`: it stores
    /// the opposite of the normal. Where the normal has no opposite, because
    /// a coordinate of it has no negative, the button keeps what it stores.
    pub open spec fn facing(&self, normal: BlockPos) -> StoneButton {
        StoneButton {
            pressed: self.pressed,
            attached_face: match normal.opposite() {
                Some(towards) => towards,
                None => self.attached_face,
            },
            ticks: self.ticks,
        }
    }

    /// Mounts the button against the face with normal `normal`.
    pub fn mount(&self, normal: BlockPos) -> (b: StoneButton)
        ensures
            b == self.facing(normal),
    {
        StoneButton {
            pressed: self.pressed,
            attached_face: match normal.negated() {
                Some(towards) => towards,
                None => self.attached_face,
            },
            ticks: self.ticks,
        }
    }

    /// The button one tick later: one tick less is left, and with none left
    /// the button is up.
    pub open spec fn counted_down(&self) -> StoneButton {
        let left = if self.ticks == 0 {
            0u8
        } else {
            (self.ticks - 1) as u8
        };
        StoneButton { pressed: left != 0, attached_face: self.attached_face, ticks: left }
    }

    /// What pressing the button gives: a button that is up goes down for
    /// [`BUTTON_TICKS`] ticks, books its first tick for the next step of the
    /// clock and tells its six neighbours. A button that is down stays as it is.
    pub open spec fn press_outcome(&self) -> Outcome {
        if self.pressed {
            Outcome::Unchanged
        } else {
            changed(
                Some(
                    BlockType::StoneButton(
                        StoneButton {
                            pressed: true,
                            attached_face: self.attached_face,
                            ticks: BUTTON_TICKS,
                        },
                    ),
                ),
                true,
                Some(NotifyDelay::NextTick),
                NeighbourUpdate::default_spec(),
            )
        }
    }

    /// Presses the button.
    pub fn press(&self) -> (r: RecomputedResult)
        ensures
            r@ == self.press_outcome(),
    {
        if self.pressed {
            RecomputedResult::Unchanged
        } else {
            RecomputedResult::Changed {
                new_block: Some(
                    BlockType::StoneButton(
                        StoneButton {
                            pressed: true,
                            attached_face: self.attached_face,
                            ticks: BUTTON_TICKS,
                        },
                    ),
                ),
                visual_update: true,
                self_tick: Some(NotifyDelay::NextTick),
                neighbor_tick: NeighbourUpdate::default_set(),
            }
        }
    }
}

impl Block for StoneButton {
    /// Into an empty cell the button goes mounted against the face with
    /// normal `normal`, up, and tells its six neighbours. An occupied cell
    /// stays as it is.
    open spec fn placement_outcome(
        &self,
        grid: Map<BlockPos, BlockType>,
        position: BlockPos,
        normal: BlockPos,
    ) -> Outcome {
        if !grid.contains_key(position) {
            changed(
                Some(
                    BlockType::StoneButton(
                        StoneButton {
                            pressed: false,
                            attached_face: self.facing(normal).attached_face,
                            ticks: self.ticks,
                        },
                    ),
                ),
                true,
                None,
                NeighbourUpdate::default_spec(),
            )
        } else {
            Outcome::Unchanged
        }
    }

    open spec fn neighbor_outcome(
        &self,
        grid: Map<BlockPos, BlockType>,
        position: BlockPos,
    ) -> Outcome {
        Outcome::Unchanged
    }

    /// A button needs a solid block to be mounted against, and is not
    /// mounted on an underside.
    open spec fn placeable(&self, grid: Map<BlockPos, BlockType>, position: BlockPos) -> bool {
        leans_on_solid(grid, position, self.attached_face)
    }

    open spec fn removal_requests(&self, position: BlockPos) -> Seq<Change> {
        Seq::empty()
    }

    fn on_placement(&self, grid: &Grid, position: BlockPos, normal: BlockPos) -> (r:
        RecomputedResult)
        ensures
            r@.wf(),
    {
        if grid.get(position).is_none() {
            let mounted = self.mount(normal);
            RecomputedResult::Changed {
                new_block: Some(
                    BlockType::StoneButton(
                        StoneButton {
                            pressed: false,
                            attached_face: mounted.attached_face,
                            ticks: self.ticks,
                        },
                    ),
                ),
                visual_update: true,
                self_tick: None,
                neighbor_tick: NeighbourUpdate::default_set(),
            }
        } else {
            RecomputedResult::Unchanged
        }
    }

    fn neighbor_changed(&self, grid: &Grid, position: BlockPos) -> (r: RecomputedResult)
        ensures
            r@.wf(),
    {
        RecomputedResult::Unchanged
    }

    fn try_place(&self, grid: &Grid, position: BlockPos) -> (ok: bool)
        ensures
            ok == leans_on_solid(grid@, position, self.attached_face),
    {
        check_leans_on_solid(grid, position, self.attached_face)
    }

    fn on_remove(&self, grid: &Grid, position: &BlockPos, queue: &mut BlockChangeQueue)
        ensures
            final(queue)@ == old(queue)@,
    {
    }
}

impl Tickable for StoneButton {
    /// A button that is down counts one tick off. While ticks are left it
    /// books the next tick and tells nobody. When none is left it comes up
    /// and tells its six neighbours. A button that is up does nothing.
    open spec fn tick_outcome(&self, grid: Map<BlockPos, BlockType>, position: BlockPos) -> Outcome {
        if !self.pressed {
            Outcome::Unchanged
        } else if self.counted_down().pressed {
            changed(
                Some(BlockType::StoneButton(self.counted_down())),
                true,
                Some(NotifyDelay::NextTick),
                NeighbourUpdate::none_spec(),
            )
        } else {
            changed(
                Some(BlockType::StoneButton(self.counted_down())),
                true,
                None,
                NeighbourUpdate::default_spec(),
            )
        }
    }

    open spec fn power_level(&self) -> u8 {
        0
    }

    fn on_tick(&self, grid: &Grid, position: BlockPos) -> (r: RecomputedResult)
        ensures
            r@.wf(),
    {
        if !self.pressed {
            return RecomputedResult::Unchanged;
        }
        let new_ticks = self.ticks.saturating_sub(1);
        let new_pressed = new_ticks != 0;
        let next = StoneButton {
            pressed: new_pressed,
            attached_face: self.attached_face,
            ticks: new_ticks,
        };
        if new_pressed {
            RecomputedResult::Changed {
                new_block: Some(BlockType::StoneButton(next)),
                visual_update: true,
                self_tick: Some(NotifyDelay::NextTick),
                neighbor_tick: NeighbourUpdate::none(),
            }
        } else {
            RecomputedResult::Changed {
                new_block: Some(BlockType::StoneButton(next)),
                visual_update: true,
                self_tick: None,
                neighbor_tick: NeighbourUpdate::default_set(),
            }
        }
    }

    fn power(&self) -> (p: u8)
        ensures
            p == 0,
    {
        0
    }
}

} // verus!
