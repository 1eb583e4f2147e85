//! Block kinds, what each emits, and how each reacts.
//!
//! Every kind answers four questions through [`Block`] and [`Tickable`]: what
//! happens when it is placed, when a neighbour changed, when its scheduled tick
//! fires, and whether it may be placed at all. The answers are plain values, so
//! the loop that applies them treats all kinds alike.
//!
//! A torch stores the normal of the face it was placed on: the block that
//! carries it sits at its own position minus that vector. A button stores the
//! direction towards the block it is mounted against, the opposite of that
//! normal: its carrier sits at its own position plus that vector.

use vstd::prelude::*;
use crate::block_position::{
    BlockPos, axis_neg_x, axis_neg_y, axis_neg_z, axis_x, axis_y, axis_z, unit_y,
};
use crate::changes::{BlockChangeQueue, Change};
use crate::grid::{Grid, power_bounded};
use crate::redstone::scheduler::NotifyDelay;

mod dirt;
pub mod dust;
mod redstone_block;
mod redstone_lamp;
pub mod redstone_torch;
pub mod standard_grass;
mod stone_button;

pub use dirt::Dirt;
pub use dust::Dust;
pub use redstone_block::RedStone;
pub use redstone_lamp::RedStoneLamp;
pub use redstone_torch::RedStoneTorch;
pub use standard_grass::StandardGrass;
pub use stone_button::{StoneButton, BUTTON_TICKS};

verus! {

/// The highest power level.
pub const MAX_POWER: u8 = 15;

/// A block of the world. An empty cell has no value of this type: it is
/// absent from the grid.
#[derive(Debug, Copy, Clone, PartialEq, Eq, Hash, Structural)]
pub enum BlockType {
    StandardGrass(StandardGrass),
    Dirt(Dirt),
    RedStone(RedStone),
    RedStoneLamp(RedStoneLamp),
    RedStoneTorch(RedStoneTorch),
    Dust(Dust),
    StoneButton(StoneButton),
}

/// One neighbour to notify: the offset from the changed block, and the delay
/// after which the neighbour's tick runs.
#[derive(Debug, Copy, Clone, PartialEq, Eq, Structural)]
pub struct NeighbourUpdate {
    pub position: BlockPos,
    pub notification: NotifyDelay,
}

/// What a block answers when it is asked to react.
#[derive(Debug, Clone, PartialEq)]
pub enum RecomputedResult {
    Changed {
        /// The block that now belongs at the position; `None` removes it.
        new_block: Option<BlockType>,
        /// Whether the position has to be drawn again.
        visual_update: bool,
        /// When the block's own tick runs next, if at all.
        self_tick: Option<NotifyDelay>,
        /// The neighbours to notify.
        neighbor_tick: Vec<NeighbourUpdate>,
    },
    Unchanged,
}

/// A [`RecomputedResult`] as a value of specifications.
pub enum Outcome {
    Changed {
        new_block: Option<BlockType>,
        visual_update: bool,
        self_tick: Option<NotifyDelay>,
        neighbor_tick: Seq<NeighbourUpdate>,
    },
    Unchanged,
}

impl View for RecomputedResult {
    type V = Outcome;

    open spec fn view(&self) -> Outcome {
        match *self {
            RecomputedResult::Changed { new_block, visual_update, self_tick, neighbor_tick } => {
                Outcome::Changed {
                    new_block,
                    visual_update,
                    self_tick,
                    neighbor_tick: neighbor_tick@,
                }
            },
            RecomputedResult::Unchanged => Outcome::Unchanged,
        }
    }
}

impl Outcome {
    /// No block that this outcome puts into the world has a power level above
    /// [`MAX_POWER`].
    pub open spec fn wf(self) -> bool {
        match self {
            Outcome::Changed { new_block: Some(b), .. } => b.wf(),
            _ => true,
        }
    }
}

/// An immediate notification of the neighbour at `offset`.
pub open spec fn at_once(offset: BlockPos) -> NeighbourUpdate {
    NeighbourUpdate { position: offset, notification: NotifyDelay::Immediate }
}

impl NeighbourUpdate {
    /// Nobody is notified.
    pub open spec fn none_spec() -> Seq<NeighbourUpdate> {
        Seq::empty()
    }

    /// The six face neighbours are notified at once.
    pub open spec fn default_spec() -> Seq<NeighbourUpdate> {
        seq![
            at_once(axis_x()),
            at_once(axis_neg_x()),
            at_once(axis_z()),
            at_once(axis_neg_z()),
            at_once(axis_y()),
            at_once(axis_neg_y()),
        ]
    }

    /// The six face neighbours and the eight cells one step sideways and one
    /// step up or down are notified at once.
    pub open spec fn extended_spec() -> Seq<NeighbourUpdate> {
        seq![
            at_once(axis_x()),
            at_once(axis_neg_x()),
            at_once(axis_z()),
            at_once(axis_neg_z()),
            at_once(axis_y()),
            at_once(axis_neg_y()),
            at_once(BlockPos { x: 1, y: 1, z: 0 }),
            at_once(BlockPos { x: -1i32, y: 1, z: 0 }),
            at_once(BlockPos { x: 0, y: 1, z: 1 }),
            at_once(BlockPos { x: 0, y: 1, z: -1i32 }),
            at_once(BlockPos { x: 1, y: -1i32, z: 0 }),
            at_once(BlockPos { x: -1i32, y: -1i32, z: 0 }),
            at_once(BlockPos { x: 0, y: -1i32, z: 1 }),
            at_once(BlockPos { x: 0, y: -1i32, z: -1i32 }),
        ]
    }

    pub fn new(position: BlockPos, notification: NotifyDelay) -> (u: NeighbourUpdate)
        ensures
            u == (NeighbourUpdate { position, notification }),
    {
        NeighbourUpdate { position, notification }
    }

    pub fn none() -> (v: Vec<NeighbourUpdate>)
        ensures
            v@ == Self::none_spec(),
    {
        Vec::new()
    }

    pub fn default_set() -> (v: Vec<NeighbourUpdate>)
        ensures
            v@ == Self::default_spec(),
    {
        let v = vec![
            NeighbourUpdate::new(BlockPos { x: 1, y: 0, z: 0 }, NotifyDelay::Immediate),
            NeighbourUpdate::new(BlockPos { x: -1, y: 0, z: 0 }, NotifyDelay::Immediate),
            NeighbourUpdate::new(BlockPos { x: 0, y: 0, z: 1 }, NotifyDelay::Immediate),
            NeighbourUpdate::new(BlockPos { x: 0, y: 0, z: -1 }, NotifyDelay::Immediate),
            NeighbourUpdate::new(BlockPos { x: 0, y: 1, z: 0 }, NotifyDelay::Immediate),
            NeighbourUpdate::new(BlockPos { x: 0, y: -1, z: 0 }, NotifyDelay::Immediate),
        ];
        assert(v@ =~= Self::default_spec());
        v
    }

    pub fn extended() -> (v: Vec<NeighbourUpdate>)
        ensures
            v@ == Self::extended_spec(),
    {
        let v = vec![
            NeighbourUpdate::new(BlockPos { x: 1, y: 0, z: 0 }, NotifyDelay::Immediate),
            NeighbourUpdate::new(BlockPos { x: -1, y: 0, z: 0 }, NotifyDelay::Immediate),
            NeighbourUpdate::new(BlockPos { x: 0, y: 0, z: 1 }, NotifyDelay::Immediate),
            NeighbourUpdate::new(BlockPos { x: 0, y: 0, z: -1 }, NotifyDelay::Immediate),
            NeighbourUpdate::new(BlockPos { x: 0, y: 1, z: 0 }, NotifyDelay::Immediate),
            NeighbourUpdate::new(BlockPos { x: 0, y: -1, z: 0 }, NotifyDelay::Immediate),
            NeighbourUpdate::new(BlockPos { x: 1, y: 1, z: 0 }, NotifyDelay::Immediate),
            NeighbourUpdate::new(BlockPos { x: -1, y: 1, z: 0 }, NotifyDelay::Immediate),
            NeighbourUpdate::new(BlockPos { x: 0, y: 1, z: 1 }, NotifyDelay::Immediate),
            NeighbourUpdate::new(BlockPos { x: 0, y: 1, z: -1 }, NotifyDelay::Immediate),
            NeighbourUpdate::new(BlockPos { x: 1, y: -1, z: 0 }, NotifyDelay::Immediate),
            NeighbourUpdate::new(BlockPos { x: -1, y: -1, z: 0 }, NotifyDelay::Immediate),
            NeighbourUpdate::new(BlockPos { x: 0, y: -1, z: 1 }, NotifyDelay::Immediate),
            NeighbourUpdate::new(BlockPos { x: 0, y: -1, z: -1 }, NotifyDelay::Immediate),
        ];
        assert(v@ =~= Self::extended_spec());
        v
    }
}

/// The outcome that changes something.
pub open spec fn changed(
    new_block: Option<BlockType>,
    visual_update: bool,
    self_tick: Option<NotifyDelay>,
    neighbor_tick: Seq<NeighbourUpdate>,
) -> Outcome {
    Outcome::Changed { new_block, visual_update, self_tick, neighbor_tick }
}

/// How a block reacts to being placed, to a change next to it, and to being
/// removed, and whether it may be placed.
pub trait Block {
    /// What [`Block::on_placement`] answers.
    spec fn placement_outcome(
        &self,
        grid: Map<BlockPos, BlockType>,
        position: BlockPos,
        normal: BlockPos,
    ) -> Outcome;

    /// What [`Block::neighbor_changed`] answers.
    spec fn neighbor_outcome(&self, grid: Map<BlockPos, BlockType>, position: BlockPos) -> Outcome;

    /// What [`Block::try_place`] answers.
    spec fn placeable(&self, grid: Map<BlockPos, BlockType>, position: BlockPos) -> bool;

    /// The requests that [`Block::on_remove`] makes.
    spec fn removal_requests(&self, position: BlockPos) -> Seq<Change>;

    /// Runs once when the block is put into the cell `position`, against a
    /// face with normal `normal`. The answer holds the block as it starts out.
    fn on_placement(&self, grid: &Grid, position: BlockPos, normal: BlockPos) -> (r:
        RecomputedResult)
        ensures
            r@ == self.placement_outcome(grid@, position, normal),
    ;

    /// Runs when a cell next to `position` changed.
    fn neighbor_changed(&self, grid: &Grid, position: BlockPos) -> (r: RecomputedResult)
        ensures
            r@ == self.neighbor_outcome(grid@, position),
    ;

    /// Whether the block may be placed in the cell `position`.
    fn try_place(&self, grid: &Grid, position: BlockPos) -> (ok: bool)
        ensures
            ok == self.placeable(grid@, position),
    ;

    /// Runs before the block leaves the cell `position`.
    fn on_remove(&self, grid: &Grid, position: &BlockPos, queue: &mut BlockChangeQueue)
        ensures
            final(queue)@ == old(queue)@ + self.removal_requests(*position),
    ;
}

/// How a block reacts to its scheduled tick.
pub trait Tickable {
    /// What [`Tickable::on_tick`] answers.
    spec fn tick_outcome(&self, grid: Map<BlockPos, BlockType>, position: BlockPos) -> Outcome;

    /// What [`Tickable::power`] answers.
    spec fn power_level(&self) -> u8;

    /// Runs when the tick that was scheduled for `position` fires.
    fn on_tick(&self, grid: &Grid, position: BlockPos) -> (r: RecomputedResult)
        ensures
            r@ == self.tick_outcome(grid@, position),
    ;

    /// The power level that the block stores.
    fn power(&self) -> (p: u8)
        ensures
            p == self.power_level(),
    ;
}

/// Whether the cell below `position` holds a solid block.
pub open spec fn stands_on_solid(grid: Map<BlockPos, BlockType>, position: BlockPos) -> bool {
    match crate::grid::block_at(grid, position.minus(axis_y())) {
        Some(b) => b.solid(),
        None => false,
    }
}

/// Whether the cell at `position - face` holds a solid block and `face` does
/// not point down: nothing hangs from an underside.
pub open spec fn hangs_on_solid(
    grid: Map<BlockPos, BlockType>,
    position: BlockPos,
    face: BlockPos,
) -> bool {
    face != axis_neg_y() && match crate::grid::block_at(grid, position.minus(face)) {
        Some(b) => b.solid(),
        None => false,
    }
}

/// Whether the cell at `position + towards` holds a solid block and `towards`
/// does not point up: nothing is mounted on an underside.
pub open spec fn leans_on_solid(
    grid: Map<BlockPos, BlockType>,
    position: BlockPos,
    towards: BlockPos,
) -> bool {
    towards != axis_y() && match crate::grid::block_at(grid, position.plus(towards)) {
        Some(b) => b.solid(),
        None => false,
    }
}

/// Whether a block at `position` can be mounted against the cell that lies
/// in the direction `towards`.
pub fn check_leans_on_solid(grid: &Grid, position: BlockPos, towards: BlockPos) -> (ok: bool)
    ensures
        ok == leans_on_solid(grid@, position, towards),
{
    if towards.x == 0 && towards.y == 1 && towards.z == 0 {
        return false;
    }
    match grid.block_at(position.offset(towards)) {
        Some(b) => b.is_solid(),
        None => false,
    }
}

/// Whether the cell below `position` holds a solid block.
pub fn check_stands_on_solid(grid: &Grid, position: BlockPos) -> (ok: bool)
    ensures
        ok == stands_on_solid(grid@, position),
{
    match grid.block_at(position.offset_back(unit_y())) {
        Some(b) => b.is_solid(),
        None => false,
    }
}

/// Whether a block at `position` can be mounted by the face with normal `face`.
pub fn check_hangs_on_solid(grid: &Grid, position: BlockPos, face: BlockPos) -> (ok: bool)
    ensures
        ok == hangs_on_solid(grid@, position, face),
{
    if face.x == 0 && face.y == -1 && face.z == 0 {
        return false;
    }
    match grid.block_at(position.offset_back(face)) {
        Some(b) => b.is_solid(),
        None => false,
    }
}

/// The level `level`, one hop further along a wire.
pub open spec fn one_hop_weaker(level: u8) -> u8 {
    if level == 0 {
        0
    } else {
        (level - 1) as u8
    }
}

/// The larger of two levels.
pub open spec fn stronger_of(a: u8, b: u8) -> u8 {
    if a >= b {
        a
    } else {
        b
    }
}

impl BlockType {
    /// The stored power level of the block is at most [`MAX_POWER`].
    pub open spec fn wf(self) -> bool {
        self.stored_level() <= MAX_POWER
    }

    /// The power level that the block stores; 0 for a kind that stores none.
    pub open spec fn stored_level(self) -> u8 {
        match self {
            BlockType::StandardGrass(b) => b.power,
            BlockType::Dirt(b) => b.power,
            BlockType::RedStoneLamp(b) => b.power,
            BlockType::Dust(b) => b.power,
            _ => 0,
        }
    }

    /// Whether the block fills its cell, so that others can be mounted on it.
    pub open spec fn solid(self) -> bool {
        self is StandardGrass || self is Dirt || self is RedStone || self is RedStoneLamp
    }

    /// The vector that a torch or button stores: the normal of its face for
    /// a torch, the direction towards its carrier for a button.
    pub open spec fn face(self) -> Option<BlockPos> {
        match self {
            BlockType::RedStoneTorch(b) => Some(b.attached_face),
            BlockType::StoneButton(b) => Some(b.attached_face),
            _ => None,
        }
    }

    /// Whether a torch is lit, or a button is held down with time left.
    pub open spec fn active(self) -> bool {
        match self {
            BlockType::RedStoneTorch(b) => b.lit,
            BlockType::StoneButton(b) => b.pressed && b.ticks > 0,
            _ => false,
        }
    }

    /// Strong power is what passes through a solid block. A redstone block
    /// gives 15 to every side, a lit torch 15 to the cell above it, a button
    /// that is held down 15 to the block it is mounted against, which is
    /// the cell at its own position plus the vector it stores.
    pub open spec fn strong_emitted(
        self,
        asking_pos: BlockPos,
        emitting_pos: BlockPos,
        asking: BlockType,
    ) -> u8 {
        match self {
            BlockType::RedStone(_) => MAX_POWER,
            BlockType::RedStoneTorch(b) => if b.lit && emitting_pos.plus(axis_y()) == Some(
                asking_pos,
            ) {
                MAX_POWER
            } else {
                0
            },
            BlockType::StoneButton(b) => if self.active() && emitting_pos.plus(b.attached_face)
                == Some(asking_pos) {
                MAX_POWER
            } else {
                0
            },
            _ => 0,
        }
    }

    /// Weak power is what travels along wire. Dust gives its stored level. A
    /// lit torch and a button that is held down give 15 to every cell but the
    /// one that carries them. Grass and dirt give their stored level to dust
    /// only.
    pub open spec fn weak_emitted(
        self,
        asking_pos: BlockPos,
        emitting_pos: BlockPos,
        asking: BlockType,
    ) -> u8 {
        match self {
            BlockType::Dust(b) => b.power,
            BlockType::RedStoneTorch(b) => if b.lit && emitting_pos.minus(b.attached_face) != Some(
                asking_pos,
            ) {
                MAX_POWER
            } else {
                0
            },
            BlockType::StoneButton(b) => if self.active() && emitting_pos.plus(b.attached_face)
                != Some(asking_pos) {
                MAX_POWER
            } else {
                0
            },
            BlockType::StandardGrass(b) => if asking is Dust {
                b.power
            } else {
                0
            },
            BlockType::Dirt(b) => if asking is Dust {
                b.power
            } else {
                0
            },
            _ => 0,
        }
    }

    /// The block with its stored level set to `new_power`, capped at
    /// [`MAX_POWER`]; a kind that stores none is left as it is.
    pub open spec fn powered_with(self, new_power: u8) -> BlockType {
        let level = if new_power <= MAX_POWER {
            new_power
        } else {
            MAX_POWER
        };
        match self {
            BlockType::StandardGrass(b) => BlockType::StandardGrass(StandardGrass { power: level }),
            BlockType::Dirt(b) => BlockType::Dirt(Dirt { power: level }),
            BlockType::RedStoneLamp(b) => BlockType::RedStoneLamp(RedStoneLamp { power: level }),
            BlockType::Dust(b) => BlockType::Dust(Dust { shape: b.shape, power: level }),
            _ => self,
        }
    }

    /// Whether the block may be put against the face with normal `normal` of
    /// the block at `position`. That block has to exist and to be solid. A
    /// torch does not hang from an underside, and dust lies on top only.
    pub open spec fn fits_against(
        self,
        grid: Map<BlockPos, BlockType>,
        position: BlockPos,
        normal: BlockPos,
    ) -> bool {
        grid.contains_key(position) && grid[position].solid() && match self {
            BlockType::RedStoneTorch(_) => normal != axis_neg_y(),
            BlockType::Dust(_) => normal == axis_y(),
            _ => true,
        }
    }

    /// Whether the block passes no strong power on.
    pub fn is_insulator(&self) -> (r: bool)
        ensures
            r == (self is RedStone || self is Dust || self is StandardGrass
                || self is RedStoneTorch),
    {
        match self {
            BlockType::RedStone(_) => true,
            BlockType::Dust(_) => true,
            BlockType::StandardGrass(_) => true,
            BlockType::RedStoneTorch(_) => true,
            _ => false,
        }
    }

    pub fn is_button(&self) -> (r: bool)
        ensures
            r == (self is StoneButton),
    {
        match self {
            BlockType::StoneButton(_) => true,
            _ => false,
        }
    }

    /// Whether the block is a button that is held down.
    pub fn is_pressed(&self) -> (r: bool)
        ensures
            r == (self matches BlockType::StoneButton(b) && b.pressed),
    {
        match self {
            BlockType::StoneButton(b) => b.pressed,
            _ => false,
        }
    }

    /// Whether the block is mounted on a face of another.
    pub fn has_face(&self) -> (r: bool)
        ensures
            r == self.face().is_some(),
    {
        match self {
            BlockType::RedStoneTorch(_) => true,
            BlockType::StoneButton(_) => true,
            _ => false,
        }
    }

    /// The block mounted against the face with normal `normal`: a torch
    /// stores the normal, a button stores its opposite, the direction towards
    /// its carrier. A button keeps what it stores where the normal has no
    /// opposite. Other kinds are left as they are.
    pub open spec fn mounted(self, normal: BlockPos) -> BlockType {
        match self {
            BlockType::RedStoneTorch(b) => BlockType::RedStoneTorch(
                RedStoneTorch { lit: b.lit, attached_face: normal },
            ),
            BlockType::StoneButton(b) => BlockType::StoneButton(b.facing(normal)),
            other => other,
        }
    }

    /// Mounts a torch or a button against the face with normal
    /// `new_attached_face`. Other kinds are left as they are.
    pub fn set_attached_face(&mut self, new_attached_face: BlockPos)
        ensures
            *final(self) == old(self).mounted(new_attached_face),
    {
        let next = match *self {
            BlockType::RedStoneTorch(b) => BlockType::RedStoneTorch(
                RedStoneTorch { lit: b.lit, attached_face: new_attached_face },
            ),
            BlockType::StoneButton(b) => BlockType::StoneButton(b.mount(new_attached_face)),
            other => other,
        };
        *self = next;
    }

    /// Whether the block may be put against the face with normal `normal` of
    /// the block at `position`.
    pub fn can_be_placed(&self, position: BlockPos, normal: BlockPos, grid: &Grid) -> (r: bool)
        ensures
            r == self.fits_against(grid@, position, normal),
    {
        let support = match grid.get_blocktype(position) {
            Some(b) => b,
            None => {
                return false;
            },
        };
        match self {
            BlockType::RedStoneTorch(_) => {
                if normal.x == 0 && normal.y == -1 && normal.z == 0 {
                    return false;
                }
                support.is_solid()
            },
            BlockType::Dust(_) => {
                if !(normal.x == 0 && normal.y == 1 && normal.z == 0) {
                    return false;
                }
                support.is_solid()
            },
            _ => support.is_solid(),
        }
    }

    pub fn is_solid(&self) -> (r: bool)
        ensures
            r == self.solid(),
    {
        match self {
            BlockType::StandardGrass(_) => true,
            BlockType::Dirt(_) => true,
            BlockType::RedStone(_) => true,
            BlockType::RedStoneLamp(_) => true,
            BlockType::RedStoneTorch(_) => false,
            BlockType::Dust(_) => false,
            BlockType::StoneButton(_) => false,
        }
    }

    /// The strong power that this block, at `emitting_pos`, gives to the cell
    /// `asking_pos`.
    pub fn strong_power_emitted_to(
        &self,
        asking_pos: BlockPos,
        emitting_pos: BlockPos,
        block_type: &BlockType,
    ) -> (r: u8)
        ensures
            r == self.strong_emitted(asking_pos, emitting_pos, *block_type),
            r == 0 || r == MAX_POWER,
    {
        match self {
            BlockType::RedStone(_) => MAX_POWER,
            BlockType::RedStoneTorch(b) => {
                if !b.lit {
                    return 0;
                }
                match emitting_pos.offset(unit_y()) {
                    Some(above) => if above == asking_pos {
                        MAX_POWER
                    } else {
                        0
                    },
                    None => 0,
                }
            },
            BlockType::StoneButton(b) => {
                if !(b.pressed && b.ticks > 0) {
                    return 0;
                }
                match emitting_pos.offset(b.attached_face) {
                    Some(carrier) => if carrier == asking_pos {
                        MAX_POWER
                    } else {
                        0
                    },
                    None => 0,
                }
            },
            _ => 0,
        }
    }

    /// The weak power that this block, at `emitting_pos`, gives to the block
    /// `block_type` at `asking_pos`. The asking block takes one off for the hop.
    pub fn weak_power_emitted(
        &self,
        asking_pos: BlockPos,
        emitting_pos: BlockPos,
        block_type: &BlockType,
    ) -> (r: u8)
        ensures
            r == self.weak_emitted(asking_pos, emitting_pos, *block_type),
            self.wf() ==> r <= MAX_POWER,
    {
        match self {
            BlockType::Dust(b) => b.power,
            BlockType::RedStoneTorch(b) => {
                if !b.lit {
                    return 0;
                }
                match emitting_pos.offset_back(b.attached_face) {
                    Some(carrier) => if carrier == asking_pos {
                        0
                    } else {
                        MAX_POWER
                    },
                    None => MAX_POWER,
                }
            },
            BlockType::StoneButton(b) => {
                if !(b.pressed && b.ticks > 0) {
                    return 0;
                }
                match emitting_pos.offset(b.attached_face) {
                    Some(carrier) => if carrier == asking_pos {
                        0
                    } else {
                        MAX_POWER
                    },
                    None => MAX_POWER,
                }
            },
            BlockType::StandardGrass(b) => match block_type {
                BlockType::Dust(_) => b.power,
                _ => 0,
            },
            BlockType::Dirt(b) => match block_type {
                BlockType::Dust(_) => b.power,
                _ => 0,
            },
            _ => 0,
        }
    }

    /// The stored power level.
    pub fn weak_power(&self) -> (r: u8)
        ensures
            r == self.stored_level(),
    {
        match self {
            BlockType::StandardGrass(b) => b.power,
            BlockType::Dirt(b) => b.power,
            BlockType::RedStoneLamp(b) => b.power,
            BlockType::Dust(b) => b.power,
            _ => 0,
        }
    }

    /// The same block with another stored power level.
    pub fn with_weak_power(&self, new_power: u8) -> (r: BlockType)
        ensures
            r == self.powered_with(new_power),
            r.wf(),
    {
        let level = if new_power <= MAX_POWER {
            new_power
        } else {
            MAX_POWER
        };
        match self {
            BlockType::StandardGrass(_) => BlockType::StandardGrass(StandardGrass { power: level }),
            BlockType::Dirt(_) => BlockType::Dirt(Dirt { power: level }),
            BlockType::RedStoneLamp(_) => BlockType::RedStoneLamp(RedStoneLamp { power: level }),
            BlockType::Dust(b) => BlockType::Dust(Dust { shape: b.shape, power: level }),
            BlockType::RedStone(b) => BlockType::RedStone(*b),
            BlockType::RedStoneTorch(b) => BlockType::RedStoneTorch(*b),
            BlockType::StoneButton(b) => BlockType::StoneButton(*b),
        }
    }

    /// Whether the block holds power.
    pub fn is_powered(&self) -> (r: bool)
        ensures
            r == (self.stored_level() > 0),
    {
        self.weak_power() > 0
    }

    /// Whether the block is a source of power for others.
    pub fn is_emitter(&self) -> (r: bool)
        ensures
            r == (self is RedStone || self is RedStoneTorch || self is StoneButton
                || self is Dust),
    {
        match self {
            BlockType::RedStone(_) => true,
            BlockType::RedStoneTorch(_) => true,
            BlockType::StoneButton(_) => true,
            BlockType::Dust(_) => true,
            _ => false,
        }
    }
}

impl Block for BlockType {
    open spec fn placement_outcome(
        &self,
        grid: Map<BlockPos, BlockType>,
        position: BlockPos,
        normal: BlockPos,
    ) -> Outcome {
        match *self {
            BlockType::StandardGrass(b) => b.placement_outcome(grid, position, normal),
            BlockType::Dirt(b) => b.placement_outcome(grid, position, normal),
            BlockType::RedStone(b) => b.placement_outcome(grid, position, normal),
            BlockType::RedStoneLamp(b) => b.placement_outcome(grid, position, normal),
            BlockType::RedStoneTorch(b) => b.placement_outcome(grid, position, normal),
            BlockType::Dust(b) => b.placement_outcome(grid, position, normal),
            BlockType::StoneButton(b) => b.placement_outcome(grid, position, normal),
        }
    }

    open spec fn neighbor_outcome(
        &self,
        grid: Map<BlockPos, BlockType>,
        position: BlockPos,
    ) -> Outcome {
        match *self {
            BlockType::StandardGrass(b) => b.neighbor_outcome(grid, position),
            BlockType::Dirt(b) => b.neighbor_outcome(grid, position),
            BlockType::RedStone(b) => b.neighbor_outcome(grid, position),
            BlockType::RedStoneLamp(b) => b.neighbor_outcome(grid, position),
            BlockType::RedStoneTorch(b) => b.neighbor_outcome(grid, position),
            BlockType::Dust(b) => b.neighbor_outcome(grid, position),
            BlockType::StoneButton(b) => b.neighbor_outcome(grid, position),
        }
    }

    open spec fn placeable(&self, grid: Map<BlockPos, BlockType>, position: BlockPos) -> bool {
        match *self {
            BlockType::StandardGrass(b) => b.placeable(grid, position),
            BlockType::Dirt(b) => b.placeable(grid, position),
            BlockType::RedStone(b) => b.placeable(grid, position),
            BlockType::RedStoneLamp(b) => b.placeable(grid, position),
            BlockType::RedStoneTorch(b) => b.placeable(grid, position),
            BlockType::Dust(b) => b.placeable(grid, position),
            BlockType::StoneButton(b) => b.placeable(grid, position),
        }
    }

    open spec fn removal_requests(&self, position: BlockPos) -> Seq<Change> {
        match *self {
            BlockType::StandardGrass(b) => b.removal_requests(position),
            BlockType::Dirt(b) => b.removal_requests(position),
            BlockType::RedStone(b) => b.removal_requests(position),
            BlockType::RedStoneLamp(b) => b.removal_requests(position),
            BlockType::RedStoneTorch(b) => b.removal_requests(position),
            BlockType::Dust(b) => b.removal_requests(position),
            BlockType::StoneButton(b) => b.removal_requests(position),
        }
    }

    fn on_placement(&self, grid: &Grid, position: BlockPos, normal: BlockPos) -> (r:
        RecomputedResult)
        ensures
            self.wf() && power_bounded(grid@) ==> r@.wf(),
    {
        match self {
            BlockType::StandardGrass(b) => b.on_placement(grid, position, normal),
            BlockType::Dirt(b) => b.on_placement(grid, position, normal),
            BlockType::RedStone(b) => b.on_placement(grid, position, normal),
            BlockType::RedStoneLamp(b) => b.on_placement(grid, position, normal),
            BlockType::RedStoneTorch(b) => b.on_placement(grid, position, normal),
            BlockType::Dust(b) => b.on_placement(grid, position, normal),
            BlockType::StoneButton(b) => b.on_placement(grid, position, normal),
        }
    }

    fn neighbor_changed(&self, grid: &Grid, position: BlockPos) -> (r: RecomputedResult)
        ensures
            self.wf() && power_bounded(grid@) ==> r@.wf(),
    {
        match self {
            BlockType::StandardGrass(b) => b.neighbor_changed(grid, position),
            BlockType::Dirt(b) => b.neighbor_changed(grid, position),
            BlockType::RedStone(b) => b.neighbor_changed(grid, position),
            BlockType::RedStoneLamp(b) => b.neighbor_changed(grid, position),
            BlockType::RedStoneTorch(b) => b.neighbor_changed(grid, position),
            BlockType::Dust(b) => b.neighbor_changed(grid, position),
            BlockType::StoneButton(b) => b.neighbor_changed(grid, position),
        }
    }

    fn try_place(&self, grid: &Grid, position: BlockPos) -> (ok: bool) {
        match self {
            BlockType::StandardGrass(b) => b.try_place(grid, position),
            BlockType::Dirt(b) => b.try_place(grid, position),
            BlockType::RedStone(b) => b.try_place(grid, position),
            BlockType::RedStoneLamp(b) => b.try_place(grid, position),
            BlockType::RedStoneTorch(b) => b.try_place(grid, position),
            BlockType::Dust(b) => b.try_place(grid, position),
            BlockType::StoneButton(b) => b.try_place(grid, position),
        }
    }

    fn on_remove(&self, grid: &Grid, position: &BlockPos, queue: &mut BlockChangeQueue) {
        match self {
            BlockType::StandardGrass(b) => b.on_remove(grid, position, queue),
            BlockType::Dirt(b) => b.on_remove(grid, position, queue),
            BlockType::RedStone(b) => b.on_remove(grid, position, queue),
            BlockType::RedStoneLamp(b) => b.on_remove(grid, position, queue),
            BlockType::RedStoneTorch(b) => b.on_remove(grid, position, queue),
            BlockType::Dust(b) => b.on_remove(grid, position, queue),
            BlockType::StoneButton(b) => b.on_remove(grid, position, queue),
        }
    }
}

impl Tickable for BlockType {
    open spec fn tick_outcome(&self, grid: Map<BlockPos, BlockType>, position: BlockPos) -> Outcome {
        match *self {
            BlockType::StandardGrass(b) => b.tick_outcome(grid, position),
            BlockType::Dirt(b) => b.tick_outcome(grid, position),
            BlockType::RedStone(b) => b.tick_outcome(grid, position),
            BlockType::RedStoneLamp(b) => b.tick_outcome(grid, position),
            BlockType::RedStoneTorch(b) => b.tick_outcome(grid, position),
            BlockType::Dust(b) => b.tick_outcome(grid, position),
            BlockType::StoneButton(b) => b.tick_outcome(grid, position),
        }
    }

    open spec fn power_level(&self) -> u8 {
        self.stored_level()
    }

    fn on_tick(&self, grid: &Grid, position: BlockPos) -> (r: RecomputedResult)
        ensures
            self.wf() && power_bounded(grid@) ==> r@.wf(),
    {
        match self {
            BlockType::StandardGrass(b) => b.on_tick(grid, position),
            BlockType::Dirt(b) => b.on_tick(grid, position),
            BlockType::RedStone(b) => b.on_tick(grid, position),
            BlockType::RedStoneLamp(b) => b.on_tick(grid, position),
            BlockType::RedStoneTorch(b) => b.on_tick(grid, position),
            BlockType::Dust(b) => b.on_tick(grid, position),
            BlockType::StoneButton(b) => b.on_tick(grid, position),
        }
    }

    fn power(&self) -> (p: u8)
        ensures
            p == self.stored_level(),
    {
        self.weak_power()
    }
}

} // verus!
