//! What a click on the world asks for.
//!
//! A click is turned into a request and nothing else: the world changes when
//! the request is applied.

use vstd::prelude::*;
use crate::block_position::BlockPos;
use crate::blocks::{
    Block, BlockType, Dust, NeighbourUpdate, Outcome, RecomputedResult, RedStone, RedStoneLamp,
    RedStoneTorch, StandardGrass, StoneButton,
};
use crate::changes::{BlockChange, Change, Place, Remove};
use crate::grid::Grid;
use crate::render::DirtyRender;
use crate::world::request_for;

verus! {

/// What a click means.
#[derive(Debug, Copy, Clone, PartialEq, Eq, Structural)]
pub enum Action {
    /// Put this block against the face with this normal of the block at this
    /// position.
    PlaceBlock(BlockType, BlockPos, BlockPos),
    /// Use the block at this position.
    Interact(BlockPos),
}

/// A click.
#[derive(Debug, Copy, Clone, PartialEq, Eq, Structural)]
pub struct ClickEvent(pub Action);

/// The block that a placement of `block_type` into the cell `position`
/// against a face with normal `normal` puts there: the block in the state
/// that its placement rule gives, and the block as it is where the rule has
/// nothing to say.
pub open spec fn placed_block(
    grid: Map<BlockPos, BlockType>,
    block_type: BlockType,
    position: BlockPos,
    normal: BlockPos,
) -> BlockType {
    match block_type.placement_outcome(grid, position, normal) {
        Outcome::Changed { new_block: Some(b), .. } => b,
        _ => block_type,
    }
}

/// The request that puts `block_type` against the face with normal `normal`
/// of the block at `clicked`, if the block may be placed there.
///
/// The block goes into the cell `clicked + normal`. It has to fit against
/// the clicked face, and the block that arrives has to be placeable in its
/// cell. The request carries what the placement rule of the block answers.
/// Where the rule has nothing to say, because the cell is occupied, the block
/// goes in as it is, unseen and without telling anybody. A cell that does not
/// exist gets no request.
pub open spec fn placement_request(
    grid: Map<BlockPos, BlockType>,
    block_type: BlockType,
    clicked: BlockPos,
    normal: BlockPos,
) -> Option<Change> {
    match clicked.plus(normal) {
        Some(position) => if block_type.fits_against(grid, clicked, normal) && placed_block(
            grid,
            block_type,
            position,
            normal,
        ).placeable(grid, position) {
            Some(
                match block_type.placement_outcome(grid, position, normal) {
                    Outcome::Changed { visual_update, self_tick, neighbor_tick, .. } => {
                        Change::Place {
                            position,
                            block_type: Some(placed_block(grid, block_type, position, normal)),
                            visual_change: visual_update,
                            self_tick,
                            neighbor_tick,
                        }
                    },
                    Outcome::Unchanged => Change::Place {
                        position,
                        block_type: Some(block_type),
                        visual_change: false,
                        self_tick: None,
                        neighbor_tick: NeighbourUpdate::none_spec(),
                    },
                },
            )
        } else {
            None
        },
        None => None,
    }
}

/// The view of a request that may be missing.
pub open spec fn request_view(request: Option<BlockChange>) -> Option<Change> {
    match request {
        Some(r) => Some(r@),
        None => None,
    }
}

/// The request that a use of the block at `position` leads to. Only a button
/// can be used: pressing one that is up brings it down.
pub open spec fn interaction_request(grid: Map<BlockPos, BlockType>, position: BlockPos) -> Option<
    Change,
> {
    if grid.contains_key(position) {
        match grid[position] {
            BlockType::StoneButton(b) => request_for(position, b.press_outcome()),
            _ => None,
        }
    } else {
        None
    }
}

/// The request that empties the cell `position`: it is drawn again, and the
/// cells that dust can reach from it are notified.
pub open spec fn deletion_request(position: BlockPos) -> Change {
    Change::Remove {
        position,
        visual_change: true,
        self_tick: None,
        neighbor_tick: NeighbourUpdate::extended_spec(),
    }
}

/// Turns the wish to place a block into a request, if the block may be placed.
pub fn try_place_in_world(
    grid: &Grid,
    block_type: BlockType,
    clicked: BlockPos,
    normal: BlockPos,
) -> (request: Option<BlockChange>)
    ensures
        request_view(request) == placement_request(grid@, block_type, clicked, normal),
{
    let position = match clicked.offset(normal) {
        Some(p) => p,
        None => {
            return None;
        },
    };
    if !block_type.can_be_placed(clicked, normal, grid) {
        return None;
    }
    let result = block_type.on_placement(grid, position, normal);
    let (placed, place) = match result {
        RecomputedResult::Changed { new_block, visual_update, self_tick, neighbor_tick } => {
            let placed = match new_block {
                Some(b) => b,
                None => block_type,
            };
            (placed, Place::new(Some(placed), position, visual_update, self_tick, neighbor_tick))
        },
        RecomputedResult::Unchanged => (
            block_type,
            Place::new(Some(block_type), position, false, None, NeighbourUpdate::none()),
        ),
    };
    if !placed.try_place(grid, position) {
        return None;
    }
    Some(BlockChange::Place(place))
}

/// Turns the use of the block at `position` into a request, if it has any effect.
pub fn interact(grid: &Grid, position: BlockPos) -> (request: Option<BlockChange>)
    ensures
        request_view(request) == interaction_request(grid@, position),
{
    match grid.get_blocktype(position) {
        Some(BlockType::StoneButton(button)) => match button.press() {
            RecomputedResult::Changed { new_block, visual_update, self_tick, neighbor_tick } => {
                match new_block {
                    Some(b) => Some(
                        BlockChange::Place(
                            Place::new(Some(b), position, visual_update, self_tick, neighbor_tick),
                        ),
                    ),
                    None => Some(
                        BlockChange::Remove(
                            Remove::new(position, visual_update, self_tick, neighbor_tick),
                        ),
                    ),
                }
            },
            RecomputedResult::Unchanged => None,
        },
        _ => None,
    }
}

/// The request that a click leads to, if it leads to one.
pub open spec fn click_request(grid: Map<BlockPos, BlockType>, event: ClickEvent) -> Option<
    Change,
> {
    match event.0 {
        Action::PlaceBlock(block_type, clicked, normal) => placement_request(
            grid,
            block_type,
            clicked,
            normal,
        ),
        Action::Interact(position) => interaction_request(grid, position),
    }
}

/// Turns a click into a request, if it leads to one.
pub fn handle_click(event: &ClickEvent, grid: &Grid) -> (request: Option<BlockChange>)
    ensures
        request_view(request) == click_request(grid@, *event),
{
    match event.0 {
        Action::PlaceBlock(block_type, clicked, normal) => try_place_in_world(
            grid,
            block_type,
            clicked,
            normal,
        ),
        Action::Interact(position) => interact(grid, position),
    }
}

/// Asks for the cell `position` to be emptied, and marks it to be drawn again
/// right away.
pub fn request_delete_hovered_block(position: BlockPos, dirty_render: &mut DirtyRender) -> (request:
    BlockChange)
    ensures
        request@ == deletion_request(position),
        final(dirty_render)@ == old(dirty_render)@.insert(position),
{
    dirty_render.mark(position);
    BlockChange::Remove(Remove::new(position, true, None, NeighbourUpdate::extended()))
}

/// Whether two blocks are of the same kind, whatever state they are in.
pub open spec fn same_kind(a: BlockType, b: BlockType) -> bool {
    ||| a is StandardGrass && b is StandardGrass
    ||| a is Dirt && b is Dirt
    ||| a is RedStone && b is RedStone
    ||| a is RedStoneLamp && b is RedStoneLamp
    ||| a is RedStoneTorch && b is RedStoneTorch
    ||| a is Dust && b is Dust
    ||| a is StoneButton && b is StoneButton
}

/// The selection after the key of `block` was hit: hitting the key of the
/// kind that is selected takes the selection off, hitting another key
/// selects that block.
pub open spec fn toggled(selected: Option<BlockType>, block: BlockType) -> Option<BlockType> {
    match selected {
        Some(current) => if same_kind(current, block) {
            None
        } else {
            Some(block)
        },
        None => Some(block),
    }
}

/// The block that the number key `digit` stands for: 1 grass, 2 the redstone
/// block, 3 the lamp, 4 dust, 5 the torch, 6 the button, each as it starts
/// out. Other keys stand for nothing.
pub open spec fn keyed_block(digit: u8) -> Option<BlockType> {
    if digit == 1 {
        Some(BlockType::StandardGrass(StandardGrass { power: 0 }))
    } else if digit == 2 {
        Some(BlockType::RedStone(RedStone))
    } else if digit == 3 {
        Some(BlockType::RedStoneLamp(RedStoneLamp { power: 0 }))
    } else if digit == 4 {
        Some(BlockType::Dust(Dust { shape: crate::redstone::junctions::JunctionType::Dot, power: 0 }))
    } else if digit == 5 {
        Some(
            BlockType::RedStoneTorch(
                RedStoneTorch { lit: false, attached_face: BlockPos { x: 0, y: 0, z: 0 } },
            ),
        )
    } else if digit == 6 {
        Some(
            BlockType::StoneButton(
                StoneButton {
                    pressed: false,
                    attached_face: BlockPos { x: 0, y: 0, z: 0 },
                    ticks: crate::blocks::BUTTON_TICKS,
                },
            ),
        )
    } else {
        None
    }
}

/// The block that the number key `digit` stands for.
pub fn block_for_key(digit: u8) -> (block: Option<BlockType>)
    ensures
        block == keyed_block(digit),
{
    match digit {
        1 => Some(BlockType::StandardGrass(StandardGrass::default())),
        2 => Some(BlockType::RedStone(RedStone::default())),
        3 => Some(BlockType::RedStoneLamp(RedStoneLamp::default())),
        4 => Some(BlockType::Dust(Dust::default())),
        5 => Some(BlockType::RedStoneTorch(RedStoneTorch::default())),
        6 => Some(BlockType::StoneButton(StoneButton::default())),
        _ => None,
    }
}

/// The selection after the key of `block` was hit.
pub fn select_block(selected: Option<BlockType>, block: BlockType) -> (next: Option<BlockType>)
    ensures
        next == toggled(selected, block),
{
    match selected {
        Some(current) => {
            let same = match (current, block) {
                (BlockType::StandardGrass(_), BlockType::StandardGrass(_)) => true,
                (BlockType::Dirt(_), BlockType::Dirt(_)) => true,
                (BlockType::RedStone(_), BlockType::RedStone(_)) => true,
                (BlockType::RedStoneLamp(_), BlockType::RedStoneLamp(_)) => true,
                (BlockType::RedStoneTorch(_), BlockType::RedStoneTorch(_)) => true,
                (BlockType::Dust(_), BlockType::Dust(_)) => true,
                (BlockType::StoneButton(_), BlockType::StoneButton(_)) => true,
                _ => false,
            };
            if same {
                None
            } else {
                Some(block)
            }
        },
        None => Some(block),
    }
}

/// What a click on the face with normal `normal` of the block at `position`
/// means: with a block selected the block is to be placed there, without one
/// the block that was hit is used.
pub fn request_place_selected_block(
    selected: Option<BlockType>,
    position: BlockPos,
    normal: BlockPos,
) -> (event: ClickEvent)
    ensures
        event == ClickEvent(
            match selected {
                Some(block_type) => Action::PlaceBlock(block_type, position, normal),
                None => Action::Interact(position),
            },
        ),
{
    match selected {
        Some(block_type) => ClickEvent(Action::PlaceBlock(block_type, position, normal)),
        None => ClickEvent(Action::Interact(position)),
    }
}

} // verus!
