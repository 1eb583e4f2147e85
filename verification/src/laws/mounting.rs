//! Mounting: a torch or a button that a click puts against a block is carried
//! by that block, and a button that is held down powers it.

use vstd::prelude::*;
use crate::block_position::BlockPos;
use crate::blocks::{BlockType, MAX_POWER, RedStoneTorch, StoneButton};
use crate::changes::Change;
use crate::interactions::{placed_block, placement_request};

verus! {

/// The cell that carries a torch or a button at `position`: for a torch the
/// cell at its position minus the normal it stores, for a button the cell at
/// its position plus the direction it stores.
pub open spec fn carrier_of(block: BlockType, position: BlockPos) -> Option<BlockPos> {
    match block {
        BlockType::RedStoneTorch(b) => position.minus(b.attached_face),
        BlockType::StoneButton(b) => position.plus(b.attached_face),
        _ => None,
    }
}

/// Stepping along a vector and then along its opposite leads back.
pub proof fn lemma_there_and_back(from: BlockPos, by: BlockPos)
    requires
        from.plus(by) is Some,
    ensures
        from.plus(by).unwrap().minus(by) == Some(from),
        by.opposite() is Some ==> from.plus(by).unwrap().plus(by.opposite().unwrap()) == Some(
            from,
        ),
{
}

/// A torch or a button mounted against the face with normal `normal` of the
/// block at `clicked`, and standing in the cell in front of that face, is
/// carried by that block.
pub proof fn lemma_mounted_block_is_carried_by_clicked(
    block: BlockType,
    clicked: BlockPos,
    normal: BlockPos,
)
    requires
        block is RedStoneTorch || block is StoneButton,
        clicked.plus(normal) is Some,
        normal.opposite() is Some,
    ensures
        carrier_of(block.mounted(normal), clicked.plus(normal).unwrap()) == Some(clicked),
{
    lemma_there_and_back(clicked, normal);
}

/// The torch or the button that a click places is carried by the block that
/// was clicked, and that block is solid.
pub proof fn lemma_click_mounts_against_clicked(
    grid: Map<BlockPos, BlockType>,
    block: BlockType,
    clicked: BlockPos,
    normal: BlockPos,
)
    requires
        block is RedStoneTorch || block is StoneButton,
        normal.opposite() is Some,
        placement_request(grid, block, clicked, normal) is Some,
        !grid.contains_key(clicked.plus(normal).unwrap()),
    ensures
        grid.contains_key(clicked) && grid[clicked].solid(),
        carrier_of(
            placed_block(grid, block, clicked.plus(normal).unwrap(), normal),
            clicked.plus(normal).unwrap(),
        ) == Some(clicked),
        placement_request(grid, block, clicked, normal) matches Some(
            Change::Place { position, block_type, .. },
        ) && position == clicked.plus(normal).unwrap() && block_type == Some(
            placed_block(grid, block, position, normal),
        ),
{
    lemma_there_and_back(clicked, normal);
}

/// A button that is held down with time left gives full strong power to its
/// carrier and to no other cell, and full weak power to every cell but its
/// carrier. A button that is up, or has no time left, gives nothing.
pub proof fn lemma_button_powers_its_carrier(
    button: StoneButton,
    asking_pos: BlockPos,
    emitting_pos: BlockPos,
    asking: BlockType,
)
    ensures
        BlockType::StoneButton(button).strong_emitted(asking_pos, emitting_pos, asking) == if button.pressed
            && button.ticks > 0 && carrier_of(BlockType::StoneButton(button), emitting_pos)
            == Some(asking_pos) {
            MAX_POWER
        } else {
            0
        },
        BlockType::StoneButton(button).weak_emitted(asking_pos, emitting_pos, asking) == if button.pressed
            && button.ticks > 0 && carrier_of(BlockType::StoneButton(button), emitting_pos)
            != Some(asking_pos) {
            MAX_POWER
        } else {
            0
        },
{
}

/// A torch gives its carrier no weak power, lit or not.
pub proof fn lemma_torch_spares_its_carrier(
    torch: RedStoneTorch,
    emitting_pos: BlockPos,
    asking: BlockType,
)
    requires
        carrier_of(BlockType::RedStoneTorch(torch), emitting_pos) is Some,
    ensures
        BlockType::RedStoneTorch(torch).weak_emitted(
            carrier_of(BlockType::RedStoneTorch(torch), emitting_pos).unwrap(),
            emitting_pos,
            asking,
        ) == 0,
{
}

} // verus!
