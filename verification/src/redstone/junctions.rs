//! The shape that a piece of dust takes from its four horizontal neighbours.

use vstd::prelude::*;
use crate::block_position::{BlockPos, axis_x, axis_z, unit_x, unit_z};
use crate::blocks::BlockType;
use crate::grid::{BlockData, Grid};

verus! {

/// How a piece of dust connects to the cells around it.
///
/// North is -z, south is +z, east is +x, west is -x.
#[derive(Debug, Copy, Clone, PartialEq, Eq, Hash, Structural)]
pub enum JunctionType {
    Dot,
    Vertical,
    Horizontal,
    CornerNE,
    CornerNW,
    CornerSE,
    CornerSW,
    TNorth,
    TSouth,
    TEast,
    TWest,
    Cross,
}

impl Default for JunctionType {
    fn default() -> (j: JunctionType)
        ensures
            j == JunctionType::Dot,
    {
        JunctionType::Dot
    }
}

/// How many of the four sides are connected.
pub open spec fn connection_count(north: bool, south: bool, east: bool, west: bool) -> int {
    (if north { 1int } else { 0 }) + (if south { 1int } else { 0 }) + (if east { 1int } else { 0 })
        + (if west { 1int } else { 0 })
}

/// The junction table.
///
/// A piece with no connection is a dot. One that connects along the
/// north-south axis only is vertical, along the east-west axis only
/// horizontal. Two connections on different axes make a corner, three a T,
/// four a cross.
pub open spec fn junction_of(north: bool, south: bool, east: bool, west: bool) -> JunctionType {
    let along_z = north || south;
    let along_x = east || west;
    if !along_z && !along_x {
        JunctionType::Dot
    } else if !along_x {
        JunctionType::Vertical
    } else if !along_z {
        JunctionType::Horizontal
    } else if north && south && east && west {
        JunctionType::Cross
    } else if !south && east && west {
        JunctionType::TNorth
    } else if !north && east && west {
        JunctionType::TSouth
    } else if north && south && east {
        JunctionType::TEast
    } else if north && south && west {
        JunctionType::TWest
    } else if south && east {
        JunctionType::CornerNE
    } else if south && west {
        JunctionType::CornerNW
    } else if north && east {
        JunctionType::CornerSE
    } else {
        JunctionType::CornerSW
    }
}

/// Looks the four connections up in the junction table.
pub fn get_junction_type(north: bool, south: bool, east: bool, west: bool) -> (j: JunctionType)
    ensures
        j == junction_of(north, south, east, west),
{
    match (north, south, east, west) {
        (false, false, false, false) => JunctionType::Dot,
        (true, true, true, true) => JunctionType::Cross,
        (true, false, true, true) => JunctionType::TNorth,
        (true, true, true, false) => JunctionType::TEast,
        (true, true, false, true) => JunctionType::TWest,
        (false, true, true, true) => JunctionType::TSouth,
        (true, true, false, false) => JunctionType::Vertical,
        (true, false, false, false) => JunctionType::Vertical,
        (false, true, false, false) => JunctionType::Vertical,
        (false, false, true, true) => JunctionType::Horizontal,
        (false, false, false, true) => JunctionType::Horizontal,
        (false, false, true, false) => JunctionType::Horizontal,
        (false, true, true, false) => JunctionType::CornerNE,
        (true, false, false, true) => JunctionType::CornerSW,
        (true, false, true, false) => JunctionType::CornerSE,
        (false, true, false, true) => JunctionType::CornerNW,
    }
}

/// With at most one connection the shape is a dot or a straight line, and it
/// is a dot exactly when nothing is connected.
pub proof fn lemma_few_connections_make_no_junction(
    north: bool,
    south: bool,
    east: bool,
    west: bool,
)
    requires
        connection_count(north, south, east, west) <= 1,
    ensures
        junction_of(north, south, east, west) == JunctionType::Dot || junction_of(
            north,
            south,
            east,
            west,
        ) == JunctionType::Vertical || junction_of(north, south, east, west)
            == JunctionType::Horizontal,
        junction_of(north, south, east, west) == JunctionType::Dot <==> connection_count(
            north,
            south,
            east,
            west,
        ) == 0,
        (north || south) ==> junction_of(north, south, east, west) == JunctionType::Vertical,
        (east || west) ==> junction_of(north, south, east, west) == JunctionType::Horizontal,
{
}

/// The number of connections can be read off the shape: a dot has none, a
/// line one or two, a corner two, a T three, a cross four.
pub proof fn lemma_junction_counts(north: bool, south: bool, east: bool, west: bool)
    ensures
        match junction_of(north, south, east, west) {
            JunctionType::Dot => connection_count(north, south, east, west) == 0,
            JunctionType::Vertical => !east && !west && (north || south),
            JunctionType::Horizontal => !north && !south && (east || west),
            JunctionType::CornerNE => !north && south && east && !west,
            JunctionType::CornerNW => !north && south && !east && west,
            JunctionType::CornerSE => north && !south && east && !west,
            JunctionType::CornerSW => north && !south && !east && west,
            JunctionType::TNorth => north && !south && east && west,
            JunctionType::TSouth => !north && south && east && west,
            JunctionType::TEast => north && south && east && !west,
            JunctionType::TWest => north && south && !east && west,
            JunctionType::Cross => north && south && east && west,
        },
{
}

/// Whether dust connects to a block of this kind.
pub open spec fn carries_redstone(block: BlockType) -> bool {
    block is Dust || block is RedStone || block is RedStoneLamp || block is RedStoneTorch
}

/// Whether the cell `at`, if there is one, holds something dust connects to.
pub open spec fn connects(grid: Map<BlockPos, BlockType>, at: Option<BlockPos>) -> bool {
    match at {
        Some(p) => grid.contains_key(p) && carries_redstone(grid[p]),
        None => false,
    }
}

/// The shape of dust at `position` in `grid`.
pub open spec fn junction_at(grid: Map<BlockPos, BlockType>, position: BlockPos) -> JunctionType {
    junction_of(
        connects(grid, position.minus(axis_z())),
        connects(grid, position.plus(axis_z())),
        connects(grid, position.plus(axis_x())),
        connects(grid, position.minus(axis_x())),
    )
}

/// Whether dust connects to the block in `block_data`.
pub fn has_redstone(block_data: &BlockData) -> (r: bool)
    ensures
        r == carries_redstone(block_data.block_type),
{
    match block_data.block_type {
        BlockType::Dust(_) => true,
        BlockType::RedStone(_) => true,
        BlockType::RedStoneLamp(_) => true,
        BlockType::RedStoneTorch(_) => true,
        _ => false,
    }
}

fn connects_at(grid: &Grid, at: Option<BlockPos>) -> (r: bool)
    ensures
        r == connects(grid@, at),
{
    match at {
        Some(p) => match grid.get(p) {
            Some(block_data) => has_redstone(block_data),
            None => false,
        },
        None => false,
    }
}

/// Derives the shape of dust at `position` from its four horizontal neighbours.
pub fn resolve_junction(position: BlockPos, grid: &Grid) -> (j: JunctionType)
    ensures
        j == junction_at(grid@, position),
{
    let north = connects_at(grid, position.offset_back(unit_z()));
    let south = connects_at(grid, position.offset(unit_z()));
    let east = connects_at(grid, position.offset(unit_x()));
    let west = connects_at(grid, position.offset_back(unit_x()));
    get_junction_type(north, south, east, west)
}

} // verus!
