//! The positions that wait for a pass of the frame: those whose surroundings
//! may have changed, and those that have to be drawn again.

use bevy::platform::collections::HashSet;
use vstd::prelude::*;
use crate::block_position::BlockPos;
use crate::collections::{cell_set_drain, cell_set_insert, cell_set_list, cell_set_new, set_cells};
use crate::blocks::BlockType;
use crate::grid::Grid;
use crate::redstone::scheduler::{
    lemma_positions_list_once, lists_once, position_set, to_positions,
};

verus! {

/// The positions whose blocks have to look at their surroundings again.
pub struct DirtyBlocks {
    positions: HashSet<(i32, i32, i32)>,
}

/// The positions that have to be drawn again.
pub struct DirtyRender {
    positions: HashSet<(i32, i32, i32)>,
}

/// What is to be done about the entity that draws a cell.
#[derive(Debug, Copy, Clone, PartialEq, Eq, Structural)]
pub enum RenderAction {
    /// The cell holds a block and has an entity: the entity is brought up to date.
    Update(BlockType),
    /// The cell holds a block and has no entity: one is spawned.
    Spawn(BlockType),
    /// The cell is empty and has an entity: the entity is despawned.
    Despawn,
    /// The cell is empty and has no entity.
    Nothing,
}

/// What is to be done about a cell that holds `block` and whose entity
/// exists or not.
pub fn renderer(block: Option<BlockType>, has_entity: bool) -> (action: RenderAction)
    ensures
        action == match (block, has_entity) {
            (Some(b), true) => RenderAction::Update(b),
            (Some(b), false) => RenderAction::Spawn(b),
            (None, true) => RenderAction::Despawn,
            (None, false) => RenderAction::Nothing,
        },
{
    match (block, has_entity) {
        (Some(b), true) => RenderAction::Update(b),
        (Some(b), false) => RenderAction::Spawn(b),
        (None, true) => RenderAction::Despawn,
        (None, false) => RenderAction::Nothing,
    }
}

/// The pairs of a position of `order` that `grid` holds a block at, and that
/// block, for the first `n` positions of `order`.
pub open spec fn occupied_upto(
    grid: Map<BlockPos, BlockType>,
    order: Seq<BlockPos>,
    n: int,
) -> Seq<(BlockPos, BlockType)>
    decreases n,
{
    if n <= 0 {
        Seq::empty()
    } else {
        let before = occupied_upto(grid, order, n - 1);
        if grid.contains_key(order[n - 1]) {
            before.push((order[n - 1], grid[order[n - 1]]))
        } else {
            before
        }
    }
}

/// The positions of `order` at which `grid` holds a block, each with the block.
pub open spec fn occupied(grid: Map<BlockPos, BlockType>, order: Seq<BlockPos>) -> Seq<
    (BlockPos, BlockType),
> {
    occupied_upto(grid, order, order.len() as int)
}

/// Looks up each position of `order`, and keeps those that hold a block.
pub fn occupied_of(grid: &Grid, order: &Vec<BlockPos>) -> (found: Vec<(BlockPos, BlockType)>)
    ensures
        found@ == occupied(grid@, order@),
{
    let mut found: Vec<(BlockPos, BlockType)> = Vec::new();
    let mut i: usize = 0;
    while i < order.len()
        invariant
            i <= order.len(),
            found@ == occupied_upto(grid@, order@, i as int),
        decreases order.len() - i,
    {
        if let Some(block) = grid.get_blocktype(order[i]) {
            found.push((order[i], *block));
        }
        i = i + 1;
    }
    found
}

/// Whether `found` is what `predicate` kept of the first `n` of `candidates`:
/// the candidates of which it said yes, in their order.
pub open spec fn selects<F: Fn(&BlockType) -> bool>(
    predicate: F,
    candidates: Seq<(BlockPos, BlockType)>,
    n: int,
    found: Seq<(BlockPos, BlockType)>,
) -> bool
    decreases n,
{
    if n <= 0 {
        found.len() == 0
    } else {
        (predicate.ensures((&candidates[n - 1].1,), false) && selects(
            predicate,
            candidates,
            n - 1,
            found,
        )) || (found.len() > 0 && found.last() == candidates[n - 1] && predicate.ensures(
            (&candidates[n - 1].1,),
            true,
        ) && selects(predicate, candidates, n - 1, found.drop_last()))
    }
}

/// Keeps the candidates whose block `predicate` says yes of.
pub fn select_blocks<F: Fn(&BlockType) -> bool>(
    candidates: &Vec<(BlockPos, BlockType)>,
    predicate: F,
) -> (found: Vec<(BlockPos, BlockType)>)
    requires
        forall|b: &BlockType| #[trigger] predicate.requires((b,)),
    ensures
        selects(predicate, candidates@, candidates@.len() as int, found@),
{
    let mut found: Vec<(BlockPos, BlockType)> = Vec::new();
    let mut i: usize = 0;
    while i < candidates.len()
        invariant
            i <= candidates.len(),
            forall|b: &BlockType| #[trigger] predicate.requires((b,)),
            selects(predicate, candidates@, i as int, found@),
        decreases candidates.len() - i,
    {
        let candidate = candidates[i];
        let ghost before = found@;
        if predicate(&candidate.1) {
            found.push(candidate);
            assert(found@.drop_last() =~= before);
        }
        i = i + 1;
    }
    found
}

impl View for DirtyBlocks {
    type V = Set<BlockPos>;

    closed spec fn view(&self) -> Set<BlockPos> {
        position_set(set_cells(self.positions))
    }
}

impl View for DirtyRender {
    type V = Set<BlockPos>;

    closed spec fn view(&self) -> Set<BlockPos> {
        position_set(set_cells(self.positions))
    }
}

impl Default for DirtyBlocks {
    fn default() -> (d: DirtyBlocks)
        ensures
            d@ == Set::<BlockPos>::empty(),
    {
        DirtyBlocks::new()
    }
}

impl Default for DirtyRender {
    fn default() -> (d: DirtyRender)
        ensures
            d@ == Set::<BlockPos>::empty(),
    {
        DirtyRender::new()
    }
}

impl DirtyBlocks {
    pub fn new() -> (d: DirtyBlocks)
        ensures
            d@ == Set::<BlockPos>::empty(),
    {
        let d = DirtyBlocks { positions: cell_set_new() };
        assert(d@ =~= Set::<BlockPos>::empty());
        d
    }

    /// Marks `position`.
    pub fn mark(&mut self, position: BlockPos)
        ensures
            final(self)@ == old(self)@.insert(position),
    {
        cell_set_insert(&mut self.positions, (position.x, position.y, position.z));
        assert(self@ =~= old(self)@.insert(position));
    }

    /// Hands out every marked position once, in an order that the set
    /// decides, and leaves nothing marked.
    pub fn drain(&mut self) -> (order: Vec<BlockPos>)
        ensures
            lists_once(order@, old(self)@),
            final(self)@ == Set::<BlockPos>::empty(),
    {
        let cells = cell_set_drain(&mut self.positions);
        proof {
            lemma_positions_list_once(cells@, cells@.to_set());
            assert(self@ =~= Set::<BlockPos>::empty());
        }
        to_positions(&cells)
    }

    /// The marked positions that hold a block of which `predicate` says yes,
    /// each with its block, in an order that the set decides.
    pub fn filter<F: Fn(&BlockType) -> bool>(&self, grid: &Grid, predicate: F) -> (found: Vec<
        (BlockPos, BlockType),
    >)
        requires
            forall|b: &BlockType| #[trigger] predicate.requires((b,)),
        ensures
            exists|order: Seq<BlockPos>|
                lists_once(order, self@) && #[trigger] selects(
                    predicate,
                    occupied(grid@, order),
                    occupied(grid@, order).len() as int,
                    found@,
                ),
    {
        let cells = cell_set_list(&self.positions);
        proof {
            lemma_positions_list_once(cells@, cells@.to_set());
        }
        let order = to_positions(&cells);
        let candidates = occupied_of(grid, &order);
        let found = select_blocks(&candidates, predicate);
        proof {
            assert(lists_once(order@, self@));
            assert(selects(
                predicate,
                occupied(grid@, order@),
                occupied(grid@, order@).len() as int,
                found@,
            ));
        }
        found
    }
}

impl DirtyRender {
    pub fn new() -> (d: DirtyRender)
        ensures
            d@ == Set::<BlockPos>::empty(),
    {
        let d = DirtyRender { positions: cell_set_new() };
        assert(d@ =~= Set::<BlockPos>::empty());
        d
    }

    /// Marks `position`.
    pub fn mark(&mut self, position: BlockPos)
        ensures
            final(self)@ == old(self)@.insert(position),
    {
        cell_set_insert(&mut self.positions, (position.x, position.y, position.z));
        assert(self@ =~= old(self)@.insert(position));
    }

    /// Hands out every marked position once, in an order that the set
    /// decides, and leaves nothing marked.
    pub fn drain(&mut self) -> (order: Vec<BlockPos>)
        ensures
            lists_once(order@, old(self)@),
            final(self)@ == Set::<BlockPos>::empty(),
    {
        let cells = cell_set_drain(&mut self.positions);
        proof {
            lemma_positions_list_once(cells@, cells@.to_set());
            assert(self@ =~= Set::<BlockPos>::empty());
        }
        to_positions(&cells)
    }

    /// The marked positions that hold a block of which `predicate` says yes,
    /// each with its block, in an order that the set decides.
    pub fn filter<F: Fn(&BlockType) -> bool>(&self, grid: &Grid, predicate: F) -> (found: Vec<
        (BlockPos, BlockType),
    >)
        requires
            forall|b: &BlockType| #[trigger] predicate.requires((b,)),
        ensures
            exists|order: Seq<BlockPos>|
                lists_once(order, self@) && #[trigger] selects(
                    predicate,
                    occupied(grid@, order),
                    occupied(grid@, order).len() as int,
                    found@,
                ),
    {
        let cells = cell_set_list(&self.positions);
        proof {
            lemma_positions_list_once(cells@, cells@.to_set());
        }
        let order = to_positions(&cells);
        let candidates = occupied_of(grid, &order);
        let found = select_blocks(&candidates, predicate);
        proof {
            assert(lists_once(order@, self@));
            assert(selects(
                predicate,
                occupied(grid@, order@),
                occupied(grid@, order@).len() as int,
                found@,
            ));
        }
        found
    }
}

} // verus!
