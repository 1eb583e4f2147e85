//! The sparse block grid.
//!
//! The grid maps a position to the block that occupies it. A position without
//! an entry is air: removal deletes the entry, and a lookup that misses is a
//! valid answer.

use std::collections::HashMap;
use vstd::prelude::*;
use crate::block_position::{BlockPos, all_dirs, all_dirs_spec};
use crate::blocks::{BlockType, MAX_POWER, one_hop_weaker, stronger_of};

verus! {

broadcast use vstd::std_specs::hash::group_hash_axioms;

/// What the grid stores for an occupied cell.
#[derive(Debug, Copy, Clone, PartialEq, Eq, Hash, Structural)]
pub struct BlockData {
    pub block_type: BlockType,
}

/// The blocks of the world by position.
pub struct Grid {
    blocks: HashMap<u128, BlockData>,
}

/// The number under which the grid files the cell `p`: its three coordinates,
/// each moved into `0..2^32`, side by side.
pub closed spec fn cell_key(p: BlockPos) -> u128 {
    (((p.x - i32::MIN) * 0x1_0000_0000 + (p.y - i32::MIN)) * 0x1_0000_0000 + (p.z
        - i32::MIN)) as u128
}

proof fn lemma_cell_key_injective(p: BlockPos, q: BlockPos)
    requires
        cell_key(p) == cell_key(q),
    ensures
        p == q,
{
}

fn key_for(p: BlockPos) -> (k: u128)
    ensures
        k == cell_key(p),
{
    let x: u128 = (p.x as i64 - i32::MIN as i64) as u128;
    let y: u128 = (p.y as i64 - i32::MIN as i64) as u128;
    let z: u128 = (p.z as i64 - i32::MIN as i64) as u128;
    (x * 0x1_0000_0000 + y) * 0x1_0000_0000 + z
}

/// No block of `grid` stores a power level above [`MAX_POWER`].
pub open spec fn power_bounded(grid: Map<BlockPos, BlockType>) -> bool {
    forall|p: BlockPos| #[trigger] grid.contains_key(p) ==> grid[p].wf()
}

/// The block at `at`, if `at` is a cell and the cell is occupied.
pub open spec fn block_at(grid: Map<BlockPos, BlockType>, at: Option<BlockPos>) -> Option<
    BlockType,
> {
    match at {
        Some(p) => if grid.contains_key(p) {
            Some(grid[p])
        } else {
            None
        },
        None => None,
    }
}

/// What the cell at `asking_pos + offset` gives to the block `asking` at
/// `asking_pos`. With `strong`, strong power counts beside weak power. With
/// `decay`, weak power arrives one level lower. An empty cell gives nothing.
pub open spec fn contribution(
    grid: Map<BlockPos, BlockType>,
    asking_pos: BlockPos,
    asking: BlockType,
    offset: BlockPos,
    strong: bool,
    decay: bool,
) -> u8 {
    match asking_pos.plus(offset) {
        Some(from) => if grid.contains_key(from) {
            let weak = grid[from].weak_emitted(asking_pos, from, asking);
            let arriving = if decay {
                one_hop_weaker(weak)
            } else {
                weak
            };
            if strong {
                stronger_of(grid[from].strong_emitted(asking_pos, from, asking), arriving)
            } else {
                arriving
            }
        } else {
            0
        },
        None => 0,
    }
}

/// The largest contribution among the first `n` of `offsets`, and 0 if there
/// is none. Levels are never added up.
pub open spec fn level_upto(
    grid: Map<BlockPos, BlockType>,
    asking_pos: BlockPos,
    asking: BlockType,
    offsets: Seq<BlockPos>,
    n: int,
    strong: bool,
    decay: bool,
) -> u8
    decreases n,
{
    if n <= 0 {
        0
    } else {
        stronger_of(
            level_upto(grid, asking_pos, asking, offsets, n - 1, strong, decay),
            contribution(grid, asking_pos, asking, offsets[n - 1], strong, decay),
        )
    }
}

/// The signal that reaches the block at `position` from its six face
/// neighbours: the largest strong or weak power that one of them gives it,
/// undiminished. An empty cell receives nothing.
pub open spec fn direct_signal(grid: Map<BlockPos, BlockType>, position: BlockPos) -> u8 {
    if grid.contains_key(position) {
        level_upto(grid, position, grid[position], all_dirs_spec(), 6, true, false)
    } else {
        0
    }
}

/// The signal that reaches the block at `at`, and 0 where `at` is no cell.
pub open spec fn signal_at(grid: Map<BlockPos, BlockType>, at: Option<BlockPos>) -> u8 {
    match at {
        Some(p) => direct_signal(grid, p),
        None => 0,
    }
}

/// A level computed by [`level_upto`] is the maximum of the contributions:
/// none of them is larger, and unless it is 0 one of them equals it.
pub proof fn lemma_level_is_maximum(
    grid: Map<BlockPos, BlockType>,
    asking_pos: BlockPos,
    asking: BlockType,
    offsets: Seq<BlockPos>,
    n: int,
    strong: bool,
    decay: bool,
)
    ensures
        forall|k: int|
            0 <= k < n ==> #[trigger] contribution(
                grid,
                asking_pos,
                asking,
                offsets[k],
                strong,
                decay,
            ) <= level_upto(grid, asking_pos, asking, offsets, n, strong, decay),
        level_upto(grid, asking_pos, asking, offsets, n, strong, decay) == 0 || exists|k: int|
            0 <= k < n && #[trigger] contribution(
                grid,
                asking_pos,
                asking,
                offsets[k],
                strong,
                decay,
            ) == level_upto(grid, asking_pos, asking, offsets, n, strong, decay),
    decreases n,
{
    if n > 0 {
        lemma_level_is_maximum(grid, asking_pos, asking, offsets, n - 1, strong, decay);
        let before = level_upto(grid, asking_pos, asking, offsets, n - 1, strong, decay);
        let last = contribution(grid, asking_pos, asking, offsets[n - 1], strong, decay);
        let now = level_upto(grid, asking_pos, asking, offsets, n, strong, decay);
        assert(now == stronger_of(before, last));
        if now != 0 {
            if now == last {
                assert(contribution(grid, asking_pos, asking, offsets[n - 1], strong, decay)
                    == now);
            } else {
                let k = choose|k: int|
                    0 <= k < n - 1 && #[trigger] contribution(
                        grid,
                        asking_pos,
                        asking,
                        offsets[k],
                        strong,
                        decay,
                    ) == before;
                assert(contribution(grid, asking_pos, asking, offsets[k], strong, decay) == now);
            }
        }
    }
}

/// A level grows with the contributions: where each of the first `n` offsets
/// gives in `more` at least what it gives in `less`, the level in `more` is at
/// least the level in `less`. Where each gives the same, the levels are the
/// same.
pub proof fn lemma_level_grows_with_contributions(
    less: Map<BlockPos, BlockType>,
    more: Map<BlockPos, BlockType>,
    asking_pos: BlockPos,
    asking: BlockType,
    offsets: Seq<BlockPos>,
    n: int,
    strong: bool,
    decay: bool,
)
    requires
        forall|k: int|
            0 <= k < n ==> contribution(less, asking_pos, asking, #[trigger] offsets[k], strong, decay)
                <= contribution(more, asking_pos, asking, offsets[k], strong, decay),
    ensures
        level_upto(less, asking_pos, asking, offsets, n, strong, decay) <= level_upto(
            more,
            asking_pos,
            asking,
            offsets,
            n,
            strong,
            decay,
        ),
    decreases n,
{
    if n > 0 {
        lemma_level_grows_with_contributions(
            less,
            more,
            asking_pos,
            asking,
            offsets,
            n - 1,
            strong,
            decay,
        );
        assert(contribution(less, asking_pos, asking, offsets[n - 1], strong, decay)
            <= contribution(more, asking_pos, asking, offsets[n - 1], strong, decay));
    }
}

/// In a grid whose blocks store at most [`MAX_POWER`], no level is above it.
pub proof fn lemma_level_bounded(
    grid: Map<BlockPos, BlockType>,
    asking_pos: BlockPos,
    asking: BlockType,
    offsets: Seq<BlockPos>,
    n: int,
    strong: bool,
    decay: bool,
)
    requires
        power_bounded(grid),
    ensures
        level_upto(grid, asking_pos, asking, offsets, n, strong, decay) <= MAX_POWER,
    decreases n,
{
    if n > 0 {
        lemma_level_bounded(grid, asking_pos, asking, offsets, n - 1, strong, decay);
        match asking_pos.plus(offsets[n - 1]) {
            Some(from) => {
                if grid.contains_key(from) {
                    assert(grid[from].wf());
                }
            },
            None => {},
        }
    }
}

impl View for Grid {
    type V = Map<BlockPos, BlockType>;

    closed spec fn view(&self) -> Map<BlockPos, BlockType> {
        Map::new(
            |p: BlockPos| self.blocks@.contains_key(cell_key(p)),
            |p: BlockPos| self.blocks@[cell_key(p)].block_type,
        )
    }
}

impl Default for Grid {
    fn default() -> (g: Grid)
        ensures
            g@ == Map::<BlockPos, BlockType>::empty(),
    {
        Grid::new()
    }
}

impl Grid {
    /// A world of air.
    pub fn new() -> (g: Grid)
        ensures
            g@ == Map::<BlockPos, BlockType>::empty(),
    {
        let g = Grid { blocks: HashMap::new() };
        assert(g@ =~= Map::<BlockPos, BlockType>::empty());
        g
    }

    /// The entry of the cell `pos`, or `None` for air.
    pub fn get(&self, pos: BlockPos) -> (r: Option<&BlockData>)
        ensures
            match r {
                Some(d) => self@.contains_key(pos) && d.block_type == self@[pos],
                None => !self@.contains_key(pos),
            },
    {
        let k = key_for(pos);
        self.blocks.get(&k)
    }

    /// The block in the cell `pos`, or `None` for air.
    pub fn get_blocktype(&self, pos: BlockPos) -> (r: Option<&BlockType>)
        ensures
            match r {
                Some(b) => self@.contains_key(pos) && *b == self@[pos],
                None => !self@.contains_key(pos),
            },
    {
        match self.get(pos) {
            Some(d) => Some(&d.block_type),
            None => None,
        }
    }

    /// The block in the cell `at`, where `at` is a cell and is occupied.
    pub fn block_at(&self, at: Option<BlockPos>) -> (r: Option<BlockType>)
        ensures
            r == block_at(self@, at),
    {
        match at {
            Some(p) => match self.get(p) {
                Some(d) => Some(d.block_type),
                None => None,
            },
            None => None,
        }
    }

    /// Puts `data` into the cell `pos`, in place of what was there.
    pub fn insert(&mut self, pos: BlockPos, data: BlockData)
        ensures
            final(self)@ == old(self)@.insert(pos, data.block_type),
    {
        let k = key_for(pos);
        self.blocks.insert(k, data);
        proof {
            assert forall|p: BlockPos| cell_key(p) == k implies p == pos by {
                lemma_cell_key_injective(p, pos);
            }
            assert(self@ =~= old(self)@.insert(pos, data.block_type));
        }
    }

    /// Empties the cell `pos`.
    pub fn remove(&mut self, pos: BlockPos)
        ensures
            final(self)@ == old(self)@.remove(pos),
    {
        let k = key_for(pos);
        self.blocks.remove(&k);
        proof {
            assert forall|p: BlockPos| cell_key(p) == k implies p == pos by {
                lemma_cell_key_injective(p, pos);
            }
            assert(self@ =~= old(self)@.remove(pos));
        }
    }

    /// The largest power that the cells at `asking_pos + offsets[..]` give to
    /// the block `asking` at `asking_pos`.
    pub fn level_from<const N: usize>(
        &self,
        asking_pos: BlockPos,
        asking: &BlockType,
        offsets: &[BlockPos; N],
        strong: bool,
        decay: bool,
    ) -> (level: u8)
        ensures
            level == level_upto(self@, asking_pos, *asking, offsets@, N as int, strong, decay),
            power_bounded(self@) ==> level <= MAX_POWER,
    {
        let mut level: u8 = 0;
        let mut i: usize = 0;
        while i < N
            invariant
                i <= N,
                offsets@.len() == N,
                level == level_upto(self@, asking_pos, *asking, offsets@, i as int, strong, decay),
            decreases N - i,
        {
            let mut arriving: u8 = 0;
            if let Some(from) = asking_pos.offset(offsets[i]) {
                if let Some(neighbour) = self.get_blocktype(from) {
                    let weak = neighbour.weak_power_emitted(asking_pos, from, asking);
                    arriving = if decay {
                        weak.saturating_sub(1)
                    } else {
                        weak
                    };
                    if strong {
                        let direct = neighbour.strong_power_emitted_to(asking_pos, from, asking);
                        if direct > arriving {
                            arriving = direct;
                        }
                    }
                }
            }
            if arriving > level {
                level = arriving;
            }
            i = i + 1;
        }
        proof {
            if power_bounded(self@) {
                lemma_level_bounded(self@, asking_pos, *asking, offsets@, N as int, strong, decay);
            }
        }
        level
    }

    /// Whether any face neighbour gives power to the block at `pos`.
    pub fn is_powered(&self, pos: BlockPos) -> (r: bool)
        ensures
            r == (direct_signal(self@, pos) > 0),
    {
        self.get_direct_signal(pos) > 0
    }

    /// The signal that reaches the block at `pos` from its face neighbours.
    pub fn get_direct_signal(&self, pos: BlockPos) -> (level: u8)
        ensures
            level == direct_signal(self@, pos),
            power_bounded(self@) ==> level <= MAX_POWER,
    {
        match self.get_blocktype(pos) {
            Some(asking) => {
                let dirs = all_dirs();
                self.level_from(pos, asking, &dirs, true, false)
            },
            None => 0,
        }
    }

    /// The signal that reaches the block at `at`; 0 where `at` is no cell.
    pub fn signal_at(&self, at: Option<BlockPos>) -> (level: u8)
        ensures
            level == signal_at(self@, at),
            power_bounded(self@) ==> level <= MAX_POWER,
    {
        match at {
            Some(p) => self.get_direct_signal(p),
            None => 0,
        }
    }
}

} // verus!
