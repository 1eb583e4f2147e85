//! The power bound: no block ever stores more than the highest level.

use vstd::prelude::*;
use crate::block_position::{BlockPos, all_dirs_spec};
use crate::blocks::dust::corner_dirs_spec;
use crate::blocks::{Block, BlockType, Tickable};
use crate::changes::Change;
use crate::grid::{lemma_level_bounded, power_bounded};
use crate::redstone::scheduler::Tick;
use crate::world::WorldState;

verus! {

/// Power bound, for one block: in a grid whose blocks store at most the
/// highest level, what a block with such a level answers to a placement, to a
/// change next to it, or to its tick never names a block that stores more.
pub proof fn lemma_outcomes_keep_power_bounded(
    block: BlockType,
    grid: Map<BlockPos, BlockType>,
    position: BlockPos,
    normal: BlockPos,
)
    requires
        block.wf(),
        power_bounded(grid),
    ensures
        block.placement_outcome(grid, position, normal).wf(),
        block.neighbor_outcome(grid, position).wf(),
        block.tick_outcome(grid, position).wf(),
{
    match block {
        BlockType::RedStoneLamp(b) => {
            lemma_level_bounded(
                grid,
                position,
                block,
                all_dirs_spec(),
                6,
                true,
                true,
            );
        },
        BlockType::Dust(b) => {
            lemma_level_bounded(
                grid,
                position,
                block,
                all_dirs_spec(),
                6,
                true,
                true,
            );
            lemma_level_bounded(
                grid,
                position,
                block,
                corner_dirs_spec(),
                8,
                false,
                true,
            );
        },
        _ => {},
    }
}

/// Power bound, for one request: applying a request that carries no level
/// above the highest to a world that holds none leaves none in the world.
pub proof fn lemma_apply_keeps_power_bounded(w: WorldState, change: Change, now: Tick)
    requires
        w.power_bounded(),
        change.wf(),
    ensures
        w.applied(change, now).power_bounded(),
{
    let m = w.mutated(change);
    assert(m.power_bounded()) by {
        assert forall|i: int| 0 <= i < m.queue.len() implies (#[trigger] m.queue[i]).wf() by {
            if i < w.queue.len() {
                assert(w.queue[i].wf());
            }
        }
    }
}

/// Power bound, for the apply pass.
pub proof fn lemma_apply_pass_keeps_power_bounded(
    w: WorldState,
    changes: Seq<Change>,
    n: int,
    now: Tick,
)
    requires
        w.power_bounded(),
        n <= changes.len(),
        forall|i: int| 0 <= i < changes.len() ==> (#[trigger] changes[i]).wf(),
    ensures
        w.applied_upto(changes, n, now).power_bounded(),
    decreases n,
{
    if n > 0 {
        lemma_apply_pass_keeps_power_bounded(w, changes, n - 1, now);
        lemma_apply_keeps_power_bounded(w.applied_upto(changes, n - 1, now), changes[n - 1], now);
    }
}

/// Power bound, for the react pass.
pub proof fn lemma_react_keeps_power_bounded(w: WorldState, order: Seq<BlockPos>, n: int)
    requires
        w.power_bounded(),
    ensures
        w.reacted_upto(order, n).power_bounded(),
    decreases n,
{
    if n > 0 {
        lemma_react_keeps_power_bounded(w, order, n - 1);
        let before = w.reacted_upto(order, n - 1);
        let position = order[n - 1];
        if before.grid.contains_key(position) {
            assert(before.grid[position].wf());
            lemma_outcomes_keep_power_bounded(before.grid[position], before.grid, position, position);
            let after = before.reacted_at(position);
            assert forall|i: int| 0 <= i < after.queue.len() implies (#[trigger] after.queue[i]).wf() by {
                if i < before.queue.len() {
                    assert(before.queue[i].wf());
                }
            }
        }
    }
}

/// Power bound, for one tick.
pub proof fn lemma_tick_keeps_power_bounded(w: WorldState, position: BlockPos, now: Tick)
    requires
        w.power_bounded(),
    ensures
        w.ticked_at(position, now).power_bounded(),
        w.popped().power_bounded(),
{
    if w.grid.contains_key(position) {
        assert(w.grid[position].wf());
        lemma_outcomes_keep_power_bounded(w.grid[position], w.grid, position, position);
    }
}

/// Power bound, for the drain pass.
pub proof fn lemma_drain_keeps_power_bounded(w: WorldState, now: Tick, budget: nat)
    requires
        w.power_bounded(),
    ensures
        w.drained(now, budget).power_bounded(),
    decreases budget,
{
    if budget == 0 || w.booked.immediate.len() == 0 {
    } else {
        lemma_tick_keeps_power_bounded(w, w.booked.immediate[0], now);
        lemma_tick_keeps_power_bounded(w.popped(), w.booked.immediate[0], now);
        lemma_drain_keeps_power_bounded(
            w.popped().ticked_at(w.booked.immediate[0], now),
            now,
            (budget - 1) as nat,
        );
    }
}

/// Power bound: a frame leaves no stored level above the highest in a world
/// that held none, in whatever order the marked positions come up and whatever
/// the budget.
pub proof fn lemma_frame_keeps_power_bounded(
    w: WorldState,
    now: Tick,
    order: Seq<BlockPos>,
    budget: nat,
)
    requires
        w.power_bounded(),
    ensures
        w.after_apply_pass(now).power_bounded(),
        w.after_apply_pass(now).after_react_pass(order).power_bounded(),
        w.after_frame(now, order, budget).power_bounded(),
{
    let emptied = WorldState { queue: Seq::empty(), ..w };
    lemma_apply_pass_keeps_power_bounded(emptied, w.queue, w.queue.len() as int, now);
    let applied = w.after_apply_pass(now);
    let cleared = WorldState { dirty_blocks: Set::empty(), ..applied };
    lemma_react_keeps_power_bounded(cleared, order, order.len() as int);
    lemma_drain_keeps_power_bounded(applied.after_react_pass(order), now, budget);
}

} // verus!
