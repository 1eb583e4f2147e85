//! The lag of the torch: a change next to a torch never flips it. The flip
//! waits for a tick, and the tick that the torch books for itself waits for
//! the clock.

use vstd::prelude::*;
use crate::block_position::BlockPos;
use crate::blocks::{Block, BlockType, NeighbourUpdate, RedStoneTorch, changed};
use crate::changes::Change;
use crate::grid::block_at;
use crate::redstone::scheduler::{Booked, NotifyDelay, Tick, lists_once};
use crate::world::{WorldState, lemma_react_keeps_bookings};

verus! {

/// Torch delay, the reaction: a change next to a torch never changes the
/// torch. Where its light no longer fits the power of its carrier, the answer
/// names the torch as it is and books its tick for the next step of the
/// clock; it is not to be drawn again and nobody is notified.
pub proof fn lemma_torch_reaction_keeps_light(
    torch: RedStoneTorch,
    grid: Map<BlockPos, BlockType>,
    position: BlockPos,
)
    ensures
        torch.settled(grid, position) ==> torch.neighbor_outcome(grid, position) is Unchanged,
        !torch.settled(grid, position) ==> torch.neighbor_outcome(grid, position) == changed(
            Some(BlockType::RedStoneTorch(torch)),
            false,
            Some(NotifyDelay::NextTick),
            NeighbourUpdate::none_spec(),
        ),
{
}

/// Torch delay, the booking: a tick that is booked for the next step of the
/// clock is not among the ticks that are due at once. It becomes due when the
/// clock reaches the next tick, and not before.
pub proof fn lemma_next_tick_waits_for_clock(
    booked: Booked,
    position: BlockPos,
    now: Tick,
    order: Seq<BlockPos>,
)
    requires
        now < u64::MAX,
    ensures
        booked.with_booking(position, NotifyDelay::NextTick, now).immediate == booked.immediate,
        booked.with_booking(position, NotifyDelay::NextTick, now).due_at((now + 1) as u64).contains(
            position,
        ),
        lists_once(
            order,
            booked.with_booking(position, NotifyDelay::NextTick, now).due_at((now + 1) as u64),
        ) ==> booked.with_booking(position, NotifyDelay::NextTick, now).released(
            (now + 1) as u64,
            order,
        ).immediate.contains(position),
{
    let after = booked.with_booking(position, NotifyDelay::NextTick, now);
    if lists_once(order, after.due_at((now + 1) as u64)) {
        assert(order.to_set().contains(position));
        let k = choose|k: int| 0 <= k < order.len() && order[k] == position;
        let released = after.released((now + 1) as u64, order);
        assert(released.immediate[after.immediate.len() + k] == position);
    }
}

/// Torch delay, the frame: the apply pass and the react pass change the cell
/// of a torch only where a queued request names that cell. A torch that no
/// request names has the same light after the two passes, whatever became of
/// its carrier.
pub proof fn lemma_passes_keep_unnamed_cells(
    w: WorldState,
    now: Tick,
    order: Seq<BlockPos>,
    position: BlockPos,
)
    requires
        forall|i: int| 0 <= i < w.queue.len() ==> !names(#[trigger] w.queue[i], position),
    ensures
        block_at(w.after_apply_pass(now).after_react_pass(order).grid, Some(position)) == block_at(
            w.grid,
            Some(position),
        ),
{
    let emptied = WorldState { queue: Seq::empty(), ..w };
    lemma_apply_keeps_unnamed_cells(emptied, w.queue, w.queue.len() as int, now, position);
    let applied = w.after_apply_pass(now);
    let cleared = WorldState { dirty_blocks: Set::empty(), ..applied };
    lemma_react_keeps_bookings(
        cleared,
        cleared.booked,
        cleared.dirty_blocks,
        order,
        order.len() as int,
    );
}

/// Torch delay, the drain pass: the drain pass changes a cell only by running
/// its tick. A cell whose tick does not run in the pass holds afterwards what
/// it held before.
pub proof fn lemma_drain_changes_only_ticked_cells(
    w: WorldState,
    now: Tick,
    budget: nat,
    position: BlockPos,
)
    requires
        !w.ticks_run(now, budget).contains(position),
    ensures
        block_at(w.drained(now, budget).grid, Some(position)) == block_at(w.grid, Some(position)),
    decreases budget,
{
    if budget == 0 || w.booked.immediate.len() == 0 {
    } else {
        let first = w.booked.immediate[0];
        let next = w.popped().ticked_at(first, now);
        let rest = next.ticks_run(now, (budget - 1) as nat);
        let run = w.ticks_run(now, budget);
        assert(run == seq![first] + rest);
        assert(run[0] == first);
        assert(first != position);
        assert(!rest.contains(position)) by {
            if rest.contains(position) {
                let k = choose|k: int| 0 <= k < rest.len() && rest[k] == position;
                assert(run[k + 1] == position);
            }
        }
        lemma_drain_changes_only_ticked_cells(next, now, (budget - 1) as nat, position);
    }
}

/// Torch delay, the whole frame: a frame changes a cell only where a queued
/// request names the cell or the tick of the cell runs. A torch that no
/// request names and whose tick is not run in the frame keeps its light,
/// whatever became of its carrier in that frame. Its reaction to the change
/// books the tick for the next step of the clock, so the tick that flips it
/// runs in a later frame.
pub proof fn lemma_frame_changes_only_named_or_ticked_cells(
    w: WorldState,
    now: Tick,
    order: Seq<BlockPos>,
    budget: nat,
    position: BlockPos,
)
    requires
        forall|i: int| 0 <= i < w.queue.len() ==> !names(#[trigger] w.queue[i], position),
        !w.after_apply_pass(now).after_react_pass(order).ticks_run(now, budget).contains(position),
    ensures
        block_at(w.after_frame(now, order, budget).grid, Some(position)) == block_at(
            w.grid,
            Some(position),
        ),
{
    lemma_passes_keep_unnamed_cells(w, now, order, position);
    lemma_drain_changes_only_ticked_cells(
        w.after_apply_pass(now).after_react_pass(order),
        now,
        budget,
        position,
    );
}

/// Whether `change` asks for something in the cell `position`.
pub open spec fn names(change: Change, position: BlockPos) -> bool {
    match change {
        Change::Place { position: at, .. } => at == position,
        Change::Remove { position: at, .. } => at == position,
        Change::Update { position: at, .. } => at == position,
        Change::NotifyNeighbours(_) => false,
    }
}

/// Applying requests leaves the cells alone that none of them names.
pub proof fn lemma_apply_keeps_unnamed_cells(
    w: WorldState,
    changes: Seq<Change>,
    n: int,
    now: Tick,
    position: BlockPos,
)
    requires
        n <= changes.len(),
        forall|i: int| 0 <= i < changes.len() ==> !names(#[trigger] changes[i], position),
    ensures
        block_at(w.applied_upto(changes, n, now).grid, Some(position)) == block_at(
            w.grid,
            Some(position),
        ),
    decreases n,
{
    if n > 0 {
        lemma_apply_keeps_unnamed_cells(w, changes, n - 1, now, position);
        assert(!names(changes[n - 1], position));
    }
}

} // verus!
