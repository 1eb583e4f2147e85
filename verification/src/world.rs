//! The world as a value, and one simulation step as functions on it.
//!
//! A frame has three passes. The apply pass takes the queued requests in the
//! order in which they were made, changes the grid, and for each change books
//! ticks and marks positions. The react pass asks every block whose
//! surroundings may have changed what it makes of them, and queues the answers
//! for the next frame. The drain pass runs the ticks that are due at once,
//! which may book more of them, until none is left or the budget of the frame
//! is spent.

use vstd::prelude::*;
use crate::block_position::BlockPos;
use crate::blocks::{Block, BlockType, NeighbourUpdate, Outcome, Tickable};
use crate::changes::Change;
use crate::grid::power_bounded;
use crate::redstone::scheduler::{Booked, NotifyDelay, Tick};

verus! {

/// Everything that a simulation step reads and writes.
pub struct WorldState {
    /// The occupied cells.
    pub grid: Map<BlockPos, BlockType>,
    /// The requests that wait for the next apply pass.
    pub queue: Seq<Change>,
    /// The ticks that are booked.
    pub booked: Booked,
    /// The positions whose surroundings may have changed.
    pub dirty_blocks: Set<BlockPos>,
    /// The positions that have to be drawn again.
    pub dirty_render: Set<BlockPos>,
}

/// The request that hands an outcome on to the next apply pass: a placement
/// where the outcome names a block, a removal where it names none, and no
/// request where nothing changed.
pub open spec fn request_for(position: BlockPos, outcome: Outcome) -> Option<Change> {
    match outcome {
        Outcome::Changed { new_block: Some(b), visual_update, self_tick, neighbor_tick } => Some(
            Change::Place {
                position,
                block_type: Some(b),
                visual_change: visual_update,
                self_tick,
                neighbor_tick,
            },
        ),
        Outcome::Changed { new_block: None, visual_update, self_tick, neighbor_tick } => Some(
            Change::Remove { position, visual_change: visual_update, self_tick, neighbor_tick },
        ),
        Outcome::Unchanged => None,
    }
}

/// The bookings with the block's own tick booked, where it gets one.
pub open spec fn own_booking(
    booked: Booked,
    position: BlockPos,
    own_tick: Option<NotifyDelay>,
    now: Tick,
) -> Booked {
    match own_tick {
        Some(delay) => booked.with_booking(position, delay, now),
        None => booked,
    }
}

/// The bookings and the marked positions after the first `n` of `updates`
/// were delivered from `position`. A neighbour that holds a block gets its
/// tick booked with the delay of the update, and is marked for a look at its
/// surroundings. A neighbour cell that is empty, or that does not exist, gets
/// nothing.
pub open spec fn notified(
    grid: Map<BlockPos, BlockType>,
    booked: Booked,
    dirty: Set<BlockPos>,
    position: BlockPos,
    updates: Seq<NeighbourUpdate>,
    n: int,
    now: Tick,
) -> (Booked, Set<BlockPos>)
    decreases n,
{
    if n <= 0 {
        (booked, dirty)
    } else {
        let before = notified(grid, booked, dirty, position, updates, n - 1, now);
        match position.plus(updates[n - 1].position) {
            Some(target) => if grid.contains_key(target) {
                (
                    before.0.with_booking(target, updates[n - 1].notification, now),
                    before.1.insert(target),
                )
            } else {
                before
            },
            None => before,
        }
    }
}

/// The marked positions with `position` among them, where `visual` asks for it.
pub open spec fn redrawn(dirty: Set<BlockPos>, position: BlockPos, visual: bool) -> Set<BlockPos> {
    if visual {
        dirty.insert(position)
    } else {
        dirty
    }
}

impl Change {
    /// Whether the positions that the change touches are drawn again. An
    /// update that takes effect always is.
    pub open spec fn visual(self) -> bool {
        match self {
            Change::Place { visual_change, .. } => visual_change,
            Change::Remove { visual_change, .. } => visual_change,
            Change::Update { .. } => true,
            Change::NotifyNeighbours(_) => false,
        }
    }

    /// The delay of the changed block's own tick, if it gets one.
    pub open spec fn own_tick(self) -> Option<NotifyDelay> {
        match self {
            Change::Place { self_tick, .. } => self_tick,
            Change::Remove { self_tick, .. } => self_tick,
            _ => None,
        }
    }

    /// The neighbours that the change notifies. An update that takes effect
    /// notifies the six face neighbours at once.
    pub open spec fn notifications(self) -> Seq<NeighbourUpdate> {
        match self {
            Change::Place { neighbor_tick, .. } => neighbor_tick,
            Change::Remove { neighbor_tick, .. } => neighbor_tick,
            Change::Update { .. } => NeighbourUpdate::default_spec(),
            Change::NotifyNeighbours(_) => Seq::empty(),
        }
    }
}

impl WorldState {
    /// A world of air in which nothing waits.
    pub open spec fn empty() -> WorldState {
        WorldState {
            grid: Map::empty(),
            queue: Seq::empty(),
            booked: Booked::nothing(),
            dirty_blocks: Set::empty(),
            dirty_render: Set::empty(),
        }
    }

    /// No block in the grid or in a queued request stores more than the
    /// highest power level.
    pub open spec fn power_bounded(self) -> bool {
        power_bounded(self.grid) && forall|i: int|
            0 <= i < self.queue.len() ==> (#[trigger] self.queue[i]).wf()
    }

    /// The positions that the first `n` of `updates`, delivered from
    /// `position`, reach: the cells at the offsets that hold a block.
    pub open spec fn reached(
        self,
        position: BlockPos,
        updates: Seq<NeighbourUpdate>,
        n: int,
    ) -> Set<BlockPos> {
        Set::new(
            |target: BlockPos|
                self.grid.contains_key(target) && exists|k: int|
                    0 <= k < n && position.plus((#[trigger] updates[k]).position) == Some(target),
        )
    }

    /// Nothing waits: no request, no tick that is due at once, no position
    /// whose surroundings may have changed.
    pub open spec fn quiescent(self) -> bool {
        self.queue.len() == 0 && self.booked.immediate.len() == 0 && self.dirty_blocks
            =~= Set::empty()
    }

    /// Every block is at rest: neither a look at its surroundings nor a tick
    /// would change it.
    pub open spec fn at_rest(self) -> bool {
        forall|p: BlockPos| #[trigger]
            self.grid.contains_key(p) ==> self.grid[p].tick_outcome(self.grid, p) is Unchanged
                && self.grid[p].neighbor_outcome(self.grid, p) is Unchanged
    }

    /// What follows every change of the cell `position`: the block's own tick
    /// is booked, the neighbours are notified, the position is marked to be
    /// drawn again.
    pub open spec fn settled(
        self,
        position: BlockPos,
        visual: bool,
        own_tick: Option<NotifyDelay>,
        updates: Seq<NeighbourUpdate>,
        now: Tick,
    ) -> WorldState {
        let told = notified(
            self.grid,
            own_booking(self.booked, position, own_tick, now),
            self.dirty_blocks,
            position,
            updates,
            updates.len() as int,
            now,
        );
        WorldState {
            booked: told.0,
            dirty_blocks: told.1,
            dirty_render: redrawn(self.dirty_render, position, visual),
            ..self
        }
    }

    /// The position that `change` changed, if it changed one.
    ///
    /// A placement always counts, also one without a block. A removal counts
    /// where the cell was occupied. An update counts where the cell was
    /// occupied by another state than the requested one. Marking neighbours
    /// changes no cell.
    pub open spec fn hit_by(self, change: Change) -> Option<BlockPos> {
        match change {
            Change::Place { position, .. } => Some(position),
            Change::Remove { position, .. } => if self.grid.contains_key(position) {
                Some(position)
            } else {
                None
            },
            Change::Update { position, block_type } => if self.grid.contains_key(position)
                && self.grid[position] != block_type {
                Some(position)
            } else {
                None
            },
            Change::NotifyNeighbours(_) => None,
        }
    }

    /// The world after `change` did to the grid what it asks for, before
    /// anything is booked. A block that is removed has its last say first: the
    /// requests it makes go to the queue.
    pub open spec fn mutated(self, change: Change) -> WorldState {
        match change {
            Change::Place { position, block_type: Some(b), .. } => WorldState {
                grid: self.grid.insert(position, b),
                ..self
            },
            Change::Place { block_type: None, .. } => self,
            Change::Remove { position, .. } => if self.grid.contains_key(position) {
                WorldState {
                    grid: self.grid.remove(position),
                    queue: self.queue + self.grid[position].removal_requests(position),
                    ..self
                }
            } else {
                self
            },
            Change::Update { position, block_type } => if self.grid.contains_key(position)
                && self.grid[position] != block_type {
                WorldState { grid: self.grid.insert(position, block_type), ..self }
            } else {
                self
            },
            Change::NotifyNeighbours(position) => WorldState {
                dirty_blocks: self.dirty_blocks.union(position.neighbours_spec().to_set()),
                ..self
            },
        }
    }

    /// The world after one request was applied.
    pub open spec fn applied(self, change: Change, now: Tick) -> WorldState {
        match self.hit_by(change) {
            Some(position) => self.mutated(change).settled(
                position,
                change.visual(),
                change.own_tick(),
                change.notifications(),
                now,
            ),
            None => self.mutated(change),
        }
    }

    /// The world after the first `n` of `changes` were applied in order.
    pub open spec fn applied_upto(self, changes: Seq<Change>, n: int, now: Tick) -> WorldState
        decreases n,
    {
        if n <= 0 {
            self
        } else {
            self.applied_upto(changes, n - 1, now).applied(changes[n - 1], now)
        }
    }

    /// The world after the apply pass: the queue was emptied and its requests
    /// were applied in the order in which they were made.
    pub open spec fn after_apply_pass(self, now: Tick) -> WorldState {
        (WorldState { queue: Seq::empty(), ..self }).applied_upto(
            self.queue,
            self.queue.len() as int,
            now,
        )
    }

    /// The world after `outcome` took effect at `position`, as it does in the
    /// drain pass: the grid changes at once.
    pub open spec fn with_outcome(self, position: BlockPos, outcome: Outcome, now: Tick) -> WorldState {
        match outcome {
            Outcome::Unchanged => self,
            Outcome::Changed { new_block, visual_update, self_tick, neighbor_tick } => (WorldState {
                grid: match new_block {
                    Some(b) => self.grid.insert(position, b),
                    None => self.grid.remove(position),
                },
                ..self
            }).settled(position, visual_update, self_tick, neighbor_tick, now),
        }
    }

    /// The world after the tick of `position` ran. Where the cell is empty by
    /// now, the tick has lost its point and nothing happens.
    pub open spec fn ticked_at(self, position: BlockPos, now: Tick) -> WorldState {
        if self.grid.contains_key(position) {
            self.with_outcome(position, self.grid[position].tick_outcome(self.grid, position), now)
        } else {
            self
        }
    }

    /// The world with the first of the ticks that are due at once taken off.
    pub open spec fn popped(self) -> WorldState {
        WorldState {
            booked: Booked { immediate: self.booked.immediate.drop_first(), ..self.booked },
            ..self
        }
    }

    /// The world after at most `budget` of the ticks that are due at once ran,
    /// those that they booked at once among them. What is left when the budget
    /// is spent stays due.
    pub open spec fn drained(self, now: Tick, budget: nat) -> WorldState
        decreases budget,
    {
        if budget == 0 || self.booked.immediate.len() == 0 {
            self
        } else {
            self.popped().ticked_at(self.booked.immediate[0], now).drained(
                now,
                (budget - 1) as nat,
            )
        }
    }

    /// The positions whose ticks the drain pass runs, in the order in which it
    /// runs them.
    pub open spec fn ticks_run(self, now: Tick, budget: nat) -> Seq<BlockPos>
        decreases budget,
    {
        if budget == 0 || self.booked.immediate.len() == 0 {
            Seq::empty()
        } else {
            seq![self.booked.immediate[0]] + self.popped().ticked_at(
                self.booked.immediate[0],
                now,
            ).ticks_run(now, (budget - 1) as nat)
        }
    }

    /// The world after the block at `position`, if there is one, looked at its
    /// surroundings. An answer that changes something is queued as a request,
    /// and where it asks for it the position is marked to be drawn again. The
    /// grid stays as it is.
    pub open spec fn reacted_at(self, position: BlockPos) -> WorldState {
        if self.grid.contains_key(position) {
            let outcome = self.grid[position].neighbor_outcome(self.grid, position);
            match request_for(position, outcome) {
                Some(request) => WorldState {
                    queue: self.queue.push(request),
                    dirty_render: redrawn(self.dirty_render, position, request.visual()),
                    ..self
                },
                None => self,
            }
        } else {
            self
        }
    }

    /// The world after the first `n` positions of `order` were asked.
    pub open spec fn reacted_upto(self, order: Seq<BlockPos>, n: int) -> WorldState
        decreases n,
    {
        if n <= 0 {
            self
        } else {
            self.reacted_upto(order, n - 1).reacted_at(order[n - 1])
        }
    }

    /// The world after the react pass, in which the marked positions came up
    /// in the order `order`: no position is marked any more, and each was
    /// asked.
    pub open spec fn after_react_pass(self, order: Seq<BlockPos>) -> WorldState {
        (WorldState { dirty_blocks: Set::empty(), ..self }).reacted_upto(
            order,
            order.len() as int,
        )
    }

    /// The world after one frame at the tick `now`: apply pass, react pass in
    /// the order `order`, drain pass with `budget`.
    pub open spec fn after_frame(self, now: Tick, order: Seq<BlockPos>, budget: nat) -> WorldState {
        self.after_apply_pass(now).after_react_pass(order).drained(now, budget)
    }
}

/// The drain pass leaves the queue alone: with another queue it does the same
/// to the rest of the world.
pub proof fn lemma_drain_keeps_queue(w: WorldState, queue: Seq<Change>, now: Tick, budget: nat)
    ensures
        (WorldState { queue, ..w }).drained(now, budget) == (WorldState {
            queue,
            ..w.drained(now, budget)
        }),
    decreases budget,
{
    if budget == 0 || w.booked.immediate.len() == 0 {
    } else {
        let next = w.popped().ticked_at(w.booked.immediate[0], now);
        let other = (WorldState { queue, ..w }).popped().ticked_at(w.booked.immediate[0], now);
        assert(other == (WorldState { queue, ..next }));
        lemma_drain_keeps_queue(next, queue, now, (budget - 1) as nat);
    }
}

/// The react pass reads the grid and writes the queue and the positions to
/// draw again, and nothing else: with other bookings and other marked
/// positions it does the same to those.
pub proof fn lemma_react_keeps_bookings(
    w: WorldState,
    booked: Booked,
    dirty: Set<BlockPos>,
    order: Seq<BlockPos>,
    n: int,
)
    ensures
        w.reacted_upto(order, n).grid == w.grid,
        w.reacted_upto(order, n).booked == w.booked,
        w.reacted_upto(order, n).dirty_blocks == w.dirty_blocks,
        (WorldState { booked, dirty_blocks: dirty, ..w }).reacted_upto(order, n) == (WorldState {
            booked,
            dirty_blocks: dirty,
            ..w.reacted_upto(order, n)
        }),
    decreases n,
{
    if n > 0 {
        lemma_react_keeps_bookings(w, booked, dirty, order, n - 1);
    }
}

/// Notifying neighbours marks the cells that are reached, and those only.
/// It books nothing for a cell that is not reached, and takes nothing back.
pub proof fn lemma_notified_marks_the_reached(
    w: WorldState,
    position: BlockPos,
    updates: Seq<NeighbourUpdate>,
    n: int,
    now: Tick,
)
    requires
        n <= updates.len(),
    ensures
        notified(w.grid, w.booked, w.dirty_blocks, position, updates, n, now).1
            == w.dirty_blocks.union(w.reached(position, updates, n)),
        w.booked.scheduled.subset_of(
            notified(w.grid, w.booked, w.dirty_blocks, position, updates, n, now).0.scheduled,
        ),
        w.booked.immediate.is_prefix_of(
            notified(w.grid, w.booked, w.dirty_blocks, position, updates, n, now).0.immediate,
        ),
    decreases n,
{
    if n > 0 {
        lemma_notified_marks_the_reached(w, position, updates, n - 1, now);
        let before = notified(w.grid, w.booked, w.dirty_blocks, position, updates, n - 1, now);
        let after = notified(w.grid, w.booked, w.dirty_blocks, position, updates, n, now);
        let reached_before = w.reached(position, updates, n - 1);
        let reached_after = w.reached(position, updates, n);
        assert forall|t: BlockPos| reached_after.contains(t) <==> reached_before.contains(t) || (
        w.grid.contains_key(t) && position.plus(updates[n - 1].position) == Some(t)) by {
            if reached_after.contains(t) {
                let k = choose|k: int|
                    0 <= k < n && position.plus((#[trigger] updates[k]).position) == Some(t);
                if k < n - 1 {
                    assert(reached_before.contains(t));
                }
            }
            if reached_before.contains(t) {
                let k = choose|k: int|
                    0 <= k < n - 1 && position.plus((#[trigger] updates[k]).position) == Some(t);
                assert(position.plus(updates[k].position) == Some(t));
            }
            if w.grid.contains_key(t) && position.plus(updates[n - 1].position) == Some(t) {
                assert(position.plus(updates[n - 1].position) == Some(t));
            }
        }
        assert(after.1 =~= w.dirty_blocks.union(reached_after));
    } else {
        assert(w.reached(position, updates, n) =~= Set::empty());
        assert(w.dirty_blocks.union(w.reached(position, updates, n)) =~= w.dirty_blocks);
    }
}

} // verus!
