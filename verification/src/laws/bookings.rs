//! Nothing is taken back: what is booked stays booked until the clock
//! reaches its tick.

use vstd::prelude::*;
use crate::block_position::BlockPos;
use crate::blocks::{Outcome, Tickable};
use crate::changes::Change;
use crate::redstone::scheduler::{Booked, NotifyDelay, Tick, lists_once};
use crate::world::{
    WorldState, lemma_notified_marks_the_reached, lemma_react_keeps_bookings, own_booking,
};

verus! {

/// Nothing is taken back, the booking: a booking leaves what was booked
/// before as it was, and the clock takes out only what is due at the tick it
/// reaches; that becomes due at once.
pub proof fn lemma_bookings_are_kept(
    booked: Booked,
    tick: Tick,
    pos: BlockPos,
    other: BlockPos,
    delay: NotifyDelay,
    now: Tick,
    order: Seq<BlockPos>,
)
    requires
        booked.scheduled.contains((tick, pos)),
    ensures
        booked.with_booking(other, delay, now).scheduled.contains((tick, pos)),
        now != tick ==> booked.released(now, order).scheduled.contains((tick, pos)),
        now == tick && lists_once(order, booked.due_at(now)) ==> booked.released(
            now,
            order,
        ).immediate.contains(pos),
{
    if now == tick && lists_once(order, booked.due_at(now)) {
        assert(booked.due_at(now).contains(pos));
        assert(order.to_set().contains(pos));
        let k = choose|k: int| 0 <= k < order.len() && order[k] == pos;
        assert(booked.released(now, order).immediate[booked.immediate.len() + k] == pos);
    }
}

/// Nothing is taken back, one request: applying a request unbooks nothing.
pub proof fn lemma_apply_keeps_bookings(w: WorldState, change: Change, now: Tick)
    ensures
        w.booked.scheduled.subset_of(w.applied(change, now).booked.scheduled),
{
    match w.hit_by(change) {
        Some(position) => {
            let m = w.mutated(change);
            let own = WorldState {
                booked: own_booking(m.booked, position, change.own_tick(), now),
                ..m
            };
            lemma_notified_marks_the_reached(
                own,
                position,
                change.notifications(),
                change.notifications().len() as int,
                now,
            );
        },
        None => {},
    }
}

/// Nothing is taken back, one tick: running a tick unbooks nothing.
pub proof fn lemma_tick_keeps_bookings(w: WorldState, position: BlockPos, now: Tick)
    ensures
        w.booked.scheduled.subset_of(w.ticked_at(position, now).booked.scheduled),
{
    if w.grid.contains_key(position) {
        match w.grid[position].tick_outcome(w.grid, position) {
            Outcome::Unchanged => {},
            Outcome::Changed { new_block, visual_update, self_tick, neighbor_tick } => {
                let m = WorldState {
                    grid: match new_block {
                        Some(b) => w.grid.insert(position, b),
                        None => w.grid.remove(position),
                    },
                    ..w
                };
                let own = WorldState {
                    booked: own_booking(m.booked, position, self_tick, now),
                    ..m
                };
                lemma_notified_marks_the_reached(
                    own,
                    position,
                    neighbor_tick,
                    neighbor_tick.len() as int,
                    now,
                );
            },
        }
    }
}

/// Nothing is taken back, the frame: whatever is booked for a later tick
/// before a frame is still booked after it. Only the clock takes bookings out.
pub proof fn lemma_frame_keeps_bookings(
    w: WorldState,
    now: Tick,
    order: Seq<BlockPos>,
    budget: nat,
)
    ensures
        w.booked.scheduled.subset_of(w.after_frame(now, order, budget).booked.scheduled),
{
    let emptied = WorldState { queue: Seq::empty(), ..w };
    lemma_apply_pass_keeps_bookings(emptied, w.queue, w.queue.len() as int, now);
    let applied = w.after_apply_pass(now);
    let cleared = WorldState { dirty_blocks: Set::empty(), ..applied };
    lemma_react_keeps_bookings(
        cleared,
        cleared.booked,
        cleared.dirty_blocks,
        order,
        order.len() as int,
    );
    lemma_drain_keeps_bookings(applied.after_react_pass(order), now, budget);
}

/// Nothing is taken back, the apply pass.
pub proof fn lemma_apply_pass_keeps_bookings(
    w: WorldState,
    changes: Seq<Change>,
    n: int,
    now: Tick,
)
    ensures
        w.booked.scheduled.subset_of(w.applied_upto(changes, n, now).booked.scheduled),
    decreases n,
{
    if n > 0 {
        lemma_apply_pass_keeps_bookings(w, changes, n - 1, now);
        lemma_apply_keeps_bookings(w.applied_upto(changes, n - 1, now), changes[n - 1], now);
    }
}

/// Nothing is taken back, the drain pass.
pub proof fn lemma_drain_keeps_bookings(w: WorldState, now: Tick, budget: nat)
    ensures
        w.booked.scheduled.subset_of(w.drained(now, budget).booked.scheduled),
    decreases budget,
{
    if budget == 0 || w.booked.immediate.len() == 0 {
    } else {
        lemma_tick_keeps_bookings(w.popped(), w.booked.immediate[0], now);
        lemma_drain_keeps_bookings(
            w.popped().ticked_at(w.booked.immediate[0], now),
            now,
            (budget - 1) as nat,
        );
    }
}

} // verus!
