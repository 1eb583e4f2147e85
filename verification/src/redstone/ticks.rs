//! The global clock.

use vstd::prelude::*;
use crate::block_position::BlockPos;
use crate::redstone::scheduler::{Scheduler, Tick, lists_once};

verus! {

/// The clock of the world: a count of ticks that only goes up, and a switch
/// that holds it.
#[derive(Debug, Copy, Clone, PartialEq, Eq, Structural)]
pub struct GlobalTick {
    pub now: Tick,
    pub running: bool,
}

impl Default for GlobalTick {
    fn default() -> (t: GlobalTick)
        ensures
            t == (GlobalTick { now: 0, running: false }),
    {
        GlobalTick { now: 0, running: false }
    }
}

impl GlobalTick {
    /// The tick after `self.now`. The count stops at the last tick a `u64` holds.
    pub open spec fn next(self) -> Tick {
        if self.now < u64::MAX {
            (self.now + 1) as u64
        } else {
            self.now
        }
    }

    /// The current tick.
    pub fn read(&self) -> (now: Tick)
        ensures
            now == self.now,
    {
        self.now
    }

    pub fn is_running(&self) -> (r: bool)
        ensures
            r == self.running,
    {
        self.running
    }

    pub fn start(&mut self)
        ensures
            *final(self) == (GlobalTick { running: true, ..*old(self) }),
    {
        self.running = true;
    }

    pub fn stop(&mut self)
        ensures
            *final(self) == (GlobalTick { running: false, ..*old(self) }),
    {
        self.running = false;
    }

    /// Starts a clock that is held, and holds one that runs.
    pub fn toggle(&mut self)
        ensures
            *final(self) == (GlobalTick { running: !old(self).running, ..*old(self) }),
    {
        self.running = !self.running;
    }

    /// Counts one tick.
    pub fn tick(&mut self)
        ensures
            *final(self) == (GlobalTick { now: old(self).next(), ..*old(self) }),
            final(self).now >= old(self).now,
    {
        if self.now < u64::MAX {
            self.now = self.now + 1;
        }
    }
}

/// One step of the clock. While the clock runs, it counts one tick and
/// releases what the scheduler holds for the new tick, and the answer is that
/// tick. While it is held, nothing happens.
pub fn tick_the_counter(tick_counter: &mut GlobalTick, scheduler: &mut Scheduler) -> (fired: Option<
    Tick,
>)
    ensures
        !old(tick_counter).running ==> fired is None && *final(tick_counter) == *old(tick_counter)
            && final(scheduler)@ == old(scheduler)@,
        old(tick_counter).running ==> fired == Some(old(tick_counter).next()),
        old(tick_counter).running ==> *final(tick_counter) == (GlobalTick {
            now: old(tick_counter).next(),
            ..*old(tick_counter)
        }),
        old(tick_counter).running ==> exists|order: Seq<BlockPos>|
            lists_once(order, old(scheduler)@.due_at(old(tick_counter).next()))
                && final(scheduler)@ == old(scheduler)@.released(
                old(tick_counter).next(),
                order,
            ),
{
    if tick_counter.is_running() {
        tick_counter.tick();
        let now = tick_counter.read();
        scheduler.advance(now);
        Some(now)
    } else {
        None
    }
}

} // verus!
