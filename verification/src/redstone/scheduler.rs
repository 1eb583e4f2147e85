//! Delays and the tick scheduler.
//!
//! The scheduler holds the positions that are due before the frame ends, in
//! the order in which they were booked, and for each later tick the set of
//! positions that are due then. A position that disappears before its turn is
//! skipped by whoever runs it; nothing is ever taken back.

use bevy::platform::collections::{HashMap, HashSet};
use std::collections::VecDeque;
use vstd::prelude::*;
use crate::block_position::BlockPos;
use crate::collections::{
    cell_set_drain, cell_set_insert, cell_set_list, cell_set_new, schedule_entries, schedule_new,
    schedule_peek, schedule_put, schedule_take, schedule_ticks,
};

verus! {

/// A count of steps of the global clock.
pub type Tick = u64;

/// When a scheduled block is to run its tick.
#[derive(Debug, Copy, Clone, PartialEq, Eq, Structural)]
pub enum NotifyDelay {
    /// Before the current frame ends.
    Immediate,
    /// At the next step of the clock.
    NextTick,
    /// After this many steps of the clock.
    In(Tick),
}

/// The tick at which something booked at `now` with `delay` is due, if that
/// tick can be counted; `None` for what is due at once.
pub open spec fn due_tick(delay: NotifyDelay, now: Tick) -> Option<Tick> {
    match delay {
        NotifyDelay::Immediate => None,
        NotifyDelay::NextTick => if now < u64::MAX {
            Some((now + 1) as u64)
        } else {
            None
        },
        NotifyDelay::In(ticks) => if now + ticks <= u64::MAX {
            Some((now + ticks) as u64)
        } else {
            None
        },
    }
}

/// The position that the tuple `cell` stands for.
pub open spec fn position_of(cell: (i32, i32, i32)) -> BlockPos {
    BlockPos { x: cell.0, y: cell.1, z: cell.2 }
}

/// The positions that the tuples in `cells` stand for.
pub open spec fn positions_of(cells: Seq<(i32, i32, i32)>) -> Seq<BlockPos> {
    Seq::new(cells.len(), |i: int| position_of(cells[i]))
}

/// The positions that the tuples in `cells` stand for.
pub open spec fn position_set(cells: Set<(i32, i32, i32)>) -> Set<BlockPos> {
    Set::new(|p: BlockPos| cells.contains((p.x, p.y, p.z)))
}

/// `order` lists each position of `set` once.
pub open spec fn lists_once(order: Seq<BlockPos>, set: Set<BlockPos>) -> bool {
    order.no_duplicates() && order.to_set() == set
}

/// Turns tuples into positions.
pub fn to_positions(cells: &Vec<(i32, i32, i32)>) -> (out: Vec<BlockPos>)
    ensures
        out@ == positions_of(cells@),
{
    let mut out: Vec<BlockPos> = Vec::new();
    let mut i: usize = 0;
    while i < cells.len()
        invariant
            i <= cells.len(),
            out@ == positions_of(cells@.take(i as int)),
        decreases cells.len() - i,
    {
        let c = cells[i];
        out.push(BlockPos { x: c.0, y: c.1, z: c.2 });
        i = i + 1;
        assert(out@ =~= positions_of(cells@.take(i as int)));
    }
    assert(cells@.take(cells.len() as int) =~= cells@);
    out
}

/// Tuples that list a set of cells once stand for positions that list the
/// set of positions once.
pub proof fn lemma_positions_list_once(cells: Seq<(i32, i32, i32)>, set: Set<(i32, i32, i32)>)
    requires
        cells.no_duplicates(),
        cells.to_set() == set,
    ensures
        lists_once(positions_of(cells), position_set(set)),
{
    let order = positions_of(cells);
    assert forall|i: int, j: int| 0 <= i < order.len() && 0 <= j < order.len() && i != j implies order[i] != order[j] by {
        assert(cells[i] != cells[j]);
    }
    assert forall|p: BlockPos| order.to_set().contains(p) <==> position_set(set).contains(p) by {
        if order.to_set().contains(p) {
            let i = choose|i: int| 0 <= i < order.len() && order[i] == p;
            assert(cells[i] == (p.x, p.y, p.z));
            assert(cells.to_set().contains(cells[i]));
        }
        if position_set(set).contains(p) {
            assert(cells.to_set().contains((p.x, p.y, p.z)));
            let i = choose|i: int| 0 <= i < cells.len() && cells[i] == (p.x, p.y, p.z);
            assert(order[i] == p);
        }
    }
    assert(order.to_set() =~= position_set(set));
}

/// `ticks` in rising order.
pub open spec fn rising(ticks: Seq<Tick>) -> bool {
    forall|i: int, j: int| 0 <= i < j < ticks.len() ==> ticks[i] < ticks[j]
}

/// Puts ticks of which none occurs twice in rising order.
fn sort_ticks(ticks: &Vec<Tick>) -> (sorted: Vec<Tick>)
    requires
        ticks@.no_duplicates(),
    ensures
        rising(sorted@),
        sorted@.to_set() == ticks@.to_set(),
{
    let mut sorted: Vec<Tick> = Vec::new();
    let mut i: usize = 0;
    while i < ticks.len()
        invariant
            i <= ticks.len(),
            ticks@.no_duplicates(),
            rising(sorted@),
            sorted@.to_set() == ticks@.take(i as int).to_set(),
        decreases ticks.len() - i,
    {
        let tick = ticks[i];
        let mut at: usize = 0;
        while at < sorted.len() && sorted[at] < tick
            invariant
                at <= sorted.len(),
                forall|k: int| 0 <= k < at ==> sorted@[k] < tick,
            decreases sorted.len() - at,
        {
            at = at + 1;
        }
        proof {
            let seen = ticks@.take(i as int);
            assert(!seen.to_set().contains(tick)) by {
                if seen.to_set().contains(tick) {
                    let k = choose|k: int| 0 <= k < seen.len() && seen[k] == tick;
                    assert(ticks@[k] == ticks@[i as int]);
                }
            }
            if at < sorted.len() {
                assert(sorted@.to_set().contains(sorted@[at as int]));
                assert(sorted@[at as int] != tick);
            }
        }
        let ghost before = sorted@;
        sorted.insert(at, tick);
        proof {
            assert(sorted@ == before.insert(at as int, tick));
            assert forall|a: int, b: int| 0 <= a < b < sorted@.len() implies sorted@[a]
                < sorted@[b] by {
                if a < at && b > at {
                    assert(before[a] < tick);
                    assert(tick < before[at as int]);
                    assert(before[at as int] <= before[b - 1]) by {
                        if at < b - 1 {
                            assert(before[at as int] < before[b - 1]);
                        }
                    }
                } else if a == at {
                    assert(sorted@[b] == before[b - 1]);
                    if at < b - 1 {
                        assert(before[at as int] < before[b - 1]);
                    }
                } else if b == at {
                } else if b < at {
                    assert(before[a] < before[b]);
                } else {
                    assert(before[a - 1] < before[b - 1]);
                }
            }
            let seen = ticks@.take(i as int);
            let more = ticks@.take(i + 1);
            assert(more =~= seen.push(tick));
            assert forall|t: Tick| sorted@.to_set().contains(t) <==> more.to_set().contains(t) by {
                if sorted@.to_set().contains(t) {
                    let k = choose|k: int| 0 <= k < sorted@.len() && sorted@[k] == t;
                    if k < at {
                        assert(before[k] == t);
                        assert(before.to_set().contains(t));
                        let m = choose|m: int| 0 <= m < seen.len() && seen[m] == t;
                        assert(more[m] == t);
                    } else if k == at {
                        assert(more[i as int] == t);
                    } else {
                        assert(before[k - 1] == t);
                        assert(before.to_set().contains(t));
                        let m = choose|m: int| 0 <= m < seen.len() && seen[m] == t;
                        assert(more[m] == t);
                    }
                }
                if more.to_set().contains(t) {
                    let m = choose|m: int| 0 <= m < more.len() && more[m] == t;
                    if m < i {
                        assert(seen[m] == t);
                        assert(seen.to_set().contains(t));
                        let k = choose|k: int| 0 <= k < before.len() && before[k] == t;
                        if k < at {
                            assert(sorted@[k] == t);
                        } else {
                            assert(sorted@[k + 1] == t);
                        }
                    } else {
                        assert(sorted@[at as int] == t);
                    }
                }
            }
            assert(sorted@.to_set() =~= more.to_set());
        }
        i = i + 1;
    }
    proof {
        assert(ticks@.take(ticks.len() as int) =~= ticks@);
    }
    sorted
}

/// What is booked: the positions due before the frame ends, in order, and the
/// pairs of a later tick and a position due then.
pub struct Booked {
    pub immediate: Seq<BlockPos>,
    pub scheduled: Set<(Tick, BlockPos)>,
}

impl Booked {
    /// Nothing is booked.
    pub open spec fn nothing() -> Booked {
        Booked { immediate: Seq::empty(), scheduled: Set::empty() }
    }

    /// The positions that are due at `tick`.
    pub open spec fn due_at(self, tick: Tick) -> Set<BlockPos> {
        Set::new(|p: BlockPos| self.scheduled.contains((tick, p)))
    }

    /// The bookings with `pos` booked at `now` with `delay`. What is due at
    /// once goes behind the positions already due. What is due later joins
    /// the set of its tick. A delay that leads past the last tick that can
    /// be counted books nothing: the clock never gets there.
    pub open spec fn with_booking(self, pos: BlockPos, delay: NotifyDelay, now: Tick) -> Booked {
        match delay {
            NotifyDelay::Immediate => Booked { immediate: self.immediate.push(pos), ..self },
            _ => match due_tick(delay, now) {
                Some(tick) => Booked { scheduled: self.scheduled.insert((tick, pos)), ..self },
                None => self,
            },
        }
    }

    /// The bookings after the clock reached `now`: the positions in `order`
    /// went behind those already due, and nothing is left booked for `now`.
    pub open spec fn released(self, now: Tick, order: Seq<BlockPos>) -> Booked {
        Booked {
            immediate: self.immediate + order,
            scheduled: self.scheduled.filter(|e: (Tick, BlockPos)| e.0 != now),
        }
    }
}

/// Whether `listing` shows what `booked` holds for later ticks: the ticks for
/// which something is booked, each once and in rising order, each with the
/// positions that are due then, each position once.
pub open spec fn is_listing_of(listing: Seq<(Tick, Vec<BlockPos>)>, booked: Booked) -> bool {
    &&& forall|i: int, j: int|
        0 <= i < j < listing.len() ==> (#[trigger] listing[i]).0 < (#[trigger] listing[j]).0
    &&& forall|i: int|
        0 <= i < listing.len() ==> (#[trigger] listing[i]).1@.len() > 0 && lists_once(
            listing[i].1@,
            booked.due_at(listing[i].0),
        )
    &&& forall|tick: Tick, pos: BlockPos|
        booked.scheduled.contains((tick, pos)) ==> exists|i: int|
            0 <= i < listing.len() && (#[trigger] listing[i]).0 == tick
}

/// The immediate queue and the bookings for later ticks.
pub struct Scheduler {
    immediate: VecDeque<BlockPos>,
    scheduled: HashMap<u64, HashSet<(i32, i32, i32)>>,
}

impl View for Scheduler {
    type V = Booked;

    closed spec fn view(&self) -> Booked {
        Booked {
            immediate: self.immediate@,
            scheduled: Set::new(
                |e: (Tick, BlockPos)|
                    schedule_entries(self.scheduled).contains_key(e.0) && schedule_entries(
                        self.scheduled,
                    )[e.0].contains((e.1.x, e.1.y, e.1.z)),
            ),
        }
    }
}

impl Default for Scheduler {
    fn default() -> (s: Scheduler)
        ensures
            s@ == Booked::nothing(),
    {
        Scheduler::new()
    }
}

impl Scheduler {
    pub fn new() -> (s: Scheduler)
        ensures
            s@ == Booked::nothing(),
    {
        let s = Scheduler { immediate: VecDeque::new(), scheduled: schedule_new() };
        assert(s@.scheduled =~= Set::<(Tick, BlockPos)>::empty());
        s
    }

    /// Books `pos` at `now` with `delay`.
    pub fn schedule(&mut self, pos: BlockPos, delay: &NotifyDelay, now: Tick)
        ensures
            final(self)@ == old(self)@.with_booking(pos, *delay, now),
    {
        match delay {
            NotifyDelay::Immediate => {
                self.immediate.push_back(pos);
                assert(self@.scheduled =~= old(self)@.scheduled);
            },
            NotifyDelay::NextTick => {
                if let Some(tick) = now.checked_add(1) {
                    self.schedule_at(pos, tick);
                }
            },
            NotifyDelay::In(ticks) => {
                if let Some(tick) = now.checked_add(*ticks) {
                    self.schedule_at(pos, tick);
                }
            },
        }
    }

    /// Takes what is booked for `now` and puts it behind the positions
    /// already due, in an order that the set decides.
    pub fn advance(&mut self, now: Tick)
        ensures
            exists|order: Seq<BlockPos>|
                lists_once(order, old(self)@.due_at(now)) && final(self)@ == old(self)@.released(
                    now,
                    order,
                ),
    {
        let mut positions = match schedule_take(&mut self.scheduled, now) {
            Some(set) => set,
            None => cell_set_new(),
        };
        let cells = cell_set_drain(&mut positions);
        let ghost order = positions_of(cells@);
        proof {
            lemma_positions_list_once(cells@, cells@.to_set());
            assert(position_set(cells@.to_set()) =~= old(self)@.due_at(now));
            assert(self@.scheduled =~= old(self)@.scheduled.filter(
                |e: (Tick, BlockPos)| e.0 != now,
            ));
        }
        let ghost taken = self@;
        self.extend_immediate(&cells);
        proof {
            assert(taken.immediate == old(self)@.immediate);
            assert(self@.immediate == old(self)@.immediate + order);
            assert(self@.scheduled == taken.scheduled);
            assert(self@.scheduled == old(self)@.released(now, order).scheduled);
            assert(self@ == old(self)@.released(now, order));
        }
    }

    /// Takes the position that is due first, if one is due.
    pub fn pop_immediate(&mut self) -> (next: Option<BlockPos>)
        ensures
            match next {
                Some(p) => old(self)@.immediate.len() > 0 && p == old(self)@.immediate[0]
                    && final(self)@ == (Booked {
                    immediate: old(self)@.immediate.drop_first(),
                    ..old(self)@
                }),
                None => old(self)@.immediate.len() == 0 && final(self)@ == old(self)@,
            },
    {
        let next = self.immediate.pop_front();
        proof {
            assert(self@.scheduled =~= old(self)@.scheduled);
            if next.is_some() {
                assert(self@.immediate =~= old(self)@.immediate.drop_first());
            }
        }
        next
    }

    /// How many positions are due before the frame ends.
    pub fn immediate_len(&self) -> (n: usize)
        ensures
            n == self@.immediate.len(),
    {
        self.immediate.len()
    }

    /// Puts the positions that `cells` stand for behind those already due.
    pub fn extend_immediate(&mut self, cells: &Vec<(i32, i32, i32)>)
        ensures
            final(self)@ == (Booked {
                immediate: old(self)@.immediate + positions_of(cells@),
                ..old(self)@
            }),
    {
        let mut i: usize = 0;
        while i < cells.len()
            invariant
                i <= cells.len(),
                self.scheduled == old(self).scheduled,
                self.immediate@ == old(self).immediate@ + positions_of(cells@.take(i as int)),
            decreases cells.len() - i,
        {
            let c = cells[i];
            self.immediate.push_back(BlockPos { x: c.0, y: c.1, z: c.2 });
            i = i + 1;
            assert(self.immediate@ =~= old(self).immediate@ + positions_of(
                cells@.take(i as int),
            ));
        }
        assert(cells@.take(cells.len() as int) =~= cells@);
    }

    /// What is booked for later ticks: each tick for which something is
    /// booked, in rising order, with the positions that are due then, in an
    /// order that their set decides.
    pub fn immediate_queue(&self) -> (listing: Vec<(Tick, Vec<BlockPos>)>)
        ensures
            is_listing_of(listing@, self@),
    {
        let ticks = schedule_ticks(&self.scheduled);
        let sorted = sort_ticks(&ticks);
        let mut listing: Vec<(Tick, Vec<BlockPos>)> = Vec::new();
        let mut i: usize = 0;
        while i < sorted.len()
            invariant
                i <= sorted.len(),
                rising(sorted@),
                sorted@.to_set() == schedule_entries(self.scheduled).dom(),
                forall|k: int, m: int|
                    0 <= k < m < listing@.len() ==> (#[trigger] listing@[k]).0 < (
                    #[trigger] listing@[m]).0,
                forall|k: int|
                    0 <= k < listing@.len() ==> exists|j: int|
                        0 <= j < i && sorted@[j] == (#[trigger] listing@[k]).0,
                forall|k: int|
                    0 <= k < listing@.len() ==> (#[trigger] listing@[k]).1@.len() > 0
                        && lists_once(listing@[k].1@, self@.due_at(listing@[k].0)),
                forall|j: int, pos: BlockPos|
                    0 <= j < i && #[trigger] self@.scheduled.contains((sorted@[j], pos))
                        ==> exists|k: int|
                        0 <= k < listing@.len() && (#[trigger] listing@[k]).0 == sorted@[j],
            decreases sorted.len() - i,
        {
            let tick = sorted[i];
            proof {
                assert(sorted@.to_set().contains(sorted@[i as int]));
            }
            let cells = match schedule_peek(&self.scheduled, tick) {
                Some(set) => cell_set_list(set),
                None => Vec::new(),
            };
            proof {
                lemma_positions_list_once(cells@, cells@.to_set());
                assert(position_set(cells@.to_set()) =~= self@.due_at(tick));
            }
            let positions = to_positions(&cells);
            let ghost before = listing@;
            if positions.len() > 0 {
                listing.push((tick, positions));
                proof {
                    assert forall|k: int, m: int| 0 <= k < m < listing@.len() implies (
                    #[trigger] listing@[k]).0 < (#[trigger] listing@[m]).0 by {
                        if m == listing@.len() - 1 {
                            let j = choose|j: int| 0 <= j < i && sorted@[j] == before[k].0;
                            assert(sorted@[j] < sorted@[i as int]);
                        } else {
                            assert(before[k].0 < before[m].0);
                        }
                    }
                    assert forall|k: int| 0 <= k < listing@.len() implies exists|j: int|
                        0 <= j < i + 1 && sorted@[j] == (#[trigger] listing@[k]).0 by {
                        if k == listing@.len() - 1 {
                            assert(sorted@[i as int] == listing@[k].0);
                        } else {
                            let j = choose|j: int| 0 <= j < i && sorted@[j] == before[k].0;
                            assert(sorted@[j] == listing@[k].0);
                        }
                    }
                    assert forall|j: int, pos: BlockPos|
                        0 <= j < i + 1 && #[trigger] self@.scheduled.contains(
                            (sorted@[j], pos),
                        ) implies exists|k: int|
                        0 <= k < listing@.len() && (#[trigger] listing@[k]).0 == sorted@[j] by {
                        if j == i {
                            assert(listing@[listing@.len() - 1].0 == sorted@[j]);
                        } else {
                            let k = choose|k: int|
                                0 <= k < before.len() && (#[trigger] before[k]).0 == sorted@[j];
                            assert(listing@[k].0 == sorted@[j]);
                        }
                    }
                }
            } else {
                proof {
                    assert forall|j: int, pos: BlockPos|
                        0 <= j < i + 1 && #[trigger] self@.scheduled.contains(
                            (sorted@[j], pos),
                        ) implies exists|k: int|
                        0 <= k < listing@.len() && (#[trigger] listing@[k]).0 == sorted@[j] by {
                        if j == i {
                            assert(self@.due_at(tick).contains(pos));
                            assert(positions@.to_set().contains(pos));
                        }
                    }
                }
            }
            i = i + 1;
        }
        proof {
            assert forall|tick: Tick, pos: BlockPos| self@.scheduled.contains((tick, pos)) implies exists|
                k: int,
            |
                0 <= k < listing@.len() && (#[trigger] listing@[k]).0 == tick by {
                assert(schedule_entries(self.scheduled).dom().contains(tick));
                assert(sorted@.to_set().contains(tick));
                let j = choose|j: int| 0 <= j < sorted@.len() && sorted@[j] == tick;
                assert(self@.scheduled.contains((sorted@[j], pos)));
            }
        }
        listing
    }

    fn schedule_at(&mut self, pos: BlockPos, tick: u64)
        ensures
            final(self)@ == (Booked {
                scheduled: old(self)@.scheduled.insert((tick, pos)),
                ..old(self)@
            }),
    {
        let mut set = match schedule_take(&mut self.scheduled, tick) {
            Some(set) => set,
            None => cell_set_new(),
        };
        cell_set_insert(&mut set, (pos.x, pos.y, pos.z));
        schedule_put(&mut self.scheduled, tick, set);
        assert(self@.scheduled =~= old(self)@.scheduled.insert((tick, pos)));
    }
}

} // verus!
