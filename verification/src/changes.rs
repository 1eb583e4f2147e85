//! Requests to change the world, and the queue that holds them for a frame.

use vstd::prelude::*;
use crate::block_position::BlockPos;
use crate::blocks::{BlockType, NeighbourUpdate};
use crate::redstone::scheduler::NotifyDelay;

verus! {

/// Puts a block into a cell. Without a block the request changes no cell, and
/// what it schedules, notifies and redraws still happens.
#[derive(Debug, Clone, PartialEq)]
pub struct Place {
    pub position: BlockPos,
    pub block_type: Option<BlockType>,
    pub visual_change: bool,
    pub self_tick: Option<NotifyDelay>,
    pub neighbor_tick: Vec<NeighbourUpdate>,
}

/// Empties a cell.
#[derive(Debug, Clone, PartialEq)]
pub struct Remove {
    pub position: BlockPos,
    pub visual_change: bool,
    pub self_tick: Option<NotifyDelay>,
    pub neighbor_tick: Vec<NeighbourUpdate>,
}

/// Replaces the block of an occupied cell by another state.
#[derive(Debug, Copy, Clone, PartialEq, Eq, Structural)]
pub struct UpdateRequest {
    pub position: BlockPos,
    pub block_type: BlockType,
}

/// A requested change.
#[derive(Debug, Clone, PartialEq)]
pub enum BlockChange {
    Place(Place),
    Remove(Remove),
    Update(UpdateRequest),
    /// Marks the face neighbours of a cell for a new look at their surroundings.
    NotifyNeighbours(BlockPos),
}

/// A [`BlockChange`] as a value of specifications.
#[allow(inconsistent_fields)]
pub enum Change {
    Place {
        position: BlockPos,
        block_type: Option<BlockType>,
        visual_change: bool,
        self_tick: Option<NotifyDelay>,
        neighbor_tick: Seq<NeighbourUpdate>,
    },
    Remove {
        position: BlockPos,
        visual_change: bool,
        self_tick: Option<NotifyDelay>,
        neighbor_tick: Seq<NeighbourUpdate>,
    },
    Update { position: BlockPos, block_type: BlockType },
    NotifyNeighbours(BlockPos),
}

impl Change {
    /// The block that the request carries, if any, stores at most the highest
    /// power level.
    pub open spec fn wf(self) -> bool {
        match self {
            Change::Place { block_type: Some(b), .. } => b.wf(),
            Change::Update { block_type, .. } => block_type.wf(),
            _ => true,
        }
    }
}

impl View for BlockChange {
    type V = Change;

    open spec fn view(&self) -> Change {
        match *self {
            BlockChange::Place(p) => Change::Place {
                position: p.position,
                block_type: p.block_type,
                visual_change: p.visual_change,
                self_tick: p.self_tick,
                neighbor_tick: p.neighbor_tick@,
            },
            BlockChange::Remove(r) => Change::Remove {
                position: r.position,
                visual_change: r.visual_change,
                self_tick: r.self_tick,
                neighbor_tick: r.neighbor_tick@,
            },
            BlockChange::Update(u) => Change::Update {
                position: u.position,
                block_type: u.block_type,
            },
            BlockChange::NotifyNeighbours(p) => Change::NotifyNeighbours(p),
        }
    }
}

impl Place {
    pub fn new(
        block_type: Option<BlockType>,
        position: BlockPos,
        visual_change: bool,
        self_tick: Option<NotifyDelay>,
        neighbor_tick: Vec<NeighbourUpdate>,
    ) -> (p: Place)
        ensures
            p == (Place { position, block_type, visual_change, self_tick, neighbor_tick }),
    {
        Place { position, block_type, visual_change, self_tick, neighbor_tick }
    }
}

impl Remove {
    pub fn new(
        position: BlockPos,
        visual_change: bool,
        self_tick: Option<NotifyDelay>,
        neighbor_tick: Vec<NeighbourUpdate>,
    ) -> (r: Remove)
        ensures
            r == (Remove { position, visual_change, self_tick, neighbor_tick }),
    {
        Remove { position, visual_change, self_tick, neighbor_tick }
    }
}

/// The views of the requests in `changes`, in order.
pub open spec fn changes_view(changes: Seq<BlockChange>) -> Seq<Change> {
    Seq::new(changes.len(), |i: int| changes[i]@)
}

/// The requests of one frame, in the order in which they were made.
pub struct BlockChangeQueue {
    changes: Vec<BlockChange>,
}

impl View for BlockChangeQueue {
    type V = Seq<Change>;

    closed spec fn view(&self) -> Seq<Change> {
        changes_view(self.changes@)
    }
}

impl Default for BlockChangeQueue {
    fn default() -> (q: BlockChangeQueue)
        ensures
            q@ == Seq::<Change>::empty(),
    {
        BlockChangeQueue::new()
    }
}

impl BlockChangeQueue {
    pub fn new() -> (q: BlockChangeQueue)
        ensures
            q@ == Seq::<Change>::empty(),
    {
        let q = BlockChangeQueue { changes: Vec::new() };
        assert(q@ =~= Seq::<Change>::empty());
        q
    }

    /// Adds `change` behind the requests already made.
    pub fn push(&mut self, change: BlockChange)
        ensures
            final(self)@ == old(self)@.push(change@),
    {
        self.changes.push(change);
        assert(self@ =~= old(self)@.push(change@));
    }

    /// How many requests wait.
    pub fn len(&self) -> (n: usize)
        ensures
            n == self@.len(),
    {
        self.changes.len()
    }

    /// Hands out the requests in the order in which they were made, and
    /// leaves the queue empty.
    pub fn drain(&mut self) -> (taken: Vec<BlockChange>)
        ensures
            changes_view(taken@) == old(self)@,
            final(self)@ == Seq::<Change>::empty(),
    {
        let mut taken: Vec<BlockChange> = Vec::new();
        std::mem::swap(&mut self.changes, &mut taken);
        assert(self@ =~= Seq::<Change>::empty());
        taken
    }
}

} // verus!
