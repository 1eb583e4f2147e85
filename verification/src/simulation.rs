//! The world as one value with an interface of four calls: submit a request,
//! run a frame, look a cell up, and take a step of the clock.

use vstd::prelude::*;
use crate::block_position::BlockPos;
use crate::blocks::{BlockType, NeighbourUpdate, StandardGrass};
use crate::changes::{BlockChange, BlockChangeQueue, Change, Place};
use crate::grid::{Grid, block_at};
use crate::interactions::{deletion_request, request_delete_hovered_block};
use crate::redstone::scheduler::{NotifyDelay, Scheduler, Tick, is_listing_of, lists_once};
use crate::redstone::ticks::{GlobalTick, tick_the_counter};
use crate::render::{DirtyBlocks, DirtyRender, occupied, occupied_of};
use crate::systems::{apply_queued_changes, drain_immediate, recalculate_dirty_blocks, world_of};
use crate::world::{WorldState, lemma_drain_keeps_queue};

verus! {

/// The grid, the request queue, the scheduler and the two sets of marked
/// positions.
pub struct World {
    grid: Grid,
    queue: BlockChangeQueue,
    scheduler: Scheduler,
    dirty_blocks: DirtyBlocks,
    dirty_render: DirtyRender,
}

/// What a frame hands to whoever draws the world: the positions to draw
/// again, those that hold a block with their block, and those that are empty
/// now on their own.
#[derive(Debug, Clone, PartialEq)]
pub struct FrameReport {
    /// The positions to draw again that hold a block, each with its block.
    pub present: Vec<(BlockPos, BlockType)>,
    /// The positions to draw again that are empty now.
    pub removed: Vec<BlockPos>,
    /// How many ticks were still due at once when the budget was spent.
    pub left_due: usize,
}

/// The first `n` positions of `order` at which `grid` holds no block.
pub open spec fn vacant_upto(grid: Map<BlockPos, BlockType>, order: Seq<BlockPos>, n: int) -> Seq<
    BlockPos,
>
    decreases n,
{
    if n <= 0 {
        Seq::empty()
    } else {
        let before = vacant_upto(grid, order, n - 1);
        if grid.contains_key(order[n - 1]) {
            before
        } else {
            before.push(order[n - 1])
        }
    }
}

/// The positions of `order` at which `grid` holds no block.
pub open spec fn vacant(grid: Map<BlockPos, BlockType>, order: Seq<BlockPos>) -> Seq<BlockPos> {
    vacant_upto(grid, order, order.len() as int)
}

/// Looks up each position of `order`, and keeps those that hold no block.
pub fn vacant_of(grid: &Grid, order: &Vec<BlockPos>) -> (found: Vec<BlockPos>)
    ensures
        found@ == vacant(grid@, order@),
{
    let mut found: Vec<BlockPos> = Vec::new();
    let mut i: usize = 0;
    while i < order.len()
        invariant
            i <= order.len(),
            found@ == vacant_upto(grid@, order@, i as int),
        decreases order.len() - i,
    {
        if grid.get(order[i]).is_none() {
            found.push(order[i]);
        }
        i = i + 1;
    }
    found
}

/// Whether a frame at the tick `now` with `budget`, in which the positions
/// that were marked for a look at their surroundings came up in the order
/// `order` and those to draw again in the order `drawn`, takes the world from
/// `before` to `after` and gives `report`.
pub open spec fn is_frame(
    before: WorldState,
    now: Tick,
    budget: nat,
    order: Seq<BlockPos>,
    drawn: Seq<BlockPos>,
    after: WorldState,
    report: FrameReport,
) -> bool {
    let simulated = before.after_frame(now, order, budget);
    &&& lists_once(order, before.after_apply_pass(now).dirty_blocks)
    &&& lists_once(drawn, simulated.dirty_render)
    &&& after == (WorldState { dirty_render: Set::empty(), ..simulated })
    &&& report.present@ == occupied(simulated.grid, drawn)
    &&& report.removed@ == vacant(simulated.grid, drawn)
    &&& report.left_due == simulated.booked.immediate.len()
}

/// The cell of the floor with the number `k`, for a square floor of
/// `grid_size` by `grid_size` cells around the origin: the cells are numbered
/// row by row, `x` first.
pub open spec fn floor_cell(grid_size: int, k: int) -> BlockPos
    recommends
        0 < grid_size,
        0 <= k < grid_size * grid_size,
{
    BlockPos {
        x: (k / grid_size - grid_size / 2) as i32,
        y: 0,
        z: (k % grid_size - grid_size / 2) as i32,
    }
}

/// The request that lays a block of grass at `position`: it is drawn, ticks
/// at once and tells the six cells around it.
pub open spec fn ground_request(position: BlockPos) -> Change {
    Change::Place {
        position,
        block_type: Some(BlockType::StandardGrass(StandardGrass { power: 0 })),
        visual_change: true,
        self_tick: Some(NotifyDelay::Immediate),
        neighbor_tick: NeighbourUpdate::default_spec(),
    }
}

/// The request that lays a block of grass at `position`.
pub fn ground(position: BlockPos) -> (request: BlockChange)
    ensures
        request@ == ground_request(position),
{
    BlockChange::Place(
        Place::new(
            Some(BlockType::StandardGrass(StandardGrass { power: 0 })),
            position,
            true,
            Some(NotifyDelay::Immediate),
            NeighbourUpdate::default_set(),
        ),
    )
}

/// Whether the draw `u` of a random number scatters a block: about one draw
/// in ten does.
pub fn scatters(u: u32) -> (yes: bool)
    ensures
        yes == (u < u32::MAX / 10),
{
    u < u32::MAX / 10
}

/// The requests that lay a square floor of grass, `grid_size` cells wide and
/// deep, around the origin. A size that is not positive gives no floor.
pub fn startup(grid_size: i32) -> (requests: Vec<BlockChange>)
    ensures
        0 < grid_size ==> requests@.len() == grid_size * grid_size,
        0 < grid_size ==> forall|k: int|
            0 <= k < requests@.len() ==> (#[trigger] requests@[k])@ == ground_request(
                floor_cell(grid_size as int, k),
            ),
        grid_size <= 0 ==> requests@.len() == 0,
{
    let mut requests: Vec<BlockChange> = Vec::new();
    if grid_size <= 0 {
        return requests;
    }
    let half_grid = grid_size / 2;
    let mut x: i32 = 0;
    while x < grid_size
        invariant
            0 < grid_size,
            half_grid == grid_size / 2,
            0 <= x <= grid_size,
            requests@.len() == x * grid_size,
            forall|k: int|
                0 <= k < requests@.len() ==> (#[trigger] requests@[k])@ == ground_request(
                    floor_cell(grid_size as int, k),
                ),
        decreases grid_size - x,
    {
        let mut z: i32 = 0;
        while z < grid_size
            invariant
                0 < grid_size,
                half_grid == grid_size / 2,
                0 <= x < grid_size,
                0 <= z <= grid_size,
                requests@.len() == x * grid_size + z,
                forall|k: int|
                    0 <= k < requests@.len() ==> (#[trigger] requests@[k])@ == ground_request(
                        floor_cell(grid_size as int, k),
                    ),
            decreases grid_size - z,
        {
            let position = BlockPos { x: x - half_grid, y: 0, z: z - half_grid };
            proof {
                let k = x * grid_size + z;
                assert(k / (grid_size as int) == x && k % (grid_size as int) == z) by (nonlinear_arith)
                    requires
                        k == x * grid_size + z,
                        0 <= z < grid_size,
                        0 <= x,
                ;
            }
            let ghost before = requests@;
            requests.push(ground(position));
            proof {
                assert forall|k: int| 0 <= k < requests@.len() implies (#[trigger] requests@[k])@
                    == ground_request(floor_cell(grid_size as int, k)) by {
                    if k < before.len() {
                        assert(requests@[k] == before[k]);
                    }
                }
            }
            z = z + 1;
        }
        proof {
            assert((x + 1) * grid_size == x * grid_size + grid_size) by (nonlinear_arith);
        }
        x = x + 1;
    }
    proof {
        assert(grid_size * grid_size == x * grid_size);
    }
    requests
}

impl View for World {
    type V = WorldState;

    closed spec fn view(&self) -> WorldState {
        world_of(
            self.grid@,
            self.queue@,
            self.scheduler@,
            self.dirty_blocks@,
            self.dirty_render@,
        )
    }
}

impl Default for World {
    fn default() -> (w: World)
        ensures
            w@ == WorldState::empty(),
    {
        World::new()
    }
}

impl World {
    /// A world of air in which nothing waits.
    pub fn new() -> (w: World)
        ensures
            w@ == WorldState::empty(),
    {
        World {
            grid: Grid::new(),
            queue: BlockChangeQueue::new(),
            scheduler: Scheduler::new(),
            dirty_blocks: DirtyBlocks::new(),
            dirty_render: DirtyRender::new(),
        }
    }

    /// Queues `change` for the next frame.
    pub fn submit(&mut self, change: BlockChange)
        ensures
            final(self)@ == (WorldState { queue: old(self)@.queue.push(change@), ..old(self)@ }),
    {
        self.queue.push(change);
    }

    /// The block in the cell `position`, or `None` for air.
    pub fn query(&self, position: BlockPos) -> (block: Option<BlockType>)
        ensures
            block == block_at(self@.grid, Some(position)),
    {
        self.grid.block_at(Some(position))
    }

    /// The grid, to read.
    pub fn grid(&self) -> (grid: &Grid)
        ensures
            grid@ == self@.grid,
    {
        &self.grid
    }

    /// Marks `position` to be drawn again.
    pub fn mark_for_redraw(&mut self, position: BlockPos)
        ensures
            final(self)@ == (WorldState {
                dirty_render: old(self)@.dirty_render.insert(position),
                ..old(self)@
            }),
    {
        self.dirty_render.mark(position);
    }

    /// Asks for the cell `position` to be emptied in the next frame, and marks
    /// it to be drawn again right away.
    pub fn request_delete(&mut self, position: BlockPos)
        ensures
            final(self)@ == (WorldState {
                queue: old(self)@.queue.push(deletion_request(position)),
                dirty_render: old(self)@.dirty_render.insert(position),
                ..old(self)@
            }),
    {
        let request = request_delete_hovered_block(position, &mut self.dirty_render);
        self.queue.push(request);
    }

    /// What is booked for later ticks: each tick for which something is
    /// booked, in rising order, with the positions that are due then, in an
    /// order that their set decides.
    pub fn booked_ticks(&self) -> (listing: Vec<(Tick, Vec<BlockPos>)>)
        ensures
            is_listing_of(listing@, self@.booked),
    {
        self.scheduler.immediate_queue()
    }

    /// One step of the clock `clock`: while it runs, it counts one tick and
    /// what was booked for the new tick becomes due at once, in an order that
    /// the set decides; the answer is that tick. While it is held, nothing
    /// happens.
    pub fn tick(&mut self, clock: &mut GlobalTick) -> (fired: Option<Tick>)
        ensures
            !old(clock).running ==> fired is None && *final(clock) == *old(clock) && final(self)@
                == old(self)@,
            old(clock).running ==> fired == Some(old(clock).next()),
            old(clock).running ==> *final(clock) == (GlobalTick {
                now: old(clock).next(),
                ..*old(clock)
            }),
            old(clock).running ==> exists|order: Seq<BlockPos>|
                lists_once(order, old(self)@.booked.due_at(old(clock).next())) && final(self)@
                    == (WorldState {
                    booked: old(self)@.booked.released(old(clock).next(), order),
                    ..old(self)@
                }),
    {
        let fired = tick_the_counter(clock, &mut self.scheduler);
        proof {
            if old(clock).running {
                let now = old(clock).next();
                let order = choose|order: Seq<BlockPos>|
                    lists_once(order, old(self).scheduler@.due_at(now)) && self.scheduler@ == old(
                        self,
                    ).scheduler@.released(now, order);
                assert(self@ == (WorldState {
                    booked: old(self)@.booked.released(now, order),
                    ..old(self)@
                }));
            }
        }
        fired
    }

    /// The step of the clock to the tick `now`: what was booked for `now`
    /// becomes due at once, in an order that the set decides. To be called
    /// before the frame of that tick.
    pub fn advance(&mut self, now: Tick)
        ensures
            exists|order: Seq<BlockPos>|
                lists_once(order, old(self)@.booked.due_at(now)) && final(self)@ == (WorldState {
                    booked: old(self)@.booked.released(now, order),
                    ..old(self)@
                }),
    {
        self.scheduler.advance(now);
        proof {
            let order = choose|order: Seq<BlockPos>|
                lists_once(order, old(self).scheduler@.due_at(now)) && self.scheduler@ == old(
                    self,
                ).scheduler@.released(now, order);
            assert(self@ == (WorldState {
                booked: old(self)@.booked.released(now, order),
                ..old(self)@
            }));
        }
    }

    /// One frame at the tick `global_tick`: the apply pass, the react pass and
    /// the drain pass, the last with a budget of `max_ticks` ticks. The marked
    /// positions come up in an order that their sets decide. The answer names
    /// the positions to draw again; none is marked for that afterwards.
    pub fn apply_and_react(&mut self, global_tick: Tick, max_ticks: usize) -> (report: FrameReport)
        ensures
            exists|order: Seq<BlockPos>, drawn: Seq<BlockPos>| #[trigger]
                is_frame(old(self)@, global_tick, max_ticks as nat, order, drawn, final(self)@, report),
            old(self)@.power_bounded() ==> final(self)@.power_bounded(),
    {
        apply_queued_changes(
            &mut self.queue,
            &mut self.grid,
            &mut self.dirty_blocks,
            &mut self.dirty_render,
            &mut self.scheduler,
            global_tick,
        );
        let ghost applied = self@;
        recalculate_dirty_blocks(
            &mut self.dirty_blocks,
            &self.grid,
            &mut self.dirty_render,
            &mut self.queue,
        );
        let ghost reacted = self@;
        let ghost order = choose|order: Seq<BlockPos>|
            lists_once(order, applied.dirty_blocks) && world_of(
                reacted.grid,
                reacted.queue,
                crate::redstone::scheduler::Booked::nothing(),
                reacted.dirty_blocks,
                reacted.dirty_render,
            ) == world_of(
                applied.grid,
                applied.queue,
                crate::redstone::scheduler::Booked::nothing(),
                applied.dirty_blocks,
                applied.dirty_render,
            ).after_react_pass(order);
        proof {
            let bare = world_of(
                applied.grid,
                applied.queue,
                crate::redstone::scheduler::Booked::nothing(),
                Set::empty(),
                applied.dirty_render,
            );
            crate::world::lemma_react_keeps_bookings(
                bare,
                applied.booked,
                Set::empty(),
                order,
                order.len() as int,
            );
            assert(reacted == applied.after_react_pass(order));
        }
        let left_due = drain_immediate(
            &mut self.grid,
            &mut self.scheduler,
            &mut self.dirty_blocks,
            &mut self.dirty_render,
            global_tick,
            max_ticks,
        );
        proof {
            lemma_drain_keeps_queue(reacted, Seq::empty(), global_tick, max_ticks as nat);
            lemma_drain_keeps_queue(reacted, reacted.queue, global_tick, max_ticks as nat);
            assert(self@ == old(self)@.after_frame(global_tick, order, max_ticks as nat));
            if old(self)@.power_bounded() {
                crate::laws::power::lemma_frame_keeps_power_bounded(
                    old(self)@,
                    global_tick,
                    order,
                    max_ticks as nat,
                );
            }
        }
        let ghost simulated = self@;
        let drawn = self.dirty_render.drain();
        let present = occupied_of(&self.grid, &drawn);
        let removed = vacant_of(&self.grid, &drawn);
        let report = FrameReport { present, removed, left_due };
        proof {
            assert(is_frame(
                old(self)@,
                global_tick,
                max_ticks as nat,
                order,
                drawn@,
                self@,
                report,
            ));
        }
        report
    }
}

} // verus!
