//! The passes of a frame, over the parts of the world they read and write.

use vstd::prelude::*;
use crate::block_position::BlockPos;
use crate::blocks::{Block, BlockType, NeighbourUpdate, RecomputedResult, Tickable};
use crate::changes::{BlockChange, BlockChangeQueue, Change, Place, Remove, changes_view};
use crate::grid::{BlockData, Grid, power_bounded};
use crate::laws::power::{
    lemma_drain_keeps_power_bounded, lemma_frame_keeps_power_bounded,
    lemma_react_keeps_power_bounded, lemma_tick_keeps_power_bounded,
};
use crate::redstone::scheduler::{Booked, Scheduler, Tick, lists_once};
use crate::render::{DirtyBlocks, DirtyRender};
use crate::world::{WorldState, notified, own_booking, redrawn};

verus! {

/// Puts the block of a placement into the grid. A placement always counts as
/// a change of its position, also where it carries no block.
pub fn try_place(grid: &mut Grid, event: &Place) -> (hit: Option<BlockPos>)
    ensures
        hit == Some(event.position),
        final(grid)@ == match event.block_type {
            Some(b) => old(grid)@.insert(event.position, b),
            None => old(grid)@,
        },
{
    let position = event.position;
    match event.block_type {
        Some(block_type) => {
            grid.insert(position, BlockData { block_type });
        },
        None => {},
    }
    Some(position)
}

/// Empties the cell `position`, after its block had its last say. An empty
/// cell stays as it is, and does not count as changed.
pub fn try_remove(grid: &mut Grid, position: &BlockPos, queue: &mut BlockChangeQueue) -> (hit:
    Option<BlockPos>)
    ensures
        old(grid)@.contains_key(*position) ==> {
            &&& hit == Some(*position)
            &&& final(grid)@ == old(grid)@.remove(*position)
            &&& final(queue)@ == old(queue)@ + old(grid)@[*position].removal_requests(*position)
        },
        !old(grid)@.contains_key(*position) ==> {
            &&& hit is None
            &&& final(grid)@ == old(grid)@
            &&& final(queue)@ == old(queue)@
        },
{
    let block_type = match grid.get_blocktype(*position) {
        Some(b) => *b,
        None => {
            return None;
        },
    };
    block_type.on_remove(grid, position, queue);
    grid.remove(*position);
    Some(*position)
}

/// Does to the grid what `block_change` asks for, and answers with the
/// position that changed, if one did.
pub fn apply_change(
    grid: &mut Grid,
    block_change: &BlockChange,
    dirty_block: &mut DirtyBlocks,
    queue: &mut BlockChangeQueue,
) -> (hit: Option<BlockPos>)
    ensures
        hit == (WorldState {
            grid: old(grid)@,
            queue: old(queue)@,
            booked: Booked::nothing(),
            dirty_blocks: old(dirty_block)@,
            dirty_render: Set::empty(),
        }).hit_by(block_change@),
        (WorldState {
            grid: final(grid)@,
            queue: final(queue)@,
            booked: Booked::nothing(),
            dirty_blocks: final(dirty_block)@,
            dirty_render: Set::empty(),
        }) == (WorldState {
            grid: old(grid)@,
            queue: old(queue)@,
            booked: Booked::nothing(),
            dirty_blocks: old(dirty_block)@,
            dirty_render: Set::empty(),
        }).mutated(block_change@),
{
    match block_change {
        BlockChange::Place(event) => try_place(grid, event),
        BlockChange::Remove(event) => {
            let hit = try_remove(grid, &event.position, queue);
            hit
        },
        BlockChange::Update(request) => {
            let differs = match grid.get_blocktype(request.position) {
                Some(stored) => *stored != request.block_type,
                None => false,
            };
            if differs {
                grid.insert(request.position, BlockData { block_type: request.block_type });
                Some(request.position)
            } else {
                None
            }
        },
        BlockChange::NotifyNeighbours(block_pos) => {
            let around = block_pos.neighbours();
            let mut i: usize = 0;
            while i < around.len()
                invariant
                    i <= around.len(),
                    dirty_block@ == old(dirty_block)@.union(around@.take(i as int).to_set()),
                decreases around.len() - i,
            {
                dirty_block.mark(around[i]);
                proof {
                    let before = around@.take(i as int);
                    let after = around@.take(i + 1);
                    assert(after =~= before.push(around@[i as int]));
                    assert(after.to_set() =~= before.to_set().insert(around@[i as int])) by {
                        assert forall|p: BlockPos| after.to_set().contains(p) <==> before.to_set().insert(
                            around@[i as int],
                        ).contains(p) by {
                            if after.to_set().contains(p) {
                                let k = choose|k: int| 0 <= k < after.len() && after[k] == p;
                                if k < i {
                                    assert(before[k] == p);
                                }
                            }
                            if before.to_set().contains(p) {
                                let k = choose|k: int| 0 <= k < before.len() && before[k] == p;
                                assert(after[k] == p);
                            }
                            if p == around@[i as int] {
                                assert(after[i as int] == p);
                            }
                        }
                    }
                    assert(dirty_block@ =~= old(dirty_block)@.union(after.to_set()));
                }
                i = i + 1;
            }
            proof {
                assert(around@.take(around.len() as int) =~= around@);
            }
            None
        },
    }
}

/// Delivers `updates` from `position`: each neighbour that holds a block gets
/// its tick booked and is marked for a look at its surroundings.
pub fn notify_neighbours(
    position: BlockPos,
    grid: &Grid,
    scheduler: &mut Scheduler,
    dirty_blocks: &mut DirtyBlocks,
    updates: &Vec<NeighbourUpdate>,
    now: Tick,
)
    ensures
        (final(scheduler)@, final(dirty_blocks)@) == notified(
            grid@,
            old(scheduler)@,
            old(dirty_blocks)@,
            position,
            updates@,
            updates@.len() as int,
            now,
        ),
{
    let mut i: usize = 0;
    while i < updates.len()
        invariant
            i <= updates.len(),
            (scheduler@, dirty_blocks@) == notified(
                grid@,
                old(scheduler)@,
                old(dirty_blocks)@,
                position,
                updates@,
                i as int,
                now,
            ),
        decreases updates.len() - i,
    {
        let update = updates[i];
        if let Some(target) = position.offset(update.position) {
            if grid.get(target).is_some() {
                scheduler.schedule(target, &update.notification, now);
                dirty_blocks.mark(target);
            }
        }
        i = i + 1;
    }
}

/// Books the own tick that `change` asks for.
pub fn schedule_self_tick(
    position: BlockPos,
    scheduler: &mut Scheduler,
    now: Tick,
    change: &BlockChange,
)
    ensures
        final(scheduler)@ == own_booking(old(scheduler)@, position, change@.own_tick(), now),
{
    let self_tick = match change {
        BlockChange::Place(event) => &event.self_tick,
        BlockChange::Remove(event) => &event.self_tick,
        _ => {
            return ;
        },
    };
    if let Some(delay) = self_tick {
        scheduler.schedule(position, delay, now);
    }
}

/// Notifies the neighbours that `change` names.
pub fn schedule_ticks_and_mark_neighbours(
    position: BlockPos,
    grid: &Grid,
    scheduler: &mut Scheduler,
    dirty_blocks: &mut DirtyBlocks,
    change: &BlockChange,
    now: Tick,
)
    ensures
        (final(scheduler)@, final(dirty_blocks)@) == notified(
            grid@,
            old(scheduler)@,
            old(dirty_blocks)@,
            position,
            change@.notifications(),
            change@.notifications().len() as int,
            now,
        ),
{
    match change {
        BlockChange::Place(event) => notify_neighbours(
            position,
            grid,
            scheduler,
            dirty_blocks,
            &event.neighbor_tick,
            now,
        ),
        BlockChange::Remove(event) => notify_neighbours(
            position,
            grid,
            scheduler,
            dirty_blocks,
            &event.neighbor_tick,
            now,
        ),
        BlockChange::Update(_) => {
            let around = NeighbourUpdate::default_set();
            notify_neighbours(position, grid, scheduler, dirty_blocks, &around, now)
        },
        BlockChange::NotifyNeighbours(_) => {},
    }
}

/// Marks `position` to be drawn again, where `change` asks for it.
pub fn mark_for_redraw(position: BlockPos, dirty_render: &mut DirtyRender, change: &BlockChange)
    ensures
        final(dirty_render)@ == redrawn(old(dirty_render)@, position, change@.visual()),
{
    let visual_change = match change {
        BlockChange::Place(event) => event.visual_change,
        BlockChange::Remove(event) => event.visual_change,
        BlockChange::Update(_) => true,
        BlockChange::NotifyNeighbours(_) => false,
    };
    if visual_change {
        dirty_render.mark(position);
    }
}

/// The world that is made of these parts.
pub open spec fn world_of(
    grid: Map<BlockPos, BlockType>,
    queue: Seq<Change>,
    booked: Booked,
    dirty_blocks: Set<BlockPos>,
    dirty_render: Set<BlockPos>,
) -> WorldState {
    WorldState { grid, queue, booked, dirty_blocks, dirty_render }
}

/// Applies one request: changes the grid, and where a position changed books
/// its own tick, notifies its neighbours and marks it to be drawn again.
pub fn apply_and_settle(
    change: &BlockChange,
    queue: &mut BlockChangeQueue,
    grid: &mut Grid,
    dirty_blocks: &mut DirtyBlocks,
    dirty_render: &mut DirtyRender,
    scheduler: &mut Scheduler,
    now: Tick,
)
    ensures
        world_of(
            final(grid)@,
            final(queue)@,
            final(scheduler)@,
            final(dirty_blocks)@,
            final(dirty_render)@,
        ) == world_of(
            old(grid)@,
            old(queue)@,
            old(scheduler)@,
            old(dirty_blocks)@,
            old(dirty_render)@,
        ).applied(change@, now),
{
    if let Some(position) = apply_change(grid, change, dirty_blocks, queue) {
        schedule_self_tick(position, scheduler, now, change);
        schedule_ticks_and_mark_neighbours(position, grid, scheduler, dirty_blocks, change, now);
        mark_for_redraw(position, dirty_render, change);
    }
}

/// The block, if any, that each of `changes` carries stores at most the
/// highest power level.
pub open spec fn all_wf(changes: Seq<Change>) -> bool {
    forall|i: int| 0 <= i < changes.len() ==> (#[trigger] changes[i]).wf()
}

/// The apply pass: takes the queued requests in the order in which they were
/// made and applies each. Requests that are made meanwhile wait in the queue
/// for the next pass.
pub fn apply_queued_changes(
    queue: &mut BlockChangeQueue,
    grid: &mut Grid,
    dirty_blocks: &mut DirtyBlocks,
    dirty_render: &mut DirtyRender,
    scheduler: &mut Scheduler,
    now: Tick,
)
    ensures
        world_of(
            final(grid)@,
            final(queue)@,
            final(scheduler)@,
            final(dirty_blocks)@,
            final(dirty_render)@,
        ) == world_of(
            old(grid)@,
            old(queue)@,
            old(scheduler)@,
            old(dirty_blocks)@,
            old(dirty_render)@,
        ).after_apply_pass(now),
        power_bounded(old(grid)@) && all_wf(old(queue)@) ==> power_bounded(final(grid)@) && all_wf(
            final(queue)@,
        ),
{
    proof {
        let before = world_of(
            grid@,
            queue@,
            scheduler@,
            dirty_blocks@,
            dirty_render@,
        );
        if before.power_bounded() {
            lemma_frame_keeps_power_bounded(before, now, Seq::empty(), 0);
        }
    }
    let changes = queue.drain();
    let ghost start = world_of(
        grid@,
        Seq::empty(),
        scheduler@,
        dirty_blocks@,
        dirty_render@,
    );
    let ghost requests = changes_view(changes@);
    let mut i: usize = 0;
    while i < changes.len()
        invariant
            i <= changes.len(),
            requests == changes_view(changes@),
            world_of(grid@, queue@, scheduler@, dirty_blocks@, dirty_render@)
                == start.applied_upto(requests, i as int, now),
        decreases changes.len() - i,
    {
        apply_and_settle(&changes[i], queue, grid, dirty_blocks, dirty_render, scheduler, now);
        i = i + 1;
    }
}

/// Runs the tick of the block at `position`, and lets what it answers take
/// effect. Where the cell is empty by now, nothing happens.
pub fn tick_block(
    position: BlockPos,
    grid: &mut Grid,
    scheduler: &mut Scheduler,
    dirty_blocks: &mut DirtyBlocks,
    dirty_render: &mut DirtyRender,
    now: Tick,
)
    ensures
        world_of(
            final(grid)@,
            Seq::empty(),
            final(scheduler)@,
            final(dirty_blocks)@,
            final(dirty_render)@,
        ) == world_of(
            old(grid)@,
            Seq::empty(),
            old(scheduler)@,
            old(dirty_blocks)@,
            old(dirty_render)@,
        ).ticked_at(position, now),
        power_bounded(old(grid)@) ==> power_bounded(final(grid)@),
{
    proof {
        let before = world_of(
            grid@,
            Seq::empty(),
            scheduler@,
            dirty_blocks@,
            dirty_render@,
        );
        if before.power_bounded() {
            lemma_tick_keeps_power_bounded(before, position, now);
        }
    }
    let block_type = match grid.get_blocktype(position) {
        Some(b) => *b,
        None => {
            return ;
        },
    };
    let result = block_type.on_tick(grid, position);
    if let RecomputedResult::Changed { new_block, visual_update, self_tick, neighbor_tick } =
        result {
        match new_block {
            Some(block_type) => grid.insert(position, BlockData { block_type }),
            None => grid.remove(position),
        }
        if let Some(delay) = self_tick {
            scheduler.schedule(position, &delay, now);
        }
        notify_neighbours(position, grid, scheduler, dirty_blocks, &neighbor_tick, now);
        if visual_update {
            dirty_render.mark(position);
        }
    }
}

/// The drain pass: runs the ticks that are due at once, first come first
/// served, those that they book at once among them, until none is left or
/// `max_ticks` of them ran. The answer is how many are still due.
pub fn drain_immediate(
    grid: &mut Grid,
    scheduler: &mut Scheduler,
    dirty_blocks: &mut DirtyBlocks,
    dirty_render: &mut DirtyRender,
    now: Tick,
    max_ticks: usize,
) -> (left: usize)
    ensures
        world_of(
            final(grid)@,
            Seq::empty(),
            final(scheduler)@,
            final(dirty_blocks)@,
            final(dirty_render)@,
        ) == world_of(
            old(grid)@,
            Seq::empty(),
            old(scheduler)@,
            old(dirty_blocks)@,
            old(dirty_render)@,
        ).drained(now, max_ticks as nat),
        left == final(scheduler)@.immediate.len(),
        power_bounded(old(grid)@) ==> power_bounded(final(grid)@),
{
    proof {
        let before = world_of(
            grid@,
            Seq::empty(),
            scheduler@,
            dirty_blocks@,
            dirty_render@,
        );
        if before.power_bounded() {
            lemma_drain_keeps_power_bounded(before, now, max_ticks as nat);
        }
    }
    let ghost start = world_of(
        grid@,
        Seq::empty(),
        scheduler@,
        dirty_blocks@,
        dirty_render@,
    );
    let mut ran: usize = 0;
    while ran < max_ticks && scheduler.immediate_len() > 0
        invariant
            ran <= max_ticks,
            world_of(grid@, Seq::empty(), scheduler@, dirty_blocks@, dirty_render@).drained(
                now,
                (max_ticks - ran) as nat,
            ) == start.drained(now, max_ticks as nat),
        decreases max_ticks - ran,
    {
        let ghost before = world_of(
            grid@,
            Seq::empty(),
            scheduler@,
            dirty_blocks@,
            dirty_render@,
        );
        let next = scheduler.pop_immediate();
        let position = next.unwrap();
        assert(world_of(grid@, Seq::empty(), scheduler@, dirty_blocks@, dirty_render@)
            == before.popped());
        tick_block(position, grid, scheduler, dirty_blocks, dirty_render, now);
        ran = ran + 1;
    }
    scheduler.immediate_len()
}

/// The apply pass and the drain pass, one after the other.
pub fn grid_apply_changes(
    queue: &mut BlockChangeQueue,
    grid: &mut Grid,
    dirty_blocks: &mut DirtyBlocks,
    dirty_render: &mut DirtyRender,
    scheduler: &mut Scheduler,
    now: Tick,
    max_ticks: usize,
)
    ensures
        world_of(
            final(grid)@,
            final(queue)@,
            final(scheduler)@,
            final(dirty_blocks)@,
            final(dirty_render)@,
        ) == world_of(
            old(grid)@,
            old(queue)@,
            old(scheduler)@,
            old(dirty_blocks)@,
            old(dirty_render)@,
        ).after_apply_pass(now).drained(now, max_ticks as nat),
        power_bounded(old(grid)@) && all_wf(old(queue)@) ==> power_bounded(final(grid)@) && all_wf(
            final(queue)@,
        ),
{
    apply_queued_changes(queue, grid, dirty_blocks, dirty_render, scheduler, now);
    let ghost applied = world_of(grid@, queue@, scheduler@, dirty_blocks@, dirty_render@);
    drain_immediate(grid, scheduler, dirty_blocks, dirty_render, now, max_ticks);
    proof {
        crate::world::lemma_drain_keeps_queue(applied, Seq::empty(), now, max_ticks as nat);
        crate::world::lemma_drain_keeps_queue(applied, applied.queue, now, max_ticks as nat);
    }
}

/// Asks the block at each position of `order`, in that order, what it makes
/// of its surroundings. An answer that changes something is queued as a
/// request, and where it asks for it the position is marked to be drawn again.
pub fn react_to(
    order: &Vec<BlockPos>,
    grid: &Grid,
    render_dirty: &mut DirtyRender,
    queue: &mut BlockChangeQueue,
)
    ensures
        world_of(grid@, final(queue)@, Booked::nothing(), Set::empty(), final(render_dirty)@)
            == world_of(
            grid@,
            old(queue)@,
            Booked::nothing(),
            Set::empty(),
            old(render_dirty)@,
        ).reacted_upto(order@, order@.len() as int),
        power_bounded(grid@) && all_wf(old(queue)@) ==> all_wf(final(queue)@),
{
    let ghost start = world_of(
        grid@,
        queue@,
        Booked::nothing(),
        Set::empty(),
        render_dirty@,
    );
    let mut i: usize = 0;
    while i < order.len()
        invariant
            i <= order.len(),
            world_of(grid@, queue@, Booked::nothing(), Set::empty(), render_dirty@)
                == start.reacted_upto(order@, i as int),
        decreases order.len() - i,
    {
        let position = order[i];
        i = i + 1;
        let block_type = match grid.get_blocktype(position) {
            Some(b) => *b,
            None => {
                continue ;
            },
        };
        let result = block_type.neighbor_changed(grid, position);
        match result {
            RecomputedResult::Changed { new_block, visual_update, self_tick, neighbor_tick } => {
                match new_block {
                    Some(new_block) => queue.push(
                        BlockChange::Place(
                            Place::new(
                                Some(new_block),
                                position,
                                visual_update,
                                self_tick,
                                neighbor_tick,
                            ),
                        ),
                    ),
                    None => queue.push(
                        BlockChange::Remove(
                            Remove::new(position, visual_update, self_tick, neighbor_tick),
                        ),
                    ),
                }
                if visual_update {
                    render_dirty.mark(position);
                }
            },
            RecomputedResult::Unchanged => {},
        }
    }
    proof {
        if power_bounded(grid@) && all_wf(old(queue)@) {
            assert(start.power_bounded());
            lemma_react_keeps_power_bounded(start, order@, order@.len() as int);
            let after = start.reacted_upto(order@, order@.len() as int);
            assert(after.queue == queue@);
            assert forall|i: int| 0 <= i < queue@.len() implies (#[trigger] queue@[i]).wf() by {
                assert(after.queue[i].wf());
            }
        }
    }
}

/// The react pass: takes the marked positions, in an order that the set
/// decides, and asks the block at each what it makes of its surroundings.
pub fn recalculate_dirty_blocks(
    dirty_blocks: &mut DirtyBlocks,
    grid: &Grid,
    render_dirty: &mut DirtyRender,
    queue: &mut BlockChangeQueue,
)
    ensures
        final(dirty_blocks)@ == Set::<BlockPos>::empty(),
        exists|order: Seq<BlockPos>|
            lists_once(order, old(dirty_blocks)@) && world_of(
                grid@,
                final(queue)@,
                Booked::nothing(),
                final(dirty_blocks)@,
                final(render_dirty)@,
            ) == world_of(
                grid@,
                old(queue)@,
                Booked::nothing(),
                old(dirty_blocks)@,
                old(render_dirty)@,
            ).after_react_pass(order),
        power_bounded(grid@) && all_wf(old(queue)@) ==> all_wf(final(queue)@),
{
    let order = dirty_blocks.drain();
    react_to(&order, grid, render_dirty, queue);
}

} // verus!
