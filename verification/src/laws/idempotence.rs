//! Idempotence: a block whose state follows from its surroundings stays as
//! it is, and a world in which nothing waits is left alone by a frame.

use vstd::prelude::*;
use crate::block_position::{BlockPos, all_dirs_spec, axis_neg_y, axis_y};
use crate::blocks::dust::corner_dirs_spec;
use crate::blocks::redstone_torch::carrier_powered;
use crate::blocks::standard_grass::smothers;
use crate::blocks::{
    Block, BlockType, Dirt, Dust, NeighbourUpdate, Outcome, RedStoneLamp, RedStoneTorch, Tickable,
    changed,
};
use crate::grid::{
    block_at, contribution, lemma_level_grows_with_contributions, lemma_level_is_maximum,
    level_upto,
};
use crate::redstone::junctions::junction_at;
use crate::redstone::scheduler::Tick;
use crate::world::WorldState;

verus! {

/// The state that follows from the surroundings of a block at `position`:
/// dust in the shape and with the power that its neighbours give it, a lamp
/// with the power that reaches it, a torch lit unless its carrier receives
/// power, grass turned to dirt under grass or dirt, a button that is down one
/// tick further. Every other block is its own derived state.
pub open spec fn derived_state(
    block: BlockType,
    grid: Map<BlockPos, BlockType>,
    position: BlockPos,
) -> BlockType {
    match block {
        BlockType::Dust(b) => BlockType::Dust(
            Dust { shape: junction_at(grid, position), power: b.received(grid, position) },
        ),
        BlockType::RedStoneLamp(b) => BlockType::RedStoneLamp(
            RedStoneLamp { power: b.received(grid, position) },
        ),
        BlockType::RedStoneTorch(b) => BlockType::RedStoneTorch(
            RedStoneTorch {
                lit: !carrier_powered(grid, position, b.attached_face),
                attached_face: b.attached_face,
            },
        ),
        BlockType::StandardGrass(b) => if smothers(block_at(grid, position.plus(axis_y()))) {
            BlockType::Dirt(Dirt { power: b.power })
        } else {
            block
        },
        BlockType::StoneButton(b) => if b.pressed {
            BlockType::StoneButton(b.counted_down())
        } else {
            block
        },
        _ => block,
    }
}

/// Idempotence, for one block: a block in the grid answers a change next to
/// it and its tick with "unchanged" exactly when its derived state is the
/// state it has.
pub proof fn lemma_settled_block_is_unchanged(
    block: BlockType,
    grid: Map<BlockPos, BlockType>,
    position: BlockPos,
)
    requires
        grid.contains_key(position),
    ensures
        derived_state(block, grid, position) == block <==> block.neighbor_outcome(grid, position)
            is Unchanged && block.tick_outcome(grid, position) is Unchanged,
{
}

/// Idempotence, for one tick: the block that a tick puts into the grid is at
/// rest as far as the tick goes, while the surroundings stay as they are.
/// Dust and lamp have taken the power that reaches them, a torch shows its
/// carrier's power. A button is the exception by design: it counts on until
/// it is up.
pub proof fn lemma_tick_answer_is_settled(
    block: BlockType,
    grid: Map<BlockPos, BlockType>,
    position: BlockPos,
)
    requires
        !(block is StoneButton),
    ensures
        match block.tick_outcome(grid, position) {
            Outcome::Changed { new_block: Some(next), .. } => next.tick_outcome(grid, position)
                is Unchanged,
            Outcome::Changed { new_block: None, .. } => false,
            Outcome::Unchanged => true,
        },
{
    match block {
        BlockType::Dust(b) => {
            let next = Dust { shape: b.shape, power: b.received(grid, position) };
            lemma_asking_dust_is_any_dust(grid, position, b, next);
        },
        BlockType::RedStoneLamp(b) => {
            let next = RedStoneLamp { power: b.received(grid, position) };
            lemma_asking_lamp_is_any_lamp(grid, position, b, next);
        },
        _ => {},
    }
}

/// Idempotence, for the power of dust and lamp: once the answer of a tick
/// stands in the grid, the next tick of the same cell changes nothing.
pub proof fn lemma_second_tick_is_unchanged(
    block: BlockType,
    grid: Map<BlockPos, BlockType>,
    position: BlockPos,
)
    requires
        block is Dust || block is RedStoneLamp,
    ensures
        match block.tick_outcome(grid, position) {
            Outcome::Changed { new_block: Some(next), .. } => next.tick_outcome(
                grid.insert(position, next),
                position,
            ) is Unchanged,
            Outcome::Changed { new_block: None, .. } => false,
            Outcome::Unchanged => block.tick_outcome(grid.insert(position, block), position)
                is Unchanged,
        },
{
    let next = match block.tick_outcome(grid, position) {
        Outcome::Changed { new_block: Some(next), .. } => next,
        _ => block,
    };
    lemma_own_cell_does_not_count(
        grid,
        position,
        next,
        next,
        all_dirs_spec(),
        6,
        true,
        true,
    );
    lemma_own_cell_does_not_count(
        grid,
        position,
        next,
        next,
        corner_dirs_spec(),
        8,
        false,
        true,
    );
    lemma_level_by_kind(
        grid,
        position,
        block,
        next,
        all_dirs_spec(),
        6,
        true,
        true,
    );
    lemma_level_by_kind(
        grid,
        position,
        block,
        next,
        corner_dirs_spec(),
        8,
        false,
        true,
    );
}

/// Whether a torch in the grid feeds the block that carries it: it hangs
/// under its carrier, where its strong power goes, and nothing else gives the
/// carrier power. Such a torch never comes to rest. Lit, it powers its carrier
/// and goes out at the next tick; out, it leaves the carrier without power and
/// is lit at the next.
pub open spec fn feeds_its_carrier(
    torch: RedStoneTorch,
    grid: Map<BlockPos, BlockType>,
    position: BlockPos,
) -> bool {
    &&& torch.attached_face == axis_neg_y()
    &&& block_at(grid, position.plus(axis_y())) is Some
    &&& !carrier_powered(grid.remove(position), position, torch.attached_face)
}

/// Idempotence, for the light of a torch: once the answer of a tick stands in
/// the grid in place of the torch, the next tick of the same cell changes
/// nothing. This holds of every torch in the grid but the one that feeds its
/// own carrier.
pub proof fn lemma_second_tick_of_torch_is_unchanged(
    torch: RedStoneTorch,
    grid: Map<BlockPos, BlockType>,
    position: BlockPos,
)
    requires
        grid.contains_key(position),
        grid[position] == BlockType::RedStoneTorch(torch),
        !feeds_its_carrier(torch, grid, position),
    ensures
        match torch.tick_outcome(grid, position) {
            Outcome::Changed { new_block: Some(next), .. } => next.tick_outcome(
                grid.insert(position, next),
                position,
            ) is Unchanged,
            Outcome::Changed { new_block: None, .. } => false,
            Outcome::Unchanged => torch.tick_outcome(
                grid.insert(position, BlockType::RedStoneTorch(torch)),
                position,
            ) is Unchanged,
        },
{
    assert(grid.insert(position, BlockType::RedStoneTorch(torch)) =~= grid);
    let flipped = RedStoneTorch { lit: !torch.lit, attached_face: torch.attached_face };
    lemma_carrier_sees_no_flip(torch, flipped, grid, position);
}

/// A torch in the grid that feeds its carrier is never at rest: its tick
/// flips it, and with the answer in the grid the next tick flips it back.
pub proof fn lemma_torch_that_feeds_its_carrier_never_rests(
    torch: RedStoneTorch,
    grid: Map<BlockPos, BlockType>,
    position: BlockPos,
)
    requires
        grid.contains_key(position),
        grid[position] == BlockType::RedStoneTorch(torch),
        feeds_its_carrier(torch, grid, position),
    ensures
        carrier_powered(grid, position, torch.attached_face) == torch.lit,
        torch.tick_outcome(grid, position) == changed(
            Some(
                BlockType::RedStoneTorch(
                    RedStoneTorch { lit: !torch.lit, attached_face: torch.attached_face },
                ),
            ),
            true,
            None,
            NeighbourUpdate::default_spec(),
        ),
        (RedStoneTorch { lit: !torch.lit, attached_face: torch.attached_face }).tick_outcome(
            grid.insert(
                position,
                BlockType::RedStoneTorch(
                    RedStoneTorch { lit: !torch.lit, attached_face: torch.attached_face },
                ),
            ),
            position,
        ) is Changed,
{
    let flipped = RedStoneTorch { lit: !torch.lit, attached_face: torch.attached_face };
    lemma_fed_carrier_follows_the_torch(torch, grid, position);
    let stored = grid.insert(position, BlockType::RedStoneTorch(flipped));
    assert(stored.remove(position) =~= grid.remove(position));
    lemma_fed_carrier_follows_the_torch(flipped, stored, position);
}

/// The carrier of a torch that feeds it has power exactly while the torch is
/// lit.
pub proof fn lemma_fed_carrier_follows_the_torch(
    torch: RedStoneTorch,
    grid: Map<BlockPos, BlockType>,
    position: BlockPos,
)
    requires
        grid.contains_key(position),
        grid[position] == BlockType::RedStoneTorch(torch),
        feeds_its_carrier(torch, grid, position),
    ensures
        carrier_powered(grid, position, torch.attached_face) == torch.lit,
{
    let carrier = position.plus(axis_y()).unwrap();
    assert(position.minus(torch.attached_face) == Some(carrier));
    let asking = grid[carrier];
    let without = grid.remove(position);
    assert(without.contains_key(carrier) && without[carrier] == asking);
    assert(carrier.plus(all_dirs_spec()[1]) == Some(position));
    lemma_level_is_maximum(grid, carrier, asking, all_dirs_spec(), 6, true, false);
    if torch.lit {
        assert(contribution(grid, carrier, asking, all_dirs_spec()[1], true, false) == 15);
    } else {
        assert forall|k: int| 0 <= k < 6 implies contribution(
            grid,
            carrier,
            asking,
            #[trigger] all_dirs_spec()[k],
            true,
            false,
        ) <= contribution(without, carrier, asking, all_dirs_spec()[k], true, false) by {}
        lemma_level_grows_with_contributions(
            grid,
            without,
            carrier,
            asking,
            all_dirs_spec(),
            6,
            true,
            false,
        );
    }
}

/// The power of the carrier of a torch in the grid does not depend on
/// whether the torch is lit, unless the torch feeds its carrier.
pub proof fn lemma_carrier_sees_no_flip(
    torch: RedStoneTorch,
    flipped: RedStoneTorch,
    grid: Map<BlockPos, BlockType>,
    position: BlockPos,
)
    requires
        grid.contains_key(position),
        grid[position] == BlockType::RedStoneTorch(torch),
        flipped.attached_face == torch.attached_face,
        !feeds_its_carrier(torch, grid, position),
    ensures
        carrier_powered(
            grid.insert(position, BlockType::RedStoneTorch(flipped)),
            position,
            torch.attached_face,
        ) == carrier_powered(grid, position, torch.attached_face),
{
    let face = torch.attached_face;
    let before = BlockType::RedStoneTorch(torch);
    let after = BlockType::RedStoneTorch(flipped);
    let stored = grid.insert(position, after);
    match position.minus(face) {
        None => {},
        Some(carrier) => {
            if carrier == position {
                lemma_own_cell_does_not_count(
                    grid,
                    position,
                    after,
                    after,
                    all_dirs_spec(),
                    6,
                    true,
                    false,
                );
                lemma_level_by_kind(grid, position, before, after, all_dirs_spec(), 6, true, false);
            } else if grid.contains_key(carrier) {
                let asking = grid[carrier];
                assert(stored.contains_key(carrier) && stored[carrier] == asking);
                if face == axis_neg_y() {
                    // the torch hangs under its carrier, and something else
                    // powers the carrier whatever the torch does
                    let without = grid.remove(position);
                    assert(position.plus(axis_y()) == Some(carrier));
                    assert(without.contains_key(carrier) && without[carrier] == asking);
                    assert(carrier_powered(without, position, face));
                    assert forall|k: int| 0 <= k < 6 implies contribution(
                        without,
                        carrier,
                        asking,
                        #[trigger] all_dirs_spec()[k],
                        true,
                        false,
                    ) <= contribution(grid, carrier, asking, all_dirs_spec()[k], true, false) by {}
                    assert forall|k: int| 0 <= k < 6 implies contribution(
                        without,
                        carrier,
                        asking,
                        #[trigger] all_dirs_spec()[k],
                        true,
                        false,
                    ) <= contribution(stored, carrier, asking, all_dirs_spec()[k], true, false) by {}
                    lemma_level_grows_with_contributions(
                        without,
                        grid,
                        carrier,
                        asking,
                        all_dirs_spec(),
                        6,
                        true,
                        false,
                    );
                    lemma_level_grows_with_contributions(
                        without,
                        stored,
                        carrier,
                        asking,
                        all_dirs_spec(),
                        6,
                        true,
                        false,
                    );
                } else {
                    // the torch gives its carrier nothing, lit or not
                    assert forall|k: int| 0 <= k < 6 implies contribution(
                        grid,
                        carrier,
                        asking,
                        #[trigger] all_dirs_spec()[k],
                        true,
                        false,
                    ) == contribution(stored, carrier, asking, all_dirs_spec()[k], true, false) by {}
                    lemma_level_grows_with_contributions(
                        grid,
                        stored,
                        carrier,
                        asking,
                        all_dirs_spec(),
                        6,
                        true,
                        false,
                    );
                    lemma_level_grows_with_contributions(
                        stored,
                        grid,
                        carrier,
                        asking,
                        all_dirs_spec(),
                        6,
                        true,
                        false,
                    );
                }
            } else {
                assert(!stored.contains_key(carrier));
            }
        },
    }
}

/// What reaches a block comes from other cells: the block in the asking cell
/// itself does not count, as long as no offset is zero.
pub proof fn lemma_own_cell_does_not_count(
    grid: Map<BlockPos, BlockType>,
    asking_pos: BlockPos,
    asking: BlockType,
    stored: BlockType,
    offsets: Seq<BlockPos>,
    n: int,
    strong: bool,
    decay: bool,
)
    requires
        n <= offsets.len(),
        forall|k: int|
            0 <= k < offsets.len() ==> (#[trigger] offsets[k]) != (BlockPos { x: 0, y: 0, z: 0 }),
    ensures
        level_upto(grid.insert(asking_pos, stored), asking_pos, asking, offsets, n, strong, decay)
            == level_upto(grid, asking_pos, asking, offsets, n, strong, decay),
    decreases n,
{
    if n > 0 {
        lemma_own_cell_does_not_count(
            grid,
            asking_pos,
            asking,
            stored,
            offsets,
            n - 1,
            strong,
            decay,
        );
        assert(offsets[n - 1] != (BlockPos { x: 0, y: 0, z: 0 }));
    }
}

/// What reaches dust depends on where it lies, not on what it stores.
pub proof fn lemma_asking_dust_is_any_dust(
    grid: Map<BlockPos, BlockType>,
    position: BlockPos,
    a: Dust,
    b: Dust,
)
    ensures
        a.received(grid, position) == b.received(grid, position),
{
    lemma_level_by_kind(
        grid,
        position,
        BlockType::Dust(a),
        BlockType::Dust(b),
        all_dirs_spec(),
        6,
        true,
        true,
    );
    lemma_level_by_kind(
        grid,
        position,
        BlockType::Dust(a),
        BlockType::Dust(b),
        corner_dirs_spec(),
        8,
        false,
        true,
    );
}

/// What reaches a lamp depends on where it stands, not on what it stores.
pub proof fn lemma_asking_lamp_is_any_lamp(
    grid: Map<BlockPos, BlockType>,
    position: BlockPos,
    a: RedStoneLamp,
    b: RedStoneLamp,
)
    ensures
        a.received(grid, position) == b.received(grid, position),
{
    lemma_level_by_kind(
        grid,
        position,
        BlockType::RedStoneLamp(a),
        BlockType::RedStoneLamp(b),
        all_dirs_spec(),
        6,
        true,
        true,
    );
}

/// The level that reaches an asking block depends on the block only in
/// whether it is dust.
pub proof fn lemma_level_by_kind(
    grid: Map<BlockPos, BlockType>,
    asking_pos: BlockPos,
    a: BlockType,
    b: BlockType,
    offsets: Seq<BlockPos>,
    n: int,
    strong: bool,
    decay: bool,
)
    requires
        a is Dust <==> b is Dust,
    ensures
        level_upto(grid, asking_pos, a, offsets, n, strong, decay) == level_upto(
            grid,
            asking_pos,
            b,
            offsets,
            n,
            strong,
            decay,
        ),
    decreases n,
{
    if n > 0 {
        lemma_level_by_kind(grid, asking_pos, a, b, offsets, n - 1, strong, decay);
    }
}

/// Idempotence, for the frame: in a world in which nothing waits, a frame
/// changes nothing and marks nothing.
pub proof fn lemma_quiescent_frame_is_noop(w: WorldState, now: Tick, budget: nat)
    requires
        w.quiescent(),
    ensures
        w.after_frame(now, Seq::empty(), budget) == w,
{
    assert(w.queue =~= Seq::empty());
    assert(w.dirty_blocks =~= Set::empty());
    let applied = w.after_apply_pass(now);
    assert(applied == w);
    let reacted = applied.after_react_pass(Seq::empty());
    assert(reacted == w);
    assert(reacted.drained(now, budget) == w);
}

/// Idempotence, for the drain pass: where every block is at rest, the ticks
/// that are due change no cell, book nothing and mark nothing. They are only
/// taken off.
pub proof fn lemma_drain_at_rest_changes_nothing(w: WorldState, now: Tick, budget: nat)
    requires
        w.at_rest(),
    ensures
        w.drained(now, budget).grid == w.grid,
        w.drained(now, budget).queue == w.queue,
        w.drained(now, budget).booked.scheduled == w.booked.scheduled,
        w.drained(now, budget).dirty_blocks == w.dirty_blocks,
        w.drained(now, budget).dirty_render == w.dirty_render,
        w.drained(now, budget).booked.immediate.len() <= w.booked.immediate.len(),
        budget >= w.booked.immediate.len() ==> w.drained(now, budget).booked.immediate.len() == 0,
    decreases budget,
{
    if budget == 0 || w.booked.immediate.len() == 0 {
    } else {
        let position = w.booked.immediate[0];
        let next = w.popped().ticked_at(position, now);
        assert(next == w.popped());
        assert(next.at_rest());
        lemma_drain_at_rest_changes_nothing(next, now, (budget - 1) as nat);
    }
}

/// Idempotence, for the react pass: where every block is at rest, looking at
/// the surroundings again queues nothing and marks nothing.
pub proof fn lemma_react_at_rest_changes_nothing(w: WorldState, order: Seq<BlockPos>, n: int)
    requires
        w.at_rest(),
    ensures
        w.reacted_upto(order, n) == w,
    decreases n,
{
    if n > 0 {
        lemma_react_at_rest_changes_nothing(w, order, n - 1);
    }
}

} // verus!
