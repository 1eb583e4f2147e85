use redlab::block_position::BlockPos;
use redlab::blocks::{
    Block, BlockType, Dirt, Dust, NeighbourUpdate, RecomputedResult, RedStone, RedStoneLamp,
    RedStoneTorch, StandardGrass, StoneButton, Tickable, BUTTON_TICKS,
};
use redlab::changes::{BlockChange, BlockChangeQueue};
use redlab::grid::{BlockData, Grid};
use redlab::redstone::junctions::JunctionType;
use redlab::redstone::scheduler::NotifyDelay;

fn at(x: i32, y: i32, z: i32) -> BlockPos {
    BlockPos::new(x, y, z)
}

fn put(grid: &mut Grid, p: BlockPos, block_type: BlockType) {
    grid.insert(p, BlockData { block_type });
}

fn grass() -> BlockType {
    BlockType::StandardGrass(StandardGrass { power: 0 })
}

fn dust(shape: JunctionType, power: u8) -> BlockType {
    BlockType::Dust(Dust { shape, power })
}

fn changed(
    new_block: BlockType,
    visual_update: bool,
    self_tick: Option<NotifyDelay>,
    neighbor_tick: Vec<NeighbourUpdate>,
) -> RecomputedResult {
    RecomputedResult::Changed { new_block: Some(new_block), visual_update, self_tick, neighbor_tick }
}

#[test]
fn neighbour_update_lists() {
    assert_eq!(NeighbourUpdate::none(), vec![]);
    let six = NeighbourUpdate::default_set();
    assert_eq!(six.len(), 6);
    let offsets: Vec<BlockPos> = six.iter().map(|u| u.position).collect();
    assert_eq!(
        offsets,
        vec![at(1, 0, 0), at(-1, 0, 0), at(0, 0, 1), at(0, 0, -1), at(0, 1, 0), at(0, -1, 0)]
    );
    let fourteen = NeighbourUpdate::extended();
    assert_eq!(fourteen.len(), 14);
    assert_eq!(&fourteen[..6], &six[..]);
    let corners: Vec<BlockPos> = fourteen[6..].iter().map(|u| u.position).collect();
    assert_eq!(
        corners,
        vec![
            at(1, 1, 0),
            at(-1, 1, 0),
            at(0, 1, 1),
            at(0, 1, -1),
            at(1, -1, 0),
            at(-1, -1, 0),
            at(0, -1, 1),
            at(0, -1, -1)
        ]
    );
    for update in fourteen {
        assert_eq!(update.notification, NotifyDelay::Immediate);
    }
    assert_eq!(
        NeighbourUpdate::new(at(1, 2, 3), NotifyDelay::In(4)),
        NeighbourUpdate { position: at(1, 2, 3), notification: NotifyDelay::In(4) }
    );
}

#[test]
fn grass_placement_into_empty_and_occupied_cell() {
    let mut grid = Grid::new();
    let p = at(0, 1, 0);
    let block = StandardGrass { power: 0 };
    assert_eq!(
        block.on_placement(&grid, p, at(0, 1, 0)),
        changed(grass(), true, Some(NotifyDelay::Immediate), NeighbourUpdate::default_set())
    );
    put(&mut grid, p, grass());
    assert_eq!(block.on_placement(&grid, p, at(0, 1, 0)), RecomputedResult::Unchanged);
}

#[test]
fn grass_under_grass_turns_to_dirt_once() {
    let mut grid = Grid::new();
    let p = at(0, 0, 0);
    let block = StandardGrass { power: 3 };
    put(&mut grid, p, BlockType::StandardGrass(block));
    assert_eq!(block.neighbor_changed(&grid, p), RecomputedResult::Unchanged);
    put(&mut grid, at(0, 1, 0), grass());
    let expected = changed(
        BlockType::Dirt(Dirt { power: 3 }),
        true,
        Some(NotifyDelay::Immediate),
        NeighbourUpdate::none(),
    );
    assert_eq!(block.neighbor_changed(&grid, p), expected);
    // through the dispatching enum as well
    assert_eq!(BlockType::StandardGrass(block).neighbor_changed(&grid, p), expected);
    // once the cell holds dirt, asking again changes nothing
    put(&mut grid, p, BlockType::Dirt(Dirt { power: 3 }));
    assert_eq!(
        BlockType::Dirt(Dirt { power: 3 }).neighbor_changed(&grid, p),
        RecomputedResult::Unchanged
    );
}

#[test]
fn grass_under_dirt_turns_to_dirt_and_under_others_stays() {
    let mut grid = Grid::new();
    let p = at(0, 0, 0);
    let block = StandardGrass { power: 0 };
    put(&mut grid, p, BlockType::StandardGrass(block));
    put(&mut grid, at(0, 1, 0), BlockType::Dirt(Dirt { power: 0 }));
    assert_eq!(
        block.neighbor_changed(&grid, p),
        changed(
            BlockType::Dirt(Dirt { power: 0 }),
            true,
            Some(NotifyDelay::Immediate),
            NeighbourUpdate::none()
        )
    );
    put(&mut grid, at(0, 1, 0), BlockType::RedStone(RedStone));
    assert_eq!(block.neighbor_changed(&grid, p), RecomputedResult::Unchanged);
    put(&mut grid, at(0, 1, 0), dust(JunctionType::Dot, 0));
    assert_eq!(block.neighbor_changed(&grid, p), RecomputedResult::Unchanged);
}

#[test]
fn grass_that_is_not_in_the_grid_asks_to_be_put_there() {
    let mut grid = Grid::new();
    let p = at(0, 0, 0);
    let block = StandardGrass { power: 2 };
    assert_eq!(
        block.neighbor_changed(&grid, p),
        changed(
            BlockType::StandardGrass(block),
            true,
            Some(NotifyDelay::Immediate),
            NeighbourUpdate::default_set()
        )
    );
    put(&mut grid, at(0, 1, 0), BlockType::RedStone(RedStone));
    assert_eq!(
        block.neighbor_changed(&grid, p),
        changed(BlockType::StandardGrass(block), true, None, NeighbourUpdate::none())
    );
    put(&mut grid, at(0, 1, 0), grass());
    assert_eq!(
        block.neighbor_changed(&grid, p),
        changed(BlockType::Dirt(Dirt { power: 2 }), true, None, NeighbourUpdate::none())
    );
}

#[test]
fn solid_kinds_and_dust_need_a_solid_block_beneath() {
    let mut grid = Grid::new();
    let p = at(0, 1, 0);
    let kinds = [
        grass(),
        BlockType::Dirt(Dirt { power: 0 }),
        BlockType::RedStone(RedStone),
        BlockType::RedStoneLamp(RedStoneLamp { power: 0 }),
        dust(JunctionType::Dot, 0),
    ];
    for kind in kinds {
        assert!(!kind.try_place(&grid, p), "{:?} on air", kind);
    }
    put(&mut grid, at(0, 0, 0), dust(JunctionType::Dot, 0));
    for kind in kinds {
        assert!(!kind.try_place(&grid, p), "{:?} on dust", kind);
    }
    put(&mut grid, at(0, 0, 0), grass());
    for kind in kinds {
        assert!(kind.try_place(&grid, p), "{:?} on grass", kind);
    }
    assert!(!grass().try_place(&grid, at(0, i32::MIN, 0)));
}

#[test]
fn torch_and_button_need_a_solid_carrier_and_no_underside() {
    let mut grid = Grid::new();
    put(&mut grid, at(0, 0, 0), grass());
    let on_top = RedStoneTorch { lit: true, attached_face: at(0, 1, 0) };
    let on_side = RedStoneTorch { lit: true, attached_face: at(1, 0, 0) };
    let below = RedStoneTorch { lit: true, attached_face: at(0, -1, 0) };
    assert!(on_top.try_place(&grid, at(0, 1, 0)));
    assert!(on_side.try_place(&grid, at(1, 0, 0)));
    assert!(!below.try_place(&grid, at(0, -1, 0)));
    assert!(!on_top.try_place(&grid, at(5, 1, 0)));
    // a button on the south face of the block stores the way north
    let button = StoneButton { pressed: false, attached_face: at(0, 0, -1), ticks: 10 };
    assert!(button.try_place(&grid, at(0, 0, 1)));
    assert!(!button.try_place(&grid, at(0, 0, 2)));
    assert!(!button.try_place(&grid, at(0, 0, -1)));
    let button_on_top = StoneButton { pressed: false, attached_face: at(0, -1, 0), ticks: 10 };
    assert!(button_on_top.try_place(&grid, at(0, 1, 0)));
    let hanging = StoneButton { pressed: false, attached_face: at(0, 1, 0), ticks: 10 };
    assert!(!hanging.try_place(&grid, at(0, -1, 0)));
    put(&mut grid, at(0, 0, 0), dust(JunctionType::Dot, 0));
    assert!(!on_top.try_place(&grid, at(0, 1, 0)));
}

#[test]
fn redstone_block_placement_and_rest() {
    let mut grid = Grid::new();
    let p = at(0, 0, 0);
    let appears =
        changed(BlockType::RedStone(RedStone), true, None, NeighbourUpdate::default_set());
    assert_eq!(RedStone.on_placement(&grid, p, at(0, 1, 0)), appears);
    assert_eq!(RedStone.neighbor_changed(&grid, p), appears);
    put(&mut grid, p, BlockType::RedStone(RedStone));
    assert_eq!(RedStone.on_placement(&grid, p, at(0, 1, 0)), RecomputedResult::Unchanged);
    assert_eq!(RedStone.neighbor_changed(&grid, p), RecomputedResult::Unchanged);
    assert_eq!(RedStone.on_tick(&grid, p), RecomputedResult::Unchanged);
    assert_eq!(RedStone.power(), 0);
}

#[test]
fn dirt_does_nothing_of_its_own() {
    let mut grid = Grid::new();
    let p = at(0, 0, 0);
    let dirt = Dirt { power: 1 };
    assert_eq!(
        dirt.on_placement(&grid, p, at(0, 1, 0)),
        changed(
            BlockType::Dirt(dirt),
            true,
            Some(NotifyDelay::Immediate),
            NeighbourUpdate::default_set()
        )
    );
    put(&mut grid, p, BlockType::Dirt(dirt));
    put(&mut grid, at(0, 1, 0), grass());
    assert_eq!(dirt.on_placement(&grid, p, at(0, 1, 0)), RecomputedResult::Unchanged);
    assert_eq!(dirt.neighbor_changed(&grid, p), RecomputedResult::Unchanged);
    assert_eq!(dirt.on_tick(&grid, p), RecomputedResult::Unchanged);
    assert_eq!(dirt.power(), 1);
}

#[test]
fn lamp_takes_the_power_that_reaches_it() {
    let mut grid = Grid::new();
    let p = at(0, 0, 0);
    let lamp = RedStoneLamp { power: 0 };
    put(&mut grid, at(1, 0, 0), dust(JunctionType::Dot, 9));
    assert_eq!(lamp.resolve_power(&grid, p), 8);
    assert_eq!(
        lamp.on_placement(&grid, p, at(0, 1, 0)),
        changed(
            BlockType::RedStoneLamp(RedStoneLamp { power: 8 }),
            true,
            None,
            NeighbourUpdate::none()
        )
    );
    put(&mut grid, p, BlockType::RedStoneLamp(lamp));
    assert_eq!(lamp.on_placement(&grid, p, at(0, 1, 0)), RecomputedResult::Unchanged);
    assert_eq!(lamp.neighbor_changed(&grid, p), RecomputedResult::Unchanged);
    assert_eq!(
        lamp.on_tick(&grid, p),
        changed(
            BlockType::RedStoneLamp(RedStoneLamp { power: 8 }),
            true,
            Some(NotifyDelay::Immediate),
            NeighbourUpdate::default_set()
        )
    );
    let lit = RedStoneLamp { power: 8 };
    assert_eq!(lit.on_tick(&grid, p), RecomputedResult::Unchanged);
    assert!(lit.is_powered());
    assert!(!lamp.is_powered());
    put(&mut grid, at(0, 0, -1), BlockType::RedStone(RedStone));
    assert_eq!(lit.resolve_power(&grid, p), 15);
}

#[test]
fn lamp_that_is_not_in_the_grid_asks_to_be_put_there() {
    let grid = Grid::new();
    let lamp = RedStoneLamp { power: 4 };
    assert_eq!(
        lamp.neighbor_changed(&grid, at(0, 0, 0)),
        changed(
            BlockType::RedStoneLamp(lamp),
            true,
            Some(NotifyDelay::Immediate),
            NeighbourUpdate::default_set()
        )
    );
}

#[test]
fn dust_power_is_max_not_sum() {
    let mut grid = Grid::new();
    let p = at(0, 1, 0);
    put(&mut grid, at(1, 1, 0), dust(JunctionType::Dot, 15));
    put(&mut grid, at(-1, 1, 0), dust(JunctionType::Dot, 15));
    let third = Dust { shape: JunctionType::Horizontal, power: 0 };
    put(&mut grid, p, BlockType::Dust(third));
    assert_eq!(third.resolve_power(&grid, p), 14);
    assert_eq!(
        third.on_tick(&grid, p),
        changed(
            dust(JunctionType::Horizontal, 14),
            true,
            Some(NotifyDelay::Immediate),
            NeighbourUpdate::extended()
        )
    );
    let settled = Dust { shape: JunctionType::Horizontal, power: 14 };
    assert_eq!(settled.on_tick(&grid, p), RecomputedResult::Unchanged);
}

#[test]
fn dust_takes_strong_power_in_full() {
    let mut grid = Grid::new();
    let p = at(0, 1, 0);
    put(&mut grid, at(0, 1, 1), BlockType::RedStone(RedStone));
    let wire = Dust { shape: JunctionType::Dot, power: 0 };
    assert_eq!(wire.resolve_power(&grid, p), 15);
}

#[test]
fn dust_gets_power_round_a_step() {
    let mut grid = Grid::new();
    let p = at(0, 1, 0);
    let wire = Dust { shape: JunctionType::Dot, power: 0 };
    // one step east and one up
    put(&mut grid, at(1, 2, 0), dust(JunctionType::Dot, 10));
    assert_eq!(wire.resolve_power(&grid, p), 9);
    // one step north and one down, stronger
    put(&mut grid, at(0, 0, -1), dust(JunctionType::Dot, 13));
    assert_eq!(wire.resolve_power(&grid, p), 12);
    // a corner in the same plane does not count
    let mut flat = Grid::new();
    put(&mut flat, at(1, 1, 1), dust(JunctionType::Dot, 10));
    assert_eq!(wire.resolve_power(&flat, p), 0);
    // a redstone block at a corner gives no weak power
    let mut stone = Grid::new();
    put(&mut stone, at(1, 2, 0), BlockType::RedStone(RedStone));
    assert_eq!(wire.resolve_power(&stone, p), 0);
}

#[test]
fn dust_without_power_around_fades_to_zero() {
    let mut grid = Grid::new();
    let p = at(0, 1, 0);
    put(&mut grid, at(1, 1, 0), dust(JunctionType::Dot, 1));
    put(&mut grid, at(-1, 1, 0), dust(JunctionType::Dot, 0));
    let wire = Dust { shape: JunctionType::Horizontal, power: 5 };
    assert_eq!(wire.resolve_power(&grid, p), 0);
    assert_eq!(
        wire.on_tick(&grid, p),
        changed(
            dust(JunctionType::Horizontal, 0),
            true,
            Some(NotifyDelay::Immediate),
            NeighbourUpdate::extended()
        )
    );
}

#[test]
fn dust_placement_takes_the_shape_of_its_surroundings() {
    let mut grid = Grid::new();
    let p = at(0, 1, 0);
    put(&mut grid, at(1, 1, 0), dust(JunctionType::Dot, 0));
    put(&mut grid, at(0, 1, 1), dust(JunctionType::Dot, 0));
    let wire = Dust::default();
    assert_eq!(wire, Dust { shape: JunctionType::Dot, power: 0 });
    assert_eq!(
        wire.on_placement(&grid, p, at(0, 1, 0)),
        changed(
            dust(JunctionType::CornerNE, 0),
            true,
            Some(NotifyDelay::Immediate),
            NeighbourUpdate::extended()
        )
    );
    put(&mut grid, p, BlockType::Dust(wire));
    assert_eq!(wire.on_placement(&grid, p, at(0, 1, 0)), RecomputedResult::Unchanged);
}

#[test]
fn dust_reshapes_when_a_neighbour_changed() {
    let mut grid = Grid::new();
    let p = at(0, 1, 0);
    let wire = Dust { shape: JunctionType::Dot, power: 7 };
    put(&mut grid, p, BlockType::Dust(wire));
    assert_eq!(wire.neighbor_changed(&grid, p), RecomputedResult::Unchanged);
    put(&mut grid, at(-1, 1, 0), dust(JunctionType::Dot, 0));
    assert_eq!(
        wire.neighbor_changed(&grid, p),
        changed(
            dust(JunctionType::Horizontal, 7),
            true,
            Some(NotifyDelay::Immediate),
            NeighbourUpdate::default_set()
        )
    );
    let reshaped = Dust { shape: JunctionType::Horizontal, power: 7 };
    assert_eq!(reshaped.neighbor_changed(&grid, p), RecomputedResult::Unchanged);
    // not yet in the grid, shape already right
    let empty = Grid::new();
    assert_eq!(
        wire.neighbor_changed(&empty, p),
        changed(BlockType::Dust(wire), true, None, NeighbourUpdate::none())
    );
}

#[test]
fn dust_that_leaves_has_its_neighbours_look_again() {
    let grid = Grid::new();
    let mut queue = BlockChangeQueue::new();
    let p = at(2, 1, 2);
    grass().on_remove(&grid, &p, &mut queue);
    BlockType::RedStone(RedStone).on_remove(&grid, &p, &mut queue);
    assert_eq!(queue.len(), 0);
    dust(JunctionType::Dot, 0).on_remove(&grid, &p, &mut queue);
    assert_eq!(queue.drain(), vec![BlockChange::NotifyNeighbours(p)]);
}

#[test]
fn torch_placement_looks_at_its_carrier() {
    let mut grid = Grid::new();
    let carrier = at(0, 0, 0);
    let p = at(0, 1, 0);
    put(&mut grid, carrier, grass());
    let torch = RedStoneTorch::default();
    assert_eq!(
        torch.on_placement(&grid, p, at(0, 1, 0)),
        changed(
            BlockType::RedStoneTorch(RedStoneTorch { lit: true, attached_face: at(0, 1, 0) }),
            true,
            None,
            NeighbourUpdate::default_set()
        )
    );
    put(&mut grid, at(1, 0, 0), BlockType::RedStone(RedStone));
    assert_eq!(
        torch.on_placement(&grid, p, at(0, 1, 0)),
        changed(
            BlockType::RedStoneTorch(RedStoneTorch { lit: false, attached_face: at(0, 1, 0) }),
            true,
            None,
            NeighbourUpdate::default_set()
        )
    );
    put(&mut grid, p, BlockType::RedStoneTorch(torch));
    assert_eq!(torch.on_placement(&grid, p, at(0, 1, 0)), RecomputedResult::Unchanged);
}

#[test]
fn torch_reaction_books_a_tick_and_keeps_its_light() {
    let mut grid = Grid::new();
    let carrier = at(0, 0, 0);
    let p = at(0, 1, 0);
    put(&mut grid, carrier, grass());
    let torch = RedStoneTorch { lit: true, attached_face: at(0, 1, 0) };
    put(&mut grid, p, BlockType::RedStoneTorch(torch));
    assert_eq!(torch.neighbor_changed(&grid, p), RecomputedResult::Unchanged);
    assert_eq!(torch.on_tick(&grid, p), RecomputedResult::Unchanged);

    put(&mut grid, at(1, 0, 0), BlockType::RedStone(RedStone));
    assert_eq!(
        torch.neighbor_changed(&grid, p),
        changed(
            BlockType::RedStoneTorch(torch),
            false,
            Some(NotifyDelay::NextTick),
            NeighbourUpdate::none()
        )
    );
    assert_eq!(
        torch.on_tick(&grid, p),
        changed(
            BlockType::RedStoneTorch(RedStoneTorch { lit: false, attached_face: at(0, 1, 0) }),
            true,
            None,
            NeighbourUpdate::default_set()
        )
    );
    let unlit = RedStoneTorch { lit: false, attached_face: at(0, 1, 0) };
    assert_eq!(unlit.neighbor_changed(&grid, p), RecomputedResult::Unchanged);
    assert_eq!(unlit.on_tick(&grid, p), RecomputedResult::Unchanged);

    grid.remove(at(1, 0, 0));
    assert_eq!(
        unlit.on_tick(&grid, p),
        changed(
            BlockType::RedStoneTorch(torch),
            true,
            None,
            NeighbourUpdate::default_set()
        )
    );
}

#[test]
fn torch_without_a_carrier_counts_as_unpowered() {
    let grid = Grid::new();
    let torch = RedStoneTorch { lit: false, attached_face: at(0, 1, 0) };
    assert_eq!(
        torch.on_tick(&grid, at(0, i32::MIN, 0)),
        changed(
            BlockType::RedStoneTorch(RedStoneTorch { lit: true, attached_face: at(0, 1, 0) }),
            true,
            None,
            NeighbourUpdate::default_set()
        )
    );
}

#[test]
fn button_press_and_count_down() {
    let grid = Grid::new();
    let p = at(1, 0, 0);
    let face = at(1, 0, 0);
    let up = StoneButton { pressed: false, attached_face: face, ticks: 0 };
    assert_eq!(BUTTON_TICKS, 10);
    assert_eq!(up.on_tick(&grid, p), RecomputedResult::Unchanged);
    assert_eq!(up.neighbor_changed(&grid, p), RecomputedResult::Unchanged);
    let down = StoneButton { pressed: true, attached_face: face, ticks: 10 };
    assert_eq!(
        up.press(),
        changed(
            BlockType::StoneButton(down),
            true,
            Some(NotifyDelay::NextTick),
            NeighbourUpdate::default_set()
        )
    );
    assert_eq!(down.press(), RecomputedResult::Unchanged);
    assert_eq!(
        down.on_tick(&grid, p),
        changed(
            BlockType::StoneButton(StoneButton { pressed: true, attached_face: face, ticks: 9 }),
            true,
            Some(NotifyDelay::NextTick),
            NeighbourUpdate::none()
        )
    );
    let last = StoneButton { pressed: true, attached_face: face, ticks: 1 };
    assert_eq!(
        last.on_tick(&grid, p),
        changed(
            BlockType::StoneButton(StoneButton { pressed: false, attached_face: face, ticks: 0 }),
            true,
            None,
            NeighbourUpdate::default_set()
        )
    );
    let stuck = StoneButton { pressed: true, attached_face: face, ticks: 0 };
    assert_eq!(
        stuck.on_tick(&grid, p),
        changed(
            BlockType::StoneButton(StoneButton { pressed: false, attached_face: face, ticks: 0 }),
            true,
            None,
            NeighbourUpdate::default_set()
        )
    );
}

#[test]
fn button_placement_is_up_and_keeps_its_ticks() {
    let mut grid = Grid::new();
    let p = at(1, 0, 0);
    let button = StoneButton::default();
    assert_eq!(
        button,
        StoneButton { pressed: false, attached_face: at(0, 0, 0), ticks: 10 }
    );
    let pressed = StoneButton { pressed: true, attached_face: at(0, 0, 0), ticks: 7 };
    assert_eq!(
        pressed.on_placement(&grid, p, at(1, 0, 0)),
        changed(
            BlockType::StoneButton(StoneButton {
                pressed: false,
                attached_face: at(-1, 0, 0),
                ticks: 7
            }),
            true,
            None,
            NeighbourUpdate::default_set()
        )
    );
    assert_eq!(
        pressed.mount(at(0, 1, 0)),
        StoneButton { pressed: true, attached_face: at(0, -1, 0), ticks: 7 }
    );
    assert_eq!(pressed.mount(at(0, i32::MIN, 0)), pressed);
    // a normal without an opposite leaves the stored vector as it is
    assert_eq!(
        pressed.on_placement(&grid, p, at(i32::MIN, 0, 0)),
        changed(
            BlockType::StoneButton(StoneButton {
                pressed: false,
                attached_face: at(0, 0, 0),
                ticks: 7
            }),
            true,
            None,
            NeighbourUpdate::default_set()
        )
    );
    put(&mut grid, p, BlockType::StoneButton(button));
    assert_eq!(button.on_placement(&grid, p, at(1, 0, 0)), RecomputedResult::Unchanged);
}

#[test]
fn defaults_of_the_kinds() {
    assert_eq!(StandardGrass::default(), StandardGrass { power: 0 });
    assert_eq!(Dirt::default(), Dirt { power: 0 });
    assert_eq!(RedStoneLamp::default(), RedStoneLamp { power: 0 });
    assert_eq!(RedStone::default(), RedStone);
    assert_eq!(
        RedStoneTorch::default(),
        RedStoneTorch { lit: false, attached_face: at(0, 0, 0) }
    );
}

#[test]
fn enum_dispatches_tick_to_every_kind() {
    let mut grid = Grid::new();
    let p = at(0, 1, 0);
    put(&mut grid, at(0, 0, 0), grass());
    put(&mut grid, at(1, 0, 0), BlockType::RedStone(RedStone));
    let torch = RedStoneTorch { lit: true, attached_face: at(0, 1, 0) };
    assert_eq!(
        BlockType::RedStoneTorch(torch).on_tick(&grid, p),
        torch.on_tick(&grid, p)
    );
    assert!(matches!(
        BlockType::RedStoneTorch(torch).on_tick(&grid, p),
        RecomputedResult::Changed { .. }
    ));
    let button = StoneButton { pressed: true, attached_face: at(0, 1, 0), ticks: 2 };
    assert_eq!(BlockType::StoneButton(button).on_tick(&grid, p), button.on_tick(&grid, p));
    assert_eq!(grass().on_tick(&grid, p), RecomputedResult::Unchanged);
    let wire = Dust { shape: JunctionType::Dot, power: 3 };
    assert_eq!(BlockType::Dust(wire).on_tick(&grid, p), wire.on_tick(&grid, p));
    let lamp = RedStoneLamp { power: 3 };
    assert_eq!(BlockType::RedStoneLamp(lamp).on_tick(&grid, p), lamp.on_tick(&grid, p));
}

#[test]
fn second_tick_of_a_torch_changes_nothing() {
    // on top of its carrier, on a wall, and without a carrier
    for face in [at(0, 1, 0), at(1, 0, 0), at(0, 0, -1), at(0, 0, 0), at(3, 0, 0)] {
        for powered in [false, true] {
            for lit in [false, true] {
                let mut grid = Grid::new();
                let p = at(0, 5, 0);
                let torch = RedStoneTorch { lit, attached_face: face };
                put(&mut grid, p, BlockType::RedStoneTorch(torch));
                if let Some(carrier) = p.offset_back(face) {
                    if carrier != p {
                        put(&mut grid, carrier, grass());
                        if powered {
                            put(&mut grid, at(carrier.x, carrier.y, carrier.z + 7), grass());
                            let beside = carrier.offset(at(0, 0, 1)).unwrap();
                            if beside != p {
                                put(&mut grid, beside, BlockType::RedStone(RedStone));
                            }
                        }
                    }
                }
                if let RecomputedResult::Changed { new_block: Some(next), .. } =
                    torch.on_tick(&grid, p)
                {
                    put(&mut grid, p, next);
                    assert_eq!(
                        next.on_tick(&grid, p),
                        RecomputedResult::Unchanged,
                        "face {:?}, lit {}",
                        face,
                        lit
                    );
                }
            }
        }
    }
}

#[test]
fn a_torch_under_its_carrier_never_rests() {
    let mut grid = Grid::new();
    let p = at(0, 0, 0);
    let carrier = at(0, 1, 0);
    put(&mut grid, carrier, grass());
    let out = RedStoneTorch { lit: false, attached_face: at(0, -1, 0) };
    let lit = RedStoneTorch { lit: true, attached_face: at(0, -1, 0) };
    put(&mut grid, p, BlockType::RedStoneTorch(out));
    let flip_on = changed(
        BlockType::RedStoneTorch(lit),
        true,
        None,
        NeighbourUpdate::default_set(),
    );
    let flip_off = changed(
        BlockType::RedStoneTorch(out),
        true,
        None,
        NeighbourUpdate::default_set(),
    );
    assert_eq!(out.on_tick(&grid, p), flip_on);
    put(&mut grid, p, BlockType::RedStoneTorch(lit));
    assert_eq!(grid.get_direct_signal(carrier), 15);
    assert_eq!(lit.on_tick(&grid, p), flip_off);
    put(&mut grid, p, BlockType::RedStoneTorch(out));
    assert_eq!(out.on_tick(&grid, p), flip_on);
    // with power from elsewhere the carrier holds the torch down
    put(&mut grid, at(1, 1, 0), BlockType::RedStone(RedStone));
    assert_eq!(out.on_tick(&grid, p), RecomputedResult::Unchanged);
    assert_eq!(lit.on_tick(&grid, p), flip_off);
    // such a torch cannot be placed by the rules
    assert!(!out.try_place(&grid, p));
}
