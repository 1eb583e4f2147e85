use redlab::block_position::BlockPos;
use redlab::blocks::{
    BlockType, Dirt, Dust, NeighbourUpdate, RedStone, RedStoneLamp, RedStoneTorch, StandardGrass,
    StoneButton,
};
use redlab::changes::{BlockChange, Place, Remove, UpdateRequest};
use redlab::interactions::interact;
use redlab::redstone::junctions::JunctionType;
use redlab::redstone::scheduler::NotifyDelay;
use redlab::redstone::ticks::GlobalTick;
use redlab::simulation::{vacant_of, FrameReport, World};

const BUDGET: usize = 10_000;

fn at(x: i32, y: i32, z: i32) -> BlockPos {
    BlockPos::new(x, y, z)
}

fn grass() -> BlockType {
    BlockType::StandardGrass(StandardGrass { power: 0 })
}

fn dust(shape: JunctionType, power: u8) -> BlockType {
    BlockType::Dust(Dust { shape, power })
}

fn place(world: &mut World, p: BlockPos, block_type: BlockType) {
    world.submit(BlockChange::Place(Place::new(
        Some(block_type),
        p,
        true,
        Some(NotifyDelay::Immediate),
        NeighbourUpdate::extended(),
    )));
}

fn remove(world: &mut World, p: BlockPos) {
    world.submit(BlockChange::Remove(Remove::new(p, true, None, NeighbourUpdate::extended())));
}

/// Runs frames at the tick `now` until one of them has nothing to draw and
/// leaves nothing due, and gives the positions that were drawn meanwhile.
fn settle(world: &mut World, now: u64) -> Vec<BlockPos> {
    let mut drawn = Vec::new();
    for _ in 0..64 {
        let report = world.apply_and_react(now, BUDGET);
        let idle = report.present.is_empty() && report.removed.is_empty() && report.left_due == 0;
        drawn.extend(report.present.iter().map(|(p, _)| *p));
        drawn.extend(report.removed.iter().copied());
        if idle {
            return drawn;
        }
    }
    panic!("the world does not come to rest");
}

fn power_at(world: &World, p: BlockPos) -> u8 {
    match world.query(p) {
        Some(BlockType::Dust(d)) => d.power,
        Some(BlockType::RedStoneLamp(l)) => l.power,
        other => panic!("no power stored at {:?}: {:?}", p, other),
    }
}

fn shape_at(world: &World, p: BlockPos) -> JunctionType {
    match world.query(p) {
        Some(BlockType::Dust(d)) => d.shape,
        other => panic!("no dust at {:?}: {:?}", p, other),
    }
}

fn floor(world: &mut World, from: i32, to: i32) {
    for x in from..=to {
        place(world, at(x, 0, 0), grass());
    }
}

#[test]
fn new_world_is_air() {
    let mut world = World::new();
    assert_eq!(world.query(at(0, 0, 0)), None);
    let report = world.apply_and_react(0, BUDGET);
    assert_eq!(report, FrameReport { present: vec![], removed: vec![], left_due: 0 });
    assert_eq!(World::default().query(at(1, 1, 1)), None);
}

#[test]
fn submit_takes_effect_in_the_next_frame() {
    let mut world = World::new();
    place(&mut world, at(0, 0, 0), grass());
    assert_eq!(world.query(at(0, 0, 0)), None);
    let report = world.apply_and_react(0, BUDGET);
    assert_eq!(world.query(at(0, 0, 0)), Some(grass()));
    assert_eq!(report.present, vec![(at(0, 0, 0), grass())]);
    assert_eq!(report.removed, vec![]);
    assert_eq!(report.left_due, 0);
    assert_eq!(world.grid().get_blocktype(at(0, 0, 0)), Some(&grass()));
}

#[test]
fn wire_line_decay() {
    let mut world = World::new();
    floor(&mut world, 0, 6);
    place(&mut world, at(0, 1, 0), BlockType::RedStone(RedStone));
    for x in 1..=5 {
        place(&mut world, at(x, 1, 0), dust(JunctionType::Dot, 0));
    }
    settle(&mut world, 0);
    let powers: Vec<u8> = (1..=5).map(|x| power_at(&world, at(x, 1, 0))).collect();
    assert_eq!(powers, vec![15, 14, 13, 12, 11]);
    // the far end emits no strong power
    let far = world.query(at(5, 1, 0)).unwrap();
    assert_eq!(far.strong_power_emitted_to(at(6, 1, 0), at(5, 1, 0), &grass()), 0);
    // the shapes followed
    assert_eq!(shape_at(&world, at(1, 1, 0)), JunctionType::Horizontal);
    assert_eq!(shape_at(&world, at(3, 1, 0)), JunctionType::Horizontal);
    assert_eq!(shape_at(&world, at(5, 1, 0)), JunctionType::Horizontal);
    // a second run changes nothing
    let again = world.apply_and_react(0, BUDGET);
    assert_eq!(again, FrameReport { present: vec![], removed: vec![], left_due: 0 });
    let powers: Vec<u8> = (1..=5).map(|x| power_at(&world, at(x, 1, 0))).collect();
    assert_eq!(powers, vec![15, 14, 13, 12, 11]);
}

#[test]
fn wire_line_fades_when_the_source_goes() {
    let mut world = World::new();
    floor(&mut world, 0, 6);
    place(&mut world, at(0, 1, 0), BlockType::RedStone(RedStone));
    for x in 1..=5 {
        place(&mut world, at(x, 1, 0), dust(JunctionType::Dot, 0));
    }
    settle(&mut world, 0);
    remove(&mut world, at(0, 1, 0));
    settle(&mut world, 0);
    assert_eq!(world.query(at(0, 1, 0)), None);
    let powers: Vec<u8> = (1..=5).map(|x| power_at(&world, at(x, 1, 0))).collect();
    assert_eq!(powers, vec![0, 0, 0, 0, 0]);
    assert_eq!(shape_at(&world, at(1, 1, 0)), JunctionType::Horizontal);
}

#[test]
fn two_full_wires_give_fourteen() {
    let mut world = World::new();
    floor(&mut world, -2, 2);
    place(&mut world, at(-2, 1, 0), BlockType::RedStone(RedStone));
    place(&mut world, at(2, 1, 0), BlockType::RedStone(RedStone));
    place(&mut world, at(-1, 1, 0), dust(JunctionType::Dot, 0));
    place(&mut world, at(1, 1, 0), dust(JunctionType::Dot, 0));
    place(&mut world, at(0, 1, 0), dust(JunctionType::Dot, 0));
    settle(&mut world, 0);
    assert_eq!(power_at(&world, at(-1, 1, 0)), 15);
    assert_eq!(power_at(&world, at(1, 1, 0)), 15);
    assert_eq!(power_at(&world, at(0, 1, 0)), 14);
}

#[test]
fn power_stays_within_bounds() {
    let mut world = World::new();
    floor(&mut world, -3, 3);
    for x in -3..=3 {
        place(&mut world, at(x, 0, 1), grass());
        place(&mut world, at(x, 1, 1), BlockType::RedStone(RedStone));
        place(&mut world, at(x, 1, 0), dust(JunctionType::Dot, 15));
    }
    place(&mut world, at(0, 1, -1), BlockType::RedStoneLamp(RedStoneLamp { power: 0 }));
    settle(&mut world, 0);
    for x in -3..=3 {
        assert_eq!(power_at(&world, at(x, 1, 0)), 15);
    }
    assert_eq!(power_at(&world, at(0, 1, -1)), 14);
}

#[test]
fn lamp_follows_the_wire() {
    let mut world = World::new();
    floor(&mut world, 0, 3);
    place(&mut world, at(1, 1, 0), dust(JunctionType::Dot, 0));
    place(&mut world, at(2, 1, 0), BlockType::RedStoneLamp(RedStoneLamp { power: 0 }));
    settle(&mut world, 0);
    assert_eq!(power_at(&world, at(2, 1, 0)), 0);
    place(&mut world, at(0, 1, 0), BlockType::RedStone(RedStone));
    settle(&mut world, 0);
    assert_eq!(power_at(&world, at(1, 1, 0)), 15);
    assert_eq!(power_at(&world, at(2, 1, 0)), 14);
    remove(&mut world, at(0, 1, 0));
    settle(&mut world, 0);
    assert_eq!(power_at(&world, at(2, 1, 0)), 0);
}

#[test]
fn grass_to_dirt() {
    let mut world = World::new();
    place(&mut world, at(0, 0, 0), grass());
    settle(&mut world, 0);
    assert_eq!(world.query(at(0, 0, 0)), Some(grass()));
    place(&mut world, at(0, 1, 0), grass());
    settle(&mut world, 0);
    assert_eq!(world.query(at(0, 0, 0)), Some(BlockType::Dirt(Dirt { power: 0 })));
    assert_eq!(world.query(at(0, 1, 0)), Some(grass()));
    // asking again changes nothing
    world.submit(BlockChange::NotifyNeighbours(at(0, 1, 0)));
    let drawn = settle(&mut world, 0);
    assert_eq!(drawn, vec![]);
    assert_eq!(world.query(at(0, 0, 0)), Some(BlockType::Dirt(Dirt { power: 0 })));
}

#[test]
fn grass_under_dirt_converts_too() {
    let mut world = World::new();
    place(&mut world, at(0, 0, 0), grass());
    place(&mut world, at(0, 1, 0), BlockType::Dirt(Dirt { power: 0 }));
    settle(&mut world, 0);
    assert_eq!(world.query(at(0, 0, 0)), Some(BlockType::Dirt(Dirt { power: 0 })));
}

#[test]
fn removal_cascade() {
    let mut world = World::new();
    floor(&mut world, 0, 2);
    for x in 0..=2 {
        place(&mut world, at(x, 1, 0), dust(JunctionType::Dot, 0));
    }
    settle(&mut world, 0);
    assert_eq!(shape_at(&world, at(0, 1, 0)), JunctionType::Horizontal);
    assert_eq!(shape_at(&world, at(1, 1, 0)), JunctionType::Horizontal);
    assert_eq!(shape_at(&world, at(2, 1, 0)), JunctionType::Horizontal);

    remove(&mut world, at(1, 1, 0));
    let report = world.apply_and_react(0, BUDGET);
    // the cell is gone, and is reported as such
    assert_eq!(world.query(at(1, 1, 0)), None);
    assert!(report.removed.contains(&at(1, 1, 0)));
    // both remaining pieces were asked in this frame and are to be drawn again
    let mut redrawn: Vec<BlockPos> = report.present.iter().map(|(p, _)| *p).collect();
    redrawn.sort_by_key(|p| p.x);
    assert_eq!(redrawn, vec![at(0, 1, 0), at(2, 1, 0)]);
    settle(&mut world, 0);
    assert_eq!(shape_at(&world, at(0, 1, 0)), JunctionType::Dot);
    assert_eq!(shape_at(&world, at(2, 1, 0)), JunctionType::Dot);
    assert_eq!(world.query(at(1, 1, 0)), None);
}

#[test]
fn removal_in_a_longer_line_leaves_lines() {
    let mut world = World::new();
    floor(&mut world, 0, 4);
    for x in 0..=4 {
        place(&mut world, at(x, 1, 0), dust(JunctionType::Dot, 0));
    }
    settle(&mut world, 0);
    remove(&mut world, at(2, 1, 0));
    settle(&mut world, 0);
    assert_eq!(shape_at(&world, at(0, 1, 0)), JunctionType::Horizontal);
    assert_eq!(shape_at(&world, at(1, 1, 0)), JunctionType::Horizontal);
    assert_eq!(shape_at(&world, at(3, 1, 0)), JunctionType::Horizontal);
    assert_eq!(shape_at(&world, at(4, 1, 0)), JunctionType::Horizontal);
}

#[test]
fn removing_air_changes_nothing() {
    let mut world = World::new();
    place(&mut world, at(0, 0, 0), grass());
    settle(&mut world, 0);
    remove(&mut world, at(0, 1, 0));
    let report = world.apply_and_react(0, BUDGET);
    assert_eq!(report, FrameReport { present: vec![], removed: vec![], left_due: 0 });
    assert_eq!(world.query(at(0, 0, 0)), Some(grass()));
}

#[test]
fn torch_delay() {
    let mut world = World::new();
    let carrier = at(0, 0, 0);
    let torch_at = at(0, 1, 0);
    let lit = BlockType::RedStoneTorch(RedStoneTorch { lit: true, attached_face: at(0, 1, 0) });
    let unlit = BlockType::RedStoneTorch(RedStoneTorch { lit: false, attached_face: at(0, 1, 0) });
    world.submit(BlockChange::Place(Place::new(
        Some(grass()),
        carrier,
        true,
        None,
        NeighbourUpdate::none(),
    )));
    world.submit(BlockChange::Place(Place::new(
        Some(lit),
        torch_at,
        true,
        None,
        NeighbourUpdate::none(),
    )));
    settle(&mut world, 7);
    assert_eq!(world.query(torch_at), Some(lit));

    // frame N: the carrier becomes powered, and its neighbours look again
    world.submit(BlockChange::Place(Place::new(
        Some(BlockType::RedStone(RedStone)),
        at(1, 0, 0),
        true,
        None,
        NeighbourUpdate::default_set(),
    )));
    world.submit(BlockChange::NotifyNeighbours(carrier));
    world.apply_and_react(7, BUDGET);
    assert!(world.grid().is_powered(carrier));
    assert_eq!(world.query(torch_at), Some(lit));
    // further frames without a step of the clock change nothing
    settle(&mut world, 7);
    assert_eq!(world.query(torch_at), Some(lit));
    world.advance(7);
    settle(&mut world, 7);
    assert_eq!(world.query(torch_at), Some(lit));
    // the tick fires with the next step of the clock
    world.advance(8);
    settle(&mut world, 8);
    assert_eq!(world.query(torch_at), Some(unlit));

    // and back, one tick after the power went
    remove(&mut world, at(1, 0, 0));
    world.submit(BlockChange::NotifyNeighbours(carrier));
    settle(&mut world, 8);
    assert_eq!(world.query(torch_at), Some(unlit));
    world.advance(9);
    settle(&mut world, 9);
    assert_eq!(world.query(torch_at), Some(lit));
}

#[test]
fn lit_torch_powers_dust_next_to_it() {
    let mut world = World::new();
    floor(&mut world, 0, 2);
    let torch = BlockType::RedStoneTorch(RedStoneTorch { lit: true, attached_face: at(0, 1, 0) });
    place(&mut world, at(0, 1, 0), torch);
    place(&mut world, at(1, 1, 0), dust(JunctionType::Dot, 0));
    place(&mut world, at(2, 1, 0), dust(JunctionType::Dot, 0));
    settle(&mut world, 0);
    assert_eq!(power_at(&world, at(1, 1, 0)), 14);
    assert_eq!(power_at(&world, at(2, 1, 0)), 13);
    assert_eq!(shape_at(&world, at(1, 1, 0)), JunctionType::Horizontal);
}

#[test]
fn button_timeout() {
    let mut world = World::new();
    let carrier = at(0, 0, 0);
    let button_at = at(1, 0, 0);
    let face = at(-1, 0, 0);
    place(&mut world, carrier, grass());
    place(
        &mut world,
        button_at,
        BlockType::StoneButton(StoneButton { pressed: false, attached_face: face, ticks: 10 }),
    );
    settle(&mut world, 0);
    assert!(!world.grid().is_powered(carrier));

    let press = interact(world.grid(), button_at).expect("a button can be pressed");
    world.submit(press);
    settle(&mut world, 0);
    assert_eq!(
        world.query(button_at),
        Some(BlockType::StoneButton(StoneButton { pressed: true, attached_face: face, ticks: 10 }))
    );
    assert!(world.grid().is_powered(carrier));

    for now in 1..=9u64 {
        world.advance(now);
        settle(&mut world, now);
        assert_eq!(
            world.query(button_at),
            Some(BlockType::StoneButton(StoneButton {
                pressed: true,
                attached_face: face,
                ticks: 10 - now as u8
            }))
        );
        assert_eq!(world.grid().get_direct_signal(carrier), 15, "at tick {}", now);
    }
    world.advance(10);
    settle(&mut world, 10);
    assert_eq!(
        world.query(button_at),
        Some(BlockType::StoneButton(StoneButton { pressed: false, attached_face: face, ticks: 0 }))
    );
    assert_eq!(world.grid().get_direct_signal(carrier), 0);
    let button = world.query(button_at).unwrap();
    assert_eq!(button.strong_power_emitted_to(carrier, button_at, &grass()), 0);
    assert_eq!(button.weak_power_emitted(at(2, 0, 0), button_at, &grass()), 0);
    // nothing is left booked
    world.advance(11);
    let report = world.apply_and_react(11, BUDGET);
    assert_eq!(report, FrameReport { present: vec![], removed: vec![], left_due: 0 });
}

#[test]
fn update_takes_effect_only_where_the_state_differs() {
    let mut world = World::new();
    place(&mut world, at(0, 0, 0), grass());
    place(&mut world, at(1, 0, 0), grass());
    settle(&mut world, 0);

    // same state: nothing is marked
    world.submit(BlockChange::Update(UpdateRequest { position: at(0, 0, 0), block_type: grass() }));
    let report = world.apply_and_react(0, BUDGET);
    assert_eq!(report, FrameReport { present: vec![], removed: vec![], left_due: 0 });

    // an empty cell is not updated
    world.submit(BlockChange::Update(UpdateRequest { position: at(5, 0, 0), block_type: grass() }));
    let report = world.apply_and_react(0, BUDGET);
    assert_eq!(report, FrameReport { present: vec![], removed: vec![], left_due: 0 });
    assert_eq!(world.query(at(5, 0, 0)), None);

    // another state: the cell changes and is drawn again
    let charged = BlockType::StandardGrass(StandardGrass { power: 5 });
    world.submit(BlockChange::Update(UpdateRequest { position: at(0, 0, 0), block_type: charged }));
    let report = world.apply_and_react(0, BUDGET);
    assert_eq!(world.query(at(0, 0, 0)), Some(charged));
    assert_eq!(report.present, vec![(at(0, 0, 0), charged)]);
}

#[test]
fn placement_without_a_block_changes_no_cell_but_books_and_draws() {
    let mut world = World::new();
    let torch = BlockType::RedStoneTorch(RedStoneTorch { lit: false, attached_face: at(0, 1, 0) });
    world.submit(BlockChange::Place(Place::new(
        Some(torch),
        at(0, 1, 0),
        false,
        None,
        NeighbourUpdate::none(),
    )));
    world.apply_and_react(0, BUDGET);
    // no block, so the cell stays; the tick is booked and runs
    world.submit(BlockChange::Place(Place::new(
        None,
        at(0, 1, 0),
        true,
        Some(NotifyDelay::Immediate),
        NeighbourUpdate::none(),
    )));
    let report = world.apply_and_react(0, BUDGET);
    let lit = BlockType::RedStoneTorch(RedStoneTorch { lit: true, attached_face: at(0, 1, 0) });
    assert_eq!(world.query(at(0, 1, 0)), Some(lit));
    assert_eq!(report.present, vec![(at(0, 1, 0), lit)]);
    // in an empty cell it marks the cell as gone
    world.submit(BlockChange::Place(Place::new(
        None,
        at(9, 9, 9),
        true,
        Some(NotifyDelay::Immediate),
        NeighbourUpdate::default_set(),
    )));
    let report = world.apply_and_react(0, BUDGET);
    assert_eq!(report, FrameReport { present: vec![], removed: vec![at(9, 9, 9)], left_due: 0 });
}

#[test]
fn the_budget_bounds_the_drain_pass() {
    let mut world = World::new();
    floor(&mut world, 0, 6);
    place(&mut world, at(0, 1, 0), BlockType::RedStone(RedStone));
    for x in 1..=5 {
        place(&mut world, at(x, 1, 0), dust(JunctionType::Dot, 0));
    }
    let report = world.apply_and_react(0, 0);
    assert!(report.left_due > 0);
    let due = report.left_due;
    // nothing ran: no dust has power yet
    for x in 1..=5 {
        assert_eq!(power_at(&world, at(x, 1, 0)), 0);
    }
    let report = world.apply_and_react(0, 1);
    assert!(report.left_due >= due - 1);
    settle(&mut world, 0);
    assert_eq!(power_at(&world, at(5, 1, 0)), 11);
}

#[test]
fn mark_for_redraw_shows_in_the_next_report() {
    let mut world = World::new();
    place(&mut world, at(0, 0, 0), grass());
    settle(&mut world, 0);
    world.mark_for_redraw(at(0, 0, 0));
    world.mark_for_redraw(at(0, 5, 0));
    let report = world.apply_and_react(0, BUDGET);
    assert_eq!(report.present, vec![(at(0, 0, 0), grass())]);
    assert_eq!(report.removed, vec![at(0, 5, 0)]);
}

#[test]
fn vacant_of_keeps_the_empty_cells_in_order() {
    let mut world = World::new();
    place(&mut world, at(0, 0, 0), grass());
    settle(&mut world, 0);
    assert_eq!(
        vacant_of(world.grid(), &vec![at(2, 0, 0), at(0, 0, 0), at(1, 0, 0), at(2, 0, 0)]),
        vec![at(2, 0, 0), at(1, 0, 0), at(2, 0, 0)]
    );
}

#[test]
fn a_torch_that_is_ticked_at_once_flips_at_once() {
    // The lag of a torch comes from the tick that its reaction books. A
    // request that books the tick of the torch itself at once gets the flip
    // in the same frame.
    let mut world = World::new();
    let carrier = at(0, 0, 0);
    let torch_at = at(0, 1, 0);
    let lit = BlockType::RedStoneTorch(RedStoneTorch { lit: true, attached_face: at(0, 1, 0) });
    let unlit = BlockType::RedStoneTorch(RedStoneTorch { lit: false, attached_face: at(0, 1, 0) });
    world.submit(BlockChange::Place(Place::new(Some(grass()), carrier, true, None, NeighbourUpdate::none())));
    world.submit(BlockChange::Place(Place::new(Some(lit), torch_at, true, None, NeighbourUpdate::none())));
    settle(&mut world, 0);
    // dust of full power beside the carrier, telling the cells round it
    world.submit(BlockChange::Place(Place::new(
        Some(dust(JunctionType::Dot, 15)),
        at(1, 0, 0),
        true,
        None,
        NeighbourUpdate::extended(),
    )));
    world.apply_and_react(0, BUDGET);
    assert_eq!(world.query(torch_at), Some(unlit));
}

#[test]
fn request_delete_marks_and_queues() {
    let mut world = World::new();
    place(&mut world, at(0, 0, 0), grass());
    settle(&mut world, 0);
    world.request_delete(at(0, 0, 0));
    assert_eq!(world.query(at(0, 0, 0)), Some(grass()));
    let report = world.apply_and_react(0, BUDGET);
    assert_eq!(world.query(at(0, 0, 0)), None);
    assert_eq!(report, FrameReport { present: vec![], removed: vec![at(0, 0, 0)], left_due: 0 });
}

#[test]
fn booked_ticks_lists_what_waits() {
    let mut world = World::new();
    assert_eq!(world.booked_ticks(), vec![]);
    world.submit(BlockChange::Place(Place::new(
        Some(grass()),
        at(0, 0, 0),
        false,
        Some(NotifyDelay::In(5)),
        NeighbourUpdate::none(),
    )));
    world.submit(BlockChange::Place(Place::new(
        Some(grass()),
        at(1, 0, 0),
        false,
        Some(NotifyDelay::NextTick),
        NeighbourUpdate::none(),
    )));
    world.apply_and_react(10, BUDGET);
    assert_eq!(
        world.booked_ticks(),
        vec![(11, vec![at(1, 0, 0)]), (15, vec![at(0, 0, 0)])]
    );
    world.advance(11);
    assert_eq!(world.booked_ticks(), vec![(15, vec![at(0, 0, 0)])]);
}

#[test]
fn the_world_ticks_with_a_running_clock() {
    let mut world = World::new();
    let mut clock = GlobalTick { now: 4, running: false };
    world.submit(BlockChange::Place(Place::new(
        Some(BlockType::StoneButton(StoneButton {
            pressed: true,
            attached_face: at(0, -1, 0),
            ticks: 2,
        })),
        at(0, 1, 0),
        false,
        Some(NotifyDelay::NextTick),
        NeighbourUpdate::none(),
    )));
    world.apply_and_react(4, BUDGET);
    assert_eq!(world.tick(&mut clock), None);
    assert_eq!(clock.read(), 4);
    clock.start();
    assert_eq!(world.tick(&mut clock), Some(5));
    assert_eq!(clock.read(), 5);
    world.apply_and_react(5, BUDGET);
    assert_eq!(
        world.query(at(0, 1, 0)),
        Some(BlockType::StoneButton(StoneButton {
            pressed: true,
            attached_face: at(0, -1, 0),
            ticks: 1
        }))
    );
    assert_eq!(world.tick(&mut clock), Some(6));
    world.apply_and_react(6, BUDGET);
    assert_eq!(
        world.query(at(0, 1, 0)),
        Some(BlockType::StoneButton(StoneButton {
            pressed: false,
            attached_face: at(0, -1, 0),
            ticks: 0
        }))
    );
}
