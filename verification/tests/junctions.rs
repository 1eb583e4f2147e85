use redlab::block_position::BlockPos;
use redlab::blocks::{BlockType, Dirt, Dust, RedStone, RedStoneLamp, RedStoneTorch, StandardGrass, StoneButton};
use redlab::grid::{BlockData, Grid};
use redlab::redstone::junctions::{get_junction_type, has_redstone, resolve_junction, JunctionType};

fn put(grid: &mut Grid, x: i32, y: i32, z: i32, block_type: BlockType) {
    grid.insert(BlockPos::new(x, y, z), BlockData { block_type });
}

fn dust() -> BlockType {
    BlockType::Dust(Dust { shape: JunctionType::Dot, power: 0 })
}

#[test]
fn junction_table_has_all_sixteen_rows() {
    let t = true;
    let f = false;
    assert_eq!(get_junction_type(f, f, f, f), JunctionType::Dot);
    assert_eq!(get_junction_type(t, t, t, t), JunctionType::Cross);
    assert_eq!(get_junction_type(t, f, t, t), JunctionType::TNorth);
    assert_eq!(get_junction_type(t, t, t, f), JunctionType::TEast);
    assert_eq!(get_junction_type(t, t, f, t), JunctionType::TWest);
    assert_eq!(get_junction_type(f, t, t, t), JunctionType::TSouth);
    assert_eq!(get_junction_type(t, t, f, f), JunctionType::Vertical);
    assert_eq!(get_junction_type(t, f, f, f), JunctionType::Vertical);
    assert_eq!(get_junction_type(f, t, f, f), JunctionType::Vertical);
    assert_eq!(get_junction_type(f, f, t, t), JunctionType::Horizontal);
    assert_eq!(get_junction_type(f, f, f, t), JunctionType::Horizontal);
    assert_eq!(get_junction_type(f, f, t, f), JunctionType::Horizontal);
    assert_eq!(get_junction_type(f, t, t, f), JunctionType::CornerNE);
    assert_eq!(get_junction_type(t, f, f, t), JunctionType::CornerSW);
    assert_eq!(get_junction_type(t, f, t, f), JunctionType::CornerSE);
    assert_eq!(get_junction_type(f, t, f, t), JunctionType::CornerNW);
}

#[test]
fn junction_with_at_most_one_connection_is_dot_or_line() {
    let single = [
        (false, false, false, false),
        (true, false, false, false),
        (false, true, false, false),
        (false, false, true, false),
        (false, false, false, true),
    ];
    for (n, s, e, w) in single {
        let shape = get_junction_type(n, s, e, w);
        assert!(matches!(
            shape,
            JunctionType::Dot | JunctionType::Vertical | JunctionType::Horizontal
        ));
    }
}

#[test]
fn junction_default_is_dot() {
    assert_eq!(JunctionType::default(), JunctionType::Dot);
}

#[test]
fn has_redstone_tells_the_kinds_apart() {
    let yes = [
        dust(),
        BlockType::RedStone(RedStone),
        BlockType::RedStoneLamp(RedStoneLamp { power: 0 }),
        BlockType::RedStoneTorch(RedStoneTorch { lit: false, attached_face: BlockPos::new(0, 1, 0) }),
    ];
    let no = [
        BlockType::StandardGrass(StandardGrass { power: 0 }),
        BlockType::Dirt(Dirt { power: 0 }),
        BlockType::StoneButton(StoneButton {
            pressed: true,
            attached_face: BlockPos::new(0, 1, 0),
            ticks: 3,
        }),
    ];
    for block_type in yes {
        assert!(has_redstone(&BlockData { block_type }));
    }
    for block_type in no {
        assert!(!has_redstone(&BlockData { block_type }));
    }
}

#[test]
fn resolve_junction_reads_north_south_east_west() {
    let mut grid = Grid::new();
    let here = BlockPos::new(0, 1, 0);
    assert_eq!(resolve_junction(here, &grid), JunctionType::Dot);
    // north is -z
    put(&mut grid, 0, 1, -1, dust());
    assert_eq!(resolve_junction(here, &grid), JunctionType::Vertical);
    // east is +x
    put(&mut grid, 1, 1, 0, BlockType::RedStone(RedStone));
    assert_eq!(resolve_junction(here, &grid), JunctionType::CornerSE);
    // west is -x
    put(&mut grid, -1, 1, 0, BlockType::RedStoneLamp(RedStoneLamp { power: 0 }));
    assert_eq!(resolve_junction(here, &grid), JunctionType::TNorth);
    // south is +z
    put(
        &mut grid,
        0,
        1,
        1,
        BlockType::RedStoneTorch(RedStoneTorch { lit: true, attached_face: BlockPos::new(0, 1, 0) }),
    );
    assert_eq!(resolve_junction(here, &grid), JunctionType::Cross);
}

#[test]
fn resolve_junction_ignores_grass_and_other_levels() {
    let mut grid = Grid::new();
    let here = BlockPos::new(0, 1, 0);
    put(&mut grid, 1, 1, 0, BlockType::StandardGrass(StandardGrass { power: 0 }));
    put(&mut grid, 0, 2, 0, dust());
    put(&mut grid, 0, 0, 0, dust());
    put(&mut grid, 1, 1, 1, dust());
    assert_eq!(resolve_junction(here, &grid), JunctionType::Dot);
}

#[test]
fn resolve_junction_at_the_edge_of_the_world() {
    let mut grid = Grid::new();
    let corner = BlockPos::new(i32::MAX, 0, i32::MIN);
    put(&mut grid, i32::MAX - 1, 0, i32::MIN, dust());
    put(&mut grid, i32::MAX, 0, i32::MIN + 1, dust());
    // west and south are connected; east and north do not exist
    assert_eq!(resolve_junction(corner, &grid), JunctionType::CornerNW);
}
