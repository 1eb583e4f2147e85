use redlab::block_position::BlockPos;
use redlab::materials::{RedstonePower, RedstoneTexture};
use redlab::redstone::junctions::JunctionType;

#[test]
fn shade_of_each_level() {
    let all = RedstonePower::all();
    assert_eq!(all.len(), 16);
    for n in 0..=15u8 {
        let shade = RedstonePower::from(n);
        assert_eq!(shade.level(), n);
        assert_eq!(all[n as usize], shade);
    }
    assert_eq!(RedstonePower::from(0), RedstonePower::P0);
    assert_eq!(RedstonePower::from(9), RedstonePower::P9);
    assert_eq!(RedstonePower::from(15), RedstonePower::P15);
}

#[test]
fn shade_above_the_highest_level_is_the_highest() {
    assert_eq!(RedstonePower::from(16), RedstonePower::P15);
    assert_eq!(RedstonePower::from(255), RedstonePower::P15);
    assert_eq!(RedstonePower::from(200).level(), 15);
}

#[test]
fn texture_of_each_shape() {
    assert_eq!(RedstoneTexture::from(JunctionType::Dot), RedstoneTexture::Dot);
    let lines = [
        JunctionType::Vertical,
        JunctionType::Horizontal,
        JunctionType::CornerNE,
        JunctionType::CornerNW,
        JunctionType::CornerSE,
        JunctionType::CornerSW,
        JunctionType::TNorth,
        JunctionType::TSouth,
        JunctionType::TEast,
        JunctionType::TWest,
        JunctionType::Cross,
    ];
    for shape in lines {
        assert_eq!(RedstoneTexture::from(shape), RedstoneTexture::Line);
    }
    assert_eq!(RedstoneTexture::all(), [RedstoneTexture::Dot, RedstoneTexture::Line]);
}

#[test]
fn position_from_a_tuple() {
    assert_eq!(BlockPos::from((1, -2, 3)), BlockPos::new(1, -2, 3));
    let p: BlockPos = (i32::MIN, 0, i32::MAX).into();
    assert_eq!(p.value(), (i32::MIN, 0, i32::MAX));
}
