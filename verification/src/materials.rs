//! The look of dust: which of the two textures a shape uses, and which of the
//! sixteen shades a power level has.

use vstd::prelude::*;
use crate::blocks::MAX_POWER;
use crate::redstone::junctions::JunctionType;

verus! {

/// The texture of a piece of dust.
#[derive(Debug, Copy, Clone, Eq, PartialEq, Hash, Structural)]
pub enum RedstoneTexture {
    Dot,
    Line,
}

/// The shade of a piece of dust, one for each power level.
#[derive(Debug, Copy, Clone, Eq, PartialEq, Hash, Structural)]
pub enum RedstonePower {
    P0,
    P1,
    P2,
    P3,
    P4,
    P5,
    P6,
    P7,
    P8,
    P9,
    P10,
    P11,
    P12,
    P13,
    P14,
    P15,
}

impl RedstoneTexture {
    /// The texture of `shape`: a dot has its own, every other shape is made
    /// of lines.
    pub open spec fn of_shape(shape: JunctionType) -> RedstoneTexture {
        if shape == JunctionType::Dot {
            RedstoneTexture::Dot
        } else {
            RedstoneTexture::Line
        }
    }

    /// Both textures.
    pub fn all() -> (a: [RedstoneTexture; 2])
        ensures
            a@ == seq![RedstoneTexture::Dot, RedstoneTexture::Line],
    {
        let a = [RedstoneTexture::Dot, RedstoneTexture::Line];
        assert(a@ =~= seq![RedstoneTexture::Dot, RedstoneTexture::Line]);
        a
    }
}

impl From<JunctionType> for RedstoneTexture {
    fn from(value: JunctionType) -> (t: RedstoneTexture) {
        match value {
            JunctionType::Dot => RedstoneTexture::Dot,
            _ => RedstoneTexture::Line,
        }
    }
}

impl vstd::std_specs::convert::FromSpecImpl<JunctionType> for RedstoneTexture {
    open spec fn obeys_from_spec() -> bool {
        true
    }

    open spec fn from_spec(value: JunctionType) -> RedstoneTexture {
        RedstoneTexture::of_shape(value)
    }
}

impl RedstonePower {
    /// The power level that the shade stands for.
    pub open spec fn level_spec(self) -> u8 {
        match self {
            RedstonePower::P0 => 0,
            RedstonePower::P1 => 1,
            RedstonePower::P2 => 2,
            RedstonePower::P3 => 3,
            RedstonePower::P4 => 4,
            RedstonePower::P5 => 5,
            RedstonePower::P6 => 6,
            RedstonePower::P7 => 7,
            RedstonePower::P8 => 8,
            RedstonePower::P9 => 9,
            RedstonePower::P10 => 10,
            RedstonePower::P11 => 11,
            RedstonePower::P12 => 12,
            RedstonePower::P13 => 13,
            RedstonePower::P14 => 14,
            RedstonePower::P15 => 15,
        }
    }

    /// The shade of the power level `n`; a level above the highest has the
    /// shade of the highest.
    pub open spec fn of_level(n: u8) -> RedstonePower {
        if n == 0 {
            RedstonePower::P0
        } else if n == 1 {
            RedstonePower::P1
        } else if n == 2 {
            RedstonePower::P2
        } else if n == 3 {
            RedstonePower::P3
        } else if n == 4 {
            RedstonePower::P4
        } else if n == 5 {
            RedstonePower::P5
        } else if n == 6 {
            RedstonePower::P6
        } else if n == 7 {
            RedstonePower::P7
        } else if n == 8 {
            RedstonePower::P8
        } else if n == 9 {
            RedstonePower::P9
        } else if n == 10 {
            RedstonePower::P10
        } else if n == 11 {
            RedstonePower::P11
        } else if n == 12 {
            RedstonePower::P12
        } else if n == 13 {
            RedstonePower::P13
        } else if n == 14 {
            RedstonePower::P14
        } else {
            RedstonePower::P15
        }
    }

    /// The power level that the shade stands for.
    pub fn level(&self) -> (n: u8)
        ensures
            n == self.level_spec(),
            n <= MAX_POWER,
    {
        match self {
            RedstonePower::P0 => 0,
            RedstonePower::P1 => 1,
            RedstonePower::P2 => 2,
            RedstonePower::P3 => 3,
            RedstonePower::P4 => 4,
            RedstonePower::P5 => 5,
            RedstonePower::P6 => 6,
            RedstonePower::P7 => 7,
            RedstonePower::P8 => 8,
            RedstonePower::P9 => 9,
            RedstonePower::P10 => 10,
            RedstonePower::P11 => 11,
            RedstonePower::P12 => 12,
            RedstonePower::P13 => 13,
            RedstonePower::P14 => 14,
            RedstonePower::P15 => 15,
        }
    }

    /// The sixteen shades, the shade of level `i` at index `i`.
    pub fn all() -> (a: [RedstonePower; 16])
        ensures
            forall|i: int| 0 <= i < 16 ==> (#[trigger] a@[i]).level_spec() == i,
    {
        [
            RedstonePower::P0,
            RedstonePower::P1,
            RedstonePower::P2,
            RedstonePower::P3,
            RedstonePower::P4,
            RedstonePower::P5,
            RedstonePower::P6,
            RedstonePower::P7,
            RedstonePower::P8,
            RedstonePower::P9,
            RedstonePower::P10,
            RedstonePower::P11,
            RedstonePower::P12,
            RedstonePower::P13,
            RedstonePower::P14,
            RedstonePower::P15,
        ]
    }
}

impl From<u8> for RedstonePower {
    fn from(n: u8) -> (p: RedstonePower) {
        match n {
            0 => RedstonePower::P0,
            1 => RedstonePower::P1,
            2 => RedstonePower::P2,
            3 => RedstonePower::P3,
            4 => RedstonePower::P4,
            5 => RedstonePower::P5,
            6 => RedstonePower::P6,
            7 => RedstonePower::P7,
            8 => RedstonePower::P8,
            9 => RedstonePower::P9,
            10 => RedstonePower::P10,
            11 => RedstonePower::P11,
            12 => RedstonePower::P12,
            13 => RedstonePower::P13,
            14 => RedstonePower::P14,
            _ => RedstonePower::P15,
        }
    }
}

impl vstd::std_specs::convert::FromSpecImpl<u8> for RedstonePower {
    open spec fn obeys_from_spec() -> bool {
        true
    }

    open spec fn from_spec(n: u8) -> RedstonePower {
        RedstonePower::of_level(n)
    }
}

/// A shade stands for the level it was made of, and for the highest level
/// where it was made of more.
pub proof fn lemma_shade_keeps_level(n: u8)
    ensures
        RedstonePower::of_level(n).level_spec() == if n <= MAX_POWER {
            n
        } else {
            MAX_POWER
        },
{
}

} // verus!
