//! Integer grid coordinates.
//!
//! A [`BlockPos`] names one cell of the voxel world. The same three-component
//! integer vector also serves as an offset between two cells and as the normal
//! of a block face. Arithmetic on it is checked: a sum that leaves the `i32`
//! range has no cell, and every lookup there answers "air".

use vstd::prelude::*;

verus! {

/// A cell of the world, or a displacement between two cells.
#[derive(Clone, Copy, Debug, PartialEq, Eq, Hash, Structural)]
pub struct BlockPos {
    pub x: i32,
    pub y: i32,
    pub z: i32,
}

/// Whether `v` can be stored in one coordinate.
pub open spec fn fits_coordinate(v: int) -> bool {
    i32::MIN <= v <= i32::MAX
}

/// The unit vectors along the axes, as values of specifications.
pub open spec fn axis_x() -> BlockPos {
    BlockPos { x: 1, y: 0, z: 0 }
}

pub open spec fn axis_neg_x() -> BlockPos {
    BlockPos { x: -1i32, y: 0, z: 0 }
}

pub open spec fn axis_y() -> BlockPos {
    BlockPos { x: 0, y: 1, z: 0 }
}

pub open spec fn axis_neg_y() -> BlockPos {
    BlockPos { x: 0, y: -1i32, z: 0 }
}

pub open spec fn axis_z() -> BlockPos {
    BlockPos { x: 0, y: 0, z: 1 }
}

pub open spec fn axis_neg_z() -> BlockPos {
    BlockPos { x: 0, y: 0, z: -1i32 }
}

/// The six face directions, in the order in which neighbours are visited:
/// up, down, south (+z), north (-z), east (+x), west (-x).
pub open spec fn all_dirs_spec() -> Seq<BlockPos> {
    seq![axis_y(), axis_neg_y(), axis_z(), axis_neg_z(), axis_x(), axis_neg_x()]
}

/// The four horizontal directions: south, north, east, west.
pub open spec fn dirs_spec() -> Seq<BlockPos> {
    seq![axis_z(), axis_neg_z(), axis_x(), axis_neg_x()]
}

impl BlockPos {
    /// The cell `self + by`, if each of its coordinates fits.
    pub open spec fn plus(self, by: BlockPos) -> Option<BlockPos> {
        if fits_coordinate(self.x + by.x) && fits_coordinate(self.y + by.y) && fits_coordinate(
            self.z + by.z,
        ) {
            Some(
                BlockPos {
                    x: (self.x + by.x) as i32,
                    y: (self.y + by.y) as i32,
                    z: (self.z + by.z) as i32,
                },
            )
        } else {
            None
        }
    }

    /// The cell `self - by`, if each of its coordinates fits.
    pub open spec fn minus(self, by: BlockPos) -> Option<BlockPos> {
        if fits_coordinate(self.x - by.x) && fits_coordinate(self.y - by.y) && fits_coordinate(
            self.z - by.z,
        ) {
            Some(
                BlockPos {
                    x: (self.x - by.x) as i32,
                    y: (self.y - by.y) as i32,
                    z: (self.z - by.z) as i32,
                },
            )
        } else {
            None
        }
    }

    /// The vector that points the other way, if each of its coordinates fits.
    pub open spec fn opposite(self) -> Option<BlockPos> {
        (BlockPos { x: 0, y: 0, z: 0 }).minus(self)
    }

    /// The cells next to `self` through a face, in the order of
    /// east, west, south, north, up, down, without those that do not fit.
    pub open spec fn neighbours_spec(self) -> Seq<BlockPos> {
        present(self.plus(axis_x())) + present(self.plus(axis_neg_x())) + present(
            self.plus(axis_z()),
        ) + present(self.plus(axis_neg_z())) + present(self.plus(axis_y())) + present(
            self.plus(axis_neg_y()),
        )
    }

    pub fn new(x: i32, y: i32, z: i32) -> (p: BlockPos)
        ensures
            p == (BlockPos { x, y, z }),
    {
        BlockPos { x, y, z }
    }

    /// The three coordinates.
    pub fn value(&self) -> (v: (i32, i32, i32))
        ensures
            v == (self.x, self.y, self.z),
    {
        (self.x, self.y, self.z)
    }

    /// `self + by`, or `None` where a coordinate would leave the `i32` range.
    pub fn offset(&self, by: BlockPos) -> (r: Option<BlockPos>)
        ensures
            r == self.plus(by),
    {
        match (self.x.checked_add(by.x), self.y.checked_add(by.y), self.z.checked_add(by.z)) {
            (Some(x), Some(y), Some(z)) => Some(BlockPos { x, y, z }),
            _ => None,
        }
    }

    /// `self - by`, or `None` where a coordinate would leave the `i32` range.
    pub fn offset_back(&self, by: BlockPos) -> (r: Option<BlockPos>)
        ensures
            r == self.minus(by),
    {
        match (self.x.checked_sub(by.x), self.y.checked_sub(by.y), self.z.checked_sub(by.z)) {
            (Some(x), Some(y), Some(z)) => Some(BlockPos { x, y, z }),
            _ => None,
        }
    }

    /// The vector that points the other way, or `None` where a coordinate
    /// has no negative in the `i32` range.
    pub fn negated(&self) -> (r: Option<BlockPos>)
        ensures
            r == self.opposite(),
    {
        (BlockPos { x: 0, y: 0, z: 0 }).offset_back(*self)
    }

    /// The cell one step towards +z.
    pub fn front(&self) -> (r: Option<BlockPos>)
        ensures
            r == self.plus(axis_z()),
    {
        self.offset(unit_z())
    }

    /// The cell one step towards -z.
    pub fn back(&self) -> (r: Option<BlockPos>)
        ensures
            r == self.plus(axis_neg_z()),
    {
        self.offset(unit_neg_z())
    }

    /// The face neighbours of `self` that exist.
    pub fn neighbours(&self) -> (r: Vec<BlockPos>)
        ensures
            r@ == self.neighbours_spec(),
    {
        let dirs = [unit_x(), unit_neg_x(), unit_z(), unit_neg_z(), unit_y(), unit_neg_y()];
        let ghost steps = seq![
            axis_x(),
            axis_neg_x(),
            axis_z(),
            axis_neg_z(),
            axis_y(),
            axis_neg_y(),
        ];
        let mut out: Vec<BlockPos> = Vec::new();
        let mut i: usize = 0;
        while i < 6
            invariant
                i <= 6,
                dirs@ == steps,
                steps == seq![
                    axis_x(),
                    axis_neg_x(),
                    axis_z(),
                    axis_neg_z(),
                    axis_y(),
                    axis_neg_y(),
                ],
                out@ == existing_upto(*self, steps, i as int),
            decreases 6 - i,
        {
            proof {
                reveal_with_fuel(existing_upto, 2);
            }
            match self.offset(dirs[i]) {
                Some(p) => out.push(p),
                None => {},
            }
            i = i + 1;
        }
        proof {
            reveal_with_fuel(existing_upto, 7);
            assert(out@ =~= self.neighbours_spec());
        }
        out
    }
}

impl From<(i32, i32, i32)> for BlockPos {
    fn from(value: (i32, i32, i32)) -> (p: BlockPos) {
        BlockPos { x: value.0, y: value.1, z: value.2 }
    }
}

impl vstd::std_specs::convert::FromSpecImpl<(i32, i32, i32)> for BlockPos {
    open spec fn obeys_from_spec() -> bool {
        true
    }

    open spec fn from_spec(value: (i32, i32, i32)) -> BlockPos {
        BlockPos { x: value.0, y: value.1, z: value.2 }
    }
}

/// `Some(p)` as a one-element sequence, `None` as the empty one.
pub open spec fn present(p: Option<BlockPos>) -> Seq<BlockPos> {
    match p {
        Some(q) => seq![q],
        None => Seq::empty(),
    }
}

/// The cells `from + steps[k]` for `k < n` that exist, in that order.
pub open spec fn existing_upto(from: BlockPos, steps: Seq<BlockPos>, n: int) -> Seq<BlockPos>
    decreases n,
{
    if n <= 0 {
        Seq::empty()
    } else {
        existing_upto(from, steps, n - 1) + present(from.plus(steps[n - 1]))
    }
}

pub fn unit_x() -> (d: BlockPos)
    ensures
        d == axis_x(),
{
    BlockPos { x: 1, y: 0, z: 0 }
}

pub fn unit_neg_x() -> (d: BlockPos)
    ensures
        d == axis_neg_x(),
{
    BlockPos { x: -1, y: 0, z: 0 }
}

pub fn unit_y() -> (d: BlockPos)
    ensures
        d == axis_y(),
{
    BlockPos { x: 0, y: 1, z: 0 }
}

pub fn unit_neg_y() -> (d: BlockPos)
    ensures
        d == axis_neg_y(),
{
    BlockPos { x: 0, y: -1, z: 0 }
}

pub fn unit_z() -> (d: BlockPos)
    ensures
        d == axis_z(),
{
    BlockPos { x: 0, y: 0, z: 1 }
}

pub fn unit_neg_z() -> (d: BlockPos)
    ensures
        d == axis_neg_z(),
{
    BlockPos { x: 0, y: 0, z: -1 }
}

/// The six face directions.
pub fn all_dirs() -> (d: [BlockPos; 6])
    ensures
        d@ == all_dirs_spec(),
{
    let d = [unit_y(), unit_neg_y(), unit_z(), unit_neg_z(), unit_x(), unit_neg_x()];
    assert(d@ =~= all_dirs_spec());
    d
}

/// The four horizontal directions.
pub fn dirs() -> (d: [BlockPos; 4])
    ensures
        d@ == dirs_spec(),
{
    let d = [unit_z(), unit_neg_z(), unit_x(), unit_neg_x()];
    assert(d@ =~= dirs_spec());
    d
}

} // verus!
