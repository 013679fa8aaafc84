//! Integer coordinates and sizes of windows and monitors.

use vstd::prelude::*;

verus! {

/// A point or an offset in whole pixels.
#[derive(Clone, Copy, Debug, PartialEq, Eq, Hash, Structural)]
pub struct IVec2 {
    /// Horizontal component, growing to the right.
    pub x: i32,
    /// Vertical component, growing downwards.
    pub y: i32,
}

/// A size in whole pixels.
#[derive(Clone, Copy, Debug, PartialEq, Eq, Hash, Structural)]
pub struct UVec2 {
    /// Width.
    pub x: u32,
    /// Height.
    pub y: u32,
}

impl IVec2 {
    pub fn new(x: i32, y: i32) -> (result: Self)
        ensures
            result == (IVec2 { x, y }),
    {
        IVec2 { x, y }
    }

    /// Whether the componentwise sum with `other` stays within `i32`.
    pub open spec fn sum_fits(self, other: IVec2) -> bool {
        &&& i32::MIN <= self.x + other.x <= i32::MAX
        &&& i32::MIN <= self.y + other.y <= i32::MAX
    }

    /// The componentwise sum.
    pub open spec fn sum(self, other: IVec2) -> IVec2 {
        IVec2 { x: (self.x + other.x) as i32, y: (self.y + other.y) as i32 }
    }

    /// Whether the componentwise difference with `other` stays within `i32`.
    pub open spec fn difference_fits(self, other: IVec2) -> bool {
        &&& i32::MIN <= self.x - other.x <= i32::MAX
        &&& i32::MIN <= self.y - other.y <= i32::MAX
    }

    /// The componentwise difference.
    pub open spec fn difference(self, other: IVec2) -> IVec2 {
        IVec2 { x: (self.x - other.x) as i32, y: (self.y - other.y) as i32 }
    }

    /// This point moved by `offset`.
    pub fn plus(self, offset: IVec2) -> (result: IVec2)
        requires
            self.sum_fits(offset),
        ensures
            result == self.sum(offset),
    {
        IVec2 { x: self.x + offset.x, y: self.y + offset.y }
    }

    /// The offset from `origin` to this point.
    pub fn minus(self, origin: IVec2) -> (result: IVec2)
        requires
            self.difference_fits(origin),
        ensures
            result == self.difference(origin),
    {
        IVec2 { x: self.x - origin.x, y: self.y - origin.y }
    }
}

impl UVec2 {
    pub fn new(x: u32, y: u32) -> (result: Self)
        ensures
            result == (UVec2 { x, y }),
    {
        UVec2 { x, y }
    }
}

/// A sum and a difference are taken in each direction by itself, and fit where each of their parts does;
/// moving by an offset and measuring the offset undo each other.
pub proof fn moving_and_measuring_undo_each_other(point: IVec2, other: IVec2)
    ensures
        point.sum_fits(other) <==> {
            &&& -0x8000_0000 <= point.x + other.x < 0x8000_0000
            &&& -0x8000_0000 <= point.y + other.y < 0x8000_0000
        },
        point.difference_fits(other) <==> {
            &&& -0x8000_0000 <= point.x - other.x < 0x8000_0000
            &&& -0x8000_0000 <= point.y - other.y < 0x8000_0000
        },
        point.sum_fits(other) ==> {
            &&& point.sum(other).x - point.x == other.x
            &&& point.sum(other).y - point.y == other.y
            &&& point.sum(other).difference(other) == point
        },
        point.difference_fits(other) ==> {
            &&& point.difference(other).x + other.x == point.x
            &&& point.difference(other).y + other.y == point.y
            &&& point.difference(other).sum(other) == point
        },
{
}

} // verus!
