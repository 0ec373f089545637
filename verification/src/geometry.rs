use vstd::prelude::*;

verus! {

/// A position on the map grid.
#[derive(PartialEq, Eq, Structural, Copy, Clone, Debug)]
pub struct Point {
    pub x: i32,
    pub y: i32,
}

impl Point {
    pub fn new(x: i32, y: i32) -> (p: Point)
        ensures
            p.x == x,
            p.y == y,
    {
        Point { x, y }
    }
}

/// The points of the Bresenham line from (sx, sy) towards (tx, ty) that
/// `rltk::Bresenham` yields: the start, then each intermediate point, never
/// the end.
pub uninterp spec fn bresenham_line(sx: i32, sy: i32, tx: i32, ty: i32) -> Seq<(i32, i32)>;

pub open spec fn min_i(a: int, b: int) -> int {
    if a <= b { a } else { b }
}

pub open spec fn max_i(a: int, b: int) -> int {
    if a <= b { b } else { a }
}

/// Collects `rltk::Bresenham::new(start, end)`. Its documentation says that
/// it yields the points between `start` and `end`, including `start` but not
/// `end`; the contract claims that, names the sequence, and claims that each
/// point lies in the box spanned by the two ends. Nothing is claimed of which
/// intermediate points are chosen.
#[verifier::external_body]
pub(crate) fn bresenham(sx: i32, sy: i32, tx: i32, ty: i32) -> (pts: Vec<(i32, i32)>)
    requires
        -0x2000_0000 <= sx <= 0x2000_0000,
        -0x2000_0000 <= sy <= 0x2000_0000,
        -0x2000_0000 <= tx <= 0x2000_0000,
        -0x2000_0000 <= ty <= 0x2000_0000,
    ensures
        pts@ == bresenham_line(sx, sy, tx, ty),
        (sx == tx && sy == ty) ==> pts.len() == 0,
        !(sx == tx && sy == ty) ==> pts.len() > 0 && pts[0] == (sx, sy),
        forall|i: int|
            0 <= i < pts.len() ==> {
                &&& pts[i] != (tx, ty)
                &&& min_i(sx as int, tx as int) <= pts[i].0 <= max_i(sx as int, tx as int)
                &&& min_i(sy as int, ty as int) <= pts[i].1 <= max_i(sy as int, ty as int)
            },
{
    rltk::Bresenham::new(rltk::Point::new(sx, sy), rltk::Point::new(tx, ty)).map(|p| (p.x, p.y)).collect()
}

} // verus!
