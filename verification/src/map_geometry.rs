use vstd::prelude::*;
use crate::geometry::{bresenham, bresenham_line, max_i, min_i, Point};
use crate::grid::lemma_idx_on_grid;
use crate::map::GameMap;

verus! {

//----------------------------------------------------------------------------
// Rays and rings of tiles on the map.
//----------------------------------------------------------------------------

pub open spec fn pt(x: int, y: int) -> Point {
    Point { x: x as i32, y: y as i32 }
}

/// The prefix of `s` up to and including its first blocked tile (all of `s`
/// when none is blocked).
pub open spec fn take_until_blocked(map: &GameMap, s: Seq<Point>) -> Seq<Point>
    decreases s.len(),
{
    if s.len() == 0 {
        Seq::empty()
    } else if map.blocked[map.idx(s[0].x as int, s[0].y as int)] {
        seq![s[0]]
    } else {
        seq![s[0]] + take_until_blocked(map, s.drop_first())
    }
}

/// The tiles of the line from `source` to `target`, with `target` itself
/// appended.
pub open spec fn line_with_target(source: Point, target: Point) -> Seq<Point> {
    bresenham_line(source.x, source.y, target.x, target.y).map_values(
        |q: (i32, i32)| Point { x: q.0, y: q.1 },
    ) + seq![target]
}

/// The tiles a ray from `source` to `target` passes through: the line without
/// its source, cut after the first blocked tile.
pub open spec fn ray_spec(map: &GameMap, source: Point, target: Point) -> Seq<Point> {
    take_until_blocked(map, line_with_target(source, target).skip(1))
}

/// The four corners of the square ring of radius `r` around `s`.
pub open spec fn ring_corners(s: Point, r: int) -> Seq<Point> {
    seq![
        pt(s.x - r, s.y - r),
        pt(s.x + r, s.y - r),
        pt(s.x - r, s.y + r),
        pt(s.x + r, s.y + r),
    ]
}

/// The `i`-th point of each side of the square ring, walking clockwise from
/// each corner.
pub open spec fn ring_step(s: Point, r: int, i: int) -> Seq<Point> {
    seq![
        pt(s.x - r + i, s.y - r),
        pt(s.x + r, s.y - r + i),
        pt(s.x + r - i, s.y + r),
        pt(s.x - r, s.y + r - i),
    ]
}

pub open spec fn ring_sides(s: Point, r: int, n: int) -> Seq<Point>
    decreases n,
{
    if n <= 0 {
        Seq::empty()
    } else {
        ring_sides(s, r, n - 1) + ring_step(s, r, n)
    }
}

/// The square ring of L-infinity radius `r` around `s`, corners first.
pub open spec fn l_infinity_ring(s: Point, r: int) -> Seq<Point> {
    ring_corners(s, r) + ring_sides(s, r, 2 * r - 1)
}

/// The points of `s` inside the map's playable interior, in order.
pub open spec fn keep_in_bounds(map: &GameMap, s: Seq<Point>) -> Seq<Point>
    decreases s.len(),
{
    if s.len() == 0 {
        Seq::empty()
    } else {
        keep_in_bounds(map, s.drop_last()) + if map.in_bounds(
            s.last().x as int,
            s.last().y as int,
        ) {
            seq![s.last()]
        } else {
            Seq::empty()
        }
    }
}

/// Every point kept by `keep_in_bounds` lies in the map's playable interior.
pub proof fn lemma_kept_in_bounds(map: &GameMap, s: Seq<Point>)
    ensures
        forall|i: int|
            0 <= i < keep_in_bounds(map, s).len() ==> map.in_bounds(
                #[trigger] keep_in_bounds(map, s)[i].x as int,
                keep_in_bounds(map, s)[i].y as int,
            ),
    decreases s.len(),
{
    if s.len() > 0 {
        lemma_kept_in_bounds(map, s.drop_last());
        let prev = keep_in_bounds(map, s.drop_last());
        let k = keep_in_bounds(map, s);
        assert forall|i: int| 0 <= i < k.len() implies map.in_bounds(#[trigger] k[i].x as int, k[i].y as int) by {
            if i < prev.len() {
                assert(k[i] == prev[i]);
            }
        }
    }
}

proof fn lemma_take_until_step(map: &GameMap, s: Seq<Point>, i: int)
    requires
        0 <= i < s.len(),
    ensures
        take_until_blocked(map, s.skip(i)) == if map.blocked[map.idx(s[i].x as int, s[i].y as int)] {
            seq![s[i]]
        } else {
            seq![s[i]] + take_until_blocked(map, s.skip(i + 1))
        },
{
    assert(s.skip(i)[0] == s[i]);
    assert(s.skip(i).drop_first() =~= s.skip(i + 1));
}

impl GameMap {
    /// The tiles a ray from `source` towards `target` passes through, up to
    /// and including the first blocked tile.
    pub fn get_ray_tiles(&self, source: Point, target: Point) -> (tiles: Vec<Point>)
        requires
            self.wf(),
            self.width <= 0x2000_0000,
            self.height <= 0x2000_0000,
            self.on_map(source.x as int, source.y as int),
            self.on_map(target.x as int, target.y as int),
        ensures
            tiles@ == ray_spec(self, source, target),
            forall|j: int| 0 <= j < tiles.len() ==> self.on_map(#[trigger] tiles@[j].x as int, tiles@[j].y as int),
    {
        let line = bresenham(source.x, source.y, target.x, target.y);
        let ghost full = line_with_target(source, target);
        let mut pts: Vec<Point> = Vec::new();
        let mut k: usize = 0;
        while k < line.len()
            invariant
                k <= line.len(),
                pts.len() == k,
                line@ == bresenham_line(source.x, source.y, target.x, target.y),
                forall|j: int| 0 <= j < k ==> pts[j] == full[j],
                full.len() == line.len() + 1,
                forall|j: int| 0 <= j < line.len() ==> full[j] == (Point { x: line[j].0, y: line[j].1 }),
            decreases line.len() - k,
        {
            let q = line[k];
            pts.push(Point { x: q.0, y: q.1 });
            k = k + 1;
        }
        pts.push(target);
        assert(pts@ =~= full);
        // Every tile of the line lies in the box spanned by its ends, so on the map.
        assert forall|j: int| 0 <= j < pts.len() implies self.on_map(pts[j].x as int, pts[j].y as int) by {
            if j < line.len() {
                assert(min_i(source.x as int, target.x as int) <= line[j].0 <= max_i(source.x as int, target.x as int));
                assert(min_i(source.y as int, target.y as int) <= line[j].1 <= max_i(source.y as int, target.y as int));
            }
        }
        let n = pts.len();
        let mut out: Vec<Point> = Vec::new();
        let mut i: usize = 1;
        let mut stop = false;
        while i < n && !stop
            invariant
                self.wf(),
                n == pts.len(),
                pts@ == full,
                1 <= i <= n,
                forall|j: int| 0 <= j < pts.len() ==> self.on_map(pts[j].x as int, pts[j].y as int),
                !stop ==> out@ + take_until_blocked(self, pts@.skip(i as int)) == take_until_blocked(
                    self,
                    pts@.skip(1),
                ),
                stop ==> out@ == take_until_blocked(self, pts@.skip(1)),
                forall|j: int| 0 <= j < out.len() ==> self.on_map(#[trigger] out@[j].x as int, out@[j].y as int),
            decreases (n - i) as int + if stop { 0int } else { 1int },
        {
            let p = pts[i];
            proof {
                lemma_idx_on_grid(self.width as int, self.height as int, p.x as int, p.y as int);
                lemma_take_until_step(self, pts@, i as int);
            }
            let idx = self.xy_idx(p.x, p.y);
            let ghost before = out@;
            out.push(p);
            if self.blocked[idx] {
                stop = true;
                assert(out@ =~= before + seq![p]);
            } else {
                assert(out@ + take_until_blocked(self, pts@.skip(i + 1)) =~= before + (seq![p]
                    + take_until_blocked(self, pts@.skip(i + 1))));
                i = i + 1;
            }
        }
        if !stop {
            assert(pts@.skip(i as int) =~= Seq::<Point>::empty());
            assert(out@ + Seq::<Point>::empty() =~= out@);
        }
        out
    }

    /// The tiles at L-infinity distance `radius` from `source` (a square ring),
    /// corners first, that lie inside the map's playable interior.
    pub fn get_l_infinity_circle_around(&self, source: Point, radius: i32) -> (circle: Vec<Point>)
        requires
            i32::MIN < self.width,
            i32::MIN < self.height,
            0 <= radius,
            2 * radius <= i32::MAX,
            i32::MIN <= source.x - radius,
            source.x + radius <= i32::MAX,
            i32::MIN <= source.y - radius,
            source.y + radius <= i32::MAX,
        ensures
            circle@ == keep_in_bounds(self, l_infinity_ring(source, radius as int)),
    {
        let diameter = 2 * radius;
        let mut ring: Vec<Point> = Vec::new();
        ring.push(Point { x: source.x - radius, y: source.y - radius });
        ring.push(Point { x: source.x + radius, y: source.y - radius });
        ring.push(Point { x: source.x - radius, y: source.y + radius });
        ring.push(Point { x: source.x + radius, y: source.y + radius });
        assert(ring@ =~= ring_corners(source, radius as int) + ring_sides(source, radius as int, 0));
        let mut i: i32 = 1;
        while i < diameter
            invariant
                0 <= radius,
                diameter == 2 * radius,
                1 <= i,
                i <= diameter || (diameter == 0 && i == 1),
                i32::MIN <= source.x - radius,
                source.x + radius <= i32::MAX,
                i32::MIN <= source.y - radius,
                source.y + radius <= i32::MAX,
                ring@ == ring_corners(source, radius as int) + ring_sides(
                    source,
                    radius as int,
                    i - 1,
                ),
            decreases diameter - i,
        {
            let ghost before = ring@;
            ring.push(Point { x: source.x - radius + i, y: source.y - radius });
            ring.push(Point { x: source.x + radius, y: source.y - radius + i });
            ring.push(Point { x: source.x + radius - i, y: source.y + radius });
            ring.push(Point { x: source.x - radius, y: source.y + radius - i });
            assert(ring@ =~= before + ring_step(source, radius as int, i as int));
            assert(ring_sides(source, radius as int, i as int) == ring_sides(
                source,
                radius as int,
                i - 1,
            ) + ring_step(source, radius as int, i as int));
            assert(ring@ =~= ring_corners(source, radius as int) + ring_sides(
                source,
                radius as int,
                i as int,
            ));
            i = i + 1;
        }
        proof {
            if diameter == 0 {
                assert(ring_sides(source, radius as int, 2 * radius - 1) =~= Seq::<Point>::empty());
                assert(ring_sides(source, radius as int, 0) =~= Seq::<Point>::empty());
            } else {
                assert(i == diameter);
                assert(i - 1 == 2 * radius - 1);
            }
        }
        assert(ring@ == l_infinity_ring(source, radius as int));
        let n = ring.len();
        let mut out: Vec<Point> = Vec::new();
        let mut k: usize = 0;
        while k < n
            invariant
                n == ring.len(),
                k <= n,
                i32::MIN < self.width,
                i32::MIN < self.height,
                out@ == keep_in_bounds(self, ring@.take(k as int)),
            decreases n - k,
        {
            let p = ring[k];
            assert(ring@.take(k + 1).drop_last() =~= ring@.take(k as int));
            assert(ring@.take(k + 1).last() == p);
            if self.within_bounds(p.x, p.y) {
                out.push(p);
            }
            assert(out@ =~= keep_in_bounds(self, ring@.take(k + 1)));
            k = k + 1;
        }
        assert(ring@.take(n as int) =~= ring@);
        out
    }
}

} // verus!
