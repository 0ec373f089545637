use vstd::prelude::*;
use crate::grid::idx_of;
use crate::map::{GameMap, TileType, MAP_SIZE};
use crate::geometry::Point;
use crate::grid::lemma_idx_on_grid;
use crate::rng::{new_rng, roll_dice};

verus! {

//----------------------------------------------------------------------------
// Carving rooms and corridors out of a map of walls.
//----------------------------------------------------------------------------

#[derive(PartialEq, Eq, Structural, Copy, Clone, Debug)]
pub struct Rectangle {
    pub x1: i32,
    pub x2: i32,
    pub y1: i32,
    pub y2: i32,
}

pub open spec fn min_of(a: i32, b: i32) -> i32 {
    if a <= b { a } else { b }
}

pub open spec fn max_of(a: i32, b: i32) -> i32 {
    if a <= b { b } else { a }
}

impl Rectangle {
    /// The rectangle with corner (x, y), `w` wide and `h` high.
    pub fn new(x: i32, y: i32, w: i32, h: i32) -> (r: Rectangle)
        requires
            i32::MIN <= x + w <= i32::MAX,
            i32::MIN <= y + h <= i32::MAX,
        ensures
            r == (Rectangle { x1: x, x2: (x + w) as i32, y1: y, y2: (y + h) as i32 }),
    {
        Rectangle { x1: x, x2: x + w, y1: y, y2: y + h }
    }

    /// Do the two rectangles overlap (touching edges count)?
    pub fn intersect(&self, other: &Rectangle) -> (b: bool)
        ensures
            b == (self.x1 <= other.x2 && self.x2 >= other.x1 && self.y1 <= other.y2 && self.y2
                >= other.y1),
    {
        self.x1 <= other.x2 && self.x2 >= other.x1 && self.y1 <= other.y2 && self.y2 >= other.y1
    }

    /// The center of the rectangle, each coordinate halved toward zero.
    pub fn center(&self) -> (c: (i32, i32))
        requires
            i32::MIN <= self.x1 + self.x2 <= i32::MAX,
            i32::MIN <= self.y1 + self.y2 <= i32::MAX,
        ensures
            c.0 == half_toward_zero(self.x1 + self.x2),
            c.1 == half_toward_zero(self.y1 + self.y2),
    {
        (half(self.x1 + self.x2), half(self.y1 + self.y2))
    }
}

/// Rust's integer division by two, which rounds toward zero.
pub open spec fn half_toward_zero(v: int) -> int {
    if v >= 0 {
        v / 2
    } else {
        -((-v) / 2)
    }
}

fn half(v: i32) -> (h: i32)
    ensures
        h == half_toward_zero(v as int),
{
    let w = v as i64;
    if w >= 0 {
        (w / 2) as i32
    } else {
        (-((-w) / 2)) as i32
    }
}

/// Column `x`, row `y` lies in the interior of the room: strictly right of
/// and below its first corner, up to and including its second.
pub open spec fn in_room(room: Rectangle, x: int, y: int) -> bool {
    room.x1 < x <= room.x2 && room.y1 < y <= room.y2
}

proof fn lemma_row_offset(w: int, y: int, y2: int)
    requires
        0 < w,
        0 <= y <= y2,
    ensures
        0 <= y * w <= y2 * w,
{
    assert(0 <= y * w <= y2 * w) by (nonlinear_arith)
        requires
            0 < w,
            0 <= y <= y2,
    ;
}

proof fn lemma_room_indices(w: int, room: Rectangle, len: int)
    requires
        0 < w,
        -1 <= room.x1,
        -1 <= room.y1,
        idx_of(w, room.x2 as int, room.y2 as int) < len,
    ensures
        forall|x: int, y: int|
            in_room(room, x, y) ==> 0 <= #[trigger] idx_of(w, x, y) < len,
{
    assert forall|x: int, y: int| in_room(room, x, y) implies 0 <= #[trigger] idx_of(w, x, y) < len by {
        lemma_row_offset(w, y, room.y2 as int);
    }
}

/// Turns the interior of `room` into floor.
pub fn apply_room(map: &mut GameMap, room: &Rectangle)
    requires
        0 < old(map).width,
        room.x1 < i32::MAX,
        room.y1 < i32::MAX,
        room.x1 < room.x2 && room.y1 < room.y2 ==> {
            &&& -1 <= room.x1
            &&& -1 <= room.y1
            &&& room.y2 * old(map).width <= i32::MAX
            &&& idx_of(old(map).width as int, room.x2 as int, room.y2 as int) < old(
                map,
            ).tiles.len()
        },
    ensures
        final(map).same_but_tiles(old(map)),
        forall|x: int, y: int|
            in_room(*room, x, y) ==> final(map).tiles[idx_of(old(map).width as int, x, y)]
                == TileType::Floor,
        forall|i: int|
            0 <= i < old(map).tiles.len() && (forall|x: int, y: int|
                in_room(*room, x, y) ==> #[trigger] idx_of(old(map).width as int, x, y) != i)
                ==> final(map).tiles[i] == old(map).tiles[i],
{
    let ghost w = map.width as int;
    if !(room.x1 < room.x2 && room.y1 < room.y2) {
        return ;
    }
    proof {
        lemma_room_indices(w, *room, map.tiles.len() as int);
    }
    let mut x: i64 = room.x1 as i64 + 1;
    while x <= room.x2 as i64
        invariant
            room.x1 + 1 <= x <= room.x2 + 1,
            forall|x2: int, y2: int|
                in_room(*room, x2, y2) ==> 0 <= #[trigger] idx_of(w, x2, y2) < map.tiles.len(),
            room.x1 < room.x2 && room.y1 < room.y2,
            -1 <= room.x1,
            -1 <= room.y1,
            room.y2 * w <= i32::MAX,
            idx_of(w, room.x2 as int, room.y2 as int) < map.tiles.len(),
            w == map.width,
            0 < w,
            map.same_but_tiles(old(map)),
            forall|x2: int, y2: int|
                room.x1 < x2 < x && room.y1 < y2 <= room.y2 ==> map.tiles[idx_of(w, x2, y2)]
                    == TileType::Floor,
            forall|i: int|
                0 <= i < map.tiles.len() && (forall|x2: int, y2: int|
                    room.x1 < x2 < x && room.y1 < y2 <= room.y2 ==> #[trigger] idx_of(w, x2, y2)
                        != i) ==> map.tiles[i] == old(map).tiles[i],
        decreases room.x2 + 1 - x,
    {
        let mut y: i64 = room.y1 as i64 + 1;
        while y <= room.y2 as i64
            invariant
                forall|x2: int, y2: int|
                    in_room(*room, x2, y2) ==> 0 <= #[trigger] idx_of(w, x2, y2) < map.tiles.len(),
                room.x1 + 1 <= x <= room.x2,
                room.y1 + 1 <= y <= room.y2 + 1,
                room.x1 < room.x2 && room.y1 < room.y2,
                -1 <= room.x1,
                -1 <= room.y1,
                room.y2 * w <= i32::MAX,
                idx_of(w, room.x2 as int, room.y2 as int) < map.tiles.len(),
                w == map.width,
                0 < w,
                map.same_but_tiles(old(map)),
                forall|x2: int, y2: int|
                    (room.x1 < x2 < x && room.y1 < y2 <= room.y2) || (x2 == x && room.y1 < y2 < y)
                        ==> map.tiles[idx_of(w, x2, y2)] == TileType::Floor,
                forall|i: int|
                    0 <= i < map.tiles.len() && (forall|x2: int, y2: int|
                        (room.x1 < x2 < x && room.y1 < y2 <= room.y2) || (x2 == x && room.y1 < y2
                            < y) ==> #[trigger] idx_of(w, x2, y2) != i) ==> map.tiles[i] == old(
                        map,
                    ).tiles[i],
            decreases room.y2 + 1 - y,
        {
            proof {
                lemma_row_offset(w, y as int, room.y2 as int);
                assert(in_room(*room, x as int, y as int));
            }
            let idx = map.xy_idx(x as i32, y as i32);
            map.tiles.set(idx, TileType::Floor);
            y = y + 1;
        }
        x = x + 1;
    }
}

/// Turns the tiles of row `y` from column `min(x1, x2)` to `max(x1, x2)` into
/// floor, skipping those whose index is not strictly between zero and the
/// standard map size.
pub fn apply_horizontal_tunnel(map: &mut GameMap, x1: i32, x2: i32, y: i32)
    requires
        0 < old(map).width,
        0 <= min_of(x1, x2),
        0 <= y,
        y * old(map).width <= i32::MAX,
        forall|x: int|
            min_of(x1, x2) <= x <= max_of(x1, x2) && 0 < #[trigger] idx_of(
                old(map).width as int,
                x,
                y as int,
            ) < MAP_SIZE ==> idx_of(old(map).width as int, x, y as int) < old(map).tiles.len(),
    ensures
        final(map).same_but_tiles(old(map)),
        forall|i: int|
            0 <= i < old(map).tiles.len() ==> final(map).tiles[i] == if idx_of(
                old(map).width as int,
                min_of(x1, x2) as int,
                y as int,
            ) <= i <= idx_of(old(map).width as int, max_of(x1, x2) as int, y as int) && 0 < i
                < MAP_SIZE {
                TileType::Floor
            } else {
                old(map).tiles[i]
            },
{
    let ghost w = map.width as int;
    let lo: i64 = if x1 <= x2 { x1 as i64 } else { x2 as i64 };
    let hi: i64 = if x1 <= x2 { x2 as i64 } else { x1 as i64 };
    let mut x: i64 = lo;
    while x <= hi
        invariant
            lo == min_of(x1, x2),
            hi == max_of(x1, x2),
            lo <= x <= hi + 1,
            0 <= lo,
            0 <= y,
            w == map.width,
            0 < w,
            y * w <= i32::MAX,
            forall|xx: int|
                lo <= xx <= hi && 0 < #[trigger] idx_of(w, xx, y as int) < MAP_SIZE ==> idx_of(
                    w,
                    xx,
                    y as int,
                ) < map.tiles.len(),
            map.same_but_tiles(old(map)),
            forall|i: int|
                0 <= i < old(map).tiles.len() ==> map.tiles[i] == if idx_of(w, lo as int, y as int)
                    <= i < idx_of(w, x as int, y as int) && 0 < i < MAP_SIZE {
                    TileType::Floor
                } else {
                    old(map).tiles[i]
                },
        decreases hi + 1 - x,
    {
        let xi = x as i32;
        let idx = map.xy_idx(xi, y);
        if idx > 0 && idx < MAP_SIZE {
            assert(0 < idx_of(w, xi as int, y as int) < MAP_SIZE);
            map.tiles.set(idx, TileType::Floor);
        }
        x = x + 1;
    }
}

/// Turns the tiles of column `x` from row `min(y1, y2)` to `max(y1, y2)` into
/// floor, skipping those whose index is not strictly between zero and the
/// standard map size.
pub fn apply_vertical_tunnel(map: &mut GameMap, y1: i32, y2: i32, x: i32)
    requires
        0 < old(map).width,
        0 <= min_of(y1, y2),
        0 <= x,
        max_of(y1, y2) * old(map).width <= i32::MAX,
        forall|y: int|
            min_of(y1, y2) <= y <= max_of(y1, y2) && 0 < #[trigger] idx_of(
                old(map).width as int,
                x as int,
                y,
            ) < MAP_SIZE ==> idx_of(old(map).width as int, x as int, y) < old(map).tiles.len(),
    ensures
        final(map).same_but_tiles(old(map)),
        forall|y: int|
            min_of(y1, y2) <= y <= max_of(y1, y2) && 0 < idx_of(old(map).width as int, x as int, y)
                < MAP_SIZE ==> final(map).tiles[idx_of(old(map).width as int, x as int, y)]
                == TileType::Floor,
        forall|i: int|
            0 <= i < old(map).tiles.len() && (forall|y: int|
                min_of(y1, y2) <= y <= max_of(y1, y2) && 0 < idx_of(old(map).width as int, x as int, y)
                    < MAP_SIZE ==> #[trigger] idx_of(old(map).width as int, x as int, y) != i)
                ==> final(map).tiles[i] == old(map).tiles[i],
{
    let ghost w = map.width as int;
    let lo: i64 = if y1 <= y2 { y1 as i64 } else { y2 as i64 };
    let hi: i64 = if y1 <= y2 { y2 as i64 } else { y1 as i64 };
    let mut y: i64 = lo;
    while y <= hi
        invariant
            lo == min_of(y1, y2),
            hi == max_of(y1, y2),
            lo <= y <= hi + 1,
            0 <= lo,
            0 <= x,
            w == map.width,
            0 < w,
            hi * w <= i32::MAX,
            forall|yy: int|
                lo <= yy <= hi && 0 < #[trigger] idx_of(w, x as int, yy) < MAP_SIZE ==> idx_of(
                    w,
                    x as int,
                    yy,
                ) < map.tiles.len(),
            map.same_but_tiles(old(map)),
            forall|yy: int|
                lo <= yy < y && 0 < idx_of(w, x as int, yy) < MAP_SIZE ==> map.tiles[idx_of(
                    w,
                    x as int,
                    yy,
                )] == TileType::Floor,
            forall|i: int|
                0 <= i < map.tiles.len() && (forall|yy: int|
                    lo <= yy < y && 0 < idx_of(w, x as int, yy) < MAP_SIZE ==> #[trigger] idx_of(
                        w,
                        x as int,
                        yy,
                    ) != i) ==> map.tiles[i] == old(map).tiles[i],
        decreases hi + 1 - y,
    {
        let yi = y as i32;
        proof {
            lemma_row_offset(w, yi as int, hi as int);
        }
        let idx = map.xy_idx(x, yi);
        if idx > 0 && idx < MAP_SIZE {
            assert(0 < idx_of(w, x as int, yi as int) < MAP_SIZE);
            map.tiles.set(idx, TileType::Floor);
        }
        y = y + 1;
    }
}

//----------------------------------------------------------------------------
// Placing the stairs: scan one row or column of the map for an open tile
// followed by two walls, and put the stairs in the first of those walls.
//----------------------------------------------------------------------------

/// Draws a random row or column to scan for a place for the stairs.
pub const PLACE_STAIRS_N_TRYS: i32 = 50;

/// Whether the tile at column `x`, row `y` is blocked.
pub open spec fn blocked_at(map: &GameMap, x: int, y: int) -> bool {
    map.blocked[map.idx(x, y)]
}

/// A place for the stairs: a blocked tile with an open tile on one side and a
/// blocked one on the other, along a row or along a column.
pub open spec fn stairs_spot(map: &GameMap, p: Point) -> bool {
    let x = p.x as int;
    let y = p.y as int;
    &&& map.on_map(x, y)
    &&& blocked_at(map, x, y)
    &&& {
        ||| (map.on_map(x - 1, y) && map.on_map(x + 1, y) && ((!blocked_at(map, x - 1, y) && blocked_at(map, x + 1, y))
            || (!blocked_at(map, x + 1, y) && blocked_at(map, x - 1, y))))
        ||| (map.on_map(x, y - 1) && map.on_map(x, y + 1) && ((!blocked_at(map, x, y - 1) && blocked_at(map, x, y + 1))
            || (!blocked_at(map, x, y + 1) && blocked_at(map, x, y - 1))))
    }
}

/// Along row `row`, scanning left to right: an open tile at `col - 2`
/// followed by blocked tiles at `col - 1` and `col`.
pub open spec fn row_pattern_forward(map: &GameMap, row: int, col: int) -> bool {
    !blocked_at(map, col - 2, row) && blocked_at(map, col - 1, row) && blocked_at(map, col, row)
}

/// Along row `row`, scanning right to left: an open tile at `col` followed
/// by blocked tiles at `col - 1` and `col - 2`.
pub open spec fn row_pattern_backward(map: &GameMap, row: int, col: int) -> bool {
    !blocked_at(map, col, row) && blocked_at(map, col - 1, row) && blocked_at(map, col - 2, row)
}

/// Along column `col`: an open tile at row `row` with blocked tiles at
/// `row - 1` and `row - 2`.
pub open spec fn column_pattern(map: &GameMap, col: int, row: int) -> bool {
    !blocked_at(map, col, row) && blocked_at(map, col, row - 1) && blocked_at(map, col, row - 2)
}

/// The stairs found scanning row `row` rightwards from column `col`.
pub open spec fn scan_row_forward(map: &GameMap, row: int, col: int) -> Option<Point>
    decreases map.width - col,
{
    if col >= map.width {
        None
    } else if row_pattern_forward(map, row, col) {
        Some(Point { x: (col - 1) as i32, y: row as i32 })
    } else {
        scan_row_forward(map, row, col + 1)
    }
}

/// The stairs found scanning row `row` leftwards from column `col`.
pub open spec fn scan_row_backward(map: &GameMap, row: int, col: int) -> Option<Point>
    decreases col,
{
    if col < 2 {
        None
    } else if row_pattern_backward(map, row, col) {
        Some(Point { x: (col - 1) as i32, y: row as i32 })
    } else {
        scan_row_backward(map, row, col - 1)
    }
}

/// The stairs found scanning column `col` downwards from row `row`.
pub open spec fn scan_column_forward(map: &GameMap, col: int, row: int) -> Option<Point>
    decreases map.height - row,
{
    if row >= map.height {
        None
    } else if column_pattern(map, col, row) {
        Some(Point { x: col as i32, y: (row - 1) as i32 })
    } else {
        scan_column_forward(map, col, row + 1)
    }
}

/// The stairs found scanning column `col` upwards from row `row`.
pub open spec fn scan_column_backward(map: &GameMap, col: int, row: int) -> Option<Point>
    decreases row,
{
    if row < 2 {
        None
    } else if column_pattern(map, col, row) {
        Some(Point { x: col as i32, y: (row - 1) as i32 })
    } else {
        scan_column_backward(map, col, row - 1)
    }
}

/// A scan that one attempt can draw: its kind (a row rightwards or
/// leftwards, a column downwards or upwards) and its row or column.
pub open spec fn valid_scan(map: &GameMap, kind: int, line: int) -> bool {
    1 <= kind <= 4 && 0 <= line < if kind <= 2 {
        map.height as int
    } else {
        map.width as int
    }
}

/// The place for the stairs that the scan of the given kind along `line`
/// finds, if any.
pub open spec fn stairs_scan(map: &GameMap, kind: int, line: int) -> Option<Point> {
    if kind == 1 {
        scan_row_forward(map, line, 2)
    } else if kind == 2 {
        scan_row_backward(map, line, map.width - 1)
    } else if kind == 3 {
        scan_column_forward(map, line, 2)
    } else {
        scan_column_backward(map, line, map.height - 1)
    }
}

/// Reads whether column `x`, row `y` is blocked.
fn blocked_xy(map: &GameMap, x: i32, y: i32) -> (b: bool)
    requires
        map.wf(),
        map.on_map(x as int, y as int),
    ensures
        b == blocked_at(map, x as int, y as int),
{
    proof {
        lemma_idx_on_grid(map.width as int, map.height as int, x as int, y as int);
    }
    map.blocked[map.xy_idx(x, y)]
}

/// One attempt at placing the stairs: scan a random row (in either
/// direction) or a random column (in either direction) for an open tile
/// followed by two blocked tiles, and answer the middle one.
pub fn try_get_stairs_position(map: &GameMap) -> (r: Option<Point>)
    requires
        map.wf(),
        map.width < i32::MAX,
        map.height < i32::MAX,
    ensures
        r matches Some(p) ==> stairs_spot(map, p),
        exists|kind: int, line: int| valid_scan(map, kind, line) && r == stairs_scan(map, kind, line),
{
    let mut rng = new_rng();
    let scan_type = roll_dice(&mut rng, 1, 4);
    if scan_type == 1 || scan_type == 2 {
        let row: i32 = roll_dice(&mut rng, 1, map.height) - 1;
        if scan_type == 1 {
            let mut col: i32 = 2;
            while col < map.width
                invariant
                    map.wf(),
                    0 <= row < map.height,
                    2 <= col,
                    scan_row_forward(map, row as int, col as int) == stairs_scan(map, scan_type as int, row as int),
                    scan_type == 1,
                decreases map.width - col,
            {
                let start = blocked_xy(map, col - 2, row);
                let next = blocked_xy(map, col - 1, row);
                let last = blocked_xy(map, col, row);
                if !start && next && last {
                    assert(valid_scan(map, scan_type as int, row as int));
                    return Some(Point { x: col - 1, y: row });
                }
                col = col + 1;
            }
            assert(valid_scan(map, scan_type as int, row as int));
        } else {
            let mut col: i32 = map.width - 1;
            while col >= 2
                invariant
                    map.wf(),
                    0 <= row < map.height,
                    col < map.width,
                    scan_row_backward(map, row as int, col as int) == stairs_scan(map, scan_type as int, row as int),
                    scan_type == 2,
                decreases col,
            {
                let start = blocked_xy(map, col, row);
                let next = blocked_xy(map, col - 1, row);
                let last = blocked_xy(map, col - 2, row);
                if !start && next && last {
                    assert(valid_scan(map, scan_type as int, row as int));
                    return Some(Point { x: col - 1, y: row });
                }
                col = col - 1;
            }
            assert(valid_scan(map, scan_type as int, row as int));
        }
    } else {
        let col: i32 = roll_dice(&mut rng, 1, map.width) - 1;
        if scan_type == 3 {
            let mut row: i32 = 2;
            while row < map.height
                invariant
                    map.wf(),
                    0 <= col < map.width,
                    2 <= row,
                    scan_column_forward(map, col as int, row as int) == stairs_scan(map, scan_type as int, col as int),
                    scan_type == 3,
                decreases map.height - row,
            {
                let start = blocked_xy(map, col, row);
                let next = blocked_xy(map, col, row - 1);
                let last = blocked_xy(map, col, row - 2);
                if !start && next && last {
                    assert(valid_scan(map, scan_type as int, col as int));
                    return Some(Point { x: col, y: row - 1 });
                }
                row = row + 1;
            }
            assert(valid_scan(map, scan_type as int, col as int));
        } else {
            let mut row: i32 = map.height - 1;
            while row >= 2
                invariant
                    map.wf(),
                    0 <= col < map.width,
                    row < map.height,
                    scan_column_backward(map, col as int, row as int) == stairs_scan(map, scan_type as int, col as int),
                    scan_type == 4,
                decreases row,
            {
                let start = blocked_xy(map, col, row);
                let next = blocked_xy(map, col, row - 1);
                let last = blocked_xy(map, col, row - 2);
                if !start && next && last {
                    assert(valid_scan(map, scan_type as int, col as int));
                    return Some(Point { x: col, y: row - 1 });
                }
                row = row - 1;
            }
            assert(valid_scan(map, scan_type as int, col as int));
        }
    }
    None
}

/// Tries up to `PLACE_STAIRS_N_TRYS` scans for a place for the stairs.
pub fn get_stairs_position(map: &GameMap) -> (r: Option<Point>)
    requires
        map.wf(),
        map.width < i32::MAX,
        map.height < i32::MAX,
    ensures
        r matches Some(p) ==> stairs_spot(map, p),
        r matches Some(p) ==> exists|kind: int, line: int|
            valid_scan(map, kind, line) && stairs_scan(map, kind, line) == Some(p),
        every_scan_finds_stairs(map) ==> r is Some,
{
    let mut k: i32 = 0;
    while k < PLACE_STAIRS_N_TRYS
        invariant
            map.wf(),
            map.width < i32::MAX,
            map.height < i32::MAX,
            0 <= k,
            k > 0 ==> !every_scan_finds_stairs(map),
        decreases PLACE_STAIRS_N_TRYS - k,
    {
        match try_get_stairs_position(map) {
            Some(p) => {
                return Some(p);
            },
            None => {},
        }
        k = k + 1;
    }
    None
}

/// Every scan an attempt can draw finds a place for the stairs.
pub open spec fn every_scan_finds_stairs(map: &GameMap) -> bool {
    forall|kind: int, line: int| valid_scan(map, kind, line) ==> (#[trigger] stairs_scan(map, kind, line)) is Some
}

} // verus!
