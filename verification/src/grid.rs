use vstd::prelude::*;

verus! {

//----------------------------------------------------------------------------
// Row-major grid arithmetic shared by the dungeon map and the routing map.
//
// A grid of `width` columns stores the tile at column `x` and row `y` at index
// `y * width + x`. Movement between tiles is allowed to the eight neighbours
// of a tile that lie inside the playable interior of the grid and are not
// closed (blocked for a Map, avoided for a RoutingMap).
//----------------------------------------------------------------------------

/// The index of column `x`, row `y` in a grid with rows of `width` tiles.
pub open spec fn idx_of(width: int, x: int, y: int) -> int {
    y * width + x
}

/// The playable interior of a grid: the zero row and column are excluded,
/// the last row and column are not.
pub open spec fn interior(width: int, height: int, x: int, y: int) -> bool {
    1 <= x <= width - 1 && 1 <= y <= height - 1
}

/// A tile inside the grid, with its coordinates inside the grid's extent.
pub open spec fn on_grid(width: int, height: int, x: int, y: int) -> bool {
    0 <= x < width && 0 <= y < height
}

/// A tile that movement may enter: inside the interior and not closed.
pub open spec fn exit_open(width: int, height: int, closed: Seq<bool>, x: int, y: int) -> bool {
    interior(width, height, x, y) && !closed[idx_of(width, x, y)]
}

/// A move out of a tile: the index of the tile entered, and whether the step
/// is a diagonal one.
#[derive(PartialEq, Eq, Structural, Copy, Clone, Debug)]
pub struct Exit {
    pub idx: usize,
    pub diagonal: bool,
}

/// The exit into column `x`, row `y`, when that tile is open.
pub open spec fn exit_if_open(
    width: int,
    height: int,
    closed: Seq<bool>,
    x: int,
    y: int,
    diagonal: bool,
) -> Seq<Exit> {
    if exit_open(width, height, closed, x, y) {
        seq![Exit { idx: idx_of(width, x, y) as usize, diagonal }]
    } else {
        Seq::empty()
    }
}

/// The exits out of the tile at `idx`, in the order: west, east, north, south,
/// north-west, north-east, south-west, south-east.
pub open spec fn exits_spec(width: int, height: int, closed: Seq<bool>, idx: int) -> Seq<Exit> {
    let x = idx % width;
    let y = idx / width;
    exit_if_open(width, height, closed, x - 1, y, false)
        + exit_if_open(width, height, closed, x + 1, y, false)
        + exit_if_open(width, height, closed, x, y - 1, false)
        + exit_if_open(width, height, closed, x, y + 1, false)
        + exit_if_open(width, height, closed, x - 1, y - 1, true)
        + exit_if_open(width, height, closed, x + 1, y - 1, true)
        + exit_if_open(width, height, closed, x - 1, y + 1, true)
        + exit_if_open(width, height, closed, x + 1, y + 1, true)
}

/// The index of a tile on the grid lies inside the grid's storage.
pub proof fn lemma_idx_on_grid(width: int, height: int, x: int, y: int)
    requires
        on_grid(width, height, x, y),
    ensures
        0 <= idx_of(width, x, y) < width * height,
        0 <= y * width <= idx_of(width, x, y),
{
    assert(0 <= y * width) by (nonlinear_arith)
        requires
            0 <= y,
            0 < width,
    ;
    assert(y * width + x < width * height) by (nonlinear_arith)
        requires
            0 <= x < width,
            0 <= y < height,
    ;
}

/// Decoding an index into a column and a row and encoding them again gives
/// the index back.
pub proof fn lemma_idx_decode(width: int, height: int, idx: int)
    requires
        0 < width,
        0 <= idx,
    ensures
        idx_of(width, idx % width, idx / width) == idx,
        0 <= idx % width < width,
        0 <= idx / width,
        idx < width * height ==> idx / width < height,
{
    assert(idx == (idx / width) * width + idx % width) by (nonlinear_arith)
        requires
            0 < width,
    ;
    assert(idx < width * height ==> idx / width < height) by (nonlinear_arith)
        requires
            0 < width,
            0 <= idx,
    ;
}

/// Two tiles on the grid share an index only when they are the same tile.
pub proof fn lemma_idx_injective(width: int, x1: int, y1: int, x2: int, y2: int)
    requires
        0 <= x1 < width,
        0 <= x2 < width,
        idx_of(width, x1, y1) == idx_of(width, x2, y2),
    ensures
        x1 == x2,
        y1 == y2,
{
    assert(y1 == y2) by (nonlinear_arith)
        requires
            0 <= x1 < width,
            0 <= x2 < width,
            y1 * width + x1 == y2 * width + x2,
    ;
}

fn push_exit_if_open(
    exits: &mut Vec<Exit>,
    width: i32,
    height: i32,
    closed: &Vec<bool>,
    x: i32,
    y: i32,
    diagonal: bool,
)
    requires
        0 < width,
        0 < height,
        width * height < i32::MAX,
        closed.len() == width * height,
        -1 <= x <= width,
        -1 <= y <= height + 1,
    ensures
        final(exits)@ == old(exits)@ + exit_if_open(
            width as int,
            height as int,
            closed@,
            x as int,
            y as int,
            diagonal,
        ),
{
    if x >= 1 && x <= width - 1 && y >= 1 && y <= height - 1 {
        proof {
            lemma_idx_on_grid(width as int, height as int, x as int, y as int);
        }
        let idx = (y * width + x) as usize;
        if !closed[idx] {
            exits.push(Exit { idx, diagonal });
            return ;
        }
    }
    assert(exits@ =~= exits@ + Seq::<Exit>::empty());
}

/// The exits out of the tile at `idx` of a grid whose closed tiles are marked
/// in `closed`.
pub fn grid_exits(width: i32, height: i32, closed: &Vec<bool>, idx: usize) -> (exits: Vec<Exit>)
    requires
        0 < width,
        0 < height,
        width * height < i32::MAX,
        closed.len() == width * height,
        idx <= i32::MAX,
    ensures
        exits@ == exits_spec(width as int, height as int, closed@, idx as int),
{
    let ghost w = width as int;
    let ghost h = height as int;
    let ghost c = closed@;
    let i = idx as i32;
    let x = i % width;
    let y = i / width;
    proof {
        lemma_idx_decode(w, h, idx as int);
        assert(h < i32::MAX) by (nonlinear_arith)
            requires
                0 < w,
                0 < h,
                w * h < i32::MAX,
        ;
    }
    let mut exits: Vec<Exit> = Vec::new();
    // Rows more than one past the grid hold no open neighbours.
    if y > height {
        proof {
            assert(exits_spec(w, h, c, idx as int) =~= Seq::<Exit>::empty());
        }
        return exits;
    }
    push_exit_if_open(&mut exits, width, height, closed, x - 1, y, false);
    push_exit_if_open(&mut exits, width, height, closed, x + 1, y, false);
    push_exit_if_open(&mut exits, width, height, closed, x, y - 1, false);
    push_exit_if_open(&mut exits, width, height, closed, x, y + 1, false);
    push_exit_if_open(&mut exits, width, height, closed, x - 1, y - 1, true);
    push_exit_if_open(&mut exits, width, height, closed, x + 1, y - 1, true);
    push_exit_if_open(&mut exits, width, height, closed, x - 1, y + 1, true);
    push_exit_if_open(&mut exits, width, height, closed, x + 1, y + 1, true);
    proof {
        assert(exits@ =~= exits_spec(w, h, c, idx as int));
    }
    exits
}

} // verus!
