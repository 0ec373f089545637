use vstd::prelude::*;
use rltk::RandomNumberGenerator;
use crate::grid::{idx_of, lemma_idx_decode, lemma_idx_injective, lemma_idx_on_grid};
use crate::map::{GameMap, TileType};
use crate::rng::roll_dice;

verus! {

//----------------------------------------------------------------------------
// Cellular Automata Map
//
// This map generator creates organic looking caves using a cellular automata
// algorithm: seed the interior with random walls, then repeatedly let each
// tile follow the majority of its eight neighbours.
//----------------------------------------------------------------------------

/// Number of passes of the automaton when building a map.
pub const N_ITERATIONS: i32 = 4;

/// Number of rule applications within one update.
pub const N_RULE_PASSES: usize = 15usize;

/// When set, every build step records a snapshot of the map for replay.
pub const DEBUG_VISUALIZE_MAPGEN: bool = false;

pub open spec fn wall_bit(t: TileType) -> int {
    if t == TileType::Wall {
        1
    } else {
        0
    }
}

/// The tiles the automaton updates: not on the outer ring of the grid.
pub open spec fn ca_interior(w: int, h: int, i: int) -> bool {
    1 <= i % w <= w - 2 && 1 <= i / w <= h - 2
}

/// The number of walls among the eight neighbours of tile `i`.
pub open spec fn wall_neighbours(tiles: Seq<TileType>, w: int, i: int) -> int {
    wall_bit(tiles[i - 1]) + wall_bit(tiles[i + 1]) + wall_bit(tiles[i - w]) + wall_bit(
        tiles[i + w],
    ) + wall_bit(tiles[i - (w - 1)]) + wall_bit(tiles[i - (w + 1)]) + wall_bit(
        tiles[i + (w - 1)],
    ) + wall_bit(tiles[i + (w + 1)])
}

/// The automaton's rule for one tile: a wall with at most three walls around
/// it opens up; any other tile with at least five walls around it becomes a
/// wall; otherwise the tile stays as it was.
pub open spec fn ca_rule(tiles: Seq<TileType>, w: int, i: int) -> TileType {
    let n = wall_neighbours(tiles, w, i);
    if tiles[i] == TileType::Wall && n <= 3 {
        TileType::Floor
    } else if tiles[i] != TileType::Wall && n >= 5 {
        TileType::Wall
    } else {
        tiles[i]
    }
}

/// One synchronous application of the rule to every interior tile.
pub open spec fn ca_step(tiles: Seq<TileType>, w: int, h: int) -> Seq<TileType> {
    Seq::new(
        tiles.len(),
        |i: int|
            if ca_interior(w, h, i) {
                ca_rule(tiles, w, i)
            } else {
                tiles[i]
            },
    )
}

/// `n` successive applications of the rule.
pub open spec fn ca_steps(tiles: Seq<TileType>, w: int, h: int, n: nat) -> Seq<TileType>
    decreases n,
{
    if n == 0 {
        tiles
    } else {
        ca_step(ca_steps(tiles, w, h, (n - 1) as nat), w, h)
    }
}

/// 1 when the tile at column `x`, row `y` of a `w`-column grid is a wall.
pub open spec fn wall_at(tiles: Seq<TileType>, w: int, x: int, y: int) -> int {
    if tiles[y * w + x] == TileType::Wall {
        1
    } else {
        0
    }
}

/// How many of the eight tiles around column `x`, row `y` are walls.
pub open spec fn walls_around(tiles: Seq<TileType>, w: int, x: int, y: int) -> int {
    wall_at(tiles, w, x - 1, y - 1) + wall_at(tiles, w, x, y - 1) + wall_at(tiles, w, x + 1, y - 1)
        + wall_at(tiles, w, x - 1, y) + wall_at(tiles, w, x + 1, y)
        + wall_at(tiles, w, x - 1, y + 1) + wall_at(tiles, w, x, y + 1) + wall_at(tiles, w, x + 1, y + 1)
}

/// The majority rule of one automaton step, tile by tile: off the outer ring,
/// a floor (or any other non-wall) tile with at least five walls among its
/// eight neighbours becomes a wall, a wall with at most three walls around
/// it becomes floor, and every other tile keeps its type; the outer ring
/// never changes.
pub proof fn lemma_automaton_step(tiles: Seq<TileType>, w: int, h: int, x: int, y: int)
    requires
        w >= 3,
        h >= 3,
        tiles.len() == w * h,
        0 <= x < w,
        0 <= y < h,
    ensures
        ca_step(tiles, w, h).len() == tiles.len(),
        ({
            let before = tiles[y * w + x];
            let after = ca_step(tiles, w, h)[y * w + x];
            let n = walls_around(tiles, w, x, y);
            &&& (1 <= x <= w - 2 && 1 <= y <= h - 2) ==> {
                &&& before != TileType::Wall && n >= 5 ==> after == TileType::Wall
                &&& before == TileType::Wall && n <= 3 ==> after == TileType::Floor
                &&& (before == TileType::Wall && n >= 4) || (before != TileType::Wall && n <= 4) ==> after == before
            }
            &&& !(1 <= x <= w - 2 && 1 <= y <= h - 2) ==> after == before
        }),
{
    let i = y * w + x;
    lemma_idx_on_grid(w, h, x, y);
    lemma_idx_decode(w, h, i);
    lemma_idx_injective(w, i % w, i / w, x, y);
    assert(i % w == x && i / w == y);
    if 1 <= x <= w - 2 && 1 <= y <= h - 2 {
        assert((y - 1) * w == y * w - w) by (nonlinear_arith);
        assert((y + 1) * w == y * w + w) by (nonlinear_arith);
        assert(wall_neighbours(tiles, w, i) == walls_around(tiles, w, x, y));
    }
}

/// The tile a seeding d100 roll gives: floor above 48, wall otherwise.
pub open spec fn seed_tile_spec(roll: int) -> TileType {
    if roll > 48 {
        TileType::Floor
    } else {
        TileType::Wall
    }
}

/// The tile a seeding d100 roll of `roll` gives.
pub fn seed_tile(roll: i32) -> (t: TileType)
    ensures
        t == seed_tile_spec(roll as int),
{
    if roll > 48 {
        TileType::Floor
    } else {
        TileType::Wall
    }
}

/// A tile that some d100 roll (in `1..=100`) gives when seeding.
pub open spec fn seeded_by_some_roll(t: TileType) -> bool {
    exists|roll: int| 1 <= roll <= 100 && #[trigger] seed_tile_spec(roll) == t
}

/// The tiles the seeding step fills: off the outer ring of the grid.
pub open spec fn seeded(w: int, h: int, x: int, y: int) -> bool {
    1 <= x <= w - 2 && 1 <= y <= h - 2
}

proof fn lemma_seeded_indices(w: int, h: int)
    requires
        0 < w,
        0 < h,
    ensures
        forall|x: int, y: int| seeded(w, h, x, y) ==> 0 <= #[trigger] idx_of(w, x, y) < w * h,
{
    assert forall|x: int, y: int| seeded(w, h, x, y) implies 0 <= #[trigger] idx_of(w, x, y) < w * h by {
        lemma_idx_on_grid(w, h, x, y);
    }
}

/// An index between the last interior tile of row `y` and the first interior
/// tile of row `y + 1` is on the outer ring.
proof fn lemma_row_gap(w: int, h: int, y: int, i: int)
    requires
        2 <= w,
        0 <= y,
        idx_of(w, w - 1, y) <= i < idx_of(w, 1, y + 1),
    ensures
        !ca_interior(w, h, i),
{
    if i == idx_of(w, w - 1, y) {
        vstd::arithmetic::div_mod::lemma_fundamental_div_mod_converse(i, w, y, w - 1);
    } else {
        assert(i == (y + 1) * w) by (nonlinear_arith)
            requires
                y * w + w - 1 < i < (y + 1) * w + 1,
        ;
        vstd::arithmetic::div_mod::lemma_fundamental_div_mod_converse(i, w, y + 1, 0);
    }
}

/// An interior tile below a row's first interior index is in an earlier row.
proof fn lemma_interior_decode(w: int, h: int, x: int, y: int, i: int)
    requires
        2 <= w,
        1 <= x <= w - 2,
        1 <= y,
        i == idx_of(w, x, y),
    ensures
        i % w == x,
        i / w == y,
{
    vstd::arithmetic::div_mod::lemma_fundamental_div_mod_converse(i, w, y, x);
}

fn copy_tiles(tiles: &Vec<TileType>) -> (c: Vec<TileType>)
    ensures
        c@ == tiles@,
{
    let mut c: Vec<TileType> = Vec::new();
    let mut i: usize = 0;
    while i < tiles.len()
        invariant
            i <= tiles.len(),
            c@ == tiles@.take(i as int),
        decreases tiles.len() - i,
    {
        c.push(tiles[i]);
        i = i + 1;
        assert(c@ =~= tiles@.take(i as int));
    }
    assert(tiles@.take(tiles.len() as int) =~= tiles@);
    c
}

fn wall_u(t: TileType) -> (b: i32)
    ensures
        b == wall_bit(t),
{
    if t == TileType::Wall {
        1
    } else {
        0
    }
}

/// One application of the rule to every interior tile of `map`.
fn ca_pass(map: &mut GameMap)
    requires
        old(map).wf(),
    ensures
        final(map).same_but_tiles(old(map)),
        final(map).tiles@ == ca_step(old(map).tiles@, old(map).width as int, old(map).height as int),
{
    let ghost w = map.width as int;
    let ghost h = map.height as int;
    let ghost old_tiles = map.tiles@;
    let mut newtiles = copy_tiles(&map.tiles);
    if map.width < 3 || map.height < 3 {
        // No tile has both coordinates strictly inside; the step is the identity.
        assert(newtiles@ =~= ca_step(old_tiles, w, h)) by {
            assert forall|i: int| 0 <= i < old_tiles.len() implies !ca_interior(w, h, i) by {
                lemma_idx_decode(w, h, i);
            }
        }
        map.tiles = newtiles;
        return ;
    }
    proof {
        assert forall|i: int| 0 <= i < old_tiles.len() && ca_interior(w, h, i) implies i >= idx_of(
            w,
            1,
            1,
        ) by {
            lemma_idx_decode(w, h, i);
            assert(i >= w + 1) by (nonlinear_arith)
                requires
                    i == (i / w) * w + i % w,
                    i % w >= 1,
                    i / w >= 1,
                    0 < w,
            ;
        }
    }
    let mut y: i32 = 1;
    while y < map.height - 1
        invariant
            map.wf(),
            map.tiles@ == old_tiles,
            w == map.width,
            h == map.height,
            3 <= w,
            3 <= h,
            1 <= y <= h - 1,
            newtiles.len() == old_tiles.len(),
            forall|i: int|
                0 <= i < old_tiles.len() ==> newtiles[i] == if ca_interior(w, h, i) && i < idx_of(
                    w,
                    1,
                    y as int,
                ) {
                    ca_rule(old_tiles, w, i)
                } else {
                    old_tiles[i]
                },
        decreases h - y,
    {
        let mut x: i32 = 1;
        while x < map.width - 1
            invariant
                map.wf(),
                map.tiles@ == old_tiles,
                w == map.width,
                h == map.height,
                3 <= w,
                3 <= h,
                1 <= y <= h - 2,
                1 <= x <= w - 1,
                newtiles.len() == old_tiles.len(),
                forall|i: int|
                    0 <= i < old_tiles.len() ==> newtiles[i] == if ca_interior(w, h, i) && i
                        < idx_of(w, x as int, y as int) {
                        ca_rule(old_tiles, w, i)
                    } else {
                        old_tiles[i]
                    },
            decreases w - x,
        {
            proof {
                lemma_idx_on_grid(w, h, x as int - 1, y as int - 1);
                lemma_idx_on_grid(w, h, x as int + 1, y as int + 1);
                lemma_idx_on_grid(w, h, x as int, y as int);
                lemma_interior_decode(w, h, x as int, y as int, idx_of(w, x as int, y as int));
                assert(idx_of(w, x as int + 1, y as int + 1) == idx_of(w, x as int, y as int) + w + 1)
                    by (nonlinear_arith);
                assert(idx_of(w, x as int - 1, y as int - 1) == idx_of(w, x as int, y as int) - w - 1)
                    by (nonlinear_arith);
            }
            let idx = map.xy_idx(x, y);
            let wu = map.width as usize;
            let center = map.tiles[idx] == TileType::Wall;
            let n_neighbors: i32 = wall_u(map.tiles[idx - 1]) + wall_u(map.tiles[idx + 1]) + wall_u(
                map.tiles[idx - wu],
            ) + wall_u(map.tiles[idx + wu]) + wall_u(map.tiles[idx - (wu - 1)]) + wall_u(
                map.tiles[idx - (wu + 1)],
            ) + wall_u(map.tiles[idx + (wu - 1)]) + wall_u(map.tiles[idx + (wu + 1)]);
            assert(n_neighbors == wall_neighbours(old_tiles, w, idx as int));
            if center && n_neighbors <= 3 {
                newtiles.set(idx, TileType::Floor);
            } else if !center && n_neighbors >= 5 {
                newtiles.set(idx, TileType::Wall);
            }
            assert(newtiles[idx as int] == ca_rule(old_tiles, w, idx as int));
            x = x + 1;
        }
        proof {
            assert(idx_of(w, 1, y + 1) == idx_of(w, w - 1, y as int) + 2) by (nonlinear_arith);
            assert forall|i: int|
                0 <= i < old_tiles.len() implies newtiles[i] == if ca_interior(w, h, i) && i
                    < idx_of(w, 1, y + 1) {
                    ca_rule(old_tiles, w, i)
                } else {
                    old_tiles[i]
                } by {
                if idx_of(w, w - 1, y as int) <= i < idx_of(w, 1, y + 1) {
                    lemma_row_gap(w, h, y as int, i);
                }
            }
        }
        y = y + 1;
    }
    proof {
        assert forall|i: int| 0 <= i < old_tiles.len() && ca_interior(w, h, i) implies i < idx_of(
            w,
            1,
            y as int,
        ) by {
            lemma_idx_decode(w, h, i);
            assert(i / w <= h - 2);
            assert(i < idx_of(w, 1, h - 1)) by (nonlinear_arith)
                requires
                    i == (i / w) * w + i % w,
                    i % w <= w - 2,
                    i / w <= h - 2,
                    0 < w,
            ;
        }
        assert(newtiles@ =~= ca_step(old_tiles, w, h));
    }
    map.tiles = newtiles;
}

pub struct CellularAutomataBuilder {
    map: GameMap,
    depth: i32,
    history: Vec<GameMap>,
    // Pseudo-rooms: lists of floor indices sharing a cell of cellular noise,
    // in the order their cells were first met.
    noise_areas: Vec<(i32, Vec<usize>)>,
}

impl CellularAutomataBuilder {
    pub closed spec fn map_spec(&self) -> GameMap {
        self.map
    }

    /// The snapshots recorded so far.
    pub closed spec fn history_spec(&self) -> Seq<GameMap> {
        self.history@
    }

    pub closed spec fn depth_spec(&self) -> i32 {
        self.depth
    }

    pub closed spec fn noise_areas_spec(&self) -> Seq<(i32, Seq<usize>)> {
        self.noise_areas@.map_values(|a: (i32, Vec<usize>)| (a.0, a.1@))
    }

    /// A builder holding a fresh map of walls at `depth`.
    pub fn new(depth: i32) -> (b: CellularAutomataBuilder)
        ensures
            b.map_spec().wf(),
            b.map_spec().depth == depth,
            forall|i: int| 0 <= i < b.map_spec().tiles.len() ==> b.map_spec().tiles[i] == TileType::Wall,
            b.depth_spec() == depth,
            b.noise_areas_spec().len() == 0,
    {
        let b = CellularAutomataBuilder {
            map: GameMap::new(depth),
            depth,
            history: Vec::new(),
            noise_areas: Vec::new(),
        };
        assert(b.noise_areas_spec() =~= Seq::<(i32, Seq<usize>)>::empty());
        b
    }

    /// The map being built.
    pub fn map(&self) -> (m: &GameMap)
        ensures
            *m == self.map_spec(),
    {
        &self.map
    }

    /// The map being built, for the steps of the build that run outside the
    /// builder (connected components, terrain).
    pub fn map_mut(&mut self) -> (m: &mut GameMap)
        ensures
            *m == old(self).map_spec(),
            final(self).map_spec() == *final(m),
            final(self).depth_spec() == old(self).depth_spec(),
            final(self).noise_areas_spec() == old(self).noise_areas_spec(),
    {
        &mut self.map
    }

    /// The floor of the map, split into the areas of the noise cells.
    pub fn noise_areas(&self) -> (a: &Vec<(i32, Vec<usize>)>)
        ensures
            a@.len() == self.noise_areas_spec().len(),
            forall|k: int| 0 <= k < a@.len() ==> (#[trigger] a@[k]).0 == self.noise_areas_spec()[k].0 && a@[k].1@ == self.noise_areas_spec()[k].1,
    {
        &self.noise_areas
    }

    /// Records a snapshot of the map for replaying the build, when map
    /// generation is being visualized.
    pub fn take_snapshot(&mut self)
        ensures
            final(self).map_spec() == old(self).map_spec(),
            final(self).noise_areas_spec() == old(self).noise_areas_spec(),
            final(self).depth_spec() == old(self).depth_spec(),
            final(self).history_spec().len() == old(self).history_spec().len() + if DEBUG_VISUALIZE_MAPGEN {
                1int
            } else {
                0int
            },
            final(self).history_spec().take(old(self).history_spec().len() as int) == old(self).history_spec(),
    {
        if DEBUG_VISUALIZE_MAPGEN {
            let snapshot = self.map.clone();
            self.history.push(snapshot);
        }
        assert(self.history@.take(old(self).history@.len() as int) =~= old(self).history@);
    }

    /// Seeds the interior of the map: each tile with `1 <= x <= width - 2` and
    /// `1 <= y <= height - 2` independently becomes floor when a d100 roll
    /// exceeds 48, and wall otherwise.
    pub fn ititialize(&mut self, rng: &mut RandomNumberGenerator)
        requires
            old(self).map_spec().wf(),
        ensures
            final(self).map_spec().same_but_tiles(&old(self).map_spec()),
            final(self).noise_areas_spec() == old(self).noise_areas_spec(),
            final(self).depth_spec() == old(self).depth_spec(),
            forall|x: int, y: int|
                seeded(old(self).map_spec().width as int, old(self).map_spec().height as int, x, y)
                    ==> {
                    let t = final(self).map_spec().tiles[idx_of(
                        old(self).map_spec().width as int,
                        x,
                        y,
                    )];
                    seeded_by_some_roll(t)
                },
            forall|i: int|
                0 <= i < old(self).map_spec().tiles.len() && (forall|x: int, y: int|
                    seeded(old(self).map_spec().width as int, old(self).map_spec().height as int, x, y)
                        ==> #[trigger] idx_of(old(self).map_spec().width as int, x, y) != i)
                    ==> final(self).map_spec().tiles[i] == old(self).map_spec().tiles[i],
    {
        let ghost w = self.map.width as int;
        let ghost h = self.map.height as int;
        let ghost old_map = self.map;
        let mut x: i32 = 1;
        while x < self.map.width - 1
            invariant
                self.map.wf(),
                self.map.same_but_tiles(&old_map),
                old_map == old(self).map,
                self.noise_areas == old(self).noise_areas,
                self.depth == old(self).depth,
                w == self.map.width,
                h == self.map.height,
                1 <= x,
                x <= w - 1 || w < 2,
                forall|x2: int, y2: int|
                    seeded(w, h, x2, y2) && x2 < x ==> {
                        let t = self.map.tiles[idx_of(w, x2, y2)];
                        seeded_by_some_roll(t)
                    },
                forall|i: int|
                    0 <= i < old_map.tiles.len() && (forall|x2: int, y2: int|
                        seeded(w, h, x2, y2) && x2 < x ==> #[trigger] idx_of(w, x2, y2) != i)
                        ==> self.map.tiles[i] == old_map.tiles[i],
            decreases w - x,
        {
            let mut y: i32 = 1;
            while y < self.map.height - 1
                invariant
                    self.map.wf(),
                    self.map.same_but_tiles(&old_map),
                    old_map == old(self).map,
                    self.noise_areas == old(self).noise_areas,
                    self.depth == old(self).depth,
                    w == self.map.width,
                    h == self.map.height,
                    1 <= x <= w - 2,
                    1 <= y,
                    y <= h - 1 || h < 2,
                    forall|x2: int, y2: int|
                        seeded(w, h, x2, y2) && (x2 < x || (x2 == x && y2 < y)) ==> {
                            let t = self.map.tiles[idx_of(w, x2, y2)];
                            seeded_by_some_roll(t)
                        },
                    forall|i: int|
                        0 <= i < old_map.tiles.len() && (forall|x2: int, y2: int|
                            seeded(w, h, x2, y2) && (x2 < x || (x2 == x && y2 < y))
                                ==> #[trigger] idx_of(w, x2, y2) != i) ==> self.map.tiles[i]
                            == old_map.tiles[i],
                decreases h - y,
            {
                let roll = roll_dice(rng, 1, 100);
                proof {
                    lemma_idx_on_grid(w, h, x as int, y as int);
                    lemma_seeded_indices(w, h);
                }
                let idx = self.map.xy_idx(x, y);
                let tile = seed_tile(roll);
                assert(1 <= roll as int <= 100 && seed_tile_spec(roll as int) == tile);
                self.map.tiles.set(idx, tile);
                y = y + 1;
            }
            x = x + 1;
        }
    }

    /// Runs the automaton's rule over the whole map fifteen times.
    pub fn update(&mut self)
        requires
            old(self).map_spec().wf(),
        ensures
            final(self).map_spec().same_but_tiles(&old(self).map_spec()),
            final(self).noise_areas_spec() == old(self).noise_areas_spec(),
            final(self).depth_spec() == old(self).depth_spec(),
            final(self).map_spec().tiles@ == ca_steps(
                old(self).map_spec().tiles@,
                old(self).map_spec().width as int,
                old(self).map_spec().height as int,
                N_RULE_PASSES as nat,
            ),
    {
        let ghost w = self.map.width as int;
        let ghost h = self.map.height as int;
        let ghost old_map = self.map;
        let mut k: usize = 0;
        while k < N_RULE_PASSES
            invariant
                k <= N_RULE_PASSES,
                self.map.wf(),
                self.map.same_but_tiles(&old_map),
                self.noise_areas == old(self).noise_areas,
                self.depth == old(self).depth,
                w == self.map.width,
                h == self.map.height,
                self.map.tiles@ == ca_steps(old_map.tiles@, w, h, k as nat),
            decreases N_RULE_PASSES - k,
        {
            ca_pass(&mut self.map);
            k = k + 1;
        }
    }

    /// Files the floor tile `idx` under the noise cell `cell_value`: appended
    /// to that cell's area if one exists, otherwise as a new area.
    pub fn add_to_noise_area(&mut self, cell_value: i32, idx: usize)
        ensures
            final(self).map_spec() == old(self).map_spec(),
            final(self).depth_spec() == old(self).depth_spec(),
            final(self).noise_areas_spec() == file_area(
                old(self).noise_areas_spec(),
                cell_value,
                idx,
            ),
    {
        let ghost old_areas = self.noise_areas_spec();
        let n = self.noise_areas.len();
        let mut k: usize = 0;
        while k < n
            invariant
                n == self.noise_areas.len(),
                k <= n,
                self.noise_areas_spec() == old_areas,
                old_areas == old(self).noise_areas_spec(),
                self.map == old(self).map,
                self.depth == old(self).depth,
                old_areas.len() == n,
                forall|j: int| 0 <= j < k ==> old_areas[j].0 != cell_value,
            decreases n - k,
        {
            if self.noise_areas[k].0 == cell_value {
                assert(old_areas[k as int].0 == cell_value);
                let mut area = self.noise_areas.remove(k);
                area.1.push(idx);
                self.noise_areas.insert(k, area);
                proof {
                    lemma_file_area_at(old_areas, cell_value, idx, k as int);
                    assert(self.noise_areas_spec() =~= old_areas.update(
                        k as int,
                        (cell_value, old_areas[k as int].1.push(idx)),
                    ));
                }
                return ;
            }
            k = k + 1;
        }
        let mut v: Vec<usize> = Vec::new();
        v.push(idx);
        self.noise_areas.push((cell_value, v));
        proof {
            lemma_file_area_new(old_areas, cell_value, idx);
        }
        assert(self.noise_areas_spec() =~= old_areas.push((cell_value, seq![idx])));
    }

    /// Sorts the open cave into pseudo-rooms: every floor tile off the border,
    /// visited row by row, is filed under its noise cell `cell_values[idx]`.
    pub fn populate_noise_areas(&mut self, cell_values: &Vec<i32>)
        requires
            old(self).map_spec().wf(),
            cell_values.len() == old(self).map_spec().tiles.len(),
        ensures
            final(self).map_spec() == old(self).map_spec(),
            final(self).depth_spec() == old(self).depth_spec(),
            final(self).noise_areas_spec() == file_rows(
                old(self).noise_areas_spec(),
                old(self).map_spec().tiles@,
                cell_values@,
                old(self).map_spec().width as int,
                old(self).map_spec().height as int,
                1,
            ),
    {
        let w = self.map.width;
        let h = self.map.height;
        let ghost tiles = self.map.tiles@;
        let ghost cells = cell_values@;
        let ghost start = self.noise_areas_spec();
        let mut y: i32 = 1;
        while y < h - 1
            invariant
                self.map == old(self).map,
                self.depth == old(self).depth,
                self.map.wf(),
                w == self.map.width,
                h == self.map.height,
                tiles == self.map.tiles@,
                cells == cell_values@,
                cells.len() == tiles.len(),
                tiles.len() == w * h,
                1 <= y,
                y <= h || h < 2,
                start == old(self).noise_areas_spec(),
                file_rows(self.noise_areas_spec(), tiles, cells, w as int, h as int, y as int)
                    == file_rows(start, tiles, cells, w as int, h as int, 1),
            decreases h - y,
        {
            let ghost row_start = self.noise_areas_spec();
            let mut x: i32 = 1;
            while x < w - 1
                invariant
                    self.map == old(self).map,
                    self.depth == old(self).depth,
                    self.map.wf(),
                    w == self.map.width,
                    h == self.map.height,
                    tiles == self.map.tiles@,
                    cells == cell_values@,
                    cells.len() == tiles.len(),
                    tiles.len() == w * h,
                    1 <= y < h - 1,
                    1 <= x,
                    x <= w || w < 2,
                    file_cols(self.noise_areas_spec(), tiles, cells, w as int, y as int, x as int)
                        == file_cols(row_start, tiles, cells, w as int, y as int, 1),
                decreases w - x,
            {
                proof {
                    lemma_idx_on_grid(w as int, h as int, x as int, y as int);
                }
                let idx = self.map.xy_idx(x, y);
                if self.map.tiles[idx] == TileType::Floor {
                    self.add_to_noise_area(cell_values[idx], idx);
                }
                x = x + 1;
            }
            y = y + 1;
        }
    }
}

/// The areas after filing tile `idx` under `cell`: appended to the first area
/// of that cell, or a new area at the end when there is none.
pub open spec fn file_area(areas: Seq<(i32, Seq<usize>)>, cell: i32, idx: usize) -> Seq<
    (i32, Seq<usize>),
>
    decreases areas.len(),
{
    if areas.len() == 0 {
        seq![(cell, seq![idx])]
    } else if areas[0].0 == cell {
        areas.update(0, (cell, areas[0].1.push(idx)))
    } else {
        seq![areas[0]] + file_area(areas.drop_first(), cell, idx)
    }
}

/// Files the floor tiles `x..w-1` of row `y`, left to right.
pub open spec fn file_cols(
    areas: Seq<(i32, Seq<usize>)>,
    tiles: Seq<TileType>,
    cells: Seq<i32>,
    w: int,
    y: int,
    x: int,
) -> Seq<(i32, Seq<usize>)>
    decreases w - 1 - x,
{
    if x >= w - 1 {
        areas
    } else {
        let idx = idx_of(w, x, y);
        let next = if tiles[idx] == TileType::Floor {
            file_area(areas, cells[idx], idx as usize)
        } else {
            areas
        };
        file_cols(next, tiles, cells, w, y, x + 1)
    }
}

/// Files the floor tiles off the border of rows `y..h-1`, top to bottom.
pub open spec fn file_rows(
    areas: Seq<(i32, Seq<usize>)>,
    tiles: Seq<TileType>,
    cells: Seq<i32>,
    w: int,
    h: int,
    y: int,
) -> Seq<(i32, Seq<usize>)>
    decreases h - 1 - y,
{
    if y >= h - 1 {
        areas
    } else {
        file_rows(file_cols(areas, tiles, cells, w, y, 1), tiles, cells, w, h, y + 1)
    }
}

proof fn lemma_file_area_at(areas: Seq<(i32, Seq<usize>)>, cell: i32, idx: usize, k: int)
    requires
        0 <= k < areas.len(),
        areas[k].0 == cell,
        forall|j: int| 0 <= j < k ==> areas[j].0 != cell,
    ensures
        file_area(areas, cell, idx) == areas.update(k, (cell, areas[k].1.push(idx))),
    decreases k,
{
    if k > 0 {
        let rest = areas.drop_first();
        assert forall|j: int| 0 <= j < k - 1 implies rest[j].0 != cell by {
            assert(rest[j] == areas[j + 1]);
        }
        lemma_file_area_at(rest, cell, idx, k - 1);
        assert(file_area(areas, cell, idx) =~= areas.update(k, (cell, areas[k].1.push(idx))));
    }
}

proof fn lemma_file_area_new(areas: Seq<(i32, Seq<usize>)>, cell: i32, idx: usize)
    requires
        forall|j: int| 0 <= j < areas.len() ==> areas[j].0 != cell,
    ensures
        file_area(areas, cell, idx) == areas.push((cell, seq![idx])),
    decreases areas.len(),
{
    if areas.len() > 0 {
        let rest = areas.drop_first();
        assert forall|j: int| 0 <= j < rest.len() implies rest[j].0 != cell by {
            assert(rest[j] == areas[j + 1]);
        }
        lemma_file_area_new(rest, cell, idx);
        assert(file_area(areas, cell, idx) =~= areas.push((cell, seq![idx])));
    }
}

} // verus!
