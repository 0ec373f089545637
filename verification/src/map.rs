use vstd::prelude::*;
use rltk::RandomNumberGenerator;
use specs::Entity;
use crate::geometry::Point;
use crate::grid::{exit_open, exits_spec, grid_exits, idx_of, interior, lemma_idx_decode, lemma_idx_on_grid, on_grid, Exit};
use crate::rng::{new_rng, range, roll_dice};
use crate::components::ai::MovementRoutingOptions;

verus! {

pub const MAP_WIDTH: i32 = 80;
pub const MAP_HEIGHT: i32 = 43;
pub const MAP_SIZE: usize = 3440usize;

#[derive(PartialEq, Eq, Structural, Copy, Clone, Debug)]
pub enum TileType {
    Wall,
    Floor,
    BloodStain,
    DownStairs,
}

/// The dungeon floor: a row-major grid of tiles, along with per-tile state
/// that the game systems keep in sync with the entities on the floor.
#[derive(Clone)]
pub struct GameMap {
    pub width: i32,
    pub height: i32,
    // The current depth into the dungeon.
    pub depth: i32,
    pub tiles: Vec<TileType>,
    // Has the player seen this tile?
    pub revealed_tiles: Vec<bool>,
    // Is this tile currently visible to the player?
    pub visible_tiles: Vec<bool>,
    // Is the tile currently blocked for movement?
    pub blocked: Vec<bool>,
    // Is the tile currently occupied by fire?
    pub fire: Vec<bool>,
    // Is the tile currently occupied by chill?
    pub chill: Vec<bool>,
    // Is the tile covered by water? Set when the floor is built.
    pub water: Vec<bool>,
    // The entities occupying each tile.
    pub tile_content: Vec<Vec<Entity>>,
}

/// Tiles that random placement may choose: open floor, stained or not.
pub open spec fn is_open_floor(t: TileType) -> bool {
    t == TileType::Floor || t == TileType::BloodStain
}

impl GameMap {
    /// Every tile of the map is open floor.
    pub open spec fn all_open_floor(&self) -> bool {
        forall|i: int| 0 <= i < self.tiles.len() ==> is_open_floor(#[trigger] self.tiles[i])
    }

    /// Every tile of the map is open floor and not blocked.
    pub open spec fn all_free(&self) -> bool {
        forall|i: int| 0 <= i < self.tiles.len() ==> is_open_floor(#[trigger] self.tiles[i]) && !self.blocked[i]
    }

    /// A map whose per-tile vectors all cover the whole grid.
    pub open spec fn wf(&self) -> bool {
        &&& 0 < self.width
        &&& 0 < self.height
        &&& self.width * self.height < i32::MAX
        &&& self.tiles.len() == self.width * self.height
        &&& self.revealed_tiles.len() == self.width * self.height
        &&& self.visible_tiles.len() == self.width * self.height
        &&& self.blocked.len() == self.width * self.height
        &&& self.fire.len() == self.width * self.height
        &&& self.chill.len() == self.width * self.height
        &&& self.water.len() == self.width * self.height
        &&& self.tile_content.len() == self.width * self.height
    }

    pub open spec fn idx(&self, x: int, y: int) -> int {
        idx_of(self.width as int, x, y)
    }

    pub open spec fn in_bounds(&self, x: int, y: int) -> bool {
        interior(self.width as int, self.height as int, x, y)
    }

    pub open spec fn on_map(&self, x: int, y: int) -> bool {
        on_grid(self.width as int, self.height as int, x, y)
    }

    /// The fields other than `tiles` agree.
    pub open spec fn same_but_tiles(&self, other: &GameMap) -> bool {
        &&& self.width == other.width
        &&& self.height == other.height
        &&& self.depth == other.depth
        &&& self.tiles.len() == other.tiles.len()
        &&& self.revealed_tiles@ == other.revealed_tiles@
        &&& self.visible_tiles@ == other.visible_tiles@
        &&& self.blocked@ == other.blocked@
        &&& self.fire@ == other.fire@
        &&& self.chill@ == other.chill@
        &&& self.water@ == other.water@
        &&& self.tile_content@ == other.tile_content@
    }

    /// A fresh map of the standard size: all walls, nothing seen, visible,
    /// blocked, burning, chilled or under water, and no entities.
    pub fn new(depth: i32) -> (map: GameMap)
        ensures
            map.wf(),
            map.width == MAP_WIDTH,
            map.height == MAP_HEIGHT,
            map.depth == depth,
            forall|i: int| 0 <= i < MAP_SIZE ==> map.tiles[i] == TileType::Wall,
            forall|i: int|
                0 <= i < MAP_SIZE ==> {
                    &&& !map.revealed_tiles[i]
                    &&& !map.visible_tiles[i]
                    &&& !map.blocked[i]
                    &&& !map.fire[i]
                    &&& !map.chill[i]
                    &&& !map.water[i]
                    &&& map.tile_content[i].len() == 0
                },
    {
        let mut tiles: Vec<TileType> = Vec::new();
        let mut revealed_tiles: Vec<bool> = Vec::new();
        let mut visible_tiles: Vec<bool> = Vec::new();
        let mut blocked: Vec<bool> = Vec::new();
        let mut fire: Vec<bool> = Vec::new();
        let mut chill: Vec<bool> = Vec::new();
        let mut water: Vec<bool> = Vec::new();
        let mut tile_content: Vec<Vec<Entity>> = Vec::new();
        let mut i: usize = 0;
        while i < MAP_SIZE
            invariant
                i <= MAP_SIZE,
                tiles.len() == i,
                revealed_tiles.len() == i,
                visible_tiles.len() == i,
                blocked.len() == i,
                fire.len() == i,
                chill.len() == i,
                water.len() == i,
                tile_content.len() == i,
                forall|j: int| 0 <= j < i ==> tiles[j] == TileType::Wall,
                forall|j: int|
                    0 <= j < i ==> {
                        &&& !revealed_tiles[j]
                        &&& !visible_tiles[j]
                        &&& !blocked[j]
                        &&& !fire[j]
                        &&& !chill[j]
                        &&& !water[j]
                        &&& tile_content[j].len() == 0
                    },
            decreases MAP_SIZE - i,
        {
            tiles.push(TileType::Wall);
            revealed_tiles.push(false);
            visible_tiles.push(false);
            blocked.push(false);
            fire.push(false);
            chill.push(false);
            water.push(false);
            tile_content.push(Vec::new());
            i = i + 1;
        }
        GameMap {
            width: MAP_WIDTH,
            height: MAP_HEIGHT,
            depth,
            tiles,
            revealed_tiles,
            visible_tiles,
            blocked,
            fire,
            chill,
            water,
            tile_content,
        }
    }

    /// The storage index of column `x`, row `y`.
    pub fn xy_idx(&self, x: i32, y: i32) -> (idx: usize)
        requires
            0 <= x,
            0 <= y,
            0 <= self.width,
            y * self.width <= i32::MAX,
        ensures
            idx == self.idx(x as int, y as int),
    {
        proof {
            assert(0 <= y * self.width) by (nonlinear_arith)
                requires
                    0 <= y,
                    0 <= self.width,
            ;
        }
        ((y * self.width) as usize) + x as usize
    }

    /// The column and row stored at index `idx`.
    pub fn idx_xy(&self, idx: usize) -> (xy: (i32, i32))
        requires
            0 < self.width,
            idx <= i32::MAX,
        ensures
            xy.0 == idx as int % self.width as int,
            xy.1 == idx as int / self.width as int,
            self.idx(xy.0 as int, xy.1 as int) == idx,
    {
        proof {
            lemma_idx_decode(self.width as int, 0, idx as int);
        }
        let i = idx as i32;
        (i % self.width, i / self.width)
    }

    /// Is column `x`, row `y` inside the playable interior of the map?
    pub fn within_bounds(&self, x: i32, y: i32) -> (b: bool)
        requires
            i32::MIN < self.width,
            i32::MIN < self.height,
        ensures
            b == self.in_bounds(x as int, y as int),
    {
        x >= 1 && x <= self.width - 1 && y >= 1 && y <= self.height - 1
    }

    /// Draws of a column and a row, each a die roll from 1 up to the width
    /// (the height).
    pub open spec fn draws_in_range(&self, draws: Seq<(i32, i32)>) -> bool {
        forall|i: int|
            0 <= i < draws.len() ==> 1 <= #[trigger] draws[i].0 <= self.width && 1 <= draws[i].1 <= self.height
    }

    /// The point a draw (column roll, row roll) names: one less in each
    /// coordinate.
    pub open spec fn drawn_point(draw: (i32, i32)) -> (i32, i32) {
        ((draw.0 - 1) as i32, (draw.1 - 1) as i32)
    }

    /// The first draw whose point is open floor, as that point; `None` when
    /// none is.
    pub open spec fn first_open_draw(&self, draws: Seq<(i32, i32)>) -> Option<(i32, i32)>
        decreases draws.len(),
    {
        if draws.len() == 0 {
            None
        } else {
            let p = Self::drawn_point(draws[0]);
            if is_open_floor(self.tiles[self.idx(p.0 as int, p.1 as int)]) {
                Some(p)
            } else {
                self.first_open_draw(draws.drop_first())
            }
        }
    }

    /// What `random_point` can give after `n_tries` tries: the first open
    /// floor point of some `n_tries` draws in range.
    pub open spec fn random_point_outcome(&self, n_tries: int, p: Option<(i32, i32)>) -> bool {
        exists|draws: Seq<(i32, i32)>|
            #![trigger self.first_open_draw(draws)]
            draws.len() == n_tries && self.draws_in_range(draws) && p == self.first_open_draw(draws)
    }

    /// The first open floor point of a sequence of draws is that of its first
    /// part, or else that of the rest.
    pub proof fn lemma_first_open_draw_append(&self, s: Seq<(i32, i32)>, t: Seq<(i32, i32)>)
        ensures
            self.first_open_draw(s + t) == match self.first_open_draw(s) {
                Some(p) => Some(p),
                None => self.first_open_draw(t),
            },
        decreases s.len(),
    {
        if s.len() > 0 {
            assert((s + t).drop_first() =~= s.drop_first() + t);
            assert((s + t)[0] == s[0]);
            self.lemma_first_open_draw_append(s.drop_first(), t);
        } else {
            assert(s + t =~= t);
        }
    }

    /// The point one draw names, if it is open floor.
    pub fn open_point_on_draw(&self, draw: (i32, i32)) -> (p: Option<(i32, i32)>)
        requires
            self.wf(),
            1 <= draw.0 <= self.width,
            1 <= draw.1 <= self.height,
        ensures
            p == self.first_open_draw(seq![draw]),
            p matches Some(pt) ==> self.on_map(pt.0 as int, pt.1 as int) && is_open_floor(
                self.tiles[self.idx(pt.0 as int, pt.1 as int)],
            ),
            p is None ==> !is_open_floor(
                self.tiles[self.idx(Self::drawn_point(draw).0 as int, Self::drawn_point(draw).1 as int)],
            ),
    {
        let x = draw.0 - 1;
        let y = draw.1 - 1;
        proof {
            lemma_idx_on_grid(self.width as int, self.height as int, x as int, y as int);
            assert(seq![draw].drop_first() =~= Seq::<(i32, i32)>::empty());
            assert(self.first_open_draw(Seq::<(i32, i32)>::empty()) is None);
            assert(seq![draw][0] == draw);
        }
        let idx = self.xy_idx(x, y);
        let tile = self.tiles[idx];
        if tile == TileType::Floor || tile == TileType::BloodStain {
            Some((x, y))
        } else {
            None
        }
    }

    /// The first of `draws` (column roll, row roll) whose point is open
    /// floor, as that point.
    pub fn first_open_point(&self, draws: &Vec<(i32, i32)>) -> (p: Option<(i32, i32)>)
        requires
            self.wf(),
            self.draws_in_range(draws@),
        ensures
            p == self.first_open_draw(draws@),
    {
        let mut i: usize = 0;
        while i < draws.len()
            invariant
                self.wf(),
                self.draws_in_range(draws@),
                i <= draws.len(),
                self.first_open_draw(draws@.take(i as int)) is None,
            decreases draws.len() - i,
        {
            let d = draws[i];
            proof {
                assert(self.draws_in_range(draws@));
                assert(1 <= draws@[i as int].0 <= self.width);
            }
            let p = self.open_point_on_draw(d);
            proof {
                assert(draws@.take(i as int + 1) =~= draws@.take(i as int) + seq![d]);
                self.lemma_first_open_draw_append(draws@.take(i as int), seq![d]);
                assert(draws@ =~= draws@.take(i as int + 1) + draws@.skip(i as int + 1));
                self.lemma_first_open_draw_append(draws@.take(i as int + 1), draws@.skip(i as int + 1));
            }
            if p.is_some() {
                return p;
            }
            i = i + 1;
        }
        assert(draws@.take(draws.len() as int) =~= draws@);
        None
    }

    /// Tries up to `n_tries` random tiles and returns the first one that is
    /// open floor.
    pub fn random_point(&self, n_tries: i32, rng: &mut RandomNumberGenerator) -> (p: Option<
        (i32, i32),
    >)
        requires
            self.wf(),
        ensures
            p matches Some(pt) ==> self.on_map(pt.0 as int, pt.1 as int) && is_open_floor(
                self.tiles[self.idx(pt.0 as int, pt.1 as int)],
            ),
            n_tries <= 0 ==> p is None,
            n_tries > 0 && self.all_open_floor() ==> p is Some,
            n_tries >= 0 ==> self.random_point_outcome(n_tries as int, p),
    {
        proof {
            assert(self.width < i32::MAX && self.height < i32::MAX) by (nonlinear_arith)
                requires
                    0 < self.width,
                    0 < self.height,
                    self.width * self.height < i32::MAX,
            ;
        }
        let ghost mut draws: Seq<(i32, i32)> = Seq::empty();
        let mut k: i32 = 0;
        while k < n_tries
            invariant
                0 <= k,
                n_tries > 0 ==> k <= n_tries,
                self.wf(),
                self.width < i32::MAX,
                self.height < i32::MAX,
                k > 0 ==> !self.all_open_floor(),
                draws.len() == k,
                self.draws_in_range(draws),
                self.first_open_draw(draws) is None,
            decreases n_tries - k,
        {
            let d = (roll_dice(rng, 1, self.width), roll_dice(rng, 1, self.height));
            let p = self.open_point_on_draw(d);
            proof {
                let old_draws = draws;
                self.lemma_first_open_draw_append(old_draws, seq![d]);
                draws = old_draws + seq![d];
            }
            if let Some(pt) = p {
                proof {
                    assert(seq![d].drop_first() =~= Seq::<(i32, i32)>::empty());
                    let full = draws + Seq::new((n_tries - k - 1) as nat, |i: int| d);
                    self.lemma_first_open_draw_append(draws, Seq::new((n_tries - k - 1) as nat, |i: int| d));
                    assert(self.draws_in_range(full));
                    assert(full.len() == n_tries);
                    assert(self.first_open_draw(full) == p);
                }
                return p;
            }
            proof {
                let q = Self::drawn_point(d);
                assert(seq![d].drop_first() =~= Seq::<(i32, i32)>::empty());
                assert(!is_open_floor(self.tiles[self.idx(q.0 as int, q.1 as int)]));
                lemma_idx_on_grid(self.width as int, self.height as int, q.0 as int, q.1 as int);
            }
            k = k + 1;
        }
        proof {
            if n_tries >= 0 {
                assert(self.first_open_draw(draws) is None);
            }
        }
        None
    }

    /// The first of the points `pts` (each drawn by `random_point`) that is
    /// there and not blocked.
    pub open spec fn first_unblocked(&self, pts: Seq<Option<(i32, i32)>>) -> Option<(i32, i32)>
        decreases pts.len(),
    {
        if pts.len() == 0 {
            None
        } else {
            match pts[0] {
                Some(pt) => if !self.blocked[self.idx(pt.0 as int, pt.1 as int)] {
                    Some(pt)
                } else {
                    self.first_unblocked(pts.drop_first())
                },
                None => self.first_unblocked(pts.drop_first()),
            }
        }
    }

    pub proof fn lemma_first_unblocked_append(&self, s: Seq<Option<(i32, i32)>>, t: Seq<Option<(i32, i32)>>)
        ensures
            self.first_unblocked(s + t) == match self.first_unblocked(s) {
                Some(p) => Some(p),
                None => self.first_unblocked(t),
            },
        decreases s.len(),
    {
        if s.len() > 0 {
            assert((s + t).drop_first() =~= s.drop_first() + t);
            assert((s + t)[0] == s[0]);
            self.lemma_first_unblocked_append(s.drop_first(), t);
        } else {
            assert(s + t =~= t);
        }
    }

    /// The point `pt` drew, if there is one and it is not blocked.
    pub fn unblocked_on_draw(&self, pt: Option<(i32, i32)>) -> (p: Option<(i32, i32)>)
        requires
            self.wf(),
            pt matches Some(q) ==> self.on_map(q.0 as int, q.1 as int),
        ensures
            p == self.first_unblocked(seq![pt]),
            p == (match pt {
                Some(q) => if self.blocked[self.idx(q.0 as int, q.1 as int)] {
                    None
                } else {
                    Some(q)
                },
                None => None,
            }),
    {
        proof {
            assert(seq![pt].drop_first() =~= Seq::<Option<(i32, i32)>>::empty());
            assert(self.first_unblocked(Seq::<Option<(i32, i32)>>::empty()) is None);
            assert(seq![pt][0] == pt);
        }
        match pt {
            Some(q) => {
                proof {
                    lemma_idx_on_grid(self.width as int, self.height as int, q.0 as int, q.1 as int);
                }
                let idx = self.xy_idx(q.0, q.1);
                if !self.blocked[idx] {
                    Some(q)
                } else {
                    None
                }
            },
            None => None,
        }
    }

    /// What `random_unblocked_point` can give after `n_tries` tries: the first
    /// unblocked point among `n_tries` outcomes of `random_point`.
    pub open spec fn random_unblocked_outcome(&self, n_tries: int, p: Option<(i32, i32)>) -> bool {
        exists|pts: Seq<Option<(i32, i32)>>|
            #![trigger self.first_unblocked(pts)]
            pts.len() == n_tries && (forall|i: int|
                0 <= i < pts.len() ==> self.random_point_outcome(n_tries, #[trigger] pts[i]))
                && p == self.first_unblocked(pts)
    }

    /// Tries up to `n_tries` random open floor tiles and returns the first one
    /// that is not blocked.
    pub fn random_unblocked_point(&self, n_tries: i32, rng: &mut RandomNumberGenerator) -> (p:
        Option<(i32, i32)>)
        requires
            self.wf(),
        ensures
            p matches Some(pt) ==> {
                &&& self.on_map(pt.0 as int, pt.1 as int)
                &&& is_open_floor(self.tiles[self.idx(pt.0 as int, pt.1 as int)])
                &&& !self.blocked[self.idx(pt.0 as int, pt.1 as int)]
            },
            n_tries <= 0 ==> p is None,
            n_tries > 0 && self.all_free() ==> p is Some,
            n_tries >= 0 ==> self.random_unblocked_outcome(n_tries as int, p),
    {
        let ghost mut pts: Seq<Option<(i32, i32)>> = Seq::empty();
        let mut k: i32 = 0;
        while k < n_tries
            invariant
                0 <= k,
                n_tries > 0 ==> k <= n_tries,
                self.wf(),
                k > 0 ==> !self.all_free(),
                pts.len() == k,
                forall|i: int| 0 <= i < pts.len() ==> self.random_point_outcome(n_tries as int, #[trigger] pts[i]),
                self.first_unblocked(pts) is None,
            decreases n_tries - k,
        {
            let pt = self.random_point(n_tries, rng);
            let p = self.unblocked_on_draw(pt);
            proof {
                let old_pts = pts;
                self.lemma_first_unblocked_append(old_pts, seq![pt]);
                pts = old_pts + seq![pt];
                assert(pts[pts.len() - 1] == pt);
                assert forall|i: int| 0 <= i < pts.len() implies self.random_point_outcome(n_tries as int, #[trigger] pts[i]) by {
                    if i < old_pts.len() {
                        assert(pts[i] == old_pts[i]);
                    }
                }
            }
            if p.is_some() {
                proof {
                    let pad = Seq::new((n_tries - k - 1) as nat, |i: int| pt);
                    let full = pts + pad;
                    self.lemma_first_unblocked_append(pts, pad);
                    assert(full.len() == n_tries);
                    assert forall|i: int| 0 <= i < full.len() implies self.random_point_outcome(n_tries as int, #[trigger] full[i]) by {
                        if i < pts.len() {
                            assert(full[i] == pts[i]);
                        } else {
                            assert(full[i] == pt);
                        }
                    }
                    assert(self.first_unblocked(full) == p);
                    let q = p.unwrap();
                    assert(seq![pt].drop_first() =~= Seq::<Option<(i32, i32)>>::empty());
                }
                return p;
            }
            proof {
                match pt {
                    Some(q) => {
                        lemma_idx_on_grid(self.width as int, self.height as int, q.0 as int, q.1 as int);
                        let i = self.idx(q.0 as int, q.1 as int);
                        assert(self.blocked[i]);
                        assert(is_open_floor(self.tiles[i]));
                    },
                    None => {
                        assert(!self.all_open_floor());
                    },
                }
            }
            k = k + 1;
        }
        None
    }

    /// The neighbour drawn as the offset (`dx`, `dy`) from column `x`, row
    /// `y`: `None` for the tile itself or a tile outside the playable
    /// interior.
    pub open spec fn adjacent_draw(&self, x: int, y: int, dx: int, dy: int) -> Option<(i32, i32)> {
        if dx == 0 && dy == 0 {
            None
        } else if self.in_bounds(x + dx, y + dy) {
            Some(((x + dx) as i32, (y + dy) as i32))
        } else {
            None
        }
    }

    /// As `adjacent_draw`, and `None` also for a blocked tile.
    pub open spec fn adjacent_unblocked_draw(&self, x: int, y: int, dx: int, dy: int) -> Option<(i32, i32)> {
        match self.adjacent_draw(x, y, dx, dy) {
            Some(pt) => if self.blocked[self.idx(pt.0 as int, pt.1 as int)] {
                None
            } else {
                Some(pt)
            },
            None => None,
        }
    }

    /// A random neighbour of column `x`, row `y` inside the playable interior;
    /// `None` when the draw lands on the tile itself or outside the interior.
    pub fn random_adjacent_point(&self, x: i32, y: i32) -> (p: Option<(i32, i32)>)
        requires
            self.wf(),
            i32::MIN < x < i32::MAX,
            i32::MIN < y < i32::MAX,
        ensures
            p matches Some(pt) ==> {
                &&& -1 <= pt.0 - x <= 1
                &&& -1 <= pt.1 - y <= 1
                &&& (pt.0 != x || pt.1 != y)
                &&& self.in_bounds(pt.0 as int, pt.1 as int)
            },
            exists|dx: int, dy: int| -1 <= dx <= 1 && -1 <= dy <= 1 && p == self.adjacent_draw(x as int, y as int, dx, dy),
    {
        let mut rng = new_rng();
        let dx = range(&mut rng, -1, 2);
        let dy = range(&mut rng, -1, 2);
        self.adjacent_point_on_draw(x, y, dx, dy)
    }

    /// The neighbour of column `x`, row `y` that the offset (`dx`, `dy`)
    /// names, if it is another tile inside the playable interior.
    pub fn adjacent_point_on_draw(&self, x: i32, y: i32, dx: i32, dy: i32) -> (p: Option<(i32, i32)>)
        requires
            self.wf(),
            i32::MIN < x < i32::MAX,
            i32::MIN < y < i32::MAX,
            -1 <= dx <= 1,
            -1 <= dy <= 1,
        ensures
            p == self.adjacent_draw(x as int, y as int, dx as int, dy as int),
    {
        if dx == 0 && dy == 0 {
            return None;
        }
        if !self.within_bounds(x + dx, y + dy) {
            return None;
        }
        Some((x + dx, y + dy))
    }

    /// A random neighbour of column `x`, row `y` inside the playable interior
    /// and not blocked; `None` when the draw lands on the tile itself, outside
    /// the interior, or on a blocked tile.
    pub fn random_adjacent_unblocked_point(&self, x: i32, y: i32) -> (p: Option<(i32, i32)>)
        requires
            self.wf(),
            i32::MIN < x < i32::MAX,
            i32::MIN < y < i32::MAX,
        ensures
            p matches Some(pt) ==> {
                &&& -1 <= pt.0 - x <= 1
                &&& -1 <= pt.1 - y <= 1
                &&& (pt.0 != x || pt.1 != y)
                &&& self.in_bounds(pt.0 as int, pt.1 as int)
                &&& !self.blocked[self.idx(pt.0 as int, pt.1 as int)]
            },
            exists|dx: int, dy: int|
                -1 <= dx <= 1 && -1 <= dy <= 1 && p == self.adjacent_unblocked_draw(x as int, y as int, dx, dy),
    {
        let mut rng = new_rng();
        let dx = range(&mut rng, -1, 2);
        let dy = range(&mut rng, -1, 2);
        self.adjacent_unblocked_point_on_draw(x, y, dx, dy)
    }

    /// The neighbour of column `x`, row `y` that the offset (`dx`, `dy`)
    /// names, if it is another tile inside the playable interior and not
    /// blocked.
    pub fn adjacent_unblocked_point_on_draw(&self, x: i32, y: i32, dx: i32, dy: i32) -> (p: Option<(i32, i32)>)
        requires
            self.wf(),
            i32::MIN < x < i32::MAX,
            i32::MIN < y < i32::MAX,
            -1 <= dx <= 1,
            -1 <= dy <= 1,
        ensures
            p == self.adjacent_unblocked_draw(x as int, y as int, dx as int, dy as int),
    {
        if dx == 0 && dy == 0 {
            return None;
        }
        if self.within_bounds(x + dx, y + dy) {
            proof {
                lemma_idx_on_grid(
                    self.width as int,
                    self.height as int,
                    (x + dx) as int,
                    (y + dy) as int,
                );
            }
            let idx = self.xy_idx(x + dx, y + dy);
            if !self.blocked[idx] {
                return Some((x + dx, y + dy));
            }
        }
        None
    }

    /// Sets every tile of the map blocked exactly when it is a wall.
    pub fn populate_blocked(&mut self)
        requires
            old(self).tiles.len() <= old(self).blocked.len(),
        ensures
            final(self).blocked.len() == old(self).blocked.len(),
            forall|i: int|
                0 <= i < old(self).tiles.len() ==> final(self).blocked[i] == (old(self).tiles[i]
                    == TileType::Wall),
            forall|i: int|
                old(self).tiles.len() <= i < old(self).blocked.len() ==> final(self).blocked[i]
                    == old(self).blocked[i],
            final(self).width == old(self).width,
            final(self).height == old(self).height,
            final(self).depth == old(self).depth,
            final(self).tiles@ == old(self).tiles@,
            final(self).revealed_tiles@ == old(self).revealed_tiles@,
            final(self).visible_tiles@ == old(self).visible_tiles@,
            final(self).fire@ == old(self).fire@,
            final(self).chill@ == old(self).chill@,
            final(self).water@ == old(self).water@,
            final(self).tile_content@ == old(self).tile_content@,
    {
        let n = self.tiles.len();
        let mut i: usize = 0;
        while i < n
            invariant
                n == self.tiles.len(),
                n <= self.blocked.len(),
                i <= n,
                self.blocked.len() == old(self).blocked.len(),
                forall|j: int| 0 <= j < i ==> self.blocked[j] == (self.tiles[j] == TileType::Wall),
                forall|j: int| i <= j < self.blocked.len() ==> self.blocked[j] == old(self).blocked[j],
                self.width == old(self).width,
                self.height == old(self).height,
                self.depth == old(self).depth,
                self.tiles@ == old(self).tiles@,
                self.revealed_tiles@ == old(self).revealed_tiles@,
                self.visible_tiles@ == old(self).visible_tiles@,
                self.fire@ == old(self).fire@,
                self.chill@ == old(self).chill@,
                self.water@ == old(self).water@,
                self.tile_content@ == old(self).tile_content@,
            decreases n - i,
        {
            let wall = self.tiles[i] == TileType::Wall;
            self.blocked.set(i, wall);
            i = i + 1;
        }
    }

    /// Empties the entity list of every tile.
    pub fn clear_tile_content(&mut self)
        ensures
            final(self).tile_content.len() == old(self).tile_content.len(),
            forall|i: int|
                0 <= i < final(self).tile_content.len() ==> final(self).tile_content[i].len() == 0,
            final(self).width == old(self).width,
            final(self).height == old(self).height,
            final(self).depth == old(self).depth,
            final(self).tiles@ == old(self).tiles@,
            final(self).revealed_tiles@ == old(self).revealed_tiles@,
            final(self).visible_tiles@ == old(self).visible_tiles@,
            final(self).blocked@ == old(self).blocked@,
            final(self).fire@ == old(self).fire@,
            final(self).chill@ == old(self).chill@,
            final(self).water@ == old(self).water@,
    {
        let n = self.tile_content.len();
        let mut i: usize = 0;
        while i < n
            invariant
                n == self.tile_content.len(),
                i <= n,
                forall|j: int| 0 <= j < i ==> self.tile_content[j].len() == 0,
                self.width == old(self).width,
                self.height == old(self).height,
                self.depth == old(self).depth,
                self.tiles@ == old(self).tiles@,
                self.revealed_tiles@ == old(self).revealed_tiles@,
                self.visible_tiles@ == old(self).visible_tiles@,
                self.blocked@ == old(self).blocked@,
                self.fire@ == old(self).fire@,
                self.chill@ == old(self).chill@,
                self.water@ == old(self).water@,
            decreases n - i,
        {
            self.tile_content.set(i, Vec::new());
            i = i + 1;
        }
    }

    /// Can movement enter column `x`, row `y`: inside the interior and not
    /// blocked.
    pub fn is_exit_valid(&self, x: i32, y: i32) -> (b: bool)
        requires
            self.wf(),
        ensures
            b == exit_open(self.width as int, self.height as int, self.blocked@, x as int, y as int),
    {
        if !self.within_bounds(x, y) {
            return false;
        }
        proof {
            lemma_idx_on_grid(self.width as int, self.height as int, x as int, y as int);
        }
        let idx = self.xy_idx(x, y);
        !self.blocked[idx]
    }

    /// The moves out of the tile at `idx` into its unblocked interior
    /// neighbours, cardinal steps first.
    pub fn get_available_exits(&self, idx: usize) -> (exits: Vec<Exit>)
        requires
            self.wf(),
            idx <= i32::MAX,
        ensures
            exits@ == exits_spec(self.width as int, self.height as int, self.blocked@, idx as int),
    {
        grid_exits(self.width, self.height, &self.blocked, idx)
    }

    /// Is the tile at `idx` opaque (a wall)?
    pub fn is_opaque(&self, idx: usize) -> (b: bool)
        requires
            idx < self.tiles.len(),
        ensures
            b == (self.tiles[idx as int] == TileType::Wall),
    {
        self.tiles[idx] == TileType::Wall
    }

    /// The width and height of the map.
    pub fn dimensions(&self) -> (d: Point)
        ensures
            d.x == self.width,
            d.y == self.height,
    {
        Point { x: self.width, y: self.height }
    }
}

//----------------------------------------------------------------------------
// RoutingMap.
// A view of a GameMap for routing a monster around hazardous terrain, according
// to the monster's routing options.
//----------------------------------------------------------------------------
pub struct RoutingMap {
    pub width: i32,
    pub height: i32,
    pub avoid: Vec<bool>,
}

/// Should routing avoid the tile at `i` of `map` under `options`?
pub open spec fn avoids(map: &GameMap, options: &MovementRoutingOptions, i: int) -> bool {
    map.tiles[i] == TileType::Wall || (options.avoid_blocked && map.blocked[i]) || (
    options.avoid_fire && map.fire[i]) || (options.avoid_chill && map.chill[i]) || (options.avoid_water && map.water[i])
}

impl RoutingMap {
    pub open spec fn wf(&self) -> bool {
        &&& 0 < self.width
        &&& 0 < self.height
        &&& self.width * self.height < i32::MAX
        &&& self.avoid.len() == self.width * self.height
    }

    /// Marks the tiles of `map` that a monster with `options` avoids: walls,
    /// and blocked, burning or chilled tiles when the options say so.
    pub fn from_map(map: &GameMap, options: &MovementRoutingOptions) -> (route: RoutingMap)
        requires
            map.wf(),
        ensures
            route.wf(),
            route.width == map.width,
            route.height == map.height,
            forall|i: int| 0 <= i < route.avoid.len() ==> route.avoid[i] == avoids(map, options, i),
    {
        let n = (map.width * map.height) as usize;
        let mut avoid: Vec<bool> = Vec::new();
        let mut i: usize = 0;
        while i < n
            invariant
                map.wf(),
                n == map.width * map.height,
                i <= n,
                avoid.len() == i,
                forall|j: int| 0 <= j < i ==> avoid[j] == avoids(map, options, j),
            decreases n - i,
        {
            let a = map.tiles[i] == TileType::Wall || (options.avoid_blocked && map.blocked[i]) || (
            options.avoid_fire && map.fire[i]) || (options.avoid_chill && map.chill[i]) || (options.avoid_water
                && map.water[i]);
            avoid.push(a);
            i = i + 1;
        }
        RoutingMap { width: map.width, height: map.height, avoid }
    }

    pub fn xy_idx(&self, x: i32, y: i32) -> (idx: usize)
        requires
            0 <= x,
            0 <= y,
            0 <= self.width,
            y * self.width <= i32::MAX,
        ensures
            idx == idx_of(self.width as int, x as int, y as int),
    {
        proof {
            assert(0 <= y * self.width) by (nonlinear_arith)
                requires
                    0 <= y,
                    0 <= self.width,
            ;
        }
        ((y * self.width) as usize) + x as usize
    }

    pub fn within_bounds(&self, x: i32, y: i32) -> (b: bool)
        requires
            i32::MIN < self.width,
            i32::MIN < self.height,
        ensures
            b == interior(self.width as int, self.height as int, x as int, y as int),
    {
        x >= 1 && x <= self.width - 1 && y >= 1 && y <= self.height - 1
    }

    pub fn is_exit_valid(&self, x: i32, y: i32) -> (b: bool)
        requires
            self.wf(),
        ensures
            b == exit_open(self.width as int, self.height as int, self.avoid@, x as int, y as int),
    {
        if !self.within_bounds(x, y) {
            return false;
        }
        proof {
            lemma_idx_on_grid(self.width as int, self.height as int, x as int, y as int);
        }
        let idx = self.xy_idx(x, y);
        !self.avoid[idx]
    }

    /// The moves out of the tile at `idx` into its interior neighbours that
    /// routing does not avoid, cardinal steps first.
    pub fn get_available_exits(&self, idx: usize) -> (exits: Vec<Exit>)
        requires
            self.wf(),
            idx <= i32::MAX,
        ensures
            exits@ == exits_spec(self.width as int, self.height as int, self.avoid@, idx as int),
    {
        grid_exits(self.width, self.height, &self.avoid, idx)
    }
}

} // verus!
