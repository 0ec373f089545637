use vstd::prelude::*;
use rltk::RandomNumberGenerator;
use crate::grid::idx_of;
use crate::map::{GameMap, TileType, MAP_WIDTH, MAP_HEIGHT, MAP_SIZE};
use crate::map_builders::common::{
    Rectangle, in_room, apply_room, apply_horizontal_tunnel, apply_vertical_tunnel, half_toward_zero, min_of, max_of,
};
use crate::rng::{range, roll_dice};

verus! {

//----------------------------------------------------------------------------
// Simple map: rectangular rooms, placed at random where they do not overlap,
// each joined to the previous one by an L shaped corridor.
//----------------------------------------------------------------------------

pub const MAX_ROOMS: i32 = 40;
pub const MIN_ROOM_SIZE: i32 = 6;
pub const MAX_ROOM_SIZE: i32 = 10;

pub struct SimpleMapBuilder {
    pub map: GameMap,
    pub depth: i32,
    pub rooms: Vec<Rectangle>,
    pub history: Vec<GameMap>,
}

/// A room of the standard map: a rectangle whose corners lie on the map.
pub open spec fn room_on_map(r: Rectangle) -> bool {
    0 <= r.x1 < r.x2 <= MAP_WIDTH - 2 && 0 <= r.y1 < r.y2 <= MAP_HEIGHT - 2
}

/// Only floor was added: every tile is as it was, or is now floor.
pub open spec fn only_floor_added(before: Seq<TileType>, after: Seq<TileType>) -> bool {
    &&& after.len() == before.len()
    &&& forall|i: int| 0 <= i < before.len() ==> after[i] == before[i] || after[i] == TileType::Floor
}

/// The interior of the room is floor.
pub open spec fn room_is_floor(map: &GameMap, r: Rectangle) -> bool {
    forall|x: int, y: int| in_room(r, x, y) ==> map.tiles[#[trigger] idx_of(map.width as int, x, y)] == TileType::Floor
}

/// Two rooms overlap (touching counts).
pub open spec fn overlap(a: Rectangle, b: Rectangle) -> bool {
    a.x1 <= b.x2 && a.x2 >= b.x1 && a.y1 <= b.y2 && a.y2 >= b.y1
}

/// The centre of a room, as `Rectangle::center` computes it.
pub open spec fn center_x(r: Rectangle) -> int {
    half_toward_zero(r.x1 + r.x2)
}

pub open spec fn center_y(r: Rectangle) -> int {
    half_toward_zero(r.y1 + r.y2)
}

/// Row `y` is floor from column `x1` to column `x2` (the map's first tile,
/// which no tunnel carves, aside).
pub open spec fn row_floor(map: &GameMap, x1: int, x2: int, y: int) -> bool {
    forall|x: int|
        (if x1 <= x2 { x1 } else { x2 }) <= x <= (if x1 <= x2 { x2 } else { x1 }) && 0 < idx_of(
            map.width as int,
            x,
            y,
        ) < MAP_SIZE ==> map.tiles[#[trigger] idx_of(map.width as int, x, y)] == TileType::Floor
}

/// Column `x` is floor from row `y1` to row `y2` (the map's first tile
/// aside).
pub open spec fn column_floor(map: &GameMap, y1: int, y2: int, x: int) -> bool {
    forall|y: int|
        (if y1 <= y2 { y1 } else { y2 }) <= y <= (if y1 <= y2 { y2 } else { y1 }) && 0 < idx_of(
            map.width as int,
            x,
            y,
        ) < MAP_SIZE ==> map.tiles[#[trigger] idx_of(map.width as int, x, y)] == TileType::Floor
}

/// The rooms `a` and `b` are joined by an L shaped corridor of floor between
/// their centres: along `a`'s row then `b`'s column, or along `a`'s column
/// then `b`'s row.
pub open spec fn joined(map: &GameMap, a: Rectangle, b: Rectangle) -> bool {
    ||| row_floor(map, center_x(a), center_x(b), center_y(a)) && column_floor(map, center_y(a), center_y(b), center_x(b))
    ||| column_floor(map, center_y(a), center_y(b), center_x(a)) && row_floor(map, center_x(a), center_x(b), center_y(b))
}

/// Floor lines stay floor when only floor is added.
proof fn lemma_lines_stay(before: &GameMap, after: &GameMap)
    requires
        only_floor_added(before.tiles@, after.tiles@),
        after.width == before.width,
        before.tiles.len() == MAP_SIZE,
    ensures
        forall|x1: int, x2: int, y: int| #[trigger] row_floor(before, x1, x2, y) ==> row_floor(after, x1, x2, y),
        forall|y1: int, y2: int, x: int| #[trigger] column_floor(before, y1, y2, x) ==> column_floor(after, y1, y2, x),
{
    assert forall|x1: int, x2: int, y: int| #[trigger] row_floor(before, x1, x2, y) implies row_floor(after, x1, x2, y) by {
        assert forall|x: int|
            (if x1 <= x2 { x1 } else { x2 }) <= x <= (if x1 <= x2 { x2 } else { x1 }) && 0 < idx_of(
                after.width as int,
                x,
                y,
            ) < MAP_SIZE implies after.tiles[#[trigger] idx_of(after.width as int, x, y)] == TileType::Floor by {
            let k = idx_of(before.width as int, x, y);
            assert(before.tiles[k] == TileType::Floor);
            assert(after.tiles@[k] == before.tiles@[k] || after.tiles@[k] == TileType::Floor);
        }
    }
    assert forall|y1: int, y2: int, x: int| #[trigger] column_floor(before, y1, y2, x) implies column_floor(after, y1, y2, x) by {
        assert forall|y: int|
            (if y1 <= y2 { y1 } else { y2 }) <= y <= (if y1 <= y2 { y2 } else { y1 }) && 0 < idx_of(
                after.width as int,
                x,
                y,
            ) < MAP_SIZE implies after.tiles[#[trigger] idx_of(after.width as int, x, y)] == TileType::Floor by {
            let k = idx_of(before.width as int, x, y);
            assert(before.tiles[k] == TileType::Floor);
            assert(after.tiles@[k] == before.tiles@[k] || after.tiles@[k] == TileType::Floor);
        }
    }
}

/// Corridors stay when only floor is added.
proof fn lemma_joined_stays(before: &GameMap, after: &GameMap, a: Rectangle, b: Rectangle)
    requires
        only_floor_added(before.tiles@, after.tiles@),
        after.width == before.width,
        before.tiles.len() == MAP_SIZE,
        joined(before, a, b),
    ensures
        joined(after, a, b),
{
    lemma_lines_stay(before, after);
}

/// A horizontal tunnel along row `y` from `x1` to `x2` leaves that stretch
/// of the row floor, and adds nothing but floor.
proof fn lemma_row_carved(before: &GameMap, after: &GameMap, x1: i32, x2: i32, y: i32)
    requires
        before.width == MAP_WIDTH,
        after.width == MAP_WIDTH,
        before.tiles.len() == MAP_SIZE,
        after.tiles.len() == MAP_SIZE,
        0 <= y,
        forall|i: int|
            0 <= i < before.tiles.len() ==> after.tiles[i] == if idx_of(
                before.width as int,
                min_of(x1, x2) as int,
                y as int,
            ) <= i <= idx_of(before.width as int, max_of(x1, x2) as int, y as int) && 0 < i < MAP_SIZE {
                TileType::Floor
            } else {
                before.tiles[i]
            },
    ensures
        row_floor(after, x1 as int, x2 as int, y as int),
        only_floor_added(before.tiles@, after.tiles@),
{
    assert forall|x: int|
        (if x1 <= x2 { x1 as int } else { x2 as int }) <= x <= (if x1 <= x2 { x2 as int } else { x1 as int }) && 0
            < idx_of(after.width as int, x, y as int) < MAP_SIZE implies after.tiles[#[trigger] idx_of(
        after.width as int,
        x,
        y as int,
    )] == TileType::Floor by {
        let k = idx_of(80, x, y as int);
        assert(after.tiles[k] == TileType::Floor);
    }
    assert forall|i: int| 0 <= i < before.tiles.len() implies after.tiles@[i] == before.tiles@[i] || after.tiles@[i]
        == TileType::Floor by {
        assert(after.tiles[i] == after.tiles@[i]);
    }
}

impl SimpleMapBuilder {
    pub fn new(depth: i32) -> (b: SimpleMapBuilder)
        ensures
            b.map.wf(),
            b.map.width == MAP_WIDTH,
            b.map.height == MAP_HEIGHT,
            b.map.depth == depth,
            b.depth == depth,
            b.rooms.len() == 0,
            b.history.len() == 0,
    {
        SimpleMapBuilder { map: GameMap::new(depth), depth, rooms: Vec::new(), history: Vec::new() }
    }

    /// Places up to `MAX_ROOMS` random rooms that do not overlap any room
    /// already placed, carving each out, and joining each to the room placed
    /// before it by a corridor (horizontal then vertical, or the other way
    /// round, at random). Only floor is carved: nothing else changes.
    pub fn carve_out_rooms_and_corridors(&mut self, rng: &mut RandomNumberGenerator)
        requires
            old(self).map.wf(),
            old(self).map.width == MAP_WIDTH,
            old(self).map.height == MAP_HEIGHT,
            forall|i: int| 0 <= i < old(self).rooms.len() ==> room_on_map(#[trigger] old(self).rooms[i]),
            forall|i: int| 0 <= i < old(self).rooms.len() ==> room_is_floor(&old(self).map, #[trigger] old(self).rooms[i]),
            forall|i: int, j: int|
                0 <= i < j < old(self).rooms.len() ==> !overlap(#[trigger] old(self).rooms[j], #[trigger] old(self).rooms[i]),
        ensures
            final(self).map.wf(),
            final(self).map.same_but_tiles(&old(self).map),
            only_floor_added(old(self).map.tiles@, final(self).map.tiles@),
            final(self).depth == old(self).depth,
            final(self).rooms@.take(old(self).rooms.len() as int) == old(self).rooms@,
            final(self).rooms.len() <= old(self).rooms.len() + MAX_ROOMS,
            forall|i: int| 0 <= i < final(self).rooms.len() ==> room_on_map(#[trigger] final(self).rooms[i]),
            forall|i: int| 0 <= i < final(self).rooms.len() ==> room_is_floor(&final(self).map, #[trigger] final(self).rooms[i]),
            forall|i: int, j: int|
                0 <= i < j < final(self).rooms.len() ==> !overlap(#[trigger] final(self).rooms[j], #[trigger] final(self).rooms[i]),
            old(self).rooms.len() == 0 ==> final(self).rooms.len() >= 1,
            forall|i: int|
                old(self).rooms.len() <= i < final(self).rooms.len() && 1 <= i ==> joined(
                    &final(self).map,
                    #[trigger] final(self).rooms[i - 1],
                    final(self).rooms[i],
                ),
    {
        let ghost m0 = self.map;
        let ghost r0 = self.rooms@;
        let mut k: i32 = 0;
        while k < MAX_ROOMS
            invariant
                0 <= k <= MAX_ROOMS,
                self.map.wf(),
                self.map.width == MAP_WIDTH,
                self.map.height == MAP_HEIGHT,
                self.map.same_but_tiles(&m0),
                only_floor_added(m0.tiles@, self.map.tiles@),
                self.depth == old(self).depth,
                m0 == old(self).map,
                r0 == old(self).rooms@,
                self.rooms@.take(r0.len() as int) == r0,
                r0.len() <= self.rooms.len() <= r0.len() + k,
                forall|i: int| 0 <= i < self.rooms.len() ==> room_on_map(#[trigger] self.rooms[i]),
                forall|i: int| 0 <= i < self.rooms.len() ==> room_is_floor(&self.map, #[trigger] self.rooms[i]),
                forall|i: int, j: int|
                    0 <= i < j < self.rooms.len() ==> !overlap(#[trigger] self.rooms[j], #[trigger] self.rooms[i]),
                r0.len() == 0 && k > 0 ==> self.rooms.len() >= 1,
                forall|i: int|
                    r0.len() <= i < self.rooms.len() && 1 <= i ==> joined(
                        &self.map,
                        #[trigger] self.rooms[i - 1],
                        self.rooms[i],
                    ),
            decreases MAX_ROOMS - k,
        {
            let w = range(rng, MIN_ROOM_SIZE, MAX_ROOM_SIZE);
            let h = range(rng, MIN_ROOM_SIZE, MAX_ROOM_SIZE);
            let x = roll_dice(rng, 1, MAP_WIDTH - w - 1) - 1;
            let y = roll_dice(rng, 1, MAP_HEIGHT - h - 1) - 1;
            let new_room = Rectangle::new(x, y, w, h);
            let mut ok_to_place = true;
            let mut q: usize = 0;
            while q < self.rooms.len()
                invariant
                    q <= self.rooms.len(),
                    ok_to_place == forall|i: int| 0 <= i < q ==> !overlap(new_room, #[trigger] self.rooms[i]),
                decreases self.rooms.len() - q,
            {
                if new_room.intersect(&self.rooms[q]) {
                    ok_to_place = false;
                }
                q = q + 1;
            }
            if ok_to_place {
                let ghost before = self.rooms@;
                let ghost map_before = self.map;
                self.place_room(new_room, rng);
                proof {
                    assert(before.take(r0.len() as int) == r0);
                    assert(self.rooms@.take(r0.len() as int) =~= before.take(r0.len() as int));
                    assert forall|i: int|
                        r0.len() <= i < self.rooms.len() && 1 <= i implies joined(
                            &self.map,
                            #[trigger] self.rooms[i - 1],
                            self.rooms[i],
                        ) by {
                        if i < before.len() {
                            assert(self.rooms[i - 1] == before[i - 1] && self.rooms[i] == before[i]);
                            lemma_joined_stays(&map_before, &self.map, before[i - 1], before[i]);
                        } else {
                            assert(self.rooms[i - 1] == before.last());
                        }
                    }
                }
            } else {
                assert(self.rooms.len() > 0);
            }
            k = k + 1;
        }
    }

    /// Carves out a room that overlaps no placed room, joins it to the last
    /// placed room, and records it.
    #[verifier::rlimit(40)]
    fn place_room(&mut self, new_room: Rectangle, rng: &mut RandomNumberGenerator)
        requires
            old(self).map.wf(),
            old(self).map.width == MAP_WIDTH,
            old(self).map.height == MAP_HEIGHT,
            room_on_map(new_room),
            forall|i: int| 0 <= i < old(self).rooms.len() ==> !overlap(new_room, #[trigger] old(self).rooms[i]),
            forall|i: int| 0 <= i < old(self).rooms.len() ==> room_on_map(#[trigger] old(self).rooms[i]),
            forall|i: int| 0 <= i < old(self).rooms.len() ==> room_is_floor(&old(self).map, #[trigger] old(self).rooms[i]),
            forall|i: int, j: int|
                0 <= i < j < old(self).rooms.len() ==> !overlap(#[trigger] old(self).rooms[j], #[trigger] old(self).rooms[i]),
        ensures
            final(self).map.wf(),
            final(self).map.width == MAP_WIDTH,
            final(self).map.height == MAP_HEIGHT,
            final(self).map.same_but_tiles(&old(self).map),
            only_floor_added(old(self).map.tiles@, final(self).map.tiles@),
            final(self).depth == old(self).depth,
            final(self).rooms@ == old(self).rooms@.push(new_room),
            forall|i: int| 0 <= i < final(self).rooms.len() ==> room_on_map(#[trigger] final(self).rooms[i]),
            forall|i: int| 0 <= i < final(self).rooms.len() ==> room_is_floor(&final(self).map, #[trigger] final(self).rooms[i]),
            forall|i: int, j: int|
                0 <= i < j < final(self).rooms.len() ==> !overlap(#[trigger] final(self).rooms[j], #[trigger] final(self).rooms[i]),
            old(self).rooms.len() > 0 ==> joined(&final(self).map, old(self).rooms@.last(), new_room),
    {
        let ghost m0 = self.map;
        apply_room(&mut self.map, &new_room);
        proof {
            lemma_floor_grows(&m0, &self.map, self.rooms@);
        }
        if self.rooms.len() > 0 {
            let prev = self.rooms[self.rooms.len() - 1];
            let (cxnew, cynew) = new_room.center();
            let (cxprev, cyprev) = prev.center();
            assert(self.rooms@[self.rooms.len() - 1] == prev);
            let ghost m1 = self.map;
            if range(rng, 0, 2) == 1 {
                apply_horizontal_tunnel(&mut self.map, cxprev, cxnew, cyprev);
                let ghost m2 = self.map;
                proof {
                    lemma_row_carved(&m1, &m2, cxprev, cxnew, cyprev);
                }
                apply_vertical_tunnel(&mut self.map, cyprev, cynew, cxnew);
                proof {
                    lemma_lines_stay(&m2, &self.map);
                    assert(row_floor(&self.map, cxprev as int, cxnew as int, cyprev as int));
                    assert(column_floor(&self.map, cyprev as int, cynew as int, cxnew as int));
                }
            } else {
                apply_vertical_tunnel(&mut self.map, cyprev, cynew, cxprev);
                let ghost m2 = self.map;
                assert(column_floor(&m2, cyprev as int, cynew as int, cxprev as int));
                apply_horizontal_tunnel(&mut self.map, cxprev, cxnew, cynew);
                proof {
                    lemma_row_carved(&m2, &self.map, cxprev, cxnew, cynew);
                    lemma_lines_stay(&m2, &self.map);
                    assert(column_floor(&self.map, cyprev as int, cynew as int, cxprev as int));
                }
            }
            proof {
                lemma_floor_grows(&m1, &self.map, self.rooms@.push(new_room));
            }
        }
        self.rooms.push(new_room);
    }
}

/// Rooms whose interior was floor stay floor when only floor is added.
proof fn lemma_floor_grows(before: &GameMap, after: &GameMap, rooms: Seq<Rectangle>)
    requires
        only_floor_added(before.tiles@, after.tiles@),
        after.width == before.width,
        before.wf(),
        before.width == MAP_WIDTH,
        before.height == MAP_HEIGHT,
        forall|i: int| 0 <= i < rooms.len() ==> room_on_map(#[trigger] rooms[i]),
    ensures
        forall|i: int| 0 <= i < rooms.len() && room_is_floor(before, rooms[i]) ==> room_is_floor(after, #[trigger] rooms[i]),
{
    assert(before.tiles.len() == 3440);
    assert forall|i: int| 0 <= i < rooms.len() && room_is_floor(before, rooms[i]) implies room_is_floor(after, #[trigger] rooms[i]) by {
        let r = rooms[i];
        assert forall|x: int, y: int| in_room(r, x, y) implies after.tiles[#[trigger] idx_of(after.width as int, x, y)] == TileType::Floor by {
            assert(0 <= idx_of(80, x, y) < 3440) by (nonlinear_arith)
                requires
                    0 < x <= 78,
                    0 < y <= 41,
                    idx_of(80, x, y) == y * 80 + x,
            ;
            assert(room_is_floor(before, r));
            let k = idx_of(before.width as int, x, y);
            assert(before.tiles[k] == TileType::Floor);
            assert(after.tiles@[k] == before.tiles@[k] || after.tiles@[k] == TileType::Floor);
        }
    }
}

/// A tile strictly inside the room's walls.
pub open spec fn in_region(room: Rectangle, x: int, y: int) -> bool {
    room.x1 < x < room.x2 && room.y1 < y < room.y2
}

/// The tile with storage index `i` is a floor tile strictly inside the room.
pub open spec fn region_tile(map: &GameMap, room: Rectangle, i: int) -> bool {
    &&& 0 <= i < map.tiles.len()
    &&& in_region(room, i % 80, i / 80)
    &&& map.tiles[i] == TileType::Floor
}

/// The floor tiles strictly inside a room, row by row: the region where the
/// room's items may spawn.
pub fn room_region(map: &GameMap, room: Rectangle) -> (region: Vec<usize>)
    requires
        map.wf(),
        map.width == MAP_WIDTH,
        map.height == MAP_HEIGHT,
        room_on_map(room),
    ensures
        forall|i: int| 0 <= i < region.len() ==> region_tile(map, room, #[trigger] region[i] as int),
        forall|x: int, y: int|
            in_region(room, x, y) && map.tiles[#[trigger] idx_of(80, x, y)] == TileType::Floor ==> region@.contains(
                idx_of(80, x, y) as usize,
            ),
{
    let mut region: Vec<usize> = Vec::new();
    let mut y: i32 = room.y1 + 1;
    while y < room.y2
        invariant
            map.wf(),
            map.width == MAP_WIDTH,
            map.height == MAP_HEIGHT,
            room_on_map(room),
            room.y1 + 1 <= y <= room.y2,
            forall|i: int| 0 <= i < region.len() ==> region_tile(map, room, #[trigger] region[i] as int),
            forall|x: int, yy: int|
                in_region(room, x, yy) && yy < y && map.tiles[#[trigger] idx_of(80, x, yy)] == TileType::Floor
                    ==> region@.contains(idx_of(80, x, yy) as usize),
        decreases room.y2 - y,
    {
        let mut x: i32 = room.x1 + 1;
        while x < room.x2
            invariant
                map.wf(),
                map.width == MAP_WIDTH,
                map.height == MAP_HEIGHT,
                room_on_map(room),
                room.y1 + 1 <= y < room.y2,
                room.x1 + 1 <= x <= room.x2,
                forall|i: int| 0 <= i < region.len() ==> region_tile(map, room, #[trigger] region[i] as int),
                forall|xx: int, yy: int|
                    in_region(room, xx, yy) && (yy < y || (yy == y && xx < x)) && map.tiles[#[trigger] idx_of(
                        80,
                        xx,
                        yy,
                    )] == TileType::Floor ==> region@.contains(idx_of(80, xx, yy) as usize),
            decreases room.x2 - x,
        {
            assert(0 <= idx_of(80, x as int, y as int) < 3440) by (nonlinear_arith)
                requires
                    0 < x <= 78,
                    0 < y <= 41,
                    idx_of(80, x as int, y as int) == y * 80 + x,
            ;
            assert(map.tiles.len() == 3440);
            let idx = map.xy_idx(x, y);
            if map.tiles[idx] == TileType::Floor {
                let ghost before = region@;
                region.push(idx);
                proof {
                    crate::grid::lemma_idx_decode(80, 43, idx as int);
                    crate::grid::lemma_idx_injective(80, x as int, y as int, idx as int % 80, idx as int / 80);
                    assert(region_tile(map, room, idx as int));
                    assert(region[region.len() - 1] == idx_of(80, x as int, y as int));
                    assert forall|xx: int, yy: int|
                        in_region(room, xx, yy) && (yy < y || (yy == y && xx < x + 1)) && map.tiles[#[trigger] idx_of(
                            80,
                            xx,
                            yy,
                        )] == TileType::Floor implies region@.contains(idx_of(80, xx, yy) as usize) by {
                        if yy == y && xx == x {
                            assert(region@[region.len() - 1] == idx);
                        } else {
                            assert(before.contains(idx_of(80, xx, yy) as usize));
                            let j = choose|j: int| 0 <= j < before.len() && before[j] == idx_of(80, xx, yy) as usize;
                            assert(region@[j] == before[j]);
                        }
                    }
                }
            }
            x = x + 1;
        }
        y = y + 1;
    }
    region
}

} // verus!
