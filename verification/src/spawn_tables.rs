use vstd::prelude::*;
use rltk::RandomNumberGenerator;
use crate::geometry::Point;
use crate::random_table::{
    RandomTable, nonnegative_weights, pick_spec, sum_weights, lemma_pick_is_entry,
    lemma_roll_in_range_selects, lemma_sum_at_least_entry,
};
use crate::rng::roll_dice;

verus! {

//----------------------------------------------------------------------------
// Monster and item spawning.
//
// Each monster type has a difficulty, a range of floor depths on which it
// spawns, a relative chance to spawn, and a constraint on its spawn tile.
// The monsters of a floor are drawn from the types available at its depth,
// by chance, until their total difficulty first exceeds the floor's quota.
//
// Items are spawned region by region: a region gets an item with a fixed
// chance, on one of its tiles drawn at random.
//----------------------------------------------------------------------------

#[derive(PartialEq, Eq, Structural, Copy, Clone, Debug)]
pub enum MonsterType {
    Rat,
    Bat,
    Snake,
    Piranha,
    GoblinBasic,
    GoblinCleric,
    GoblinEnchanter,
    GoblinFirecaster,
    GoblinChillcaster,
    Orc,
    PinkJelly,
    OrangeJelly,
    BlueJelly,
}

/// Where a monster may spawn: anywhere, only in grass, or only in water.
#[derive(PartialEq, Eq, Structural, Copy, Clone, Debug)]
pub enum MonsterSpawnBound {
    Anywhere,
    Grass,
    Water,
}

/// How a monster type takes part in spawning.
#[derive(PartialEq, Eq, Structural, Copy, Clone, Debug)]
pub struct MonsterSpawnParameters {
    /// What one monster of the type counts toward the floor's quota.
    pub difficulty: i32,
    /// The shallowest floor the type spawns on.
    pub min_depth: i32,
    /// The deepest floor the type spawns on.
    pub max_depth: i32,
    /// The type's relative chance to be drawn.
    pub chance: i32,
    pub bound: MonsterSpawnBound,
}

impl MonsterSpawnParameters {
    pub fn new(difficulty: i32, min_depth: i32, max_depth: i32, chance: i32, bound: MonsterSpawnBound) -> (p: Self)
        ensures
            p == (MonsterSpawnParameters { difficulty, min_depth, max_depth, chance, bound }),
    {
        MonsterSpawnParameters { difficulty, min_depth, max_depth, chance, bound }
    }
}

pub open spec fn params(difficulty: i32, min_depth: i32, max_depth: i32, chance: i32, bound: MonsterSpawnBound) -> MonsterSpawnParameters {
    MonsterSpawnParameters { difficulty, min_depth, max_depth, chance, bound }
}

/// The spawn parameters of each monster type.
pub open spec fn spawn_parameters_spec(m: MonsterType) -> MonsterSpawnParameters {
    match m {
        MonsterType::Rat => params(1, 1, 4, 25, MonsterSpawnBound::Anywhere),
        MonsterType::Bat => params(1, 1, 4, 25, MonsterSpawnBound::Anywhere),
        MonsterType::Snake => params(1, 1, 4, 25, MonsterSpawnBound::Grass),
        MonsterType::Piranha => params(1, 1, 6, 25, MonsterSpawnBound::Water),
        MonsterType::GoblinBasic => params(2, 1, 6, 25, MonsterSpawnBound::Anywhere),
        MonsterType::GoblinCleric => params(2, 2, 8, 20, MonsterSpawnBound::Anywhere),
        MonsterType::GoblinEnchanter => params(2, 2, 8, 20, MonsterSpawnBound::Anywhere),
        MonsterType::GoblinFirecaster => params(4, 3, 8, 15, MonsterSpawnBound::Anywhere),
        MonsterType::GoblinChillcaster => params(4, 3, 8, 15, MonsterSpawnBound::Anywhere),
        MonsterType::PinkJelly => params(3, 4, 10, 15, MonsterSpawnBound::Anywhere),
        MonsterType::OrangeJelly => params(4, 4, 12, 10, MonsterSpawnBound::Anywhere),
        MonsterType::BlueJelly => params(4, 4, 12, 10, MonsterSpawnBound::Anywhere),
        MonsterType::Orc => params(4, 5, 12, 25, MonsterSpawnBound::Anywhere),
    }
}

/// The monster types, in the order of the spawn table.
pub open spec fn monster_order() -> Seq<MonsterType> {
    seq![
        MonsterType::Rat,
        MonsterType::Bat,
        MonsterType::Snake,
        MonsterType::Piranha,
        MonsterType::GoblinBasic,
        MonsterType::GoblinCleric,
        MonsterType::GoblinEnchanter,
        MonsterType::GoblinFirecaster,
        MonsterType::GoblinChillcaster,
        MonsterType::PinkJelly,
        MonsterType::OrangeJelly,
        MonsterType::BlueJelly,
        MonsterType::Orc,
    ]
}

/// The spawn parameters of a monster type.
pub fn spawn_parameters(m: MonsterType) -> (p: MonsterSpawnParameters)
    ensures
        p == spawn_parameters_spec(m),
{
    match m {
        MonsterType::Rat => MonsterSpawnParameters::new(1, 1, 4, 25, MonsterSpawnBound::Anywhere),
        MonsterType::Bat => MonsterSpawnParameters::new(1, 1, 4, 25, MonsterSpawnBound::Anywhere),
        MonsterType::Snake => MonsterSpawnParameters::new(1, 1, 4, 25, MonsterSpawnBound::Grass),
        MonsterType::Piranha => MonsterSpawnParameters::new(1, 1, 6, 25, MonsterSpawnBound::Water),
        MonsterType::GoblinBasic => MonsterSpawnParameters::new(2, 1, 6, 25, MonsterSpawnBound::Anywhere),
        MonsterType::GoblinCleric => MonsterSpawnParameters::new(2, 2, 8, 20, MonsterSpawnBound::Anywhere),
        MonsterType::GoblinEnchanter => MonsterSpawnParameters::new(2, 2, 8, 20, MonsterSpawnBound::Anywhere),
        MonsterType::GoblinFirecaster => MonsterSpawnParameters::new(4, 3, 8, 15, MonsterSpawnBound::Anywhere),
        MonsterType::GoblinChillcaster => MonsterSpawnParameters::new(4, 3, 8, 15, MonsterSpawnBound::Anywhere),
        MonsterType::PinkJelly => MonsterSpawnParameters::new(3, 4, 10, 15, MonsterSpawnBound::Anywhere),
        MonsterType::OrangeJelly => MonsterSpawnParameters::new(4, 4, 12, 10, MonsterSpawnBound::Anywhere),
        MonsterType::BlueJelly => MonsterSpawnParameters::new(4, 4, 12, 10, MonsterSpawnBound::Anywhere),
        MonsterType::Orc => MonsterSpawnParameters::new(4, 5, 12, 25, MonsterSpawnBound::Anywhere),
    }
}

/// The monster spawn table: each monster type with its spawn parameters.
pub fn get_monster_spawn_table() -> (table: Vec<(MonsterType, MonsterSpawnParameters)>)
    ensures
        table@ == monster_order().map_values(|m: MonsterType| (m, spawn_parameters_spec(m))),
{
    let order: Vec<MonsterType> = vec![
        MonsterType::Rat,
        MonsterType::Bat,
        MonsterType::Snake,
        MonsterType::Piranha,
        MonsterType::GoblinBasic,
        MonsterType::GoblinCleric,
        MonsterType::GoblinEnchanter,
        MonsterType::GoblinFirecaster,
        MonsterType::GoblinChillcaster,
        MonsterType::PinkJelly,
        MonsterType::OrangeJelly,
        MonsterType::BlueJelly,
        MonsterType::Orc,
    ];
    assert(order@ =~= monster_order());
    let mut table: Vec<(MonsterType, MonsterSpawnParameters)> = Vec::new();
    let mut i: usize = 0;
    while i < order.len()
        invariant
            order@ == monster_order(),
            i <= order.len(),
            table@ == order@.take(i as int).map_values(|m: MonsterType| (m, spawn_parameters_spec(m))),
        decreases order.len() - i,
    {
        let m = order[i];
        table.push((m, spawn_parameters(m)));
        proof {
            assert(order@.take(i as int + 1).map_values(|m: MonsterType| (m, spawn_parameters_spec(m))) =~= order@.take(
                i as int,
            ).map_values(|m: MonsterType| (m, spawn_parameters_spec(m))).push((m, spawn_parameters_spec(m))));
        }
        i = i + 1;
    }
    assert(order@.take(order.len() as int) =~= order@);
    table
}

/// A monster type can spawn on a floor of `depth`: the depth is in its range,
/// and the floor has the grass or water the type needs.
pub open spec fn can_spawn(m: MonsterType, depth: int, has_grass: bool, has_water: bool) -> bool {
    let p = spawn_parameters_spec(m);
    &&& p.min_depth <= depth <= p.max_depth
    &&& match p.bound {
        MonsterSpawnBound::Anywhere => true,
        MonsterSpawnBound::Grass => has_grass,
        MonsterSpawnBound::Water => has_water,
    }
}

/// The entries of the table of monsters to draw from on a floor.
pub open spec fn monster_entries(depth: int, has_grass: bool, has_water: bool) -> Seq<((MonsterType, MonsterSpawnBound), i32)> {
    monster_order().filter(|m: MonsterType| can_spawn(m, depth, has_grass, has_water)).map_values(
        |m: MonsterType| ((m, spawn_parameters_spec(m).bound), spawn_parameters_spec(m).chance),
    )
}

/// The random table of the monsters that can spawn on a floor of `depth`,
/// weighted by their chances.
pub fn monster_random_table(depth: i32, has_grass: bool, has_water: bool) -> (t: RandomTable<(MonsterType, MonsterSpawnBound)>)
    ensures
        t@ == monster_entries(depth as int, has_grass, has_water),
        t.total() == sum_weights(t@),
        nonnegative_weights(t@),
{
    let table = get_monster_spawn_table();
    let mut t: RandomTable<(MonsterType, MonsterSpawnBound)> = RandomTable::new();
    let mut i: usize = 0;
    while i < table.len()
        invariant
            table@ == monster_order().map_values(|m: MonsterType| (m, spawn_parameters_spec(m))),
            i <= table.len(),
            t@ == monster_entries_prefix(depth as int, has_grass, has_water, i as int),
            t.total() == sum_weights(t@),
            0 <= t.total() <= 25 * i,
            nonnegative_weights(t@),
        decreases table.len() - i,
    {
        let (m, p) = table[i];
        assert(m == monster_order()[i as int] && p == spawn_parameters_spec(m));
        let by_depth = p.min_depth <= depth && depth <= p.max_depth;
        let by_bound = match p.bound {
            MonsterSpawnBound::Anywhere => true,
            MonsterSpawnBound::Grass => has_grass,
            MonsterSpawnBound::Water => has_water,
        };
        proof {
            reveal_with_fuel(Seq::filter, 1);
            assert(monster_order().take(i as int + 1).drop_last() =~= monster_order().take(i as int));
        }
        if by_depth && by_bound {
            assert(p.chance <= 25);
            t = t.insert((m, p.bound), p.chance);
        }
        i = i + 1;
    }
    assert(monster_order().take(13) =~= monster_order());
    t
}

/// The entries for the first `n` monster types of the spawn table.
pub open spec fn monster_entries_prefix(depth: int, has_grass: bool, has_water: bool, n: int) -> Seq<((MonsterType, MonsterSpawnBound), i32)> {
    monster_order().take(n).filter(|m: MonsterType| can_spawn(m, depth, has_grass, has_water)).map_values(
        |m: MonsterType| ((m, spawn_parameters_spec(m).bound), spawn_parameters_spec(m).chance),
    )
}

/// The difficulty quota of a floor of `depth`.
pub open spec fn difficulty_quota(depth: int) -> int {
    10 + (5 * depth) / 2
}

/// The total difficulty of a list of monsters.
pub open spec fn total_difficulty(s: Seq<(MonsterType, MonsterSpawnBound)>) -> int
    decreases s.len(),
{
    if s.len() == 0 {
        0
    } else {
        total_difficulty(s.drop_last()) + spawn_parameters_spec(s.last().0).difficulty
    }
}

/// Some monster type can spawn on every floor from 1 to 12 (a rat, a goblin
/// or an orc, whatever the terrain), so the table of such a floor is never
/// empty.
proof fn lemma_table_not_empty(depth: int, has_grass: bool, has_water: bool)
    requires
        1 <= depth <= 12,
    ensures
        sum_weights(monster_entries(depth, has_grass, has_water)) >= 2,
{
    let f = monster_order().filter(|m: MonsterType| can_spawn(m, depth, has_grass, has_water));
    let e = monster_entries(depth, has_grass, has_water);
    let m = if depth <= 4 { MonsterType::Rat } else if depth <= 6 { MonsterType::GoblinBasic } else { MonsterType::Orc };
    let k: int = if depth <= 4 { 0 } else if depth <= 6 { 4 } else { 12 };
    assert(monster_order()[k] == m);
    monster_order().lemma_filter_contains(|m: MonsterType| can_spawn(m, depth, has_grass, has_water), k);
    let j = choose|j: int| 0 <= j < f.len() && f[j] == m;
    assert(e[j].1 == 25);
    assert forall|i: int| 0 <= i < e.len() implies e[i].1 >= 0 by {
        assert(e[i].1 == spawn_parameters_spec(f[i]).chance);
    }
    lemma_sum_at_least_entry(e, j);
}

/// Draws the monsters of a floor of `depth` from its table, until their total
/// difficulty first exceeds the floor's quota. Only floors 1 to 12 have
/// monsters to draw.
pub fn sample_monster_types(
    rng: &mut RandomNumberGenerator,
    depth: i32,
    has_grass: bool,
    has_water: bool,
) -> (monsters: Vec<(MonsterType, MonsterSpawnBound)>)
    requires
        1 <= depth <= 12,
    ensures
        monsters.len() > 0,
        total_difficulty(monsters@) > difficulty_quota(depth as int),
        total_difficulty(monsters@.drop_last()) <= difficulty_quota(depth as int),
        forall|i: int|
            0 <= i < monsters.len() ==> monster_entries(depth as int, has_grass, has_water).map_values(
                |e: ((MonsterType, MonsterSpawnBound), i32)| e.0,
            ).contains(#[trigger] monsters@[i]),
{
    let t = monster_random_table(depth, has_grass, has_water);
    let ghost entries = t@;
    proof {
        lemma_table_not_empty(depth as int, has_grass, has_water);
    }
    let quota: i32 = 10 + (5 * depth) / 2;
    let mut seen: i32 = 0;
    let mut monsters: Vec<(MonsterType, MonsterSpawnBound)> = Vec::new();
    loop
        invariant_except_break
            seen <= quota,
        invariant
            t@ == entries,
            entries == monster_entries(depth as int, has_grass, has_water),
            t.total() == sum_weights(entries),
            t.total() >= 2,
            nonnegative_weights(entries),
            quota == difficulty_quota(depth as int),
            0 <= seen,
            seen == total_difficulty(monsters@),
            forall|i: int|
                0 <= i < monsters.len() ==> entries.map_values(|e: ((MonsterType, MonsterSpawnBound), i32)| e.0).contains(
                    #[trigger] monsters@[i],
                ),
        ensures
            monsters.len() > 0,
            total_difficulty(monsters@) > difficulty_quota(depth as int),
            total_difficulty(monsters@.drop_last()) <= difficulty_quota(depth as int),
            forall|i: int|
                0 <= i < monsters.len() ==> entries.map_values(|e: ((MonsterType, MonsterSpawnBound), i32)| e.0).contains(
                    #[trigger] monsters@[i],
                ),
        decreases quota - seen,
    {
        let r = t.roll(rng);
        proof {
            let roll = choose|roll: int| 0 <= roll < t.total() && r == pick_spec(t@, roll);
            lemma_roll_in_range_selects(t@, roll);
            lemma_pick_is_entry(t@, roll);
        }
        let (m, b) = r.unwrap();
        let ghost prev = monsters@;
        proof {
            let k = choose|k: int| 0 <= k < entries.len() && entries[k].0 == (m, b);
            assert(entries.map_values(|e: ((MonsterType, MonsterSpawnBound), i32)| e.0)[k] == (m, b));
        }
        let difficulty = spawn_parameters(m).difficulty;
        monsters.push((m, b));
        proof {
            assert(monsters@.drop_last() =~= prev);
            assert(spawn_parameters_spec(m).difficulty >= 1);
        }
        seen = seen + difficulty;
        if seen > quota {
            break;
        }
    }
    monsters
}

/// What the monster placement reads of each tile: whether a monster or item
/// may still spawn there, and the terrain.
pub struct SpawnableTiles {
    pub ok_to_spawn: Vec<bool>,
    pub grass: Vec<bool>,
    pub shallow_water: Vec<bool>,
    pub deep_water: Vec<bool>,
}

/// The flags cover the `n` tiles of the map.
pub open spec fn tiles_fit(t: &SpawnableTiles, n: int) -> bool {
    &&& t.ok_to_spawn.len() == n
    &&& t.grass.len() == n
    &&& t.shallow_water.len() == n
    &&& t.deep_water.len() == n
}

/// Whether a monster with the given bound may spawn on the tile with storage
/// index `i`: it must be free to spawn on, and out of deep water unless a
/// water monster; grass monsters need grass, water monsters water.
pub open spec fn spawn_tile_ok(t: &SpawnableTiles, bound: MonsterSpawnBound, i: int) -> bool {
    match bound {
        MonsterSpawnBound::Anywhere => t.ok_to_spawn[i] && !t.deep_water[i],
        MonsterSpawnBound::Grass => t.ok_to_spawn[i] && t.grass[i] && !t.deep_water[i],
        MonsterSpawnBound::Water => t.ok_to_spawn[i] && (t.shallow_water[i] || t.deep_water[i]),
    }
}

/// Takes spawn locations off the end of `buffer` until one suits a monster
/// with the given bound, and returns it; `None` when the buffer runs out
/// first. Every location of the buffer lies on the map of `width` columns.
pub fn pop_spawn_location(buffer: &mut Vec<Point>, tiles: &SpawnableTiles, width: i32, bound: MonsterSpawnBound) -> (r: Option<Point>)
    requires
        0 < width,
        forall|i: int| 0 <= i < old(buffer).len() ==> {
            &&& 0 <= #[trigger] old(buffer)[i].x < width
            &&& 0 <= old(buffer)[i].y
            &&& old(buffer)[i].y * width + old(buffer)[i].x < tiles.ok_to_spawn.len()
        },
        tiles_fit(tiles, tiles.ok_to_spawn.len() as int),
    ensures
        r matches Some(p) ==> {
            &&& spawn_tile_ok(tiles, bound, p.y * width + p.x)
            &&& 0 <= p.x < width
            &&& 0 <= p.y
            &&& p.y * width + p.x < tiles.ok_to_spawn.len()
        },
        r matches Some(p) ==> {
            let i = p.y * width + p.x;
            &&& tiles.ok_to_spawn[i]
            &&& !(bound is Water) ==> !tiles.deep_water[i]
            &&& bound is Grass ==> tiles.grass[i]
            &&& bound is Water ==> tiles.shallow_water[i] || tiles.deep_water[i]
        },
        final(buffer)@.len() < old(buffer)@.len() || old(buffer)@.len() == 0,
        final(buffer)@.len() <= old(buffer)@.len(),
        final(buffer)@ == old(buffer)@.take(final(buffer)@.len() as int),
        forall|i: int|
            final(buffer)@.len() < i < old(buffer)@.len() ==> !spawn_tile_ok(
                tiles,
                bound,
                old(buffer)@[i].y * width + old(buffer)@[i].x,
            ),
        r matches Some(p) ==> p == old(buffer)@[final(buffer)@.len() as int] && final(buffer)@.len() < old(
            buffer,
        )@.len(),
        r is None ==> final(buffer)@.len() == 0 && forall|i: int|
            0 <= i < old(buffer)@.len() ==> !spawn_tile_ok(tiles, bound, old(buffer)@[i].y * width + old(buffer)@[i].x),
{
    let ghost start = buffer@;
    while buffer.len() > 0
        invariant
            0 < width,
            tiles_fit(tiles, tiles.ok_to_spawn.len() as int),
            start == old(buffer)@,
            buffer@ == start.take(buffer@.len() as int),
            buffer@.len() <= start.len(),
            forall|i: int| 0 <= i < start.len() ==> {
                &&& 0 <= #[trigger] start[i].x < width
                &&& 0 <= start[i].y
                &&& start[i].y * width + start[i].x < tiles.ok_to_spawn.len()
            },
            forall|i: int|
                buffer@.len() <= i < start.len() ==> !spawn_tile_ok(tiles, bound, start[i].y * width + start[i].x),
        decreases buffer.len(),
    {
        let p = buffer.pop().unwrap();
        proof {
            assert(p == start[buffer@.len() as int]);
            assert(0 <= start[buffer@.len() as int].x < width);
            assert(0 <= p.y * width) by (nonlinear_arith)
                requires
                    0 <= p.y,
                    0 < width,
            ;
        }
        let i = (p.y as usize) * (width as usize) + (p.x as usize);
        proof {
            assert(i == p.y * width + p.x) by (nonlinear_arith)
                requires
                    i == (p.y as usize) * (width as usize) + (p.x as usize),
                    0 <= p.y,
                    0 < width,
                    0 <= p.x,
                    p.y * width + p.x < tiles.ok_to_spawn.len(),
            ;
        }
        let ok = match bound {
            MonsterSpawnBound::Anywhere => tiles.ok_to_spawn[i] && !tiles.deep_water[i],
            MonsterSpawnBound::Grass => tiles.ok_to_spawn[i] && tiles.grass[i] && !tiles.deep_water[i],
            MonsterSpawnBound::Water => tiles.ok_to_spawn[i] && (tiles.shallow_water[i] || tiles.deep_water[i]),
        };
        if ok {
            return Some(p);
        }
    }
    None
}

/// Chance (of 100) that a region gets an item.
pub const CHANCE_SPAWN_ITEM: i32 = 25;

/// Chance (of 100) that a spawned monster drops a blessing orb when killed.
pub const CHANCE_DROP_ORB: i32 = 20;

/// Whether a newly spawned monster carries a blessing orb: a d100 roll of at
/// most `CHANCE_DROP_ORB`.
pub fn drops_orb(rng: &mut RandomNumberGenerator) -> (b: bool)
    ensures
        exists|roll: int| 1 <= roll <= 100 && b == #[trigger] orb_drop_for(roll),
{
    let roll = roll_dice(rng, 1, 100);
    let b = orb_drop_on_roll(roll);
    assert(b == orb_drop_for(roll as int));
    b
}

/// Whether the d100 roll `roll` gives a monster a blessing orb: at most
/// `CHANCE_DROP_ORB`.
pub open spec fn orb_drop_for(roll: int) -> bool {
    roll <= CHANCE_DROP_ORB
}

/// Whether a monster carries a blessing orb on the d100 roll `roll`.
pub fn orb_drop_on_roll(roll: i32) -> (b: bool)
    ensures
        b == orb_drop_for(roll as int),
{
    roll <= CHANCE_DROP_ORB
}

/// The tile given an item on a d100 `roll` and a draw of position `pick` in
/// the region: the tile at `pick` when the roll is at most
/// `CHANCE_SPAWN_ITEM`, none otherwise.
pub open spec fn item_spawn_draw(region: Seq<usize>, roll: int, pick: int) -> Option<usize> {
    if roll > CHANCE_SPAWN_ITEM {
        None
    } else {
        Some(region[pick])
    }
}

/// Picks the tile of a region that gets an item, if any: on a d100 roll of
/// at most `CHANCE_SPAWN_ITEM`, one of the region's tiles drawn at random.
pub fn item_spawn_point(rng: &mut RandomNumberGenerator, region: &Vec<usize>) -> (r: Option<usize>)
    requires
        region.len() < i32::MAX,
    ensures
        r matches Some(i) ==> region@.contains(i),
        region.len() == 0 ==> r is None,
        region.len() > 0 ==> exists|roll: int, pick: int|
            1 <= roll <= 100 && 0 <= pick < region.len() && r == item_spawn_draw(region@, roll, pick),
{
    if region.len() == 0 {
        return None;
    }
    let roll = roll_dice(rng, 1, 100);
    if roll > CHANCE_SPAWN_ITEM {
        return item_spawn_on_draw(region, roll, 0);
    }
    let k: usize = if region.len() == 1 {
        0
    } else {
        (roll_dice(rng, 1, region.len() as i32) - 1) as usize
    };
    item_spawn_on_draw(region, roll, k)
}

/// The tile of the region that gets an item on the d100 roll `roll` and the
/// draw `pick` of a position in the region.
pub fn item_spawn_on_draw(region: &Vec<usize>, roll: i32, pick: usize) -> (r: Option<usize>)
    requires
        1 <= roll <= 100,
        pick < region.len(),
    ensures
        r == item_spawn_draw(region@, roll as int, pick as int),
{
    if roll > CHANCE_SPAWN_ITEM {
        None
    } else {
        Some(region[pick])
    }
}

/// The items that can spawn.
#[derive(PartialEq, Eq, Structural, Copy, Clone, Debug)]
pub enum ItemType {
    NoItem,
    Turnip,
    Pomegranate,
    HealthPotion,
    RechargingPotion,
    TeleportationPotion,
    FirePotion,
    FreezingPotion,
    Dagger,
    Sword,
    Raiper,
    LeatherArmor,
    MagicMissileScroll,
    BlinkScroll,
    FireblastScroll,
    FireballScroll,
    IceblastScroll,
    IcespikeScroll,
}

/// The item table of a floor of `depth`: each item's weight grows with the
/// depth, against a fixed weight of drawing nothing.
pub open spec fn item_entries(depth: int) -> Seq<(ItemType, i32)> {
    seq![
        (ItemType::Turnip, (8 + depth) as i32),
        (ItemType::Pomegranate, depth as i32),
        (ItemType::HealthPotion, (4 + depth) as i32),
        (ItemType::RechargingPotion, depth as i32),
        (ItemType::TeleportationPotion, (2 + depth) as i32),
        (ItemType::FirePotion, depth as i32),
        (ItemType::FreezingPotion, depth as i32),
        (ItemType::Dagger, (3 + depth) as i32),
        (ItemType::Sword, (1 + depth) as i32),
        (ItemType::Raiper, (1 + depth) as i32),
        (ItemType::LeatherArmor, (1 + depth) as i32),
        (ItemType::BlinkScroll, depth as i32),
        (ItemType::FireblastScroll, depth as i32),
        (ItemType::IceblastScroll, depth as i32),
        (ItemType::NoItem, 75i32),
    ]
}

/// The item table of a floor of `depth`.
pub fn item_random_table(depth: i32) -> (t: RandomTable<ItemType>)
    requires
        0 <= depth <= 0x100_0000,
    ensures
        t@ == item_entries(depth as int),
        t.total() == sum_weights(t@),
        t.total() == 95 + 14 * depth,
{
    let t = RandomTable::new()
        .insert(ItemType::Turnip, 8 + depth)
        .insert(ItemType::Pomegranate, depth)
        .insert(ItemType::HealthPotion, 4 + depth)
        .insert(ItemType::RechargingPotion, depth)
        .insert(ItemType::TeleportationPotion, 2 + depth)
        .insert(ItemType::FirePotion, depth)
        .insert(ItemType::FreezingPotion, depth)
        .insert(ItemType::Dagger, 3 + depth)
        .insert(ItemType::Sword, 1 + depth)
        .insert(ItemType::Raiper, 1 + depth)
        .insert(ItemType::LeatherArmor, 1 + depth)
        .insert(ItemType::BlinkScroll, depth)
        .insert(ItemType::FireblastScroll, depth)
        .insert(ItemType::IceblastScroll, depth)
        .insert(ItemType::NoItem, 75);
    assert(t@ =~= item_entries(depth as int));
    t
}

/// Draws the item spawned on a floor of `depth` (`NoItem` for none).
pub fn random_item(rng: &mut RandomNumberGenerator, depth: i32) -> (r: ItemType)
    requires
        0 <= depth <= 0x100_0000,
    ensures
        exists|roll: int| 0 <= roll < 95 + 14 * depth && pick_spec(item_entries(depth as int), roll) == Some(r),
{
    let t = item_random_table(depth);
    assert forall|i: int| 0 <= i < t@.len() implies t@[i].1 >= 0 by {
        assert(t@ == item_entries(depth as int));
    }
    let r = t.roll(rng);
    proof {
        let roll = choose|roll: int| 0 <= roll < t.total() && r == pick_spec(t@, roll);
        lemma_roll_in_range_selects(t@, roll);
    }
    r.unwrap()
}

/// The storage index of a point on a map of `width` columns.
pub open spec fn point_idx(p: Point, width: int) -> int {
    p.y * width + p.x
}

/// Whether a monster with the given bound may spawn on tile `i`, given the
/// spawn flags `ok` and the terrain of `t`.
pub open spec fn fits_bound(ok: Seq<bool>, t: SpawnableTiles, bound: MonsterSpawnBound, i: int) -> bool {
    match bound {
        MonsterSpawnBound::Anywhere => ok[i] && !t.deep_water@[i],
        MonsterSpawnBound::Grass => ok[i] && t.grass@[i] && !t.deep_water@[i],
        MonsterSpawnBound::Water => ok[i] && (t.shallow_water@[i] || t.deep_water@[i]),
    }
}

/// Taking locations off the end of `buffer` until one suits the bound: the
/// buffer left, and the location taken (none when the buffer runs out).
pub open spec fn pop_spec(buffer: Seq<Point>, ok: Seq<bool>, t: SpawnableTiles, width: int, bound: MonsterSpawnBound) -> (
    Seq<Point>,
    Option<Point>,
)
    decreases buffer.len(),
{
    if buffer.len() == 0 {
        (buffer, None)
    } else if fits_bound(ok, t, bound, point_idx(buffer.last(), width)) {
        (buffer.drop_last(), Some(buffer.last()))
    } else {
        pop_spec(buffer.drop_last(), ok, t, width, bound)
    }
}

/// A location taken off a buffer suits the monster it is for: it is in the
/// buffer, free to spawn on, never deep water for a monster that is not a
/// water monster, grass for a grass monster, and water for a water monster.
pub proof fn lemma_popped_location_suits_bound(
    buffer: Seq<Point>,
    ok: Seq<bool>,
    t: SpawnableTiles,
    width: int,
    bound: MonsterSpawnBound,
)
    ensures
        pop_spec(buffer, ok, t, width, bound).1 matches Some(p) ==> {
            let i = p.y * width + p.x;
            &&& buffer.contains(p)
            &&& ok[i]
            &&& !(bound is Water) ==> !t.deep_water@[i]
            &&& bound is Grass ==> t.grass@[i]
            &&& bound is Water ==> t.shallow_water@[i] || t.deep_water@[i]
        },
    decreases buffer.len(),
{
    if buffer.len() > 0 {
        lemma_popped_location_suits_bound(buffer.drop_last(), ok, t, width, bound);
        let r = pop_spec(buffer, ok, t, width, bound);
        if let Some(p) = r.1 {
            if fits_bound(ok, t, bound, point_idx(buffer.last(), width)) {
                assert(buffer[buffer.len() - 1] == p);
            } else {
                let q = choose|j: int| 0 <= j < buffer.drop_last().len() && buffer.drop_last()[j] == p;
                assert(buffer[q] == p);
            }
        }
    }
}

/// The monsters `spawns[k..]` placed in order from the location buffers for
/// the general, grass and water bounds, with spawn flags `ok`: each takes
/// the next location suiting its bound, whose tile is then no longer free.
/// `None` when some monster finds no location.
pub open spec fn placement(
    spawns: Seq<(MonsterType, MonsterSpawnBound)>,
    k: int,
    general: Seq<Point>,
    grass: Seq<Point>,
    water: Seq<Point>,
    ok: Seq<bool>,
    t: SpawnableTiles,
    width: int,
) -> Option<Seq<(MonsterType, Point)>>
    decreases spawns.len() - k,
{
    if k < 0 || k >= spawns.len() {
        Some(Seq::empty())
    } else {
        let bound = spawns[k].1;
        let buffer = match bound {
            MonsterSpawnBound::Anywhere => general,
            MonsterSpawnBound::Grass => grass,
            MonsterSpawnBound::Water => water,
        };
        let popped = pop_spec(buffer, ok, t, width, bound);
        match popped.1 {
            None => None,
            Some(p) => {
                let g = if bound is Anywhere { popped.0 } else { general };
                let s = if bound is Grass { popped.0 } else { grass };
                let w = if bound is Water { popped.0 } else { water };
                match placement(spawns, k + 1, g, s, w, ok.update(point_idx(p, width), false), t, width) {
                    Some(rest) => Some(seq![(spawns[k].0, p)] + rest),
                    None => None,
                }
            },
        }
    }
}

/// The placements held by a result of `place_monsters`.
pub open spec fn placed_view(r: Option<Vec<(MonsterType, Point)>>) -> Option<Seq<(MonsterType, Point)>> {
    match r {
        Some(v) => Some(v@),
        None => None,
    }
}

/// `placed` followed by the placements of `rest`, if any.
pub open spec fn after_placed(
    placed: Seq<(MonsterType, Point)>,
    rest: Option<Seq<(MonsterType, Point)>>,
) -> Option<Seq<(MonsterType, Point)>> {
    match rest {
        Some(r) => Some(placed + r),
        None => None,
    }
}

/// What `pop_spawn_location` states of its buffer and result is `pop_spec`.
proof fn lemma_pop_matches(
    before: Seq<Point>,
    after: Seq<Point>,
    r: Option<Point>,
    ok: Seq<bool>,
    t: SpawnableTiles,
    width: int,
    bound: MonsterSpawnBound,
)
    requires
        r matches Some(p) ==> fits_bound(ok, t, bound, point_idx(p, width)),
        after.len() < before.len() || before.len() == 0,
        after.len() <= before.len(),
        after == before.take(after.len() as int),
        forall|i: int| after.len() < i < before.len() ==> !fits_bound(ok, t, bound, point_idx(#[trigger] before[i], width)),
        r matches Some(p) ==> p == before[after.len() as int] && after.len() < before.len(),
        r is None ==> after.len() == 0 && forall|i: int|
            0 <= i < before.len() ==> !fits_bound(ok, t, bound, point_idx(#[trigger] before[i], width)),
    ensures
        (after, r) == pop_spec(before, ok, t, width, bound),
    decreases before.len(),
{
    if before.len() == 0 {
        assert(after =~= before);
    } else {
        let last = before.last();
        let rest = before.drop_last();
        if fits_bound(ok, t, bound, point_idx(last, width)) {
            assert(after.len() == before.len() - 1) by {
                if after.len() < before.len() - 1 {
                    assert(!fits_bound(ok, t, bound, point_idx(before[before.len() - 1], width)));
                }
                if r is None {
                    assert(!fits_bound(ok, t, bound, point_idx(before[before.len() - 1], width)));
                }
            }
            assert(after =~= rest);
            assert(r is Some) by {
                if r is None {
                    assert(!fits_bound(ok, t, bound, point_idx(before[before.len() - 1], width)));
                }
            }
            assert(r == Some(last));
            assert(pop_spec(before, ok, t, width, bound) == (rest, Some(last)));
        } else {
            assert(after.len() < rest.len() || rest.len() == 0) by {
                if let Some(p) = r {
                    assert(p == before[after.len() as int]);
                }
            }
            assert(after =~= rest.take(after.len() as int));
            assert forall|i: int| after.len() < i < rest.len() implies !fits_bound(
                ok,
                t,
                bound,
                point_idx(#[trigger] rest[i], width),
            ) by {
                assert(rest[i] == before[i]);
            }
            if let Some(p) = r {
                assert(rest[after.len() as int] == before[after.len() as int]);
            } else {
                assert forall|i: int| 0 <= i < rest.len() implies !fits_bound(
                    ok,
                    t,
                    bound,
                    point_idx(#[trigger] rest[i], width),
                ) by {
                    assert(rest[i] == before[i]);
                }
            }
            lemma_pop_matches(rest, after, r, ok, t, width, bound);
            assert(pop_spec(before, ok, t, width, bound) == pop_spec(rest, ok, t, width, bound));
        }
    }
}

/// Places the drawn monsters: each takes the next suitable location from the
/// buffer for its bound (general, grass or water locations), which is then no
/// longer free to spawn on. `None` when a buffer runs out of suitable
/// locations before every monster is placed.
pub fn place_monsters(
    spawns: &Vec<(MonsterType, MonsterSpawnBound)>,
    general: &mut Vec<Point>,
    grass: &mut Vec<Point>,
    water: &mut Vec<Point>,
    tiles: &mut SpawnableTiles,
    width: i32,
) -> (r: Option<Vec<(MonsterType, Point)>>)
    requires
        0 < width,
        tiles_fit(old(tiles), old(tiles).ok_to_spawn.len() as int),
        forall|i: int| 0 <= i < old(general).len() ==> {
            &&& 0 <= #[trigger] old(general)[i].x < width
            &&& 0 <= old(general)[i].y
            &&& old(general)[i].y * width + old(general)[i].x < old(tiles).ok_to_spawn.len()
        },
        forall|i: int| 0 <= i < old(grass).len() ==> {
            &&& 0 <= #[trigger] old(grass)[i].x < width
            &&& 0 <= old(grass)[i].y
            &&& old(grass)[i].y * width + old(grass)[i].x < old(tiles).ok_to_spawn.len()
        },
        forall|i: int| 0 <= i < old(water).len() ==> {
            &&& 0 <= #[trigger] old(water)[i].x < width
            &&& 0 <= old(water)[i].y
            &&& old(water)[i].y * width + old(water)[i].x < old(tiles).ok_to_spawn.len()
        },
    ensures
        tiles_fit(final(tiles), old(tiles).ok_to_spawn.len() as int),
        r matches Some(placed) ==> {
            &&& placed.len() == spawns.len()
            &&& forall|i: int| 0 <= i < placed.len() ==> #[trigger] placed[i].0 == spawns[i].0
            &&& forall|i: int|
                0 <= i < placed.len() ==> {
                    &&& 0 <= point_idx(#[trigger] placed[i].1, width as int) < old(tiles).ok_to_spawn.len()
                    &&& spawn_tile_ok(old(tiles), spawns[i].1, point_idx(placed[i].1, width as int))
                    &&& !final(tiles).ok_to_spawn[point_idx(placed[i].1, width as int)]
                }
            &&& forall|i: int, j: int|
                0 <= i < j < placed.len() ==> point_idx(#[trigger] placed[i].1, width as int) != point_idx(
                    #[trigger] placed[j].1,
                    width as int,
                )
            &&& forall|i: int|
                0 <= i < placed.len() ==> {
                    let k = point_idx(#[trigger] placed[i].1, width as int);
                    &&& old(tiles).ok_to_spawn[k]
                    &&& !(spawns[i].1 is Water) ==> !old(tiles).deep_water[k]
                    &&& spawns[i].1 is Grass ==> old(tiles).grass[k]
                    &&& spawns[i].1 is Water ==> old(tiles).shallow_water[k] || old(tiles).deep_water[k]
                }
        },
        placed_view(r) == placement(
            spawns@,
            0,
            old(general)@,
            old(grass)@,
            old(water)@,
            old(tiles).ok_to_spawn@,
            *old(tiles),
            width as int,
        ),
{
    let ghost t0 = *tiles;
    let ghost whole = placement(spawns@, 0, general@, grass@, water@, tiles.ok_to_spawn@, t0, width as int);
    let mut placed: Vec<(MonsterType, Point)> = Vec::new();
    let mut k: usize = 0;
    while k < spawns.len()
        invariant
            0 < width,
            k <= spawns.len(),
            placed.len() == k,
            t0 == *old(tiles),
            whole == placement(
                spawns@,
                0,
                old(general)@,
                old(grass)@,
                old(water)@,
                t0.ok_to_spawn@,
                t0,
                width as int,
            ),
            after_placed(
                placed@,
                placement(spawns@, k as int, general@, grass@, water@, tiles.ok_to_spawn@, t0, width as int),
            ) == whole,
            tiles_fit(tiles, t0.ok_to_spawn.len() as int),
            tiles_fit(&t0, t0.ok_to_spawn.len() as int),
            tiles.grass@ == t0.grass@,
            tiles.shallow_water@ == t0.shallow_water@,
            tiles.deep_water@ == t0.deep_water@,
            forall|q: int| 0 <= q < t0.ok_to_spawn.len() && tiles.ok_to_spawn[q] ==> t0.ok_to_spawn[q],
            forall|i: int| 0 <= i < general.len() ==> {
                &&& 0 <= #[trigger] general[i].x < width
                &&& 0 <= general[i].y
                &&& general[i].y * width + general[i].x < t0.ok_to_spawn.len()
            },
            forall|i: int| 0 <= i < grass.len() ==> {
                &&& 0 <= #[trigger] grass[i].x < width
                &&& 0 <= grass[i].y
                &&& grass[i].y * width + grass[i].x < t0.ok_to_spawn.len()
            },
            forall|i: int| 0 <= i < water.len() ==> {
                &&& 0 <= #[trigger] water[i].x < width
                &&& 0 <= water[i].y
                &&& water[i].y * width + water[i].x < t0.ok_to_spawn.len()
            },
            forall|i: int| 0 <= i < k ==> #[trigger] placed[i].0 == spawns[i].0,
            forall|i: int|
                0 <= i < k ==> {
                    &&& 0 <= point_idx(#[trigger] placed[i].1, width as int) < t0.ok_to_spawn.len()
                    &&& spawn_tile_ok(&t0, spawns[i].1, point_idx(placed[i].1, width as int))
                    &&& !tiles.ok_to_spawn[point_idx(placed[i].1, width as int)]
                },
            forall|i: int, j: int|
                0 <= i < j < k ==> point_idx(#[trigger] placed[i].1, width as int) != point_idx(
                    #[trigger] placed[j].1,
                    width as int,
                ),
        decreases spawns.len() - k,
    {
        let (m, bound) = spawns[k];
        let ghost g0 = general@;
        let ghost s0 = grass@;
        let ghost w0 = water@;
        let ghost ok0 = tiles.ok_to_spawn@;
        let ghost placed0 = placed@;
        proof {
            assert forall|i: int| 0 <= i < t0.ok_to_spawn.len() implies #[trigger] spawn_tile_ok(tiles, bound, i)
                == fits_bound(ok0, t0, bound, i) by {}
        }
        let loc = match bound {
            MonsterSpawnBound::Anywhere => {
                let l = pop_spawn_location(general, tiles, width, bound);
                proof {
                    assert(general@ == g0.take(general@.len() as int));
                    assert forall|i: int| 0 <= i < general.len() implies general@[i] == g0[i] by {}
                }
                l
            },
            MonsterSpawnBound::Grass => {
                let l = pop_spawn_location(grass, tiles, width, bound);
                proof {
                    assert(grass@ == s0.take(grass@.len() as int));
                    assert forall|i: int| 0 <= i < grass.len() implies grass@[i] == s0[i] by {}
                }
                l
            },
            MonsterSpawnBound::Water => {
                let l = pop_spawn_location(water, tiles, width, bound);
                proof {
                    assert(water@ == w0.take(water@.len() as int));
                    assert forall|i: int| 0 <= i < water.len() implies water@[i] == w0[i] by {}
                }
                l
            },
        };
        proof {
            let buf0 = match bound {
                MonsterSpawnBound::Anywhere => g0,
                MonsterSpawnBound::Grass => s0,
                MonsterSpawnBound::Water => w0,
            };
            let buf1 = match bound {
                MonsterSpawnBound::Anywhere => general@,
                MonsterSpawnBound::Grass => grass@,
                MonsterSpawnBound::Water => water@,
            };
            lemma_pop_matches(buf0, buf1, loc, ok0, t0, width as int, bound);
        }
        let p = match loc {
            Some(p) => p,
            None => {
                return None;
            },
        };
        proof {
            assert(0 <= p.y * width) by (nonlinear_arith)
                requires
                    0 <= p.y,
                    0 < width,
            ;
        }
        let idx = (p.y as usize) * (width as usize) + (p.x as usize);
        proof {
            assert(idx == p.y * width + p.x) by (nonlinear_arith)
                requires
                    idx == (p.y as usize) * (width as usize) + (p.x as usize),
                    0 <= p.y,
                    0 < width,
                    0 <= p.x,
                    p.y * width + p.x < tiles.ok_to_spawn.len(),
            ;
        }
        let ghost before = tiles.ok_to_spawn@;
        tiles.ok_to_spawn.set(idx, false);
        placed.push((m, p));
        proof {
            assert(spawns@[k as int] == (m, bound));
            let tail = placement(spawns@, k + 1, general@, grass@, water@, tiles.ok_to_spawn@, t0, width as int);
            assert(tiles.ok_to_spawn@ == ok0.update(point_idx(p, width as int), false));
            if let Some(rest) = tail {
                assert(placed@ + rest =~= placed0 + (seq![(m, p)] + rest));
            }
        }
        proof {
            assert(placed[k as int].1 == p);
            assert forall|i: int| 0 <= i < k implies point_idx(#[trigger] placed[i].1, width as int) != idx by {
                assert(!before[point_idx(placed[i].1, width as int)]);
            }
        }
        k = k + 1;
    }
    assert(placed@ + Seq::<(MonsterType, Point)>::empty() =~= placed@);
    Some(placed)
}


//----------------------------------------------------------------------------
// Choosing where the player starts.
//
// The player starts at a random open tile far from every monster. The bound
// on the distance starts at `INITIAL_DISTANCE_BOUND` and is lowered by one
// after every `N_TIMES_TO_TRY_EACH_DISTANCE` failed attempts.
//----------------------------------------------------------------------------

pub const INITIAL_DISTANCE_BOUND: i32 = 15;

pub const N_TIMES_TO_TRY_EACH_DISTANCE: i32 = 5;

/// The distance from every monster that a start tile needs after `n_tries`
/// failed attempts.
pub open spec fn acceptable_distance_spec(n_tries: int) -> int {
    INITIAL_DISTANCE_BOUND - n_tries / (N_TIMES_TO_TRY_EACH_DISTANCE as int)
}

pub fn acceptable_distance(n_tries: i32) -> (d: i32)
    requires
        0 <= n_tries,
    ensures
        d == acceptable_distance_spec(n_tries as int),
        d <= INITIAL_DISTANCE_BOUND,
{
    INITIAL_DISTANCE_BOUND - n_tries / N_TIMES_TO_TRY_EACH_DISTANCE
}

/// The squared straight-line distance between two tiles.
pub open spec fn squared_distance(a: Point, b: Point) -> int {
    (a.x - b.x) * (a.x - b.x) + (a.y - b.y) * (a.y - b.y)
}

/// Is `p` at straight-line distance at least `d` from every monster? (Any
/// tile is, when `d` is not positive or there are no monsters.)
pub open spec fn far_from_monsters(monsters: Seq<Point>, p: Point, d: int) -> bool {
    d <= 0 || forall|k: int| 0 <= k < monsters.len() ==> squared_distance(#[trigger] monsters[k], p) >= d * d
}

fn squared_distance_of(a: Point, b: Point) -> (r: i128)
    ensures
        r == squared_distance(a, b),
{
    let dx = a.x as i128 - b.x as i128;
    let dy = a.y as i128 - b.y as i128;
    assert(dx * dx <= 0x1_0000_0000_0000_0000) by (nonlinear_arith)
        requires
            -0x1_0000_0000 <= dx <= 0x1_0000_0000,
    ;
    assert(dy * dy <= 0x1_0000_0000_0000_0000) by (nonlinear_arith)
        requires
            -0x1_0000_0000 <= dy <= 0x1_0000_0000,
    ;
    assert(0 <= dx * dx) by (nonlinear_arith);
    assert(0 <= dy * dy) by (nonlinear_arith);
    dx * dx + dy * dy
}

/// Does the start search accept the tile `p` after `n_tries` failed
/// attempts? It must be far enough from every monster, open for spawning and
/// not deep water.
pub fn spawn_position_acceptable(
    n_tries: i32,
    p: Point,
    monsters: &Vec<Point>,
    ok_to_spawn: bool,
    deep_water: bool,
) -> (r: bool)
    requires
        0 <= n_tries,
    ensures
        r == (far_from_monsters(monsters@, p, acceptable_distance_spec(n_tries as int))
            && ok_to_spawn && !deep_water),
{
    let d = acceptable_distance(n_tries);
    if !ok_to_spawn || deep_water {
        return false;
    }
    if d <= 0 {
        return true;
    }
    assert(d <= INITIAL_DISTANCE_BOUND);
    assert((d as i128) * (d as i128) <= 225) by (nonlinear_arith)
        requires
            0 < d <= 15,
    ;
    let d2: i128 = (d as i128) * (d as i128);
    let mut k: usize = 0;
    while k < monsters.len()
        invariant
            0 < d,
            d == acceptable_distance_spec(n_tries as int),
            ok_to_spawn && !deep_water,
            d2 == d * d,
            k <= monsters.len(),
            forall|j: int| 0 <= j < k ==> squared_distance(#[trigger] monsters@[j], p) >= d * d,
        decreases monsters.len() - k,
    {
        if squared_distance_of(monsters[k], p) < d2 {
            assert(squared_distance(monsters@[k as int], p) < d * d);
            assert(!far_from_monsters(monsters@, p, d as int));
            return false;
        }
        k = k + 1;
    }
    true
}

} // verus!
