use vstd::prelude::*;
use crate::components::melee::max_int;
use crate::components::spawn_despawn::{EntitySpawnKind, ChanceToSpawnAdjacentEntity};
use crate::map::{GameMap, TileType};
use rltk::RandomNumberGenerator;
use crate::rng::roll_dice;

verus! {

//----------------------------------------------------------------------------
// Spawning and despawning of entities by kind: the requests that systems
// queue, the rules of the hazards (fire and chill) that spread and
// dissipate, and the choice of the destructor of a dissipated entity.
//----------------------------------------------------------------------------

/// A request to spawn a single entity of a kind at a position.
#[derive(PartialEq, Eq, Structural, Copy, Clone, Debug)]
pub struct EntitySpawnRequest {
    pub x: i32,
    pub y: i32,
    pub kind: EntitySpawnKind,
}

/// The spawn requests of this turn, in the order they were made.
pub struct EntitySpawnRequestBuffer {
    requests: Vec<EntitySpawnRequest>,
}

impl View for EntitySpawnRequestBuffer {
    type V = Seq<EntitySpawnRequest>;

    closed spec fn view(&self) -> Seq<EntitySpawnRequest> {
        self.requests@
    }
}

impl EntitySpawnRequestBuffer {
    pub fn new() -> (b: EntitySpawnRequestBuffer)
        ensures
            b@ == Seq::<EntitySpawnRequest>::empty(),
    {
        EntitySpawnRequestBuffer { requests: Vec::new() }
    }

    /// Queues a request after those already made.
    pub fn request(&mut self, request: EntitySpawnRequest)
        ensures
            final(self)@ == old(self)@.push(request),
    {
        self.requests.push(request);
    }

    /// The queued requests, in order.
    pub fn requests(&self) -> (r: Vec<EntitySpawnRequest>)
        ensures
            r@ == self@,
    {
        let mut r: Vec<EntitySpawnRequest> = Vec::new();
        let mut i: usize = 0;
        while i < self.requests.len()
            invariant
                i <= self.requests.len(),
                r@ == self.requests@.take(i as int),
            decreases self.requests.len() - i,
        {
            r.push(self.requests[i]);
            i = i + 1;
        }
        assert(self.requests@.take(self.requests.len() as int) =~= self.requests@);
        r
    }

    /// Forgets all requests, once they have been served.
    pub fn clear(&mut self)
        ensures
            final(self)@ == Seq::<EntitySpawnRequest>::empty(),
    {
        self.requests = Vec::new();
    }
}

/// The request made on a d100 `roll` and a neighbour drawn as the offset
/// (`dx`, `dy`): none unless the roll is at most the chance and the drawn
/// neighbour is a tile of the interior other than the entity's own.
pub open spec fn spawn_adjacent_draw(
    map: &GameMap,
    x: int,
    y: int,
    spawn: ChanceToSpawnAdjacentEntity,
    roll: int,
    dx: int,
    dy: int,
) -> Option<EntitySpawnRequest> {
    if roll <= spawn.chance {
        match map.adjacent_draw(x, y, dx, dy) {
            Some(pt) => Some(EntitySpawnRequest { x: pt.0, y: pt.1, kind: spawn.kind }),
            None => None,
        }
    } else {
        None
    }
}

/// Rolls a d100 for an entity with a chance to spawn another entity in an
/// adjacent tile: on a roll of at most `chance` the request is for a random
/// neighbouring tile inside the map (none when that draw falls on the entity's
/// own tile or outside the interior).
pub fn chance_to_spawn_adjacent(
    map: &GameMap,
    rng: &mut RandomNumberGenerator,
    x: i32,
    y: i32,
    spawn: ChanceToSpawnAdjacentEntity,
) -> (r: Option<EntitySpawnRequest>)
    requires
        map.wf(),
        i32::MIN < x < i32::MAX,
        i32::MIN < y < i32::MAX,
    ensures
        r matches Some(req) ==> {
            &&& req.kind == spawn.kind
            &&& -1 <= req.x - x <= 1
            &&& -1 <= req.y - y <= 1
            &&& (req.x != x || req.y != y)
            &&& map.in_bounds(req.x as int, req.y as int)
        },
        spawn.chance < 1 ==> r is None,
        exists|roll: int, dx: int, dy: int|
            1 <= roll <= 100 && -1 <= dx <= 1 && -1 <= dy <= 1 && r == spawn_adjacent_draw(
                map,
                x as int,
                y as int,
                spawn,
                roll,
                dx,
                dy,
            ),
{
    let roll = roll_dice(rng, 1, 100);
    if roll <= spawn.chance {
        let pt = map.random_adjacent_point(x, y);
        let ghost (dx, dy) = choose|dx: int, dy: int|
            -1 <= dx <= 1 && -1 <= dy <= 1 && pt == map.adjacent_draw(x as int, y as int, dx, dy);
        let r = spawn_adjacent_on_draw(spawn, roll, pt);
        assert(r == spawn_adjacent_draw(map, x as int, y as int, spawn, roll as int, dx, dy));
        r
    } else {
        let r = spawn_adjacent_on_draw(spawn, roll, None);
        assert(spawn_adjacent_draw(map, x as int, y as int, spawn, roll as int, 0, 0) is None);
        r
    }
}

/// The spawn request on the d100 roll `roll`, with `pt` the neighbouring
/// tile drawn (if the draw gave one): a request for `pt` when the roll is at
/// most the chance.
pub fn spawn_adjacent_on_draw(spawn: ChanceToSpawnAdjacentEntity, roll: i32, pt: Option<(i32, i32)>) -> (r: Option<
    EntitySpawnRequest,
>)
    ensures
        r == (if roll <= spawn.chance {
            match pt {
                Some(p) => Some(EntitySpawnRequest { x: p.0, y: p.1, kind: spawn.kind }),
                None => None,
            }
        } else {
            None
        }),
{
    if roll <= spawn.chance {
        match pt {
            Some(p) => Some(EntitySpawnRequest { x: p.0, y: p.1, kind: spawn.kind }),
            None => None,
        }
    } else {
        None
    }
}

/// Whether an entity with a chance to dissipate does so this turn. An entity
/// told to skip its random dissipation for one turn does not roll (the caller
/// then clears the skip); otherwise it dissipates on a d100 roll of at most
/// `chance`.
pub fn rolls_dissipation(rng: &mut RandomNumberGenerator, skip_this_turn: bool, chance: i32) -> (d: bool)
    ensures
        skip_this_turn ==> !d,
        !skip_this_turn ==> exists|roll: i32| 1 <= roll <= 100 && d == #[trigger] roll_succeeds(roll, chance),
        chance < 1 ==> !d,
        !skip_this_turn && chance >= 100 ==> d,
{
    if skip_this_turn {
        false
    } else {
        let roll = roll_dice(rng, 1, 100);
        assert(roll_succeeds(roll, chance) == (roll <= chance));
        dissipates_on_roll(false, chance, roll)
    }
}

/// Whether a d100 roll of `roll` succeeds against `chance`: it is at most
/// `chance`.
pub open spec fn roll_succeeds(roll: i32, chance: i32) -> bool {
    roll <= chance
}

/// Whether an entity with a chance to dissipate does so on the d100 roll
/// `roll`: unless told to skip this turn, on a roll of at most `chance`.
pub fn dissipates_on_roll(skip_this_turn: bool, chance: i32, roll: i32) -> (d: bool)
    ensures
        d == (!skip_this_turn && roll <= chance),
{
    !skip_this_turn && roll <= chance
}

/// How a dissipated entity is removed.
#[derive(PartialEq, Eq, Structural, Copy, Clone, Debug)]
pub enum Destructor {
    /// An entity of no registered kind is simply deleted.
    Delete,
    DestroyFire,
    DestroyChill,
    DestroySteam,
    /// No destructor for this kind: the entity stays.
    Keep,
}

/// The destructor for an entity of the given kind.
pub fn destructor_for(kind: Option<EntitySpawnKind>) -> (d: Destructor)
    ensures
        d == match kind {
            None => Destructor::Delete,
            Some(EntitySpawnKind::Fire { .. }) => Destructor::DestroyFire,
            Some(EntitySpawnKind::Chill { .. }) => Destructor::DestroyChill,
            Some(EntitySpawnKind::Steam { .. }) => Destructor::DestroySteam,
            Some(_) => Destructor::Keep,
        },
{
    match kind {
        None => Destructor::Delete,
        Some(EntitySpawnKind::Fire { .. }) => Destructor::DestroyFire,
        Some(EntitySpawnKind::Chill { .. }) => Destructor::DestroyChill,
        Some(EntitySpawnKind::Steam { .. }) => Destructor::DestroySteam,
        Some(_) => Destructor::Keep,
    }
}

pub const FIRE_SPAWN_DISSIPATE_CHANCE_CHANGE: i32 = 20;
pub const FIRE_SPAWN_SPREAD_CHANCE_CHANGE: i32 = 20;
pub const CHILL_SPAWN_DISSIPATE_CHANCE_CHANGE: i32 = 20;
pub const CHILL_SPAWN_SPREAD_CHANCE_CHANGE: i32 = 20;
pub const STEAM_SPAWN_DISSIPATE_CHANCE_CHANGE: i32 = 10;
pub const STEAM_SPAWN_SPREAD_CHANCE_CHANGE: i32 = 40;

/// The kind of the hazards a hazard spreads to its neighbours: each
/// generation spreads less readily and dissipates more readily, never going
/// below zero. Other kinds do not spread.
pub open spec fn offspring_spec(kind: EntitySpawnKind) -> Option<EntitySpawnKind> {
    match kind {
        EntitySpawnKind::Fire { spread_chance, dissipate_chance } => Some(EntitySpawnKind::Fire {
            spread_chance: max_int(0, spread_chance - FIRE_SPAWN_SPREAD_CHANCE_CHANGE) as i32,
            dissipate_chance: max_int(0, dissipate_chance + FIRE_SPAWN_DISSIPATE_CHANCE_CHANGE) as i32,
        }),
        EntitySpawnKind::Chill { spread_chance, dissipate_chance } => Some(EntitySpawnKind::Chill {
            spread_chance: max_int(0, spread_chance - CHILL_SPAWN_SPREAD_CHANCE_CHANGE) as i32,
            dissipate_chance: max_int(0, dissipate_chance + CHILL_SPAWN_DISSIPATE_CHANCE_CHANGE) as i32,
        }),
        EntitySpawnKind::Steam { spread_chance, dissipate_chance } => Some(EntitySpawnKind::Steam {
            spread_chance: max_int(0, spread_chance - STEAM_SPAWN_SPREAD_CHANCE_CHANGE) as i32,
            dissipate_chance: max_int(0, dissipate_chance + STEAM_SPAWN_DISSIPATE_CHANCE_CHANGE) as i32,
        }),
        _ => None,
    }
}

/// The spreading of a newly spawned hazard of the given kind: its chance to
/// spread to an adjacent tile, and the kind of what it spreads.
pub fn hazard_spread(kind: EntitySpawnKind) -> (r: Option<ChanceToSpawnAdjacentEntity>)
    requires
        kind matches EntitySpawnKind::Fire { spread_chance, dissipate_chance } ==> spread_chance >= i32::MIN
            + FIRE_SPAWN_SPREAD_CHANCE_CHANGE && dissipate_chance <= i32::MAX - FIRE_SPAWN_DISSIPATE_CHANCE_CHANGE,
        kind matches EntitySpawnKind::Chill { spread_chance, dissipate_chance } ==> spread_chance >= i32::MIN
            + CHILL_SPAWN_SPREAD_CHANCE_CHANGE && dissipate_chance <= i32::MAX - CHILL_SPAWN_DISSIPATE_CHANCE_CHANGE,
        kind matches EntitySpawnKind::Steam { spread_chance, dissipate_chance } ==> spread_chance >= i32::MIN
            + STEAM_SPAWN_SPREAD_CHANCE_CHANGE && dissipate_chance <= i32::MAX - STEAM_SPAWN_DISSIPATE_CHANCE_CHANGE,
    ensures
        match offspring_spec(kind) {
            Some(o) => r matches Some(c) && c.kind == o && (kind matches EntitySpawnKind::Fire { spread_chance, .. }
                ==> c.chance == spread_chance) && (kind matches EntitySpawnKind::Chill { spread_chance, .. }
                ==> c.chance == spread_chance) && (kind matches EntitySpawnKind::Steam { spread_chance, .. }
                ==> c.chance == spread_chance),
            None => r is None,
        },
{
    match kind {
        EntitySpawnKind::Fire { spread_chance, dissipate_chance } => {
            let s = spread_chance - FIRE_SPAWN_SPREAD_CHANCE_CHANGE;
            let d = dissipate_chance + FIRE_SPAWN_DISSIPATE_CHANCE_CHANGE;
            Some(ChanceToSpawnAdjacentEntity {
                chance: spread_chance,
                kind: EntitySpawnKind::Fire {
                    spread_chance: if s > 0 { s } else { 0 },
                    dissipate_chance: if d > 0 { d } else { 0 },
                },
            })
        },
        EntitySpawnKind::Chill { spread_chance, dissipate_chance } => {
            let s = spread_chance - CHILL_SPAWN_SPREAD_CHANCE_CHANGE;
            let d = dissipate_chance + CHILL_SPAWN_DISSIPATE_CHANCE_CHANGE;
            Some(ChanceToSpawnAdjacentEntity {
                chance: spread_chance,
                kind: EntitySpawnKind::Chill {
                    spread_chance: if s > 0 { s } else { 0 },
                    dissipate_chance: if d > 0 { d } else { 0 },
                },
            })
        },
        EntitySpawnKind::Steam { spread_chance, dissipate_chance } => {
            let s = spread_chance - STEAM_SPAWN_SPREAD_CHANCE_CHANGE;
            let d = dissipate_chance + STEAM_SPAWN_DISSIPATE_CHANCE_CHANGE;
            Some(ChanceToSpawnAdjacentEntity {
                chance: spread_chance,
                kind: EntitySpawnKind::Steam {
                    spread_chance: if s > 0 { s } else { 0 },
                    dissipate_chance: if d > 0 { d } else { 0 },
                },
            })
        },
        _ => None,
    }
}

/// Successive generations of a fire spread no more readily than their
/// parent, and dissipate no less readily, while the chances stay in 0..=100.
pub proof fn lemma_fire_generations_weaken(spread_chance: i32, dissipate_chance: i32)
    requires
        0 <= spread_chance <= 100,
        0 <= dissipate_chance <= 100,
    ensures
        offspring_spec(EntitySpawnKind::Fire { spread_chance, dissipate_chance }) matches Some(
            EntitySpawnKind::Fire { spread_chance: s, dissipate_chance: d },
        ) && 0 <= s <= spread_chance && dissipate_chance <= d,
{
}

/// Whether a hazard of the given kind can be spawned on the tile with
/// storage index `idx`: fire, chill and steam never on a wall, fire and
/// chill not on a tile that already holds one of their kind (the map keeps
/// no layer for steam), and fire not on water. Other kinds can always be.
pub open spec fn hazard_spawnable(map: &GameMap, idx: int, kind: EntitySpawnKind) -> bool {
    match kind {
        EntitySpawnKind::Fire { .. } => !map.fire[idx] && !map.water[idx] && map.tiles[idx] != TileType::Wall,
        EntitySpawnKind::Chill { .. } => !map.chill[idx] && map.tiles[idx] != TileType::Wall,
        EntitySpawnKind::Steam { .. } => map.tiles[idx] != TileType::Wall,
        _ => true,
    }
}

/// Whether a hazard of the given kind can be spawned on the tile with
/// storage index `idx` (see `hazard_spawnable`).
pub fn can_spawn_hazard(map: &GameMap, idx: usize, kind: EntitySpawnKind) -> (b: bool)
    requires
        map.wf(),
        idx < map.tiles.len(),
    ensures
        b == hazard_spawnable(map, idx as int, kind),
{
    match kind {
        EntitySpawnKind::Fire { .. } => !map.fire[idx] && !map.water[idx] && map.tiles[idx] != TileType::Wall,
        EntitySpawnKind::Chill { .. } => !map.chill[idx] && map.tiles[idx] != TileType::Wall,
        EntitySpawnKind::Steam { .. } => map.tiles[idx] != TileType::Wall,
        _ => true,
    }
}

/// Marks the tile with storage index `idx` as holding a newly spawned
/// hazard of the given kind (fire or chill), or, with `present` false, as no
/// longer holding the hazard destroyed there, which it must have held; the
/// rest of the map stays.
pub fn mark_hazard(map: &mut GameMap, idx: usize, kind: EntitySpawnKind, present: bool)
    requires
        old(map).wf(),
        idx < old(map).tiles.len(),
        !present && kind is Fire ==> old(map).fire[idx as int],
        !present && kind is Chill ==> old(map).chill[idx as int],
    ensures
        final(map).wf(),
        final(map).fire@ == if kind is Fire { old(map).fire@.update(idx as int, present) } else { old(map).fire@ },
        final(map).chill@ == if kind is Chill { old(map).chill@.update(idx as int, present) } else { old(map).chill@ },
        final(map).width == old(map).width,
        final(map).height == old(map).height,
        final(map).depth == old(map).depth,
        final(map).tiles@ == old(map).tiles@,
        final(map).water@ == old(map).water@,
        final(map).revealed_tiles@ == old(map).revealed_tiles@,
        final(map).visible_tiles@ == old(map).visible_tiles@,
        final(map).blocked@ == old(map).blocked@,
        final(map).tile_content@ == old(map).tile_content@,
{
    match kind {
        EntitySpawnKind::Fire { .. } => map.fire.set(idx, present),
        EntitySpawnKind::Chill { .. } => map.chill.set(idx, present),
        _ => {},
    }
}

/// A tile's hazard flag decides whether a hazard of its kind can spawn
/// there: once a fire (or chill) is marked on a tile no second one spawns on
/// it, and once it is cleared (the hazard destroyed) a new one can spawn
/// there again, unless the tile is a wall (or, for fire, under water).
pub proof fn lemma_hazard_flag_gates_spawning(
    before: GameMap,
    after: GameMap,
    idx: int,
    kind: EntitySpawnKind,
    present: bool,
)
    requires
        before.wf(),
        kind is Fire || kind is Chill,
        0 <= idx < before.tiles.len(),
        after.tiles@ == before.tiles@,
        after.fire@ == if kind is Fire { before.fire@.update(idx, present) } else { before.fire@ },
        after.chill@ == if kind is Chill { before.chill@.update(idx, present) } else { before.chill@ },
        after.water@ == before.water@,
    ensures
        hazard_spawnable(&after, idx, kind) == (!present && before.tiles[idx] != TileType::Wall && !(kind is Fire
            && before.water[idx])),
{
}

} // verus!
