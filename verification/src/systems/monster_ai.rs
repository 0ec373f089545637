use vstd::prelude::*;
use specs::Entity;
use rltk::RandomNumberGenerator;
use crate::components::ai::MonsterBasicAI;
use crate::components::basics::{Position, Viewshed};
use crate::entity::same_entity;
use crate::geometry::Point;
use crate::grid::lemma_idx_on_grid;
use crate::map::GameMap;
use crate::rng::range;

verus! {

//----------------------------------------------------------------------------
// Monster AI: the decisions monsters take on their turn.
//
// A frozen monster cannot act. A basic monster chases the player it sees (or
// lost sight of a short while ago) and attacks it when adjacent. An attack
// spellcaster casts at the player when it can, and otherwise keeps its
// distance while its spells recharge. A cleric heals monsters it sees that
// are badly hurt, and otherwise keeps near other monsters and away from the
// player.
//----------------------------------------------------------------------------

/// Whether the monster can act this turn: frozen monsters cannot.
pub fn can_act(is_frozen: bool) -> (b: bool)
    ensures
        b == !is_frozen,
{
    !is_frozen
}

/// Two points are next to each other (or the same): their Euclidean
/// distance is below 1.5, which for grid points is a squared distance of at
/// most 2.
pub open spec fn next_to(a: Point, b: Point) -> bool {
    (a.x - b.x) * (a.x - b.x) + (a.y - b.y) * (a.y - b.y) <= 2
}

/// The L-infinity (king's move) distance between two points.
pub open spec fn l_infinity_distance(a: Point, b: Point) -> int {
    let dx = if a.x >= b.x { a.x - b.x } else { b.x - a.x };
    let dy = if a.y >= b.y { a.y - b.y } else { b.y - a.y };
    if dx >= dy { dx } else { dy }
}

/// The squared Euclidean distance between two points.
pub open spec fn distance_squared(a: Point, b: Point) -> int {
    (a.x - b.x) * (a.x - b.x) + (a.y - b.y) * (a.y - b.y)
}

/// Points whose coordinates keep the distance computations in range.
pub open spec fn small_point(p: Point) -> bool {
    -0x4000 <= p.x <= 0x4000 && -0x4000 <= p.y <= 0x4000
}

/// Whether `a` is next to `b`.
pub fn is_next_to(a: Point, b: Point) -> (r: bool)
    requires
        small_point(a),
        small_point(b),
    ensures
        r == next_to(a, b),
{
    let dx = a.x - b.x;
    let dy = a.y - b.y;
    proof {
        assert(-0x8000 <= dx <= 0x8000 && -0x8000 <= dy <= 0x8000);
        assert(0 <= dx * dx <= 0x4000_0000) by (nonlinear_arith)
            requires
                -0x8000 <= dx <= 0x8000,
        ;
        assert(0 <= dy * dy <= 0x4000_0000) by (nonlinear_arith)
            requires
                -0x8000 <= dy <= 0x8000,
        ;
    }
    let d2: i64 = (dx as i64) * (dx as i64) + (dy as i64) * (dy as i64);
    d2 <= 2
}

/// The L-infinity distance between two points.
pub fn l_infinity_distance_of(a: Point, b: Point) -> (d: i32)
    requires
        small_point(a),
        small_point(b),
    ensures
        d == l_infinity_distance(a, b),
{
    let dx = if a.x >= b.x { a.x - b.x } else { b.x - a.x };
    let dy = if a.y >= b.y { a.y - b.y } else { b.y - a.y };
    if dx >= dy {
        dx
    } else {
        dy
    }
}

/// The first spell in `spells` (spell, owner, charges left) owned by
/// `caster` with a charge left.
pub fn first_castable_spell(spells: &Vec<(Entity, Entity, i32)>, caster: Entity) -> (r: Option<Entity>)
    ensures
        r matches Some(s) ==> exists|i: int|
            0 <= i < spells.len() && spells[i].0 == s && spells[i].1 == caster && spells[i].2 > 0 && forall|j: int|
                0 <= j < i ==> !(spells[j].1 == caster && spells[j].2 > 0),
        r is None ==> forall|j: int| 0 <= j < spells.len() ==> !(spells[j].1 == caster && spells[j].2 > 0),
{
    let mut i: usize = 0;
    while i < spells.len()
        invariant
            i <= spells.len(),
            forall|j: int| 0 <= j < i ==> !(spells[j].1 == caster && spells[j].2 > 0),
        decreases spells.len() - i,
    {
        let (s, owner, charges) = spells[i];
        if same_entity(owner, caster) && charges > 0 {
            return Some(s);
        }
        i = i + 1;
    }
    None
}

/// What a basic monster does this turn.
#[derive(PartialEq, Eq, Structural, Copy, Clone, Debug)]
pub enum BasicAIAction {
    /// Attack the adjacent player.
    MeleeAttackPlayer,
    /// Take a step along the path towards the player.
    ChasePlayer,
    /// Step to a random neighbouring tile.
    Wander,
    /// Stay put.
    Idle,
}

/// Decides the action of a basic monster, and updates its memory of the
/// player: seeing the player restarts the count of turns it keeps following
/// once it loses sight of it; following without seeing counts one turn down.
pub fn basic_ai_decision(ai: &mut MonsterBasicAI, next_to_player: bool, in_viewshed: bool) -> (a: BasicAIAction)
    requires
        old(ai).lost_visibility_keep_following_turns_remaining > i32::MIN,
    ensures
        next_to_player ==> a == BasicAIAction::MeleeAttackPlayer && *final(ai) == *old(ai),
        !next_to_player && (in_viewshed || old(ai).lost_visibility_keep_following_turns_remaining > 0) ==> {
            &&& a == BasicAIAction::ChasePlayer
            &&& in_viewshed ==> *final(ai) == (MonsterBasicAI {
                lost_visibility_keep_following_turns_remaining: old(ai).lost_visibility_keep_following_turns_max,
                ..*old(ai)
            })
            &&& !in_viewshed ==> *final(ai) == (MonsterBasicAI {
                lost_visibility_keep_following_turns_remaining: (old(ai).lost_visibility_keep_following_turns_remaining - 1) as i32,
                ..*old(ai)
            })
        },
        !next_to_player && !in_viewshed && old(ai).lost_visibility_keep_following_turns_remaining <= 0 ==> {
            &&& *final(ai) == *old(ai)
            &&& a == if old(ai).no_visibility_wander { BasicAIAction::Wander } else { BasicAIAction::Idle }
        },
{
    let keep_following = ai.do_keep_following();
    if next_to_player {
        BasicAIAction::MeleeAttackPlayer
    } else if in_viewshed || keep_following {
        if in_viewshed {
            ai.reset_keep_following();
        } else {
            ai.decrement_keep_following();
        }
        BasicAIAction::ChasePlayer
    } else if !in_viewshed && ai.no_visibility_wander {
        BasicAIAction::Wander
    } else {
        BasicAIAction::Idle
    }
}

/// What an attack spellcaster does this turn.
#[derive(Copy, Clone)]
pub enum SpellcasterAction {
    /// Cast the spell at the player.
    CastAtPlayer { spell: Entity },
    /// Attack the adjacent player.
    MeleeAttackPlayer,
    /// Move to keep its distance from the player while its spells recharge.
    KeepDistance,
    /// Stay put.
    Idle,
}

/// Decides the action of an attack spellcaster: it casts when it sees the
/// player within `distance_to_keep_away` and has a spell with a charge;
/// failing that it attacks an adjacent player; failing that, when it sees the
/// player, it keeps its distance.
pub fn attack_spellcaster_decision(
    in_viewshed: bool,
    next_to_player: bool,
    distance_to_player: i32,
    distance_to_keep_away: i32,
    spell: Option<Entity>,
) -> (a: SpellcasterAction)
    ensures
        in_viewshed && spell.is_some() && distance_to_player <= distance_to_keep_away ==> (a matches SpellcasterAction::CastAtPlayer { spell: s } && spell == Some(s)),
        !(in_viewshed && spell.is_some() && distance_to_player <= distance_to_keep_away) ==> a == if next_to_player {
            SpellcasterAction::MeleeAttackPlayer
        } else if in_viewshed {
            SpellcasterAction::KeepDistance
        } else {
            SpellcasterAction::Idle
        },
{
    match spell {
        Some(s) => {
            if in_viewshed && distance_to_player <= distance_to_keep_away {
                return SpellcasterAction::CastAtPlayer { spell: s };
            }
        },
        None => {},
    }
    if next_to_player {
        SpellcasterAction::MeleeAttackPlayer
    } else if in_viewshed {
        SpellcasterAction::KeepDistance
    } else {
        SpellcasterAction::Idle
    }
}

/// What a cleric does this turn.
#[derive(Copy, Clone)]
pub enum ClericAction {
    /// Cast the (healing) spell at the monster to heal.
    CastAt { spell: Entity, target: Entity },
    /// Attack the adjacent player.
    MeleeAttackPlayer,
    /// Move to stay near the monsters it sees.
    StayNearMonsters,
    /// Move to keep its distance from the player.
    KeepDistanceFromPlayer,
    /// Stay put.
    Idle,
}

/// Decides the action of a cleric: heal a badly hurt monster when it has a
/// spell with a charge; failing that attack an adjacent player; failing that
/// stay near the monsters it sees, or else keep its distance from a player it
/// sees.
pub fn cleric_decision(
    spell: Option<Entity>,
    monster_to_heal: Option<Entity>,
    next_to_player: bool,
    any_monster_in_view: bool,
    in_viewshed: bool,
) -> (a: ClericAction)
    ensures
        spell.is_some() && monster_to_heal.is_some() ==> (a matches ClericAction::CastAt { spell: s2, target: m2 } && Some(s2) == spell && Some(m2) == monster_to_heal),
        !(spell.is_some() && monster_to_heal.is_some()) ==> a == if next_to_player {
            ClericAction::MeleeAttackPlayer
        } else if any_monster_in_view {
            ClericAction::StayNearMonsters
        } else if in_viewshed {
            ClericAction::KeepDistanceFromPlayer
        } else {
            ClericAction::Idle
        },
{
    match (spell, monster_to_heal) {
        (Some(s), Some(m)) => ClericAction::CastAt { spell: s, target: m },
        _ => {
            if next_to_player {
                ClericAction::MeleeAttackPlayer
            } else if any_monster_in_view {
                ClericAction::StayNearMonsters
            } else if in_viewshed {
                ClericAction::KeepDistanceFromPlayer
            } else {
                ClericAction::Idle
            }
        },
    }
}

/// A monster, as the cleric sees it: the entity, where it stands, and its hit
/// points.
#[derive(Copy, Clone)]
pub struct SeenMonster {
    pub entity: Entity,
    pub pos: Point,
    pub hp: i32,
    pub max_hp: i32,
}

/// A monster needs healing when it has less than half of its hit points
/// (halving rounds toward zero).
pub open spec fn needs_healing(m: SeenMonster) -> bool {
    (m.hp as int) < (if m.max_hp >= 0 { m.max_hp / 2 } else { -((-m.max_hp) / 2) })
}

/// The first monster other than the cleric itself that stands on a tile the
/// cleric sees and needs healing.
pub fn monster_to_heal(monsters: &Vec<SeenMonster>, visible: &Vec<Point>, cleric: Entity) -> (r: Option<Entity>)
    ensures
        r matches Some(e) ==> exists|i: int|
            0 <= i < monsters.len() && monsters[i].entity == e && e != cleric && visible@.contains(monsters[i].pos)
                && needs_healing(monsters[i]) && forall|j: int|
                0 <= j < i ==> !(monsters[j].entity != cleric && visible@.contains(monsters[j].pos) && needs_healing(
                    monsters[j],
                )),
        r is None ==> forall|i: int|
            0 <= i < monsters.len() ==> !(monsters[i].entity != cleric && visible@.contains(monsters[i].pos)
                && needs_healing(monsters[i])),
{
    let mut i: usize = 0;
    while i < monsters.len()
        invariant
            i <= monsters.len(),
            forall|j: int|
                0 <= j < i ==> !(monsters[j].entity != cleric && visible@.contains(monsters[j].pos)
                    && needs_healing(monsters[j])),
        decreases monsters.len() - i,
    {
        let m = monsters[i];
        let seen = crate::components::basics::contains_point(visible, m.pos);
        let half = m.max_hp / 2;
        if !same_entity(m.entity, cleric) && seen && m.hp < half {
            return Some(m.entity);
        }
        i = i + 1;
    }
    None
}

/// The first monster other than the enchanter that stands on a tile the
/// enchanter sees and does not have its buff yet (`buffed[i]` tells whether
/// `monsters[i]` has it).
pub fn monster_to_buff(monsters: &Vec<SeenMonster>, buffed: &Vec<bool>, visible: &Vec<Point>, enchanter: Entity) -> (r:
    Option<Entity>)
    requires
        buffed.len() == monsters.len(),
    ensures
        r matches Some(e) ==> exists|i: int|
            0 <= i < monsters.len() && monsters[i].entity == e && e != enchanter && visible@.contains(monsters[i].pos)
                && !buffed[i] && forall|j: int|
                0 <= j < i ==> !(monsters[j].entity != enchanter && visible@.contains(monsters[j].pos) && !buffed[j]),
        r is None ==> forall|i: int|
            0 <= i < monsters.len() ==> !(monsters[i].entity != enchanter && visible@.contains(monsters[i].pos)
                && !buffed[i]),
{
    let mut i: usize = 0;
    while i < monsters.len()
        invariant
            i <= monsters.len(),
            buffed.len() == monsters.len(),
            forall|j: int|
                0 <= j < i ==> !(monsters[j].entity != enchanter && visible@.contains(monsters[j].pos) && !buffed[j]),
        decreases monsters.len() - i,
    {
        let m = monsters[i];
        let seen = crate::components::basics::contains_point(visible, m.pos);
        if !same_entity(m.entity, enchanter) && seen && !buffed[i] {
            return Some(m.entity);
        }
        i = i + 1;
    }
    None
}

/// Whether the cleric sees any monster other than itself.
pub fn any_monster_in_view(monsters: &Vec<SeenMonster>, visible: &Vec<Point>, cleric: Entity) -> (b: bool)
    ensures
        b == exists|i: int| 0 <= i < monsters.len() && monsters[i].entity != cleric && visible@.contains(monsters[i].pos),
{
    let mut i: usize = 0;
    while i < monsters.len()
        invariant
            i <= monsters.len(),
            forall|j: int| 0 <= j < i ==> !(monsters[j].entity != cleric && visible@.contains(monsters[j].pos)),
        decreases monsters.len() - i,
    {
        let m = monsters[i];
        let seen = crate::components::basics::contains_point(visible, m.pos);
        if !same_entity(m.entity, cleric) && seen {
            return true;
        }
        i = i + 1;
    }
    false
}

/// The point of `circle` furthest from `from` (by squared distance; the
/// first one on ties), or the origin when no point lies away from `from`.
pub fn furthest_point(circle: &Vec<Point>, from: Point) -> (p: Point)
    requires
        forall|i: int| 0 <= i < circle.len() ==> small_point(#[trigger] circle[i]),
        small_point(from),
    ensures
        (forall|i: int| 0 <= i < circle.len() ==> distance_squared(#[trigger] circle[i], from) == 0) ==> p == (Point { x: 0, y: 0 }),
        (exists|i: int| 0 <= i < circle.len() && distance_squared(#[trigger] circle[i], from) > 0) ==> {
            &&& circle@.contains(p)
            &&& forall|i: int| 0 <= i < circle.len() ==> distance_squared(#[trigger] circle[i], from) <= distance_squared(p, from)
        },
{
    let mut best = Point { x: 0, y: 0 };
    let mut largest: i64 = 0;
    let mut i: usize = 0;
    while i < circle.len()
        invariant
            i <= circle.len(),
            forall|k: int| 0 <= k < circle.len() ==> small_point(#[trigger] circle[k]),
            small_point(from),
            0 <= largest,
            largest == 0 ==> best == (Point { x: 0, y: 0 }),
            largest > 0 ==> circle@.contains(best) && largest == distance_squared(best, from),
            forall|k: int| 0 <= k < i ==> distance_squared(#[trigger] circle[k], from) <= largest,
        decreases circle.len() - i,
    {
        let pt = circle[i];
        let dx: i64 = (pt.x as i64) - (from.x as i64);
        let dy: i64 = (pt.y as i64) - (from.y as i64);
        proof {
            assert(0 <= dx * dx <= 0x4000_0000) by (nonlinear_arith)
                requires
                    -0x8000 <= dx <= 0x8000,
            ;
            assert(0 <= dy * dy <= 0x4000_0000) by (nonlinear_arith)
                requires
                    -0x8000 <= dy <= 0x8000,
            ;
        }
        let d2 = dx * dx + dy * dy;
        assert(d2 == distance_squared(circle[i as int], from));
        if d2 > largest {
            largest = d2;
            best = pt;
        }
        i = i + 1;
    }
    proof {
        if exists|k: int| 0 <= k < circle.len() && distance_squared(#[trigger] circle[k], from) > 0 {
            let k = choose|k: int| 0 <= k < circle.len() && distance_squared(#[trigger] circle[k], from) > 0;
            assert(distance_squared(circle[k], from) <= largest);
        }
    }
    best
}

/// The storage indices of the points of `pts`, all on the map: the goals a
/// monster keeping its distance heads for.
pub fn indices_of(map: &GameMap, pts: &Vec<Point>) -> (idxs: Vec<usize>)
    requires
        map.wf(),
        forall|i: int| 0 <= i < pts.len() ==> map.on_map(#[trigger] pts[i].x as int, pts[i].y as int),
    ensures
        idxs.len() == pts.len(),
        forall|i: int| 0 <= i < pts.len() ==> idxs[i] == map.idx(#[trigger] pts[i].x as int, pts[i].y as int),
{
    let mut idxs: Vec<usize> = Vec::new();
    let mut i: usize = 0;
    while i < pts.len()
        invariant
            map.wf(),
            forall|k: int| 0 <= k < pts.len() ==> map.on_map(#[trigger] pts[k].x as int, pts[k].y as int),
            i <= pts.len(),
            idxs.len() == i,
            forall|k: int| 0 <= k < i ==> idxs[k] == map.idx(#[trigger] pts[k].x as int, pts[k].y as int),
        decreases pts.len() - i,
    {
        let p = pts[i];
        proof {
            assert(map.on_map(pts[i as int].x as int, pts[i as int].y as int));
            lemma_idx_on_grid(map.width as int, map.height as int, p.x as int, p.y as int);
        }
        idxs.push(map.xy_idx(p.x, p.y));
        i = i + 1;
    }
    idxs
}

/// Moves a monster to column `x`, row `y`: its old tile is no longer
/// blocked, its new one is, and its field of view must be recomputed. The new
/// position is assumed safe to move into.
pub fn move_monster(map: &mut GameMap, pos: &mut Position, x: i32, y: i32, viewshed: &mut Viewshed)
    requires
        old(map).wf(),
        old(map).on_map(x as int, y as int),
        old(map).on_map(old(pos).x as int, old(pos).y as int),
    ensures
        final(map).wf(),
        final(map).blocked@ == old(map).blocked@.update(old(map).idx(old(pos).x as int, old(pos).y as int), false).update(
            old(map).idx(x as int, y as int),
            true,
        ),
        final(map).width == old(map).width,
        final(map).height == old(map).height,
        final(map).depth == old(map).depth,
        final(map).tiles@ == old(map).tiles@,
        final(map).revealed_tiles@ == old(map).revealed_tiles@,
        final(map).visible_tiles@ == old(map).visible_tiles@,
        final(map).fire@ == old(map).fire@,
        final(map).chill@ == old(map).chill@,
        final(map).water@ == old(map).water@,
        final(map).tile_content@ == old(map).tile_content@,
        *final(pos) == (Position { x, y }),
        final(viewshed).dirty,
        final(viewshed).range == old(viewshed).range,
        final(viewshed).visible_tiles@ == old(viewshed).visible_tiles@,
{
    proof {
        lemma_idx_on_grid(map.width as int, map.height as int, x as int, y as int);
        lemma_idx_on_grid(map.width as int, map.height as int, pos.x as int, pos.y as int);
    }
    let new_idx = map.xy_idx(x, y);
    let old_idx = map.xy_idx(pos.x, pos.y);
    map.blocked.set(old_idx, false);
    map.blocked.set(new_idx, true);
    pos.x = x;
    pos.y = y;
    viewshed.dirty = true;
}

/// All neighbours of column `x`, row `y` have storage indices on the map.
pub open spec fn neighbours_indexable(map: &GameMap, x: int, y: int) -> bool {
    &&& 0 <= map.idx(x - 1, y - 1)
    &&& map.idx(x + 1, y + 1) < map.width * map.height
    &&& 0 <= x - 1
    &&& 0 <= y - 1
}

/// Where a wandering monster at `pos` goes on the draw (`dx`, `dy`): the
/// drawn tile when it is not blocked, and `pos` itself otherwise.
pub open spec fn adjacent_position_spec(map: &GameMap, pos: Position, dx: int, dy: int) -> (i32, i32) {
    if !map.blocked[map.idx(pos.x + dx, pos.y + dy)] {
        ((pos.x + dx) as i32, (pos.y + dy) as i32)
    } else {
        (pos.x, pos.y)
    }
}

/// A random neighbouring tile of `pos` (or `pos` itself) that is not blocked;
/// `pos` itself when the drawn tile is blocked.
pub fn random_adjacent_position(map: &GameMap, pos: Position) -> (r: (i32, i32))
    requires
        map.wf(),
        neighbours_indexable(map, pos.x as int, pos.y as int),
    ensures
        -1 <= r.0 - pos.x <= 1,
        -1 <= r.1 - pos.y <= 1,
        (r.0 != pos.x || r.1 != pos.y) ==> !map.blocked[map.idx(r.0 as int, r.1 as int)],
        exists|dx: int, dy: int| -1 <= dx <= 1 && -1 <= dy <= 1 && r == #[trigger] adjacent_position_spec(map, pos, dx, dy),
{
    let mut rng = crate::rng::new_rng();
    let dx = range(&mut rng, -1, 2);
    let dy = range(&mut rng, -1, 2);
    let r = adjacent_position_on_draw(map, pos, dx, dy);
    assert(r == adjacent_position_spec(map, pos, dx as int, dy as int));
    r
}

/// Where a wandering monster at `pos` goes on the draw (`dx`, `dy`).
pub fn adjacent_position_on_draw(map: &GameMap, pos: Position, dx: i32, dy: i32) -> (r: (i32, i32))
    requires
        map.wf(),
        neighbours_indexable(map, pos.x as int, pos.y as int),
        -1 <= dx <= 1,
        -1 <= dy <= 1,
    ensures
        r == adjacent_position_spec(map, pos, dx as int, dy as int),
        -1 <= r.0 - pos.x <= 1,
        -1 <= r.1 - pos.y <= 1,
        (r.0 != pos.x || r.1 != pos.y) ==> !map.blocked[map.idx(r.0 as int, r.1 as int)],
{
    proof {
        assert(pos.y + 1 <= (pos.y + 1) * map.width) by (nonlinear_arith)
            requires
                0 <= pos.y - 1,
                map.width >= 1,
        ;
    }
    let nx = pos.x + dx;
    let ny = pos.y + dy;
    proof {
        assert(0 <= map.idx(nx as int, ny as int) < map.width * map.height) by (nonlinear_arith)
            requires
                0 <= map.idx(pos.x - 1, pos.y - 1),
                map.idx(pos.x + 1, pos.y + 1) < map.width * map.height,
                map.idx(nx as int, ny as int) == ny * map.width + nx,
                map.idx(pos.x - 1, pos.y - 1) == (pos.y - 1) * map.width + pos.x - 1,
                map.idx(pos.x + 1, pos.y + 1) == (pos.y + 1) * map.width + pos.x + 1,
                -1 <= nx - pos.x <= 1,
                -1 <= ny - pos.y <= 1,
                map.width > 0,
        ;
        assert(ny * map.width <= i32::MAX) by (nonlinear_arith)
            requires
                0 <= ny * map.width + nx < map.width * map.height,
                map.width * map.height < i32::MAX,
                0 <= nx,
        ;
    }
    let idx = map.xy_idx(nx, ny);
    if !map.blocked[idx] {
        (nx, ny)
    } else {
        (pos.x, pos.y)
    }
}

} // verus!
