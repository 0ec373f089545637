use vstd::prelude::*;
use specs::Entity;
use rltk::RandomNumberGenerator;
use crate::components::basics::Position;
use crate::components::spawn_despawn::ChanceToSpawnEntityWhenBurning;
use crate::components::status_effects::{
    StatusEffect, StatusIsFrozen, StatusIsBurning, StatusIsImmuneToFire, StatusIsImmuneToChill,
    StatusIsMeleeAttackBuffed, StatusIsPhysicalDefenseBuffed, tick_status, tick_status_with_immunity,
    slot_turns, tick_turns,
};
use crate::gamelog::GameLog;
use crate::geometry::Point;
use crate::grid::lemma_idx_on_grid;
use crate::map::GameMap;
use crate::map_geometry::{keep_in_bounds, l_infinity_ring, lemma_kept_in_bounds};
use crate::rng::roll_dice;
use crate::systems::spawning::{roll_succeeds, EntitySpawnRequest};

verus! {

//----------------------------------------------------------------------------
// The status systems: ticking every status once a turn, and applying the
// effects of burning.
//----------------------------------------------------------------------------

/// The status slots of one entity.
pub struct EntityStatuses {
    pub frozen: Option<StatusIsFrozen>,
    pub burning: Option<StatusIsBurning>,
    pub immune_to_fire: Option<StatusIsImmuneToFire>,
    pub immune_to_chill: Option<StatusIsImmuneToChill>,
    pub attack_buffed: Option<StatusIsMeleeAttackBuffed>,
    pub defense_buffed: Option<StatusIsPhysicalDefenseBuffed>,
}

/// The messages logged when each status ends (none for an unnamed entity).
pub struct StatusEndMessages {
    pub burning: Option<String>,
    pub frozen: Option<String>,
    pub immune_to_fire: Option<String>,
    pub immune_to_chill: Option<String>,
    pub attack_buffed: Option<String>,
    pub defense_buffed: Option<String>,
}

/// The remaining turns of a status after one tick, given whether the entity
/// is immune to it.
pub open spec fn ticked<S: StatusEffect>(slot: Option<S>, immune: bool) -> Option<int> {
    match slot_turns(slot) {
        Some(t) => if immune { None } else { tick_turns(t) },
        None => None,
    }
}

/// The message logged when the status in `slot` ticks: `msg`, when the
/// status ends this tick and there is a message.
pub open spec fn end_message<S: StatusEffect>(slot: Option<S>, immune: bool, msg: Option<String>) -> Seq<String> {
    if slot is Some && ticked(slot, immune) is None && msg is Some {
        seq![msg.unwrap()]
    } else {
        Seq::empty()
    }
}

/// Ticks all statuses of an entity, in this order: burning (which ends at once
/// for an entity immune to fire), frozen (which ends at once for one immune to
/// chill), then the immunities and the buffs. Each status that ends has its
/// message logged.
pub fn tick_entity_statuses(s: &mut EntityStatuses, log: &mut GameLog, msgs: StatusEndMessages)
    ensures
        slot_turns(final(s).burning) == ticked(old(s).burning, old(s).immune_to_fire.is_some()),
        slot_turns(final(s).frozen) == ticked(old(s).frozen, old(s).immune_to_chill.is_some()),
        slot_turns(final(s).immune_to_fire) == ticked(old(s).immune_to_fire, false),
        slot_turns(final(s).immune_to_chill) == ticked(old(s).immune_to_chill, false),
        slot_turns(final(s).attack_buffed) == ticked(old(s).attack_buffed, false),
        slot_turns(final(s).defense_buffed) == ticked(old(s).defense_buffed, false),
        final(log).entries@ == old(log).entries@
            + end_message(old(s).burning, old(s).immune_to_fire.is_some(), msgs.burning)
            + end_message(old(s).frozen, old(s).immune_to_chill.is_some(), msgs.frozen)
            + end_message(old(s).immune_to_fire, false, msgs.immune_to_fire)
            + end_message(old(s).immune_to_chill, false, msgs.immune_to_chill)
            + end_message(old(s).attack_buffed, false, msgs.attack_buffed)
            + end_message(old(s).defense_buffed, false, msgs.defense_buffed),
{
    let fire_immune = s.immune_to_fire.is_some();
    let chill_immune = s.immune_to_chill.is_some();
    let ghost s0 = *s;
    let ghost l0 = log.entries@;
    tick_status_with_immunity(&mut s.burning, fire_immune, log, msgs.burning);
    let ghost l1 = log.entries@;
    tick_status_with_immunity(&mut s.frozen, chill_immune, log, msgs.frozen);
    let ghost l2 = log.entries@;
    tick_status(&mut s.immune_to_fire, log, msgs.immune_to_fire);
    let ghost l3 = log.entries@;
    tick_status(&mut s.immune_to_chill, log, msgs.immune_to_chill);
    let ghost l4 = log.entries@;
    tick_status(&mut s.attack_buffed, log, msgs.attack_buffed);
    let ghost l5 = log.entries@;
    tick_status(&mut s.defense_buffed, log, msgs.defense_buffed);
    proof {
        assert(l1 =~= l0 + end_message(s0.burning, fire_immune, msgs.burning));
        assert(l2 =~= l1 + end_message(s0.frozen, chill_immune, msgs.frozen));
        assert(l3 =~= l2 + end_message(s0.immune_to_fire, false, msgs.immune_to_fire));
        assert(l4 =~= l3 + end_message(s0.immune_to_chill, false, msgs.immune_to_chill));
        assert(l5 =~= l4 + end_message(s0.attack_buffed, false, msgs.attack_buffed));
        assert(log.entries@ =~= l5 + end_message(s0.defense_buffed, false, msgs.defense_buffed));
    }
}

/// What burning does to an entity this turn.
#[derive(Copy, Clone)]
pub struct BurningOutcome {
    /// The entity takes `BURNING_TICK_DAMAGE` fire damage.
    pub takes_damage: bool,
    /// The entity dissipates (grass burns away).
    pub dissipates: bool,
    /// What the entity spawns on its tile (grass spawns fire).
    pub spawn: Option<EntitySpawnRequest>,
}

/// The effects of burning on a burning entity: fire damage unless it is
/// immune to fire, dissipation for entities that dissipate when burning, and
/// a d100 roll of at most the spawn chance to spawn on its tile.
pub fn burning_effects(
    rng: &mut RandomNumberGenerator,
    fire_immune: bool,
    dissipates_when_burning: bool,
    spawns: Option<ChanceToSpawnEntityWhenBurning>,
    pos: Option<Position>,
) -> (o: BurningOutcome)
    ensures
        o.takes_damage == !fire_immune,
        o.dissipates == dissipates_when_burning,
        o.spawn matches Some(r) ==> spawns.is_some() && pos.is_some() && r == (EntitySpawnRequest {
            x: pos.unwrap().x,
            y: pos.unwrap().y,
            kind: spawns.unwrap().kind,
        }),
        (spawns.is_none() || pos.is_none() || spawns.unwrap().chance < 1) ==> o.spawn is None,
        (spawns.is_some() && pos.is_some() && spawns.unwrap().chance >= 100) ==> o.spawn is Some,
        exists|roll: i32| 1 <= roll <= 100 && o == #[trigger] burning_outcome_spec(
            fire_immune,
            dissipates_when_burning,
            spawns,
            pos,
            roll,
        ),
{
    let roll = match (spawns, pos) {
        (Some(_), Some(_)) => roll_dice(rng, 1, 100),
        _ => 1,
    };
    burning_outcome(fire_immune, dissipates_when_burning, spawns, pos, roll)
}

/// The effects of burning with the d100 roll `roll` for spawning.
pub open spec fn burning_outcome_spec(
    fire_immune: bool,
    dissipates_when_burning: bool,
    spawns: Option<ChanceToSpawnEntityWhenBurning>,
    pos: Option<Position>,
    roll: i32,
) -> BurningOutcome {
    BurningOutcome {
        takes_damage: !fire_immune,
        dissipates: dissipates_when_burning,
        spawn: match (spawns, pos) {
            (Some(c), Some(p)) => if roll <= c.chance {
                Some(EntitySpawnRequest { x: p.x, y: p.y, kind: c.kind })
            } else {
                None
            },
            _ => None,
        },
    }
}

/// The effects of burning on a burning entity, given the d100 roll `roll`
/// that decides whether it spawns on its tile: fire damage unless it is
/// immune to fire, dissipation for entities that dissipate when burning, and
/// a spawn when the roll is at most the spawn chance.
pub fn burning_outcome(
    fire_immune: bool,
    dissipates_when_burning: bool,
    spawns: Option<ChanceToSpawnEntityWhenBurning>,
    pos: Option<Position>,
    roll: i32,
) -> (o: BurningOutcome)
    ensures
        o == burning_outcome_spec(fire_immune, dissipates_when_burning, spawns, pos, roll),
{
    let spawn = match (spawns, pos) {
        (Some(c), Some(p)) => {
            if roll <= c.chance {
                Some(EntitySpawnRequest { x: p.x, y: p.y, kind: c.kind })
            } else {
                None
            }
        },
        _ => None,
    };
    BurningOutcome { takes_damage: !fire_immune, dissipates: dissipates_when_burning, spawn }
}

/// Turns of burning an entity catches from a burning neighbour.
pub const SPREAD_BURNING_TURNS: i32 = 5;

/// Whether a neighbour of an entity that spreads burning catches fire: a
/// d100 roll of at most `chance`.
pub fn catches_fire(rng: &mut RandomNumberGenerator, chance: i32) -> (b: bool)
    ensures
        chance < 1 ==> !b,
        chance >= 100 ==> b,
        exists|roll: i32| 1 <= roll <= 100 && b == #[trigger] roll_succeeds(roll, chance),
{
    let roll = roll_dice(rng, 1, 100);
    assert(roll_succeeds(roll, chance) == (roll <= chance));
    catches_fire_on_roll(chance, roll)
}

/// Whether a neighbour catches fire on the d100 roll `roll`: a roll of at
/// most `chance`.
pub fn catches_fire_on_roll(chance: i32, roll: i32) -> (b: bool)
    ensures
        b == (roll <= chance),
{
    roll <= chance
}

/// The entities standing on the tiles around `pos` (the ring of the eight
/// neighbours, those inside the map's interior), tile by tile.
pub fn get_adjacent_entities(map: &GameMap, pos: Point) -> (r: Vec<Entity>)
    requires
        map.wf(),
        i32::MIN < pos.x < i32::MAX,
        i32::MIN < pos.y < i32::MAX,
    ensures
        r@ == adjacent_entities_spec(map, keep_in_bounds(map, l_infinity_ring(pos, 1)), 0),
{
    let tiles = map.get_l_infinity_circle_around(pos, 1);
    proof {
        lemma_kept_in_bounds(map, l_infinity_ring(pos, 1));
    }
    let n = tiles.len();
    let mut i: usize = n;
    let mut acc: Vec<Entity> = Vec::new();
    // Gather from the last tile back, so that the result reads tile by tile.
    while i > 0
        invariant
            map.wf(),
            n == tiles.len(),
            i <= n,
            tiles@ == keep_in_bounds(map, l_infinity_ring(pos, 1)),
            forall|k: int| 0 <= k < n ==> map.in_bounds(#[trigger] tiles@[k].x as int, tiles@[k].y as int),
            acc@ == adjacent_entities_spec(map, tiles@, i as int),
        decreases i,
    {
        i = i - 1;
        let p = tiles[i];
        proof {
            assert(map.in_bounds(tiles@[i as int].x as int, tiles@[i as int].y as int));
            lemma_idx_on_grid(map.width as int, map.height as int, p.x as int, p.y as int);
        }
        let idx = map.xy_idx(p.x, p.y);
        let content = &map.tile_content[idx];
        let mut next: Vec<Entity> = Vec::new();
        let mut j: usize = 0;
        while j < content.len()
            invariant
                j <= content.len(),
                next@ == content@.take(j as int),
            decreases content.len() - j,
        {
            next.push(content[j]);
            j = j + 1;
        }
        let mut k: usize = 0;
        while k < acc.len()
            invariant
                k <= acc.len(),
                next@ == content@ + acc@.take(k as int),
            decreases acc.len() - k,
        {
            proof {
                assert(content@.take(content.len() as int) =~= content@);
            }
            next.push(acc[k]);
            proof {
                assert(acc@.take(k as int + 1) =~= acc@.take(k as int).push(acc@[k as int]));
            }
            k = k + 1;
        }
        proof {
            assert(content@.take(content.len() as int) =~= content@);
            assert(acc@.take(acc.len() as int) =~= acc@);
        }
        acc = next;
    }
    acc
}

/// The entities on the tiles of `tiles` from position `i` on, tile by tile.
pub open spec fn adjacent_entities_spec(map: &GameMap, tiles: Seq<Point>, i: int) -> Seq<Entity>
    decreases tiles.len() - i,
{
    if i >= tiles.len() || i < 0 {
        Seq::empty()
    } else {
        map.tile_content[map.idx(tiles[i].x as int, tiles[i].y as int)]@ + adjacent_entities_spec(map, tiles, i + 1)
    }
}

/// The status indicators drawn beside an entity.
#[derive(PartialEq, Eq, Structural, Copy, Clone, Debug)]
pub enum StatusIndicator {
    Frozen,
    Burning,
    ImmuneToChill,
    ImmuneToFire,
    AttackBuffed,
    DefenseBuffed,
}

/// The indicators of the statuses an entity has, in the order they are
/// drawn: frozen, burning, chill immunity, fire immunity, attack buff,
/// defense buff.
pub open spec fn indicators_spec(s: &EntityStatuses) -> Seq<StatusIndicator> {
    (if s.frozen is Some { seq![StatusIndicator::Frozen] } else { seq![] })
        + (if s.burning is Some { seq![StatusIndicator::Burning] } else { seq![] })
        + (if s.immune_to_chill is Some { seq![StatusIndicator::ImmuneToChill] } else { seq![] })
        + (if s.immune_to_fire is Some { seq![StatusIndicator::ImmuneToFire] } else { seq![] })
        + (if s.attack_buffed is Some { seq![StatusIndicator::AttackBuffed] } else { seq![] })
        + (if s.defense_buffed is Some { seq![StatusIndicator::DefenseBuffed] } else { seq![] })
}

pub fn get_status_indicators(s: &EntityStatuses) -> (r: Vec<StatusIndicator>)
    ensures
        r@ == indicators_spec(s),
{
    let mut r: Vec<StatusIndicator> = Vec::new();
    if s.frozen.is_some() {
        r.push(StatusIndicator::Frozen);
    }
    if s.burning.is_some() {
        r.push(StatusIndicator::Burning);
    }
    if s.immune_to_chill.is_some() {
        r.push(StatusIndicator::ImmuneToChill);
    }
    if s.immune_to_fire.is_some() {
        r.push(StatusIndicator::ImmuneToFire);
    }
    if s.attack_buffed.is_some() {
        r.push(StatusIndicator::AttackBuffed);
    }
    if s.defense_buffed.is_some() {
        r.push(StatusIndicator::DefenseBuffed);
    }
    assert(r@ =~= indicators_spec(s));
    r
}

} // verus!
