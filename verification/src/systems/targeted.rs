use vstd::prelude::*;
use specs::Entity;
use crate::components::game_effects::{
    BuffsMeleeAttackWhenCast, BuffsPhysicalDefenseWhenCast, InflictsBurningData, InflictsDamageData, InflictsFreezingData,
};
use crate::components::spawn_despawn::SpawnsEntityInAreaWhenTargeted;
use crate::components::melee::{WeaponSpecial, WeaponSpecialKind};
use crate::entity::same_entity;
use crate::geometry::Point;
use crate::grid::lemma_idx_on_grid;
use crate::map::GameMap;
use crate::map_geometry::ray_spec;
use crate::run_state::TargetingVerb;

verus! {

//----------------------------------------------------------------------------
// Targeted effects: resolving a thrown item or a cast spell at a target
// position. The targets are found in the target tile, in an area around it,
// or at the end of a ray; each target then receives the thing's effects, and
// the thing is spent.
//----------------------------------------------------------------------------

/// A thing is used only when it can be targeted in the way it is used
/// (`has_targeting`: it has the targeting component for the verb). A spell
/// is then cast only with a charge left (or when it has no charges to count)
/// or when it is a single cast; throwing is always possible.
pub fn may_resolve(verb: TargetingVerb, has_targeting: bool, charges: Option<i32>, single_cast: bool) -> (b: bool)
    ensures
        b == (has_targeting && !(verb == TargetingVerb::Cast && !((charges matches Some(c) ==> c > 0)
            || single_cast))),
{
    if !has_targeting {
        return false;
    }
    let has_charges = match charges {
        Some(c) => c > 0,
        None => true,
    };
    !(verb == TargetingVerb::Cast && !(has_charges || single_cast))
}

/// The components of a thing that decide what using it at a target does:
/// each flag is whether the thing has the component, each option the
/// component's data where it has it. Full healing, teleporting, the buffs
/// and moving the user to the target come in one version, whatever the verb.
#[derive(Copy, Clone)]
pub struct ThingComponents {
    pub targeted_when_thrown: bool,
    pub targeted_when_cast: bool,
    pub provides_full_healing: bool,
    pub moves_to_random_position: bool,
    pub damage_when_thrown: Option<InflictsDamageData>,
    pub damage_when_cast: Option<InflictsDamageData>,
    pub freezing_when_thrown: Option<InflictsFreezingData>,
    pub freezing_when_cast: Option<InflictsFreezingData>,
    pub burning_when_thrown: Option<InflictsBurningData>,
    pub burning_when_cast: Option<InflictsBurningData>,
    pub buffs_melee_attack_when_cast: Option<BuffsMeleeAttackWhenCast>,
    pub buffs_physical_defense_when_cast: Option<BuffsPhysicalDefenseWhenCast>,
    pub spawns_when_thrown: Option<SpawnsEntityInAreaWhenTargeted>,
    pub spawns_when_cast: Option<SpawnsEntityInAreaWhenTargeted>,
    pub move_to_position_when_cast: bool,
}

/// Whether the thing has the targeting component for the verb.
pub open spec fn targeted_for(verb: TargetingVerb, c: ThingComponents) -> bool {
    match verb {
        TargetingVerb::Thrown => c.targeted_when_thrown,
        TargetingVerb::Cast => c.targeted_when_cast,
    }
}

/// Picks the thrown or the cast version of a component.
pub open spec fn for_verb<A>(verb: TargetingVerb, thrown: A, cast: A) -> A {
    match verb {
        TargetingVerb::Thrown => thrown,
        TargetingVerb::Cast => cast,
    }
}

/// What a thing does when used with `verb`: `None` when it has no targeting
/// component for the verb (it cannot be used so); otherwise each effect from
/// the component for that verb.
pub fn thing_effects(verb: TargetingVerb, c: &ThingComponents) -> (t: Option<ThingEffects>)
    ensures
        t is None <==> !targeted_for(verb, *c),
        t matches Some(e) ==> {
            &&& e.heals == c.provides_full_healing
            &&& e.teleports == c.moves_to_random_position
            &&& e.damage == for_verb(verb, c.damage_when_thrown, c.damage_when_cast)
            &&& e.freezing_turns == match for_verb(verb, c.freezing_when_thrown, c.freezing_when_cast) {
                Some(f) => Some(f.turns),
                None => None,
            }
            &&& e.burning_turns == match for_verb(verb, c.burning_when_thrown, c.burning_when_cast) {
                Some(b) => Some(b.turns),
                None => None,
            }
            &&& e.buff_attack_turns == match c.buffs_melee_attack_when_cast {
                Some(b) => Some(b.turns),
                None => None,
            }
            &&& e.buff_defense_turns == match c.buffs_physical_defense_when_cast {
                Some(b) => Some(b.turns),
                None => None,
            }
            &&& e.spawns == for_verb(verb, c.spawns_when_thrown, c.spawns_when_cast)
            &&& e.moves_user_to_target == c.move_to_position_when_cast
        },
{
    let (targeted, damage, freezing, burning, spawns) = match verb {
        TargetingVerb::Thrown => (
            c.targeted_when_thrown,
            c.damage_when_thrown,
            c.freezing_when_thrown,
            c.burning_when_thrown,
            c.spawns_when_thrown,
        ),
        TargetingVerb::Cast => (
            c.targeted_when_cast,
            c.damage_when_cast,
            c.freezing_when_cast,
            c.burning_when_cast,
            c.spawns_when_cast,
        ),
    };
    if !targeted {
        return None;
    }
    Some(ThingEffects {
        heals: c.provides_full_healing,
        teleports: c.moves_to_random_position,
        damage,
        freezing_turns: match freezing {
            Some(f) => Some(f.turns),
            None => None,
        },
        burning_turns: match burning {
            Some(b) => Some(b.turns),
            None => None,
        },
        buff_attack_turns: match c.buffs_melee_attack_when_cast {
            Some(b) => Some(b.turns),
            None => None,
        },
        buff_defense_turns: match c.buffs_physical_defense_when_cast {
            Some(b) => Some(b.turns),
            None => None,
        },
        spawns,
        moves_user_to_target: c.move_to_position_when_cast,
    })
}

/// Where the targets of a targeted effect are.
pub enum TargetArea {
    /// The entities on the target tile.
    Simple,
    /// The entities on the tiles of the blast (as the field of view of the
    /// blast's radius from the target computes them), away from the map's edge.
    AreaOfEffect { blast_tiles: Vec<Point> },
    /// The entities on the last tile of the ray from the user to the target,
    /// which stops at the first blocked tile when `until_blocked`.
    AlongRay { until_blocked: bool },
}

/// The entities standing on the tiles of `tiles`, tile by tile, each with
/// its tile.
pub open spec fn targets_on_tiles(map: &GameMap, tiles: Seq<Point>) -> Seq<(Entity, Point)>
    decreases tiles.len(),
{
    if tiles.len() == 0 {
        Seq::empty()
    } else {
        targets_on_tiles(map, tiles.drop_last()) + map.tile_content[map.idx(
            tiles.last().x as int,
            tiles.last().y as int,
        )]@.map_values(|e: Entity| (e, tiles.last()))
    }
}

/// A blast tile away from the edge of the map.
pub open spec fn strictly_inside(map: &GameMap, p: Point) -> bool {
    0 < p.x < map.width - 1 && 0 < p.y < map.height - 1
}

/// The tiles whose entities a targeted effect reaches.
pub open spec fn target_tiles(map: &GameMap, user_pos: Point, target: Point, area: TargetArea) -> Seq<Point> {
    match area {
        TargetArea::Simple => seq![target],
        TargetArea::AreaOfEffect { blast_tiles } => blast_tiles@.filter(|p: Point| strictly_inside(map, p)),
        TargetArea::AlongRay { until_blocked } => {
            let ray = if until_blocked {
                ray_spec(map, user_pos, target)
            } else if user_pos == target {
                Seq::<Point>::empty()
            } else {
                seq![target]
            };
            if ray.len() == 0 { Seq::empty() } else { seq![ray.last()] }
        },
    }
}

/// Appends to `out` the entities on tile `p`, each with `p`.
fn push_tile_targets(map: &GameMap, p: Point, out: &mut Vec<(Entity, Point)>)
    requires
        map.wf(),
        map.on_map(p.x as int, p.y as int),
    ensures
        final(out)@ == old(out)@ + map.tile_content[map.idx(p.x as int, p.y as int)]@.map_values(|e: Entity| (e, p)),
{
    proof {
        lemma_idx_on_grid(map.width as int, map.height as int, p.x as int, p.y as int);
    }
    let idx = map.xy_idx(p.x, p.y);
    let content = &map.tile_content[idx];
    let ghost start = out@;
    let mut j: usize = 0;
    while j < content.len()
        invariant
            j <= content.len(),
            out@ == start + content@.take(j as int).map_values(|e: Entity| (e, p)),
        decreases content.len() - j,
    {
        out.push((content[j], p));
        proof {
            assert(content@.take(j as int + 1).map_values(|e: Entity| (e, p)) =~= content@.take(j as int).map_values(
                |e: Entity| (e, p),
            ).push((content@[j as int], p)));
        }
        j = j + 1;
    }
    assert(content@.take(content.len() as int) =~= content@);
}

/// The targets of a thing used by `user` at `user_pos` on `target`: the
/// entities on the tiles it reaches, each with its tile, the user excepted.
pub fn find_targets(map: &GameMap, user: Entity, user_pos: Point, target: Point, area: &TargetArea) -> (targets: Vec<
    (Entity, Point),
>)
    requires
        map.wf(),
        map.width <= 0x2000_0000,
        map.height <= 0x2000_0000,
        map.on_map(user_pos.x as int, user_pos.y as int),
        map.on_map(target.x as int, target.y as int),
    ensures
        targets@ == targets_on_tiles(map, target_tiles(map, user_pos, target, *area)).filter(
            |t: (Entity, Point)| t.0 != user,
        ),
{
    let mut tiles: Vec<Point> = Vec::new();
    match area {
        TargetArea::Simple => {
            tiles.push(target);
        },
        TargetArea::AreaOfEffect { blast_tiles } => {
            let mut i: usize = 0;
            while i < blast_tiles.len()
                invariant
                    map.wf(),
                    i <= blast_tiles.len(),
                    tiles@ == blast_tiles@.take(i as int).filter(|p: Point| strictly_inside(map, p)),
                decreases blast_tiles.len() - i,
            {
                let p = blast_tiles[i];
                proof {
                    reveal_with_fuel(Seq::filter, 1);
                    assert(blast_tiles@.take(i as int + 1).drop_last() =~= blast_tiles@.take(i as int));
                }
                if p.x > 0 && p.x < map.width - 1 && p.y > 0 && p.y < map.height - 1 {
                    tiles.push(p);
                }
                i = i + 1;
            }
            assert(blast_tiles@.take(blast_tiles.len() as int) =~= blast_tiles@);
        },
        TargetArea::AlongRay { until_blocked } => {
            if *until_blocked {
                let ray = map.get_ray_tiles(user_pos, target);
                if ray.len() > 0 {
                    tiles.push(ray[ray.len() - 1]);
                }
            } else if !(user_pos == target) {
                tiles.push(target);
            }
        },
    }
    proof {
        assert(tiles@ =~= target_tiles(map, user_pos, target, *area));
    }
    // Every tile reached is on the map.
    assert forall|i: int| 0 <= i < tiles.len() implies map.on_map(#[trigger] tiles@[i].x as int, tiles@[i].y as int) by {
        if area is AreaOfEffect {
            area->blast_tiles@.lemma_filter_pred(|p: Point| strictly_inside(map, p), i);
        }
    }
    let mut all: Vec<(Entity, Point)> = Vec::new();
    let mut k: usize = 0;
    while k < tiles.len()
        invariant
            map.wf(),
            k <= tiles.len(),
            forall|i: int| 0 <= i < tiles.len() ==> map.on_map(#[trigger] tiles@[i].x as int, tiles@[i].y as int),
            all@ == targets_on_tiles(map, tiles@.take(k as int)),
        decreases tiles.len() - k,
    {
        proof {
            assert(map.on_map(tiles@[k as int].x as int, tiles@[k as int].y as int));
            assert(tiles@.take(k as int + 1).drop_last() =~= tiles@.take(k as int));
        }
        push_tile_targets(map, tiles[k], &mut all);
        k = k + 1;
    }
    assert(tiles@.take(tiles.len() as int) =~= tiles@);
    let mut targets: Vec<(Entity, Point)> = Vec::new();
    let mut q: usize = 0;
    while q < all.len()
        invariant
            q <= all.len(),
            targets@ == all@.take(q as int).filter(|t: (Entity, Point)| t.0 != user),
        decreases all.len() - q,
    {
        let t = all[q];
        proof {
            reveal_with_fuel(Seq::filter, 1);
            assert(all@.take(q as int + 1).drop_last() =~= all@.take(q as int));
        }
        if !same_entity(t.0, user) {
            targets.push(t);
        }
        q = q + 1;
    }
    assert(all@.take(all.len() as int) =~= all@);
    targets
}

/// The effects a thing has on each of its targets, for the way it is used
/// (thrown or cast).
#[derive(Copy, Clone)]
pub struct ThingEffects {
    pub heals: bool,
    pub teleports: bool,
    pub damage: Option<InflictsDamageData>,
    pub freezing_turns: Option<i32>,
    pub burning_turns: Option<i32>,
    pub buff_attack_turns: Option<i32>,
    pub buff_defense_turns: Option<i32>,
    /// Spawn entities of this kind in the area around the target position.
    pub spawns: Option<SpawnsEntityInAreaWhenTargeted>,
    /// Move the user to the target position.
    pub moves_user_to_target: bool,
}

/// The effects on one target.
#[derive(Copy, Clone)]
pub struct TargetEffects {
    /// Restore all its hit points.
    pub full_heal: bool,
    /// Move it to a random position.
    pub teleport: bool,
    /// Queue this damage on it.
    pub damage: Option<InflictsDamageData>,
    /// Freeze it for this many turns, unless it is immune to chill.
    pub freezing_turns: Option<i32>,
    /// Set it burning for this many turns, unless it is immune to fire.
    pub burning_turns: Option<i32>,
    /// Buff its melee attack for this many turns, if it can fight.
    pub buff_attack_turns: Option<i32>,
    /// Buff its physical defense for this many turns, if it can fight.
    pub buff_defense_turns: Option<i32>,
}

/// The effects of a thing on a target: healing and damage need the target's
/// combat stats, teleporting its position; the statuses always apply (subject
/// to immunities and combat stats, decided as they are set).
pub fn effects_on_target(t: &ThingEffects, has_combat_stats: bool, has_position: bool) -> (e: TargetEffects)
    ensures
        e.full_heal == (t.heals && has_combat_stats),
        e.teleport == (t.teleports && has_position),
        e.damage == if has_combat_stats { t.damage } else { None },
        e.freezing_turns == t.freezing_turns,
        e.burning_turns == t.burning_turns,
        e.buff_attack_turns == t.buff_attack_turns,
        e.buff_defense_turns == t.buff_defense_turns,
{
    TargetEffects {
        full_heal: t.heals && has_combat_stats,
        teleport: t.teleports && has_position,
        damage: if has_combat_stats { t.damage } else { None },
        freezing_turns: t.freezing_turns,
        burning_turns: t.burning_turns,
        buff_attack_turns: t.buff_attack_turns,
        buff_defense_turns: t.buff_defense_turns,
    }
}

/// A thrown weapon whose special lets it be thrown for free, and is charged.
pub fn is_free_throw(special: Option<WeaponSpecial>) -> (b: bool)
    ensures
        b == (special matches Some(s) && s.kind == WeaponSpecialKind::ThrowWithoutExpending && s.time == s.regen_time),
{
    match special {
        Some(s) => s.kind == WeaponSpecialKind::ThrowWithoutExpending && s.is_charged(),
        None => false,
    }
}

/// How a thing is spent after it was used.
#[derive(PartialEq, Eq, Structural, Copy, Clone, Debug)]
pub struct Spending {
    /// Spend the thing's weapon special.
    pub expend_special: bool,
    /// The thing is used up: delete it.
    pub delete_thing: bool,
    /// Take the thing out of the spellbook (a single cast).
    pub remove_from_spellbook: bool,
    /// Spend one of the thing's charges (if it has any).
    pub expend_charge: bool,
}

/// How a thing is spent. A thrown thing whose special gives a free throw
/// spends the special; otherwise a consumable is used up. A cast spell is
/// removed from the spellbook if it is a single cast, spends the special if
/// casting spends it, and spends a charge.
pub fn spending(
    verb: TargetingVerb,
    consumable: bool,
    single_cast: bool,
    expend_special_when_thrown: bool,
    expend_special_when_cast: bool,
    free_throw: bool,
) -> (s: Spending)
    ensures
        verb == TargetingVerb::Thrown ==> s == (Spending {
            expend_special: free_throw && expend_special_when_thrown,
            delete_thing: !(free_throw && expend_special_when_thrown) && consumable && !free_throw,
            remove_from_spellbook: false,
            expend_charge: false,
        }),
        verb == TargetingVerb::Cast ==> s == (Spending {
            expend_special: expend_special_when_cast,
            delete_thing: false,
            remove_from_spellbook: single_cast,
            expend_charge: true,
        }),
{
    match verb {
        TargetingVerb::Thrown => {
            if free_throw && expend_special_when_thrown {
                Spending { expend_special: true, delete_thing: false, remove_from_spellbook: false, expend_charge: false }
            } else if consumable && !free_throw {
                Spending { expend_special: false, delete_thing: true, remove_from_spellbook: false, expend_charge: false }
            } else {
                Spending { expend_special: false, delete_thing: false, remove_from_spellbook: false, expend_charge: false }
            }
        },
        TargetingVerb::Cast => Spending {
            expend_special: expend_special_when_cast,
            delete_thing: false,
            remove_from_spellbook: single_cast,
            expend_charge: true,
        },
    }
}

} // verus!
