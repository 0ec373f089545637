use vstd::prelude::*;
use crate::components::spawn_despawn::EntitySpawnKind;
use crate::geometry::Point;
use crate::map::{GameMap, TileType};
use crate::systems::spawning::EntitySpawnRequest;

verus! {

//----------------------------------------------------------------------------
// Melee combat: serving the queued melee attacks.
//
// An attack lands on a living target other than the attacker. Its damage is
// the attacker's power plus the bonus of the weapons it wields, doubled by an
// attack buff and doubled again by a critical hit. The target's tile is
// stained with blood, and a target that splits or spawns when struck (a
// jelly, or a fire) sends a spawn request for a neighbouring tile.
//----------------------------------------------------------------------------

/// Whether a queued attack is resolved: not an attack on oneself, and the
/// target has combat stats with hit points left.
pub fn attack_lands(source_is_target: bool, target_hp: Option<i32>) -> (b: bool)
    ensures
        b == (!source_is_target && (target_hp matches Some(hp) && hp > 0)),
{
    if source_is_target {
        return false;
    }
    match target_hp {
        Some(hp) => hp > 0,
        None => false,
    }
}

/// The factor of an attack: 2 for an attack buff, 2 for a critical hit.
pub open spec fn attack_factor(buffed: bool, critical: bool) -> int {
    (if critical { 2int } else { 1int }) * (if buffed { 2int } else { 1int })
}

/// The damage of a melee attack, never negative.
pub open spec fn melee_damage_spec(power: int, weapon_bonus: int, buffed: bool, critical: bool) -> int {
    let d = attack_factor(buffed, critical) * (power + weapon_bonus);
    if d > 0 { d } else { 0 }
}

/// The damage of a melee attack by an attacker of `power` wielding weapons
/// with a total bonus of `weapon_bonus`.
pub fn melee_damage(power: i32, weapon_bonus: i32, buffed: bool, critical: bool) -> (d: i32)
    requires
        i32::MIN <= power + weapon_bonus <= i32::MAX,
        i32::MIN <= attack_factor(buffed, critical) * (power + weapon_bonus) <= i32::MAX,
    ensures
        d == melee_damage_spec(power as int, weapon_bonus as int, buffed, critical),
{
    let critical_hit_factor: i32 = if critical { 2 } else { 1 };
    let attack_buff_factor: i32 = if buffed { 2 } else { 1 };
    let sum = power + weapon_bonus;
    let factor = critical_hit_factor * attack_buff_factor;
    assert(factor * sum == attack_factor(buffed, critical) * (power + weapon_bonus));
    let damage = factor * sum;
    if damage > 0 {
        damage
    } else {
        0
    }
}

/// A critical hit never does less damage than a plain one, and an attack
/// with no negative power never does negative damage.
pub proof fn lemma_critical_hits_harder(power: int, weapon_bonus: int, buffed: bool)
    ensures
        melee_damage_spec(power, weapon_bonus, buffed, true) >= melee_damage_spec(power, weapon_bonus, buffed, false),
        melee_damage_spec(power, weapon_bonus, buffed, false) >= 0,
        power + weapon_bonus >= 0 ==> melee_damage_spec(power, weapon_bonus, buffed, false) == (if buffed { 2int } else { 1int }) * (power + weapon_bonus),
{
    let s = power + weapon_bonus;
    let f = if buffed { 2int } else { 1int };
    assert(attack_factor(buffed, true) == 2 * f);
    assert(attack_factor(buffed, false) == f);
    assert((2 * f) * s >= f * s || s < 0) by (nonlinear_arith)
        requires
            f >= 1,
    ;
    assert(s < 0 ==> (2 * f) * s < 0 && f * s < 0) by (nonlinear_arith)
        requires
            f >= 1,
    ;
}

/// Stains the struck target's tile (column `x`, row `y`) with blood.
pub fn stain_with_blood(map: &mut GameMap, x: i32, y: i32)
    requires
        old(map).wf(),
        old(map).on_map(x as int, y as int),
    ensures
        final(map).tiles@ == old(map).tiles@.update(old(map).idx(x as int, y as int), TileType::BloodStain),
        final(map).same_but_tiles(old(map)),
        final(map).wf(),
{
    proof {
        crate::grid::lemma_idx_on_grid(map.width as int, map.height as int, x as int, y as int);
    }
    let idx = map.xy_idx(x, y);
    map.tiles.set(idx, TileType::BloodStain);
}

/// The spawn request of a struck target that splits or spawns, given the
/// neighbouring tile drawn for it (if any) and where the player stands. A
/// pink jelly splits into one with half the target's hit points, on a tile
/// that is neither blocked nor the player's; fire and chill always spread.
pub open spec fn split_spec(
    map: &GameMap,
    spawns: EntitySpawnKind,
    target_hp: int,
    spawn_position: Option<(i32, i32)>,
    player: Point,
) -> Option<EntitySpawnRequest> {
    match spawn_position {
        None => None,
        Some(pt) => match spawns {
            EntitySpawnKind::PinkJelly { .. } => {
                if !map.blocked[map.idx(pt.0 as int, pt.1 as int)] && !(pt.0 == player.x && pt.1 == player.y) {
                    Some(EntitySpawnRequest {
                        x: pt.0,
                        y: pt.1,
                        kind: EntitySpawnKind::PinkJelly { max_hp: (target_hp / 2) as i32, hp: (target_hp / 2) as i32 },
                    })
                } else {
                    None
                }
            },
            EntitySpawnKind::Fire { .. } => Some(EntitySpawnRequest { x: pt.0, y: pt.1, kind: spawns }),
            EntitySpawnKind::Chill { .. } => Some(EntitySpawnRequest { x: pt.0, y: pt.1, kind: spawns }),
            _ => None,
        },
    }
}

/// Decides the spawn request of a struck target at column `x`, row `y` that
/// spawns `spawns` when struck; the neighbouring tile is drawn at random.
pub fn split_when_struck(map: &GameMap, spawns: EntitySpawnKind, target_hp: i32, x: i32, y: i32, player: Point) -> (r: Option<
    EntitySpawnRequest,
>)
    requires
        map.wf(),
        i32::MIN < x < i32::MAX,
        i32::MIN < y < i32::MAX,
        target_hp > 0,
    ensures
        exists|p: Option<(i32, i32)>| {
            &&& (p matches Some(pt) ==> map.in_bounds(pt.0 as int, pt.1 as int) && -1 <= pt.0 - x <= 1 && -1
                <= pt.1 - y <= 1 && (pt.0 != x || pt.1 != y))
            &&& r == split_spec(map, spawns, target_hp as int, p, player)
        },
{
    let spawn_position = map.random_adjacent_point(x, y);
    let r = split_with_position(map, spawns, target_hp, spawn_position, player);
    assert(r == split_spec(map, spawns, target_hp as int, spawn_position, player));
    r
}

/// `split_when_struck` for a given draw of the neighbouring tile.
pub fn split_with_position(
    map: &GameMap,
    spawns: EntitySpawnKind,
    target_hp: i32,
    spawn_position: Option<(i32, i32)>,
    player: Point,
) -> (r: Option<EntitySpawnRequest>)
    requires
        map.wf(),
        target_hp > 0,
        spawn_position matches Some(pt) ==> map.in_bounds(pt.0 as int, pt.1 as int),
    ensures
        r == split_spec(map, spawns, target_hp as int, spawn_position, player),
{
    match spawn_position {
        None => None,
        Some(pt) => match spawns {
            EntitySpawnKind::PinkJelly { .. } => {
                proof {
                    crate::grid::lemma_idx_on_grid(map.width as int, map.height as int, pt.0 as int, pt.1 as int);
                }
                let idx = map.xy_idx(pt.0, pt.1);
                let in_player_position = pt.0 == player.x && pt.1 == player.y;
                if !map.blocked[idx] && !in_player_position {
                    Some(EntitySpawnRequest {
                        x: pt.0,
                        y: pt.1,
                        kind: EntitySpawnKind::PinkJelly { max_hp: target_hp / 2, hp: target_hp / 2 },
                    })
                } else {
                    None
                }
            },
            EntitySpawnKind::Fire { .. } => Some(EntitySpawnRequest { x: pt.0, y: pt.1, kind: spawns }),
            EntitySpawnKind::Chill { .. } => Some(EntitySpawnRequest { x: pt.0, y: pt.1, kind: spawns }),
            _ => None,
        },
    }
}

} // verus!
