use vstd::prelude::*;
use crate::components::signaling::ElementalDamageKind;
use crate::components::spawn_despawn::EntitySpawnKind;
use crate::systems::spawning::EntitySpawnRequest;
use specs::Entity;
use crate::entity::same_entity;
use crate::geometry::Point;
use crate::grid::lemma_idx_on_grid;
use crate::map::GameMap;

verus! {

//----------------------------------------------------------------------------
// Encroachment: what happens when an entity enters, or stands in, the tile of
// another entity (the host). Fire burns, chill freezes, grass is trampled,
// water puts out fire, tall grass hides, and so on.
//----------------------------------------------------------------------------

/// What a host entity does to the entities that encroach on its tile.
#[derive(Copy, Clone, Debug)]
pub struct EncroachmentHost {
    /// Damage inflicted on the encroaching entity.
    pub damage: Option<(i32, ElementalDamageKind)>,
    /// Turns of burning inflicted on the encroaching entity.
    pub burning_turns: Option<i32>,
    /// Turns of freezing inflicted on the encroaching entity.
    pub freezing_turns: Option<i32>,
    /// The host dissipates when encroached upon.
    pub dissipates: bool,
    /// The host dissipates when trampled upon.
    pub dissipates_when_trampled: bool,
    /// The host spawns an entity in its tile when encroached upon.
    pub spawns: Option<EntitySpawnKind>,
    /// The host spawns an entity in its tile when trampled upon.
    pub spawns_when_trampled: Option<EntitySpawnKind>,
    /// The host puts out the encroaching entity's burning.
    pub removes_burning: bool,
    /// The host dissipates an encroaching fire.
    pub dissipates_fire: bool,
    /// The host is tall grass, which hides the entities that can hide in it.
    pub is_tall_grass: bool,
}

/// What the encroachment rules read of the encroaching entity.
#[derive(PartialEq, Eq, Structural, Copy, Clone, Debug)]
pub struct Encroacher {
    pub tramples: bool,
    pub is_fire: bool,
    pub hides_in_tall_grass: bool,
}

/// The effects of one encroachment.
#[derive(Copy, Clone, Debug)]
pub struct EncroachmentEffects {
    /// Damage queued on the encroaching entity.
    pub damage: Option<(i32, ElementalDamageKind)>,
    /// Burning inflicted on the encroaching entity unless it is immune to fire.
    pub burning_turns: Option<i32>,
    /// Freezing inflicted on the encroaching entity unless it is immune to chill.
    pub freezing_turns: Option<i32>,
    /// The host dissipates.
    pub host_dissipates: bool,
    /// Spawned in the host's tile when encroached upon.
    pub spawn: Option<EntitySpawnRequest>,
    /// Spawned in the host's tile when trampled upon.
    pub spawn_when_trampled: Option<EntitySpawnRequest>,
    /// The encroaching entity stops burning.
    pub remove_burning: bool,
    /// The encroaching entity (a fire) dissipates.
    pub encroacher_dissipates: bool,
    /// The encroaching entity becomes invisible to the player for a turn.
    pub hide_encroacher: bool,
}

/// The effects of `enc` encroaching on `host`, whose tile is column `x`,
/// row `y`.
pub open spec fn effects_spec(host: EncroachmentHost, enc: Encroacher, x: i32, y: i32) -> EncroachmentEffects {
    EncroachmentEffects {
        damage: host.damage,
        burning_turns: host.burning_turns,
        freezing_turns: host.freezing_turns,
        host_dissipates: host.dissipates || (host.dissipates_when_trampled && enc.tramples),
        spawn: match host.spawns {
            Some(k) => Some(EntitySpawnRequest { x, y, kind: k }),
            None => None,
        },
        spawn_when_trampled: match host.spawns_when_trampled {
            Some(k) => if enc.tramples { Some(EntitySpawnRequest { x, y, kind: k }) } else { None },
            None => None,
        },
        remove_burning: host.removes_burning,
        encroacher_dissipates: host.dissipates_fire && enc.is_fire,
        hide_encroacher: host.is_tall_grass && enc.hides_in_tall_grass,
    }
}

/// Decides the effects of `enc` encroaching on `host` at column `x`, row `y`.
pub fn encroachment_effects(host: &EncroachmentHost, enc: &Encroacher, x: i32, y: i32) -> (e: EncroachmentEffects)
    ensures
        e == effects_spec(*host, *enc, x, y),
        e.encroacher_dissipates ==> enc.is_fire && host.dissipates_fire,
        e.spawn_when_trampled is Some ==> enc.tramples,
        e.hide_encroacher ==> enc.hides_in_tall_grass && host.is_tall_grass,
{
    let spawn = match host.spawns {
        Some(k) => Some(EntitySpawnRequest { x, y, kind: k }),
        None => None,
    };
    let spawn_when_trampled = match host.spawns_when_trampled {
        Some(k) => if enc.tramples {
            Some(EntitySpawnRequest { x, y, kind: k })
        } else {
            None
        },
        None => None,
    };
    EncroachmentEffects {
        damage: host.damage,
        burning_turns: host.burning_turns,
        freezing_turns: host.freezing_turns,
        host_dissipates: host.dissipates || (host.dissipates_when_trampled && enc.tramples),
        spawn,
        spawn_when_trampled,
        remove_burning: host.removes_burning,
        encroacher_dissipates: host.dissipates_fire && enc.is_fire,
        hide_encroacher: host.is_tall_grass && enc.hides_in_tall_grass,
    }
}

/// Turns the encroaching entity stays hidden in tall grass.
pub const TALL_GRASS_HIDING_TURNS: i32 = 1;

/// Damage a fire deals to what stands in it, each turn.
pub const FIRE_ENCROACHMENT_DAMAGE: i32 = 2;
/// Turns of burning a fire inflicts on what stands in it.
pub const FIRE_BURNING_TURNS: i32 = 4;
/// Damage a chill deals to what stands in it, each turn.
pub const CHILL_ENCROACHMENT_DAMAGE: i32 = 2;
/// Turns of freezing a chill inflicts on what stands in it.
pub const CHILL_FROZEN_TURNS: i32 = 4;
/// Damage steam deals to what stands in it, each turn.
pub const STEAM_ENCROACHMENT_DAMAGE: i32 = 2;

/// A host that does nothing to what encroaches on it.
pub open spec fn inert_host() -> EncroachmentHost {
    EncroachmentHost {
        damage: None,
        burning_turns: None,
        freezing_turns: None,
        dissipates: false,
        dissipates_when_trampled: false,
        spawns: None,
        spawns_when_trampled: None,
        removes_burning: false,
        dissipates_fire: false,
        is_tall_grass: false,
    }
}

/// What each kind of hazard does to what stands in it: fire burns, chill
/// freezes, both and steam deal damage of their element. Other kinds are no
/// hazard (`None`).
pub open spec fn hazard_host_spec(kind: EntitySpawnKind) -> Option<EncroachmentHost> {
    match kind {
        EntitySpawnKind::Fire { .. } => Some(
            EncroachmentHost {
                damage: Some((FIRE_ENCROACHMENT_DAMAGE, ElementalDamageKind::Fire)),
                burning_turns: Some(FIRE_BURNING_TURNS),
                ..inert_host()
            },
        ),
        EntitySpawnKind::Chill { .. } => Some(
            EncroachmentHost {
                damage: Some((CHILL_ENCROACHMENT_DAMAGE, ElementalDamageKind::Chill)),
                freezing_turns: Some(CHILL_FROZEN_TURNS),
                ..inert_host()
            },
        ),
        EntitySpawnKind::Steam { .. } => Some(
            EncroachmentHost { damage: Some((STEAM_ENCROACHMENT_DAMAGE, ElementalDamageKind::Physical)), ..inert_host() },
        ),
        _ => None,
    }
}

/// The encroachment host that a hazard of `kind` is.
pub fn hazard_host(kind: EntitySpawnKind) -> (h: Option<EncroachmentHost>)
    ensures
        h == hazard_host_spec(kind),
{
    let inert = EncroachmentHost {
        damage: None,
        burning_turns: None,
        freezing_turns: None,
        dissipates: false,
        dissipates_when_trampled: false,
        spawns: None,
        spawns_when_trampled: None,
        removes_burning: false,
        dissipates_fire: false,
        is_tall_grass: false,
    };
    match kind {
        EntitySpawnKind::Fire { .. } => Some(
            EncroachmentHost {
                damage: Some((FIRE_ENCROACHMENT_DAMAGE, ElementalDamageKind::Fire)),
                burning_turns: Some(FIRE_BURNING_TURNS),
                ..inert
            },
        ),
        EntitySpawnKind::Chill { .. } => Some(
            EncroachmentHost {
                damage: Some((CHILL_ENCROACHMENT_DAMAGE, ElementalDamageKind::Chill)),
                freezing_turns: Some(CHILL_FROZEN_TURNS),
                ..inert
            },
        ),
        EntitySpawnKind::Steam { .. } => Some(
            EncroachmentHost { damage: Some((STEAM_ENCROACHMENT_DAMAGE, ElementalDamageKind::Physical)), ..inert },
        ),
        _ => None,
    }
}

/// The encroachments on one host standing at `p`: the host paired with each
/// other entity on its tile, in the tile's order.
pub open spec fn host_encroachments(map: &GameMap, host: Entity, p: Point) -> Seq<(Entity, Entity)> {
    pair_with_others(host, map.tile_content[map.idx(p.x as int, p.y as int)]@)
}

/// `host` paired with each entity of `content` other than itself, in order.
pub open spec fn pair_with_others(host: Entity, content: Seq<Entity>) -> Seq<(Entity, Entity)>
    decreases content.len(),
{
    if content.len() == 0 {
        Seq::empty()
    } else {
        pair_with_others(host, content.drop_last()) + if content.last() != host {
            seq![(host, content.last())]
        } else {
            Seq::empty()
        }
    }
}

/// The encroachments of a turn, as (host, encroaching entity) pairs: every
/// host, in order, with each other entity standing on its tile.
pub open spec fn encroachment_pairs_spec(map: &GameMap, hosts: Seq<(Entity, Point)>) -> Seq<(Entity, Entity)>
    decreases hosts.len(),
{
    if hosts.len() == 0 {
        Seq::empty()
    } else {
        encroachment_pairs_spec(map, hosts.drop_last()) + host_encroachments(map, hosts.last().0, hosts.last().1)
    }
}

/// Pairs each host (with its position) with the other entities standing on
/// its tile.
pub fn encroachment_pairs(map: &GameMap, hosts: &Vec<(Entity, Point)>) -> (pairs: Vec<(Entity, Entity)>)
    requires
        map.wf(),
        forall|i: int| 0 <= i < hosts.len() ==> map.on_map(#[trigger] hosts[i].1.x as int, hosts[i].1.y as int),
    ensures
        pairs@ == encroachment_pairs_spec(map, hosts@),
{
    let mut pairs: Vec<(Entity, Entity)> = Vec::new();
    let mut i: usize = 0;
    while i < hosts.len()
        invariant
            map.wf(),
            i <= hosts.len(),
            forall|q: int| 0 <= q < hosts.len() ==> map.on_map(#[trigger] hosts[q].1.x as int, hosts[q].1.y as int),
            pairs@ == encroachment_pairs_spec(map, hosts@.take(i as int)),
        decreases hosts.len() - i,
    {
        let (host, p) = hosts[i];
        proof {
            assert(map.on_map(hosts[i as int].1.x as int, hosts[i as int].1.y as int));
            lemma_idx_on_grid(map.width as int, map.height as int, p.x as int, p.y as int);
            assert(hosts@.take(i as int + 1).drop_last() =~= hosts@.take(i as int));
            assert(hosts@.take(i as int + 1).last() == hosts@[i as int]);
        }
        let idx = map.xy_idx(p.x, p.y);
        let content = &map.tile_content[idx];
        let ghost before = pairs@;
        let mut j: usize = 0;
        while j < content.len()
            invariant
                j <= content.len(),
                before == encroachment_pairs_spec(map, hosts@.take(i as int)),
                pairs@ == before + pair_with_others(host, content@.take(j as int)),
            decreases content.len() - j,
        {
            let e = content[j];
            proof {
                assert(content@.take(j as int + 1).drop_last() =~= content@.take(j as int));
                assert(content@.take(j as int + 1).last() == e);
            }
            if !same_entity(e, host) {
                pairs.push((host, e));
            }
            proof {
                assert(pairs@ =~= before + pair_with_others(host, content@.take(j as int + 1)));
            }
            j = j + 1;
        }
        assert(content@.take(content.len() as int) =~= content@);
        proof {
            let next = hosts@.take(i as int + 1);
            assert(next.last() == (host, p));
            assert(content@ == map.tile_content[map.idx(p.x as int, p.y as int)]@);
            assert(encroachment_pairs_spec(map, next) == encroachment_pairs_spec(map, next.drop_last())
                + host_encroachments(map, next.last().0, next.last().1));
        }
        i = i + 1;
    }
    assert(hosts@.take(hosts.len() as int) =~= hosts@);
    pairs
}

/// What an encroachment does, host by host: the encroacher takes the host's
/// damage, burning and freezing; a host that dissipates fire dissipates an
/// encroaching fire and nothing else; what happens when trampled upon
/// happens only to a trampling encroacher; a tall-grass host hides only the
/// entities that can hide in it; a host puts out burning only when it is
/// one that does; and whatever the host spawns, it spawns on its own tile.
pub proof fn lemma_encroachment_rules(host: EncroachmentHost, enc: Encroacher, x: i32, y: i32)
    ensures
        ({
            let e = effects_spec(host, enc, x, y);
            &&& e.damage == host.damage
            &&& e.burning_turns == host.burning_turns
            &&& e.freezing_turns == host.freezing_turns
            &&& e.encroacher_dissipates ==> enc.is_fire
            &&& e.encroacher_dissipates ==> host.dissipates_fire
            &&& enc.is_fire && host.dissipates_fire ==> e.encroacher_dissipates
            &&& e.host_dissipates ==> host.dissipates || (host.dissipates_when_trampled && enc.tramples)
            &&& host.dissipates ==> e.host_dissipates
            &&& host.dissipates_when_trampled && enc.tramples ==> e.host_dissipates
            &&& e.spawn_when_trampled is Some ==> enc.tramples && host.spawns_when_trampled is Some
            &&& enc.tramples && host.spawns_when_trampled is Some ==> e.spawn_when_trampled is Some
            &&& e.spawn is Some <==> host.spawns is Some
            &&& e.spawn matches Some(r) ==> r.x == x && r.y == y && Some(r.kind) == host.spawns
            &&& e.spawn_when_trampled matches Some(r) ==> r.x == x && r.y == y && Some(r.kind)
                == host.spawns_when_trampled
            &&& e.remove_burning == host.removes_burning
            &&& e.hide_encroacher <==> host.is_tall_grass && enc.hides_in_tall_grass
        }),
{
}

} // verus!
