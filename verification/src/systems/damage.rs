use vstd::prelude::*;
use specs::Entity;
use crate::components::melee::{CombatStats, max_int};
use crate::components::signaling::{ElementalDamageKind, WantsToTakeDamage};
use crate::entity::same_entity;
use crate::components::spawn_despawn::EntitySpawnKind;
use crate::systems::spawning::{EntitySpawnRequest, EntitySpawnRequestBuffer};
use crate::geometry::Point;
use crate::gamelog::GameLog;

verus! {

//----------------------------------------------------------------------------
// Process queued damage.
//
// Commits the damage an entity has sustained this turn, after applying its
// defense bonuses, buffs and immunities.
//----------------------------------------------------------------------------

/// What modifies the damage an entity takes.
#[derive(PartialEq, Eq, Structural, Copy, Clone, Debug)]
pub struct DamageModifiers {
    /// The sum of the melee defense bonuses of the items the entity wears.
    pub defense_bonus: i32,
    /// The entity's physical defense is buffed: physical damage is halved.
    pub defense_buffed: bool,
    pub immune_to_fire: bool,
    pub immune_to_chill: bool,
}

/// The physical damage left after the defense bonus and buff, never negative.
pub open spec fn physical_damage(amount: int, m: DamageModifiers) -> int {
    let raw = amount - m.defense_bonus;
    if raw <= 0 {
        0
    } else if m.defense_buffed {
        raw / 2
    } else {
        raw
    }
}

/// The damage one hit of `amount` and `kind` does, or `None` when the entity
/// is immune to it (then its hit points are not touched at all).
pub open spec fn damage_taken(amount: int, kind: ElementalDamageKind, m: DamageModifiers) -> Option<int> {
    match kind {
        ElementalDamageKind::Physical => Some(physical_damage(amount, m)),
        ElementalDamageKind::Hunger => Some(amount),
        ElementalDamageKind::Drowning => Some(amount),
        ElementalDamageKind::Fire => if m.immune_to_fire { None } else { Some(amount) },
        ElementalDamageKind::Chill => if m.immune_to_chill { None } else { Some(amount) },
    }
}

/// Hit points after one hit: damage never takes them below zero.
pub open spec fn hp_after_hit(hp: int, amount: int, kind: ElementalDamageKind, m: DamageModifiers) -> int {
    match damage_taken(amount, kind, m) {
        Some(d) => max_int(0, hp - d),
        None => hp,
    }
}

/// Hit points after the first `n` queued hits, in the order they were queued.
pub open spec fn hp_after_hits(
    hp: int,
    amounts: Seq<i32>,
    kinds: Seq<ElementalDamageKind>,
    m: DamageModifiers,
    n: nat,
) -> int
    decreases n,
{
    if n == 0 {
        hp
    } else {
        hp_after_hit(
            hp_after_hits(hp, amounts, kinds, m, (n - 1) as nat),
            amounts[n - 1] as int,
            kinds[n - 1],
            m,
        )
    }
}

/// The number of queued hits: amounts and kinds are taken in pairs.
pub open spec fn hit_count(d: WantsToTakeDamage) -> nat {
    if d.amounts.len() <= d.kinds.len() {
        d.amounts.len() as nat
    } else {
        d.kinds.len() as nat
    }
}

/// The arithmetic of every hit fits in an `i32`: the physical damage before
/// it is floored at zero, and the hit points before they are.
pub open spec fn hits_fit(hp: int, amounts: Seq<i32>, kinds: Seq<ElementalDamageKind>, m: DamageModifiers, n: nat) -> bool {
    forall|i: int|
        0 <= i < n ==> {
            &&& i32::MIN <= amounts[i] - m.defense_bonus <= i32::MAX
            &&& match #[trigger] damage_taken(amounts[i] as int, kinds[i], m) {
                Some(d) => i32::MIN <= hp_after_hits(hp, amounts, kinds, m, i as nat) - d <= i32::MAX,
                None => true,
            }
        }
}

/// The physical damage of one hit, as the system computes it.
pub fn physical_damage_of(amount: i32, m: DamageModifiers) -> (d: i32)
    requires
        i32::MIN <= amount - m.defense_bonus <= i32::MAX,
    ensures
        d == physical_damage(amount as int, m),
{
    let factor: i32 = if m.defense_buffed { 2 } else { 1 };
    let raw = amount - m.defense_bonus;
    let scaled = raw / factor;
    if scaled > 0 {
        scaled
    } else {
        0
    }
}

/// Applies all damage queued for an entity to its combat stats.
pub fn apply_queued_damage(stats: &mut CombatStats, damage: &WantsToTakeDamage, m: DamageModifiers)
    requires
        hits_fit(old(stats).hp as int, damage.amounts@, damage.kinds@, m, hit_count(*damage)),
    ensures
        final(stats).hp == hp_after_hits(old(stats).hp as int, damage.amounts@, damage.kinds@, m, hit_count(*damage)),
        final(stats).max_hp == old(stats).max_hp,
        final(stats).defense == old(stats).defense,
        final(stats).power == old(stats).power,
{
    let n: usize = if damage.amounts.len() <= damage.kinds.len() {
        damage.amounts.len()
    } else {
        damage.kinds.len()
    };
    let ghost hp0 = old(stats).hp as int;
    let mut i: usize = 0;
    while i < n
        invariant
            n == hit_count(*damage),
            n <= damage.amounts.len(),
            n <= damage.kinds.len(),
            0 <= i <= n,
            hits_fit(hp0, damage.amounts@, damage.kinds@, m, n as nat),
            stats.hp == hp_after_hits(hp0, damage.amounts@, damage.kinds@, m, i as nat),
            stats.max_hp == old(stats).max_hp,
            stats.defense == old(stats).defense,
            stats.power == old(stats).power,
        decreases n - i,
    {
        let amount = damage.amounts[i];
        let kind = damage.kinds[i];
        // Mentioning the hit's damage instantiates `hits_fit` for it.
        let ghost taken = damage_taken(amount as int, kind, m);
        assert(i32::MIN <= amount - m.defense_bonus <= i32::MAX);
        match kind {
            ElementalDamageKind::Physical => {
                let d = physical_damage_of(amount, m);
                stats.take_damage(d);
            },
            ElementalDamageKind::Hunger => {
                stats.take_damage(amount);
            },
            ElementalDamageKind::Drowning => {
                stats.take_damage(amount);
            },
            ElementalDamageKind::Fire => {
                if !m.immune_to_fire {
                    stats.take_damage(amount);
                }
            },
            ElementalDamageKind::Chill => {
                if !m.immune_to_chill {
                    stats.take_damage(amount);
                }
            },
        }
        i = i + 1;
    }
}

/// Damage never drives hit points below zero, and damage of no negative
/// amount never raises them: an entity with `hp >= 0` keeps
/// `0 <= hp' <= hp` after any queued hits.
pub proof fn lemma_damage_keeps_hp_in_range(
    hp: int,
    amounts: Seq<i32>,
    kinds: Seq<ElementalDamageKind>,
    m: DamageModifiers,
    n: nat,
)
    requires
        hp >= 0,
        m.defense_bonus >= 0,
        n <= amounts.len(),
        n <= kinds.len(),
        forall|i: int| 0 <= i < n ==> amounts[i] >= 0,
    ensures
        0 <= hp_after_hits(hp, amounts, kinds, m, n) <= hp,
    decreases n,
{
    if n > 0 {
        lemma_damage_keeps_hp_in_range(hp, amounts, kinds, m, (n - 1) as nat);
        assert(amounts[n - 1] >= 0);
    }
}

/// An entity immune to fire (or chill) loses no hit points to fire (or chill)
/// damage, whatever its amount.
pub proof fn lemma_immunity_blocks_damage(hp: int, amount: int, m: DamageModifiers)
    ensures
        m.immune_to_fire ==> hp_after_hit(hp, amount, ElementalDamageKind::Fire, m) == hp,
        m.immune_to_chill ==> hp_after_hit(hp, amount, ElementalDamageKind::Chill, m) == hp,
{
}

/// The sum of a list of bonuses.
pub open spec fn bonus_sum(bonuses: Seq<i32>) -> int
    decreases bonuses.len(),
{
    if bonuses.len() == 0 {
        0
    } else {
        bonus_sum(bonuses.drop_last()) + bonuses.last()
    }
}

/// Every partial sum of the bonuses fits in an `i32`.
pub open spec fn partial_sums_fit(bonuses: Seq<i32>) -> bool {
    forall|k: int| 0 <= k <= bonuses.len() ==> i32::MIN <= #[trigger] bonus_sum(bonuses.take(k)) <= i32::MAX
}

/// Adds up bonuses, such as the defense bonuses of the items an entity wears.
pub fn total_bonus(bonuses: &Vec<i32>) -> (total: i32)
    requires
        partial_sums_fit(bonuses@),
    ensures
        total == bonus_sum(bonuses@),
{
    let mut total: i32 = 0;
    let mut i: usize = 0;
    while i < bonuses.len()
        invariant
            0 <= i <= bonuses.len(),
            partial_sums_fit(bonuses@),
            total == bonus_sum(bonuses@.take(i as int)),
        decreases bonuses.len() - i,
    {
        assert(bonuses@.take(i as int + 1).drop_last() =~= bonuses@.take(i as int));
        assert(i32::MIN <= bonus_sum(bonuses@.take(i as int + 1)) <= i32::MAX);
        total = total + bonuses[i];
        i = i + 1;
    }
    assert(bonuses@.take(bonuses.len() as int) =~= bonuses@);
    total
}

/// The entities owned by `owner` in a list of (entity, owner) pairs, such as
/// the spells in the spellbooks: they go when their owner dies.
pub fn owned_entities(owned: &Vec<(Entity, Entity)>, owner: Entity) -> (r: Vec<Entity>)
    ensures
        r@ == owned_by(owned@, owner),
{
    let mut r: Vec<Entity> = Vec::new();
    let mut i: usize = 0;
    while i < owned.len()
        invariant
            0 <= i <= owned.len(),
            r@ == owned_by(owned@.take(i as int), owner),
        decreases owned.len() - i,
    {
        let (e, o) = owned[i];
        proof {
            reveal_with_fuel(Seq::filter, 1);
            assert(owned@.take(i as int + 1).drop_last() =~= owned@.take(i as int));
        }
        if same_entity(o, owner) {
            r.push(e);
        }
        i = i + 1;
    }
    assert(owned@.take(owned.len() as int) =~= owned@);
    r
}

//----------------------------------------------------------------------------
// Clean up the dead.
//
// Every entity other than the player whose hit points have run out is
// deleted, together with the spells in its spellbook; it leaves behind what
// it drops when killed, and the log announces its death when it has a name.
//----------------------------------------------------------------------------

/// What the clean up reads of an entity with combat stats.
pub struct Fighter {
    pub entity: Entity,
    pub hp: i32,
    pub is_player: bool,
    pub name: Option<String>,
    /// What the entity spawns when killed, if anything.
    pub drop: Option<EntitySpawnKind>,
    pub pos: Option<Point>,
}

/// Is the fighter removed by the clean up? (The player's death is handled
/// elsewhere.)
pub open spec fn is_slain(f: Fighter) -> bool {
    f.hp <= 0 && !f.is_player
}

/// The entities among `owned` (entity, owner) pairs owned by `owner`.
pub open spec fn owned_by(owned: Seq<(Entity, Entity)>, owner: Entity) -> Seq<Entity> {
    owned.filter(|p: (Entity, Entity)| p.1 == owner).map_values(|p: (Entity, Entity)| p.0)
}

/// The entities deleted by the clean up, in order: for each slain fighter,
/// the spells it owns and then the fighter itself.
pub open spec fn slain_entities(fs: Seq<Fighter>, book: Seq<(Entity, Entity)>) -> Seq<Entity>
    decreases fs.len(),
{
    if fs.len() == 0 {
        Seq::empty()
    } else {
        let f = fs.last();
        slain_entities(fs.drop_last(), book) + if is_slain(f) {
            owned_by(book, f.entity).push(f.entity)
        } else {
            Seq::empty()
        }
    }
}

/// The spawn requests of the clean up: one at the tile of each slain fighter
/// that drops something.
pub open spec fn slain_drops(fs: Seq<Fighter>) -> Seq<EntitySpawnRequest>
    decreases fs.len(),
{
    if fs.len() == 0 {
        Seq::empty()
    } else {
        let f = fs.last();
        slain_drops(fs.drop_last()) + if is_slain(f) && f.drop is Some {
            seq![EntitySpawnRequest { x: f.pos.unwrap().x, y: f.pos.unwrap().y, kind: f.drop.unwrap() }]
        } else {
            Seq::empty()
        }
    }
}

/// The log lines of the clean up: "<name> is dead." for each slain fighter
/// with a name.
pub open spec fn slain_messages(fs: Seq<Fighter>) -> Seq<Seq<char>>
    decreases fs.len(),
{
    if fs.len() == 0 {
        Seq::empty()
    } else {
        let f = fs.last();
        slain_messages(fs.drop_last()) + if is_slain(f) && f.name is Some {
            seq![f.name.unwrap()@ + " is dead."@]
        } else {
            Seq::empty()
        }
    }
}

/// The death notice of `name`: the name followed by " is dead.".
fn death_notice(name: &String) -> (m: String)
    ensures
        m@ == name@ + " is dead."@,
{
    name.clone().concat(" is dead.")
}

/// Clears away the slain fighters: returns the entities to delete, queues what
/// they drop and logs their deaths.
pub fn collect_the_dead(
    fighters: &Vec<Fighter>,
    spellbook: &Vec<(Entity, Entity)>,
    buffer: &mut EntitySpawnRequestBuffer,
    log: &mut GameLog,
) -> (dead: Vec<Entity>)
    requires
        forall|k: int|
            0 <= k < fighters.len() && is_slain(#[trigger] fighters@[k]) && fighters@[k].drop is Some
                ==> fighters@[k].pos is Some,
    ensures
        dead@ == slain_entities(fighters@, spellbook@),
        final(buffer)@ == old(buffer)@ + slain_drops(fighters@),
        final(log).entries@.map_values(|m: String| m@) == old(log).entries@.map_values(|m: String| m@)
            + slain_messages(fighters@),
{
    let mut dead: Vec<Entity> = Vec::new();
    let mut i: usize = 0;
    while i < fighters.len()
        invariant
            0 <= i <= fighters.len(),
            forall|k: int|
                0 <= k < fighters.len() && is_slain(#[trigger] fighters@[k]) && fighters@[k].drop is Some
                    ==> fighters@[k].pos is Some,
            dead@ == slain_entities(fighters@.take(i as int), spellbook@),
            buffer@ == old(buffer)@ + slain_drops(fighters@.take(i as int)),
            log.entries@.map_values(|m: String| m@) == old(log).entries@.map_values(|m: String| m@)
                + slain_messages(fighters@.take(i as int)),
        decreases fighters.len() - i,
    {
        let f = &fighters[i];
        let ghost before_log = log.entries@;
        proof {
            assert(fighters@.take(i as int + 1).drop_last() =~= fighters@.take(i as int));
            assert(fighters@.take(i as int + 1).last() == fighters@[i as int]);
        }
        if f.hp <= 0 && !f.is_player {
            if let Some(name) = &f.name {
                log.push(death_notice(name));
                proof {
                    assert(log.entries@.map_values(|m: String| m@) =~= before_log.map_values(|m: String| m@).push(
                        name@ + " is dead."@,
                    ));
                }
            }
            let spells = owned_entities(spellbook, f.entity);
            let mut j: usize = 0;
            let ghost dead_before = dead@;
            while j < spells.len()
                invariant
                    0 <= j <= spells.len(),
                    dead@ == dead_before + spells@.take(j as int),
                decreases spells.len() - j,
            {
                proof {
                    assert(spells@.take(j as int + 1) =~= spells@.take(j as int).push(spells@[j as int]));
                }
                dead.push(spells[j]);
                j = j + 1;
            }
            assert(spells@.take(spells.len() as int) =~= spells@);
            assert(dead@.push(f.entity) =~= dead_before + owned_by(spellbook@, f.entity).push(f.entity));
            if let Some(kind) = f.drop {
                let pos = f.pos.unwrap();
                buffer.request(EntitySpawnRequest { x: pos.x, y: pos.y, kind });
            }
            dead.push(f.entity);
        }
        i = i + 1;
    }
    assert(fighters@.take(fighters.len() as int) =~= fighters@);
    dead
}

} // verus!
