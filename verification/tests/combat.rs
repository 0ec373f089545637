use rogue::gamelog::GameLog;
use rogue::systems::damage::{collect_the_dead, Fighter};
use rogue::systems::spawning::EntitySpawnRequestBuffer;
use specs::{Builder, World, WorldExt};
use rogue::components::game_effects::InflictsDamageData;
use rogue::components::melee::{CombatStats, MeeleAttackRequest, MeeleAttackRequestBuffer, WeaponSpecial, WeaponSpecialKind};
use rogue::components::signaling::{ElementalDamageKind, WantsToTakeDamage};
use rogue::systems::damage::{apply_queued_damage, owned_entities, physical_damage_of, total_bonus, DamageModifiers};
use rogue::systems::melee_combat::{attack_lands, melee_damage, split_with_position, stain_with_blood};
use rogue::components::spawn_despawn::EntitySpawnKind;
use rogue::systems::spawning::EntitySpawnRequest;
use rogue::geometry::Point;
use rogue::map::{GameMap, TileType};

fn stats(hp: i32) -> CombatStats {
    CombatStats { max_hp: 20, hp, defense: 1, power: 4 }
}

fn plain() -> DamageModifiers {
    DamageModifiers { defense_bonus: 0, defense_buffed: false, immune_to_fire: false, immune_to_chill: false }
}

#[test]
fn take_damage_never_goes_below_zero() {
    let mut s = stats(10);
    s.take_damage(4);
    assert_eq!(s.hp, 6);
    s.take_damage(100);
    assert_eq!(s.hp, 0);
}

#[test]
fn healing_is_capped_at_the_maximum() {
    let mut s = stats(5);
    s.heal_amount(3);
    assert_eq!(s.hp, 8);
    s.heal_amount(100);
    assert_eq!(s.hp, 20);
    let mut s = stats(1);
    s.full_heal();
    assert_eq!(s.hp, 20);
    s.increase_max_hp(5);
    assert_eq!(s.max_hp, 25);
    assert_eq!(s.hp, 20);
}

#[test]
fn physical_damage_is_reduced_by_defense_and_halved_when_buffed() {
    let m = DamageModifiers { defense_bonus: 2, ..plain() };
    assert_eq!(physical_damage_of(7, m), 5);
    assert_eq!(physical_damage_of(1, m), 0);
    let buffed = DamageModifiers { defense_bonus: 2, defense_buffed: true, ..plain() };
    assert_eq!(physical_damage_of(7, buffed), 2);
    assert_eq!(physical_damage_of(2, buffed), 0);
}

#[test]
fn queued_damage_is_applied_in_order() {
    let mut s = stats(20);
    let d = WantsToTakeDamage {
        amounts: vec![5, 3, 4, 2],
        kinds: vec![ElementalDamageKind::Physical, ElementalDamageKind::Fire, ElementalDamageKind::Chill, ElementalDamageKind::Hunger],
    };
    let m = DamageModifiers { defense_bonus: 1, defense_buffed: false, immune_to_fire: true, immune_to_chill: false };
    apply_queued_damage(&mut s, &d, m);
    // 4 physical, no fire, 4 chill, 2 hunger.
    assert_eq!(s.hp, 10);
    assert_eq!(s.max_hp, 20);
}

#[test]
fn immune_entities_take_no_elemental_damage() {
    let mut s = stats(3);
    let d = WantsToTakeDamage { amounts: vec![50, 50], kinds: vec![ElementalDamageKind::Fire, ElementalDamageKind::Chill] };
    let m = DamageModifiers { immune_to_fire: true, immune_to_chill: true, ..plain() };
    apply_queued_damage(&mut s, &d, m);
    assert_eq!(s.hp, 3);
    let mut s = stats(3);
    apply_queued_damage(&mut s, &d, plain());
    assert_eq!(s.hp, 0);
}

#[test]
fn unpaired_damage_entries_are_ignored() {
    let mut s = stats(10);
    let d = WantsToTakeDamage { amounts: vec![1, 2, 3], kinds: vec![ElementalDamageKind::Drowning] };
    apply_queued_damage(&mut s, &d, plain());
    assert_eq!(s.hp, 9);
}

#[test]
fn new_damage_queues_in_order() {
    let mut q: Option<WantsToTakeDamage> = None;
    WantsToTakeDamage::new_damage(&mut q, 3, ElementalDamageKind::Fire);
    WantsToTakeDamage::new_damage(&mut q, 4, ElementalDamageKind::Physical);
    let d = q.unwrap();
    assert_eq!(d.amounts, vec![3, 4]);
    assert_eq!(d.kinds, vec![ElementalDamageKind::Fire, ElementalDamageKind::Physical]);
}

#[test]
fn bonuses_add_up() {
    assert_eq!(total_bonus(&vec![]), 0);
    assert_eq!(total_bonus(&vec![2, 3, -1]), 4);
}

#[test]
fn melee_damage_doubles_for_buffs_and_crits() {
    assert_eq!(melee_damage(4, 1, false, false), 5);
    assert_eq!(melee_damage(4, 1, true, false), 10);
    assert_eq!(melee_damage(4, 1, false, true), 10);
    assert_eq!(melee_damage(4, 1, true, true), 20);
    assert_eq!(melee_damage(-3, 1, true, true), 0);
}

#[test]
fn attacks_land_only_on_living_others() {
    assert!(attack_lands(false, Some(3)));
    assert!(!attack_lands(true, Some(3)));
    assert!(!attack_lands(false, Some(0)));
    assert!(!attack_lands(false, None));
}

#[test]
fn struck_tiles_are_stained() {
    let mut map = GameMap::new(1);
    stain_with_blood(&mut map, 4, 4);
    assert_eq!(map.tiles[map.xy_idx(4, 4)], TileType::BloodStain);
    assert_eq!(map.tiles[map.xy_idx(4, 5)], TileType::Wall);
}

#[test]
fn jellies_split_in_half_on_free_tiles() {
    let mut map = GameMap::new(1);
    map.populate_blocked();
    let jelly = EntitySpawnKind::PinkJelly { max_hp: 10, hp: 10 };
    // The drawn tile is blocked (all walls): no split.
    assert_eq!(split_with_position(&map, jelly, 9, Some((3, 3)), Point { x: 1, y: 1 }), None);
    let idx = map.xy_idx(3, 3);
    map.blocked[idx] = false;
    assert_eq!(
        split_with_position(&map, jelly, 9, Some((3, 3)), Point { x: 1, y: 1 }),
        Some(EntitySpawnRequest { x: 3, y: 3, kind: EntitySpawnKind::PinkJelly { max_hp: 4, hp: 4 } })
    );
    // Never onto the player.
    assert_eq!(split_with_position(&map, jelly, 9, Some((3, 3)), Point { x: 3, y: 3 }), None);
    // Fire spreads whatever the tile.
    let fire = EntitySpawnKind::Fire { spread_chance: 5, dissipate_chance: 6 };
    assert_eq!(
        split_with_position(&map, fire, 9, Some((2, 2)), Point { x: 2, y: 2 }),
        Some(EntitySpawnRequest { x: 2, y: 2, kind: fire })
    );
    assert_eq!(split_with_position(&map, fire, 9, None, Point { x: 2, y: 2 }), None);
}

#[test]
fn melee_requests_are_served_last_in_first_out() {
    let mut world = World::new();
    let a = world.create_entity().build();
    let b = world.create_entity().build();
    let c = world.create_entity().build();
    let mut buffer = MeeleAttackRequestBuffer::new();
    assert!(buffer.is_empty());
    buffer.request(MeeleAttackRequest { source: a, target: b, critical: false });
    buffer.request_many(a, &vec![b, c], true);
    let r = buffer.pop().unwrap();
    assert_eq!((r.source, r.target, r.critical), (a, c, true));
    let r = buffer.pop().unwrap();
    assert_eq!((r.source, r.target, r.critical), (a, b, true));
    let r = buffer.pop().unwrap();
    assert_eq!((r.source, r.target, r.critical), (a, b, false));
    assert!(buffer.pop().is_none());
    assert!(buffer.is_empty());
}

#[test]
fn dead_owners_take_their_spells_along() {
    let mut world = World::new();
    let owner = world.create_entity().build();
    let other = world.create_entity().build();
    let s1 = world.create_entity().build();
    let s2 = world.create_entity().build();
    let s3 = world.create_entity().build();
    let books = vec![(s1, owner), (s2, other), (s3, owner)];
    assert_eq!(owned_entities(&books, owner), vec![s1, s3]);
    assert_eq!(owned_entities(&books, s1), Vec::new());
}

#[test]
fn weapon_specials_recharge_and_spend() {
    let mut s = WeaponSpecial { regen_time: 2, time: 0, kind: WeaponSpecialKind::Dash };
    assert!(!s.is_charged());
    assert!(!s.tick());
    assert!(s.tick());
    assert!(s.is_charged());
    assert!(!s.tick());
    assert_eq!(s.time, 2);
    s.expend();
    assert_eq!(s.time, 0);
    let _ = InflictsDamageData { damage: 1, kind: ElementalDamageKind::Fire };
}

#[test]
fn the_dead_are_cleared_with_their_spells() {
    let mut world = World::new();
    let player = world.create_entity().build();
    let goblin = world.create_entity().build();
    let rat = world.create_entity().build();
    let orc = world.create_entity().build();
    let spell = world.create_entity().build();
    let fighters = vec![
        Fighter { entity: player, hp: -3, is_player: true, name: Some("Player".to_string()), drop: None, pos: None },
        Fighter {
            entity: goblin,
            hp: 0,
            is_player: false,
            name: Some("Goblin".to_string()),
            drop: Some(EntitySpawnKind::MagicOrb),
            pos: Some(Point { x: 4, y: 9 }),
        },
        Fighter { entity: rat, hp: 2, is_player: false, name: Some("Rat".to_string()), drop: None, pos: None },
        Fighter { entity: orc, hp: -1, is_player: false, name: None, drop: None, pos: None },
    ];
    let book = vec![(spell, goblin)];
    let mut buffer = EntitySpawnRequestBuffer::new();
    let mut log = GameLog::new();
    let dead = collect_the_dead(&fighters, &book, &mut buffer, &mut log);
    assert_eq!(dead, vec![spell, goblin, orc]);
    let reqs = buffer.requests();
    assert_eq!(reqs.len(), 1);
    assert_eq!((reqs[0].x, reqs[0].y), (4, 9));
    assert_eq!(reqs[0].kind, EntitySpawnKind::MagicOrb);
    assert_eq!(log.entries, vec!["Welcome to the Rusty Roguelike!".to_string(), "Goblin is dead.".to_string()]);
}
