use rltk::RandomNumberGenerator;
use rogue::components::basics::Position;
use rogue::components::spawn_despawn::{ChanceToSpawnEntityWhenBurning, EntitySpawnKind};
use rogue::components::status_effects::{
    new_combat_stats_status, new_status, new_status_with_immunity, remove_status, tick_status,
    tick_status_with_immunity, StatusEffect, StatusIsBurning, StatusIsFrozen, StatusIsImmuneToFire,
    StatusIsMeleeAttackBuffed, BURNING_TICK_DAMAGE,
};
use rogue::gamelog::GameLog;
use rogue::systems::spawning::EntitySpawnRequest;
use rogue::systems::status::{
    burning_effects, burning_outcome, catches_fire, catches_fire_on_roll, get_status_indicators, tick_entity_statuses, EntityStatuses, StatusEndMessages,
    StatusIndicator,
};

fn no_messages() -> StatusEndMessages {
    StatusEndMessages {
        burning: None,
        frozen: None,
        immune_to_fire: None,
        immune_to_chill: None,
        attack_buffed: None,
        defense_buffed: None,
    }
}

#[test]
fn game_log_starts_with_the_welcome() {
    let mut log = GameLog::new();
    assert_eq!(log.entries, vec!["Welcome to the Rusty Roguelike!".to_string()]);
    log.push("x".to_string());
    assert_eq!(log.entries.len(), 2);
}

#[test]
fn new_status_is_created_or_lengthened() {
    let mut slot: Option<StatusIsFrozen> = None;
    assert!(new_status(&mut slot, 3, true));
    assert_eq!(slot.unwrap().remaining_turns(), 3);
    assert!(slot.unwrap().do_render());
    // A longer status lengthens it, a shorter one does not shorten it.
    assert!(!new_status(&mut slot, 5, false));
    assert_eq!(slot.unwrap().remaining_turns(), 5);
    assert!(slot.unwrap().do_render());
    assert!(!new_status(&mut slot, 2, false));
    assert_eq!(slot.unwrap().remaining_turns(), 5);
}

#[test]
fn immunity_prevents_new_statuses_only() {
    let mut slot: Option<StatusIsBurning> = None;
    assert!(!new_status_with_immunity(&mut slot, true, 4, true));
    assert!(slot.is_none());
    assert!(new_status_with_immunity(&mut slot, false, 4, true));
    assert!(!new_status_with_immunity(&mut slot, true, 6, true));
    assert_eq!(slot.unwrap().remaining_turns, 6);
}

#[test]
fn combat_buffs_need_combat_stats() {
    let mut slot: Option<StatusIsMeleeAttackBuffed> = None;
    assert!(!new_combat_stats_status(&mut slot, false, 4, true));
    assert!(slot.is_none());
    assert!(new_combat_stats_status(&mut slot, true, 4, true));
    assert_eq!(slot.unwrap().remaining_turns, 4);
}

#[test]
fn status_lasts_its_turns_plus_one_tick() {
    let mut log = GameLog::new();
    let mut slot: Option<StatusIsFrozen> = None;
    new_status(&mut slot, 2, true);
    tick_status(&mut slot, &mut log, Some("thawed".to_string()));
    assert_eq!(slot.unwrap().remaining_turns, 1);
    tick_status(&mut slot, &mut log, Some("thawed".to_string()));
    assert_eq!(slot.unwrap().remaining_turns, 0);
    assert_eq!(log.entries.len(), 1);
    tick_status(&mut slot, &mut log, Some("thawed".to_string()));
    assert!(slot.is_none());
    assert_eq!(log.entries.last().unwrap(), "thawed");
    // Ticking an empty slot does nothing.
    tick_status(&mut slot, &mut log, Some("again".to_string()));
    assert_eq!(log.entries.len(), 2);
}

#[test]
fn immunity_ends_a_status_at_once() {
    let mut log = GameLog::new();
    let mut slot: Option<StatusIsBurning> = Some(StatusIsBurning::new(9, true));
    tick_status_with_immunity(&mut slot, true, &mut log, None);
    assert!(slot.is_none());
    assert_eq!(log.entries.len(), 1);
    let mut slot: Option<StatusIsBurning> = Some(StatusIsBurning::new(9, true));
    remove_status(&mut slot);
    assert!(slot.is_none());
}

#[test]
fn entity_statuses_tick_together() {
    let mut log = GameLog::new();
    let mut s = EntityStatuses {
        frozen: Some(StatusIsFrozen::new(1, true)),
        burning: Some(StatusIsBurning::new(3, true)),
        immune_to_fire: Some(StatusIsImmuneToFire::new(0, false)),
        immune_to_chill: None,
        attack_buffed: None,
        defense_buffed: None,
    };
    let msgs = StatusEndMessages { burning: Some("out".to_string()), immune_to_fire: Some("gone".to_string()), ..no_messages() };
    tick_entity_statuses(&mut s, &mut log, msgs);
    // Burning ends because of the fire immunity, which itself runs out.
    assert!(s.burning.is_none());
    assert!(s.immune_to_fire.is_none());
    assert_eq!(s.frozen.unwrap().remaining_turns, 0);
    assert_eq!(log.entries[1..].to_vec(), vec!["out".to_string(), "gone".to_string()]);
}

#[test]
fn burning_damages_unless_immune_and_may_spawn() {
    let mut rng = RandomNumberGenerator::seeded(9);
    let grass_fire = ChanceToSpawnEntityWhenBurning { kind: EntitySpawnKind::Fire { spread_chance: 1, dissipate_chance: 2 }, chance: 100 };
    let o = burning_effects(&mut rng, false, true, Some(grass_fire), Some(Position { x: 3, y: 4 }));
    assert!(o.takes_damage);
    assert!(o.dissipates);
    assert_eq!(o.spawn, Some(EntitySpawnRequest { x: 3, y: 4, kind: grass_fire.kind }));
    let o = burning_effects(&mut rng, true, false, Some(ChanceToSpawnEntityWhenBurning { chance: 0, ..grass_fire }), Some(Position { x: 3, y: 4 }));
    assert!(!o.takes_damage);
    assert!(!o.dissipates);
    assert_eq!(o.spawn, None);
    assert_eq!(BURNING_TICK_DAMAGE, 3);
    assert!(catches_fire(&mut rng, 100));
    assert!(!catches_fire(&mut rng, 0));
}

#[test]
fn status_indicators_follow_the_drawing_order() {
    let none = EntityStatuses {
        frozen: None,
        burning: None,
        immune_to_fire: None,
        immune_to_chill: None,
        attack_buffed: None,
        defense_buffed: None,
    };
    assert_eq!(get_status_indicators(&none), vec![]);
    let some = EntityStatuses {
        frozen: Some(StatusIsFrozen::new(1, true)),
        burning: None,
        immune_to_fire: Some(StatusIsImmuneToFire::new(2, false)),
        immune_to_chill: None,
        attack_buffed: Some(StatusIsMeleeAttackBuffed::new(3, true)),
        defense_buffed: None,
    };
    assert_eq!(
        get_status_indicators(&some),
        vec![StatusIndicator::Frozen, StatusIndicator::ImmuneToFire, StatusIndicator::AttackBuffed]
    );
}

#[test]
fn burning_spawns_on_a_low_enough_roll() {
    let grass_fire = ChanceToSpawnEntityWhenBurning { kind: EntitySpawnKind::Fire { spread_chance: 1, dissipate_chance: 2 }, chance: 40 };
    let at = Some(Position { x: 2, y: 7 });
    let o = burning_outcome(false, false, Some(grass_fire), at, 40);
    assert_eq!(o.spawn, Some(EntitySpawnRequest { x: 2, y: 7, kind: grass_fire.kind }));
    let o = burning_outcome(false, false, Some(grass_fire), at, 41);
    assert_eq!(o.spawn, None);
    let o = burning_outcome(false, false, Some(grass_fire), None, 1);
    assert_eq!(o.spawn, None);
    assert!(catches_fire_on_roll(25, 25));
    assert!(!catches_fire_on_roll(25, 26));
}
