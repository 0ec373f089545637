use rltk::RandomNumberGenerator;
use specs::{Builder, World, WorldExt};
use rogue::components::ai::MovementRoutingOptions;
use rogue::components::basics::Position;
use rogue::components::equipment::{add_orb, items_to_unequip, pickup_destination, EquipmentSlot, Equipped, PickupDestination};
use rogue::components::game_effects::{
    BuffsMeleeAttackWhenCast, BuffsPhysicalDefenseWhenCast, InflictsBurningData, InflictsDamageData, InflictsFreezingData,
};
use rogue::components::magic::BlessingOrbBag;
use rogue::components::melee::{WeaponSpecial, WeaponSpecialKind};
use rogue::components::signaling::ElementalDamageKind;
use rogue::components::spawn_despawn::{ChanceToSpawnAdjacentEntity, EntitySpawnKind, SpawnsEntityInAreaWhenTargeted};
use rogue::geometry::Point;
use rogue::map::{GameMap, TileType, MAP_HEIGHT, MAP_WIDTH};
use rogue::run_state::TargetingVerb;
use rogue::systems::encroachment::{encroachment_effects, encroachment_pairs, hazard_host, Encroacher, EncroachmentHost};
use rogue::systems::movement::{ok_to_move_to_position, serve_move_request, teleport_destination, MoveRequest};
use rogue::systems::spawning::{
    can_spawn_hazard, chance_to_spawn_adjacent, destructor_for, dissipates_on_roll, hazard_spread, mark_hazard,
    spawn_adjacent_on_draw,
    rolls_dissipation, Destructor, EntitySpawnRequest, EntitySpawnRequestBuffer,
};
use rogue::systems::targeted::{
    effects_on_target, find_targets, is_free_throw, may_resolve, spending, thing_effects, Spending, TargetArea, ThingComponents,
    ThingEffects,
};

fn open_map() -> GameMap {
    let mut map = GameMap::new(1);
    for y in 1..MAP_HEIGHT - 1 {
        for x in 1..MAP_WIDTH - 1 {
            let idx = map.xy_idx(x, y);
            map.tiles[idx] = TileType::Floor;
        }
    }
    map.populate_blocked();
    map
}

fn fire(s: i32, d: i32) -> EntitySpawnKind {
    EntitySpawnKind::Fire { spread_chance: s, dissipate_chance: d }
}

#[test]
fn spawn_requests_are_kept_in_order() {
    let mut b = EntitySpawnRequestBuffer::new();
    b.request(EntitySpawnRequest { x: 1, y: 2, kind: EntitySpawnKind::MagicOrb });
    b.request(EntitySpawnRequest { x: 3, y: 4, kind: fire(1, 2) });
    let r = b.requests();
    assert_eq!(r.len(), 2);
    assert_eq!(r[0].kind, EntitySpawnKind::MagicOrb);
    b.clear();
    assert!(b.requests().is_empty());
}

#[test]
fn hazards_spread_weaker_each_generation() {
    let c = hazard_spread(fire(50, 10)).unwrap();
    assert_eq!(c.chance, 50);
    assert_eq!(c.kind, fire(30, 30));
    let c = hazard_spread(fire(10, 95)).unwrap();
    assert_eq!(c.kind, fire(0, 115));
    let c = hazard_spread(EntitySpawnKind::Steam { spread_chance: 50, dissipate_chance: 10 }).unwrap();
    assert_eq!(c.kind, EntitySpawnKind::Steam { spread_chance: 10, dissipate_chance: 20 });
    assert!(hazard_spread(EntitySpawnKind::MagicOrb).is_none());
}

#[test]
fn dissipated_entities_get_their_destructor() {
    assert_eq!(destructor_for(None), Destructor::Delete);
    assert_eq!(destructor_for(Some(fire(1, 1))), Destructor::DestroyFire);
    assert_eq!(destructor_for(Some(EntitySpawnKind::Chill { spread_chance: 1, dissipate_chance: 1 })), Destructor::DestroyChill);
    assert_eq!(destructor_for(Some(EntitySpawnKind::PinkJelly { max_hp: 1, hp: 1 })), Destructor::Keep);
}

#[test]
fn dissipation_rolls() {
    let mut rng = RandomNumberGenerator::seeded(2);
    assert!(!rolls_dissipation(&mut rng, true, 100));
    assert!(rolls_dissipation(&mut rng, false, 100));
    assert!(!rolls_dissipation(&mut rng, false, 0));
}

#[test]
fn hazards_avoid_walls_and_doubles() {
    let mut map = open_map();
    let idx = map.xy_idx(4, 4);
    assert!(can_spawn_hazard(&map, idx, fire(1, 1)));
    assert!(!can_spawn_hazard(&map, map.xy_idx(0, 0), fire(1, 1)));
    mark_hazard(&mut map, idx, fire(1, 1), true);
    assert!(map.fire[idx]);
    assert!(!can_spawn_hazard(&map, idx, fire(1, 1)));
    assert!(can_spawn_hazard(&map, idx, EntitySpawnKind::Chill { spread_chance: 1, dissipate_chance: 1 }));
    mark_hazard(&mut map, idx, fire(1, 1), false);
    assert!(!map.fire[idx]);
}

#[test]
fn adjacent_spawns_land_next_door() {
    let map = open_map();
    let mut rng = RandomNumberGenerator::seeded(8);
    let spawn = ChanceToSpawnAdjacentEntity { chance: 100, kind: fire(3, 3) };
    for _ in 0..30 {
        if let Some(r) = chance_to_spawn_adjacent(&map, &mut rng, 10, 10, spawn) {
            assert!((r.x - 10).abs() <= 1 && (r.y - 10).abs() <= 1 && (r.x, r.y) != (10, 10));
            assert_eq!(r.kind, fire(3, 3));
        }
    }
    let never = ChanceToSpawnAdjacentEntity { chance: 0, kind: fire(3, 3) };
    assert!(chance_to_spawn_adjacent(&map, &mut rng, 10, 10, never).is_none());
}

fn host() -> EncroachmentHost {
    EncroachmentHost {
        damage: None,
        burning_turns: None,
        freezing_turns: None,
        dissipates: false,
        dissipates_when_trampled: false,
        spawns: None,
        spawns_when_trampled: None,
        removes_burning: false,
        dissipates_fire: false,
        is_tall_grass: false,
    }
}

#[test]
fn encroachment_effects_follow_the_host() {
    let walker = Encroacher { tramples: true, is_fire: false, hides_in_tall_grass: true };
    let fire_hazard = EncroachmentHost { damage: Some((2, ElementalDamageKind::Fire)), burning_turns: Some(4), ..host() };
    let e = encroachment_effects(&fire_hazard, &walker, 3, 3);
    assert_eq!(e.damage, Some((2, ElementalDamageKind::Fire)));
    assert_eq!(e.burning_turns, Some(4));
    assert!(!e.host_dissipates);
    let grass = EncroachmentHost {
        dissipates_when_trampled: true,
        spawns_when_trampled: Some(EntitySpawnKind::MagicOrb),
        is_tall_grass: true,
        ..host()
    };
    let e = encroachment_effects(&grass, &walker, 3, 3);
    assert!(e.host_dissipates);
    assert_eq!(e.spawn_when_trampled, Some(EntitySpawnRequest { x: 3, y: 3, kind: EntitySpawnKind::MagicOrb }));
    assert!(e.hide_encroacher);
    let floater = Encroacher { tramples: false, is_fire: true, hides_in_tall_grass: false };
    let e = encroachment_effects(&grass, &floater, 3, 3);
    assert!(!e.host_dissipates);
    assert_eq!(e.spawn_when_trampled, None);
    let water = EncroachmentHost { removes_burning: true, dissipates_fire: true, ..host() };
    let e = encroachment_effects(&water, &floater, 1, 1);
    assert!(e.remove_burning && e.encroacher_dissipates);
}

#[test]
fn targeted_things_spend_charges_or_themselves() {
    assert!(may_resolve(TargetingVerb::Thrown, true, Some(0), false));
    assert!(!may_resolve(TargetingVerb::Cast, true, Some(0), false));
    assert!(may_resolve(TargetingVerb::Cast, true, Some(0), true));
    assert!(may_resolve(TargetingVerb::Cast, true, None, false));
    // A thing with no targeting for the verb is not used at all.
    assert!(!may_resolve(TargetingVerb::Thrown, false, None, false));
    assert!(!may_resolve(TargetingVerb::Cast, false, Some(2), false));
    let free = WeaponSpecial { regen_time: 3, time: 3, kind: WeaponSpecialKind::ThrowWithoutExpending };
    assert!(is_free_throw(Some(free)));
    assert!(!is_free_throw(Some(WeaponSpecial { time: 1, ..free })));
    assert!(!is_free_throw(None));
    assert_eq!(spending(TargetingVerb::Thrown, true, false, true, false, true), Spending { expend_special: true, delete_thing: false, remove_from_spellbook: false, expend_charge: false });
    assert_eq!(spending(TargetingVerb::Thrown, true, false, false, false, false), Spending { expend_special: false, delete_thing: true, remove_from_spellbook: false, expend_charge: false });
    assert_eq!(spending(TargetingVerb::Cast, false, true, false, true, false), Spending { expend_special: true, delete_thing: false, remove_from_spellbook: true, expend_charge: true });
}

#[test]
fn effects_need_stats_or_positions() {
    let t = ThingEffects {
        heals: true,
        teleports: true,
        damage: Some(InflictsDamageData { damage: 4, kind: ElementalDamageKind::Chill }),
        freezing_turns: Some(2),
        burning_turns: None,
        buff_attack_turns: None,
        buff_defense_turns: Some(3),
        spawns: None,
        moves_user_to_target: false,
    };
    let e = effects_on_target(&t, false, true);
    assert!(!e.full_heal && e.teleport && e.damage.is_none());
    assert_eq!(e.freezing_turns, Some(2));
    let e = effects_on_target(&t, true, false);
    assert!(e.full_heal && !e.teleport);
    assert_eq!(e.damage, Some(InflictsDamageData { damage: 4, kind: ElementalDamageKind::Chill }));
    assert_eq!(e.buff_defense_turns, Some(3));
}

#[test]
fn targets_are_found_on_the_reached_tiles() {
    let mut world = World::new();
    let user = world.create_entity().build();
    let a = world.create_entity().build();
    let b = world.create_entity().build();
    let mut map = open_map();
    let ia = map.xy_idx(5, 5);
    let ib = map.xy_idx(6, 5);
    map.tile_content[ia] = vec![a, user];
    map.tile_content[ib] = vec![b];
    let user_pos = Point { x: 2, y: 5 };
    assert_eq!(find_targets(&map, user, user_pos, Point { x: 5, y: 5 }, &TargetArea::Simple), vec![(a, Point { x: 5, y: 5 })]);
    let blast = TargetArea::AreaOfEffect { blast_tiles: vec![Point { x: 5, y: 5 }, Point { x: 6, y: 5 }, Point { x: 0, y: 5 }] };
    assert_eq!(find_targets(&map, user, user_pos, Point { x: 5, y: 5 }, &blast), vec![(a, Point { x: 5, y: 5 }), (b, Point { x: 6, y: 5 })]);
    // A ray stopped by a blocked tile hits what stands there.
    map.blocked[ia] = true;
    let ray = TargetArea::AlongRay { until_blocked: true };
    assert_eq!(find_targets(&map, user, user_pos, Point { x: 6, y: 5 }, &ray), vec![(a, Point { x: 5, y: 5 })]);
    let ray = TargetArea::AlongRay { until_blocked: false };
    assert_eq!(find_targets(&map, user, user_pos, Point { x: 6, y: 5 }, &ray), vec![(b, Point { x: 6, y: 5 })]);
}

#[test]
fn moves_respect_blocks_routing_and_the_player() {
    let mut map = open_map();
    let mut player = Point { x: 9, y: 9 };
    let mut pos = Position { x: 3, y: 3 };
    let req = MoveRequest { to: Point { x: 4, y: 3 }, force: false, is_player: false, is_blocking: true, routing: None };
    let i = map.xy_idx(3, 3);
    map.blocked[i] = true;
    assert!(serve_move_request(&mut map, &mut pos, req, &mut player));
    assert_eq!(pos, Position { x: 4, y: 3 });
    assert!(!map.blocked[map.xy_idx(3, 3)]);
    assert!(map.blocked[map.xy_idx(4, 3)]);
    // Monsters do not step onto the player.
    let onto = MoveRequest { to: Point { x: 9, y: 9 }, ..req };
    assert!(!serve_move_request(&mut map, &mut pos, onto, &mut player));
    // Routing can forbid fire; forcing overrides it.
    let fire_idx = map.xy_idx(5, 3);
    map.fire[fire_idx] = true;
    let careful = MovementRoutingOptions {
        avoid_blocked: false, avoid_fire: true, avoid_chill: false, avoid_water: false, avoid_steam: false,
        avoid_smoke: false, avoid_lava: false, avoid_brimstone: false, avoid_ice: false,
    };
    assert!(!ok_to_move_to_position(&map, Some(careful), fire_idx));
    assert!(ok_to_move_to_position(&map, None, fire_idx));
    let forced = MoveRequest { to: Point { x: 5, y: 3 }, force: true, routing: Some(careful), ..req };
    assert!(serve_move_request(&mut map, &mut pos, forced, &mut player));
    // The player's own position follows the player.
    let mut ppos = Position { x: 9, y: 9 };
    let me = MoveRequest { to: Point { x: 9, y: 10 }, force: false, is_player: true, is_blocking: false, routing: None };
    assert!(serve_move_request(&mut map, &mut ppos, me, &mut player));
    assert_eq!(player, Point { x: 9, y: 10 });
    let mut rng = RandomNumberGenerator::seeded(4);
    if let Some(p) = teleport_destination(&map, &mut rng) {
        assert!(!map.blocked[map.xy_idx(p.x, p.y)]);
    }
}

#[test]
fn equipment_and_pickups() {
    let mut world = World::new();
    let owner = world.create_entity().build();
    let other = world.create_entity().build();
    let sword = world.create_entity().build();
    let armor = world.create_entity().build();
    let dagger = world.create_entity().build();
    let worn = vec![
        (sword, Equipped { owner, slot: EquipmentSlot::Melee }),
        (armor, Equipped { owner, slot: EquipmentSlot::Armor }),
        (dagger, Equipped { owner: other, slot: EquipmentSlot::Melee }),
    ];
    assert_eq!(items_to_unequip(&worn, owner, EquipmentSlot::Melee), vec![sword]);
    assert_eq!(pickup_destination(true, false), PickupDestination::Spellbook);
    assert_eq!(pickup_destination(false, true), PickupDestination::BlessingOrbBag);
    assert_eq!(pickup_destination(false, false), PickupDestination::Backpack);
    let mut bag = BlessingOrbBag { count: 2 };
    add_orb(&mut bag);
    assert_eq!(bag.count, 3);
}

fn no_components() -> ThingComponents {
    ThingComponents {
        targeted_when_thrown: false,
        targeted_when_cast: false,
        provides_full_healing: false,
        moves_to_random_position: false,
        damage_when_thrown: None,
        damage_when_cast: None,
        freezing_when_thrown: None,
        freezing_when_cast: None,
        burning_when_thrown: None,
        burning_when_cast: None,
        buffs_melee_attack_when_cast: None,
        buffs_physical_defense_when_cast: None,
        spawns_when_thrown: None,
        spawns_when_cast: None,
        move_to_position_when_cast: false,
    }
}

#[test]
fn a_thing_without_targeting_for_the_verb_has_no_effects() {
    let c = ThingComponents { targeted_when_cast: true, ..no_components() };
    assert!(thing_effects(TargetingVerb::Thrown, &c).is_none());
    assert!(thing_effects(TargetingVerb::Cast, &c).is_some());
}

#[test]
fn a_fire_potion_thrown_burns_and_spawns_fire() {
    let fire_kind = fire(75, 25);
    let c = ThingComponents {
        targeted_when_thrown: true,
        damage_when_thrown: Some(InflictsDamageData { damage: 10, kind: ElementalDamageKind::Fire }),
        burning_when_thrown: Some(InflictsBurningData { turns: 4, tick_damage: 2 }),
        spawns_when_thrown: Some(SpawnsEntityInAreaWhenTargeted { radius: 1, kind: fire_kind }),
        ..no_components()
    };
    let e = thing_effects(TargetingVerb::Thrown, &c).unwrap();
    assert_eq!(e.damage, Some(InflictsDamageData { damage: 10, kind: ElementalDamageKind::Fire }));
    assert_eq!(e.burning_turns, Some(4));
    assert_eq!(e.freezing_turns, None);
    assert_eq!(e.spawns, Some(SpawnsEntityInAreaWhenTargeted { radius: 1, kind: fire_kind }));
    assert!(!e.heals && !e.teleports && !e.moves_user_to_target);
}

#[test]
fn cast_effects_come_from_the_cast_components() {
    let c = ThingComponents {
        targeted_when_thrown: true,
        targeted_when_cast: true,
        provides_full_healing: true,
        damage_when_thrown: Some(InflictsDamageData { damage: 1, kind: ElementalDamageKind::Physical }),
        damage_when_cast: Some(InflictsDamageData { damage: 7, kind: ElementalDamageKind::Chill }),
        freezing_when_cast: Some(InflictsFreezingData { turns: 3 }),
        buffs_melee_attack_when_cast: Some(BuffsMeleeAttackWhenCast { turns: 5 }),
        buffs_physical_defense_when_cast: Some(BuffsPhysicalDefenseWhenCast { turns: 6 }),
        move_to_position_when_cast: true,
        ..no_components()
    };
    let e = thing_effects(TargetingVerb::Cast, &c).unwrap();
    assert!(e.heals);
    assert_eq!(e.damage, Some(InflictsDamageData { damage: 7, kind: ElementalDamageKind::Chill }));
    assert_eq!(e.freezing_turns, Some(3));
    assert_eq!(e.buff_attack_turns, Some(5));
    assert_eq!(e.buff_defense_turns, Some(6));
    assert!(e.moves_user_to_target);
    let t = thing_effects(TargetingVerb::Thrown, &c).unwrap();
    assert_eq!(t.damage, Some(InflictsDamageData { damage: 1, kind: ElementalDamageKind::Physical }));
    assert_eq!(t.freezing_turns, None);
}

#[test]
fn hazards_act_on_what_stands_in_them() {
    let f = hazard_host(fire(50, 50)).unwrap();
    assert_eq!(f.damage, Some((2, ElementalDamageKind::Fire)));
    assert_eq!(f.burning_turns, Some(4));
    assert_eq!(f.freezing_turns, None);
    assert!(!f.removes_burning);
    let c = hazard_host(EntitySpawnKind::Chill { spread_chance: 10, dissipate_chance: 10 }).unwrap();
    assert_eq!(c.damage, Some((2, ElementalDamageKind::Chill)));
    assert_eq!(c.freezing_turns, Some(4));
    assert_eq!(c.burning_turns, None);
    let st = hazard_host(EntitySpawnKind::Steam { spread_chance: 10, dissipate_chance: 10 }).unwrap();
    assert_eq!(st.damage, Some((2, ElementalDamageKind::Physical)));
    assert!(hazard_host(EntitySpawnKind::MagicOrb).is_none());
}

#[test]
fn dissipation_follows_the_roll() {
    assert!(dissipates_on_roll(false, 30, 30));
    assert!(!dissipates_on_roll(false, 30, 31));
    assert!(!dissipates_on_roll(true, 30, 1));
}

#[test]
fn a_destroyed_fire_lets_a_new_one_spawn() {
    let mut map = open_map();
    let idx = map.xy_idx(4, 4);
    let k = fire(10, 10);
    assert!(can_spawn_hazard(&map, idx, k));
    mark_hazard(&mut map, idx, k, true);
    assert!(!can_spawn_hazard(&map, idx, k));
    mark_hazard(&mut map, idx, k, false);
    assert!(can_spawn_hazard(&map, idx, k));
}

#[test]
fn hosts_meet_the_others_on_their_tile() {
    let mut world = World::new();
    let fire_e = world.create_entity().build();
    let goblin = world.create_entity().build();
    let rat = world.create_entity().build();
    let mut map = open_map();
    let i = map.xy_idx(3, 3);
    map.tile_content[i] = vec![goblin, fire_e, rat];
    let pairs = encroachment_pairs(&map, &vec![(fire_e, Point { x: 3, y: 3 })]);
    assert_eq!(pairs, vec![(fire_e, goblin), (fire_e, rat)]);
    let alone = encroachment_pairs(&map, &vec![(rat, Point { x: 4, y: 4 })]);
    assert!(alone.is_empty());
}

#[test]
fn spawns_go_where_the_draw_says_on_a_low_roll() {
    let spawn = ChanceToSpawnAdjacentEntity { chance: 30, kind: fire(10, 10) };
    assert_eq!(spawn_adjacent_on_draw(spawn, 30, Some((4, 5))), Some(EntitySpawnRequest { x: 4, y: 5, kind: fire(10, 10) }));
    assert_eq!(spawn_adjacent_on_draw(spawn, 31, Some((4, 5))), None);
    assert_eq!(spawn_adjacent_on_draw(spawn, 1, None), None);
}

#[test]
fn fire_does_not_spawn_on_water_and_water_walkers_wait() {
    let mut map = open_map();
    let idx = map.xy_idx(6, 6);
    map.water[idx] = true;
    assert!(!can_spawn_hazard(&map, idx, fire(10, 10)));
    assert!(can_spawn_hazard(&map, idx, EntitySpawnKind::Chill { spread_chance: 1, dissipate_chance: 1 }));
    let avoid_water = MovementRoutingOptions {
        avoid_blocked: true,
        avoid_fire: false,
        avoid_chill: false,
        avoid_water: true,
        avoid_steam: false,
        avoid_smoke: false,
        avoid_lava: false,
        avoid_brimstone: false,
        avoid_ice: false,
    };
    assert!(!ok_to_move_to_position(&map, Some(avoid_water), idx));
    assert!(ok_to_move_to_position(&map, Some(MovementRoutingOptions { avoid_water: false, ..avoid_water }), idx));
    assert!(ok_to_move_to_position(&map, None, idx));
}
