use specs::{Builder, Entity, World, WorldExt};
use rogue::components::basics::Position;
use rogue::components::hunger::HungerState;
use rogue::components::melee::MeeleAttackFormation;
use rogue::gamelog::GameLog;
use rogue::geometry::Point;
use rogue::map::{GameMap, TileType, MAP_HEIGHT, MAP_WIDTH};
use rogue::player::{
    get_meele_targets_in_tile, pickup_item, player_input_action, skip_turn, try_move_player, try_next_level,
    InputAction, PlayerCommand, PlayerMove, SkipTurn, TileOccupant,
};

fn open_map() -> GameMap {
    let mut map = GameMap::new(1);
    for y in 1..MAP_HEIGHT - 1 {
        for x in 1..MAP_WIDTH - 1 {
            let idx = map.xy_idx(x, y);
            map.tiles[idx] = TileType::Floor;
        }
    }
    map.populate_blocked();
    map
}

fn empty_occupants(map: &GameMap) -> Vec<Vec<TileOccupant>> {
    vec![Vec::new(); map.tiles.len()]
}

fn monster(e: Entity) -> TileOccupant {
    TileOccupant { entity: e, has_combat_stats: true, is_invisible: false, is_monster: true }
}

fn visible_all(map: &GameMap) -> Vec<Point> {
    let mut v = Vec::new();
    for y in 0..map.height {
        for x in 0..map.width {
            v.push(Point { x, y });
        }
    }
    v
}

#[test]
fn melee_targets_skip_the_invisible_unless_asked() {
    let mut world = World::new();
    let a = world.create_entity().build();
    let b = world.create_entity().build();
    let c = world.create_entity().build();
    let occ = vec![vec![
        monster(a),
        TileOccupant { entity: b, has_combat_stats: true, is_invisible: true, is_monster: true },
        TileOccupant { entity: c, has_combat_stats: false, is_invisible: false, is_monster: false },
    ]];
    assert_eq!(get_meele_targets_in_tile(&occ, 0, true), vec![a, b]);
    assert_eq!(get_meele_targets_in_tile(&occ, 0, false), vec![a]);
}

#[test]
fn moving_into_free_tiles_and_walls() {
    let map = open_map();
    let occ = empty_occupants(&map);
    let vis = visible_all(&map);
    let m = try_move_player(&map, &occ, Point { x: 5, y: 5 }, 1, 0, MeeleAttackFormation::Basic, false, &vis);
    assert!(matches!(m, PlayerMove::Move { to } if to == Point { x: 6, y: 5 }));
    let m = try_move_player(&map, &occ, Point { x: 1, y: 5 }, -1, 0, MeeleAttackFormation::Basic, false, &vis);
    assert!(matches!(m, PlayerMove::Blocked));
}

#[test]
fn moving_into_a_monster_attacks_it() {
    let mut world = World::new();
    let rat = world.create_entity().build();
    let map = open_map();
    let mut occ = empty_occupants(&map);
    occ[map.xy_idx(6, 5)].push(monster(rat));
    let vis = visible_all(&map);
    let m = try_move_player(&map, &occ, Point { x: 5, y: 5 }, 1, 0, MeeleAttackFormation::Basic, false, &vis);
    assert!(matches!(m, PlayerMove::Attack { targets } if targets == vec![rat]));
}

#[test]
fn dash_weapons_step_and_strike() {
    let mut world = World::new();
    let rat = world.create_entity().build();
    let map = open_map();
    let mut occ = empty_occupants(&map);
    occ[map.xy_idx(7, 5)].push(monster(rat));
    let vis = visible_all(&map);
    let m = try_move_player(&map, &occ, Point { x: 5, y: 5 }, 1, 0, MeeleAttackFormation::Dash, false, &vis);
    assert!(matches!(m, PlayerMove::DashAttack { targets, step_to } if targets == vec![rat] && step_to == Point { x: 6, y: 5 }));
    // A basic weapon just steps.
    let m = try_move_player(&map, &occ, Point { x: 5, y: 5 }, 1, 0, MeeleAttackFormation::Basic, false, &vis);
    assert!(matches!(m, PlayerMove::Move { .. }));
}

#[test]
fn the_dash_special_runs_to_the_first_target() {
    let mut world = World::new();
    let orc = world.create_entity().build();
    let map = open_map();
    let mut occ = empty_occupants(&map);
    occ[map.xy_idx(10, 5)].push(monster(orc));
    let vis = visible_all(&map);
    let m = try_move_player(&map, &occ, Point { x: 5, y: 5 }, 1, 0, MeeleAttackFormation::Basic, true, &vis);
    assert!(matches!(m, PlayerMove::SpecialDash { targets, step_to, strike_at }
        if targets == vec![orc] && step_to == Point { x: 9, y: 5 } && strike_at == Point { x: 10, y: 5 }));
    // A target out of sight stops the search: the player just steps.
    let vis_near = vec![Point { x: 6, y: 5 }, Point { x: 7, y: 5 }];
    let m = try_move_player(&map, &occ, Point { x: 5, y: 5 }, 1, 0, MeeleAttackFormation::Basic, true, &vis_near);
    assert!(matches!(m, PlayerMove::Move { to } if to == Point { x: 6, y: 5 }));
}

#[test]
fn resting_heals_only_when_safe_and_fed() {
    let mut world = World::new();
    let rat = world.create_entity().build();
    let map = open_map();
    let mut occ = empty_occupants(&map);
    let vis = vec![Point { x: 5, y: 5 }, Point { x: 6, y: 5 }];
    assert!(matches!(skip_turn(&map, &occ, &vis, false, Vec::new(), Some(HungerState::Normal)), SkipTurn::Heal));
    assert!(matches!(skip_turn(&map, &occ, &vis, false, Vec::new(), None), SkipTurn::Heal));
    assert!(matches!(skip_turn(&map, &occ, &vis, false, Vec::new(), Some(HungerState::Hungry)), SkipTurn::Wait));
    occ[map.xy_idx(6, 5)].push(monster(rat));
    assert!(matches!(skip_turn(&map, &occ, &vis, false, Vec::new(), Some(HungerState::WellFed)), SkipTurn::Wait));
    occ[map.xy_idx(6, 5)][0].is_invisible = true;
    assert!(matches!(skip_turn(&map, &occ, &vis, false, Vec::new(), Some(HungerState::WellFed)), SkipTurn::Heal));
    assert!(matches!(skip_turn(&map, &occ, &vis, true, vec![rat], Some(HungerState::WellFed)), SkipTurn::SpinAttack { targets } if targets == vec![rat]));
    assert!(matches!(skip_turn(&map, &occ, &vis, true, Vec::new(), Some(HungerState::WellFed)), SkipTurn::Heal));
}

#[test]
fn descending_needs_the_stairs() {
    let mut map = open_map();
    let mut log = GameLog::new();
    assert!(!try_next_level(&map, Point { x: 3, y: 3 }, &mut log));
    assert_eq!(log.entries.last().unwrap(), "There is no way down from here.");
    let idx = map.xy_idx(3, 3);
    map.tiles[idx] = TileType::DownStairs;
    assert!(try_next_level(&map, Point { x: 3, y: 3 }, &mut log));
    assert_eq!(log.entries.len(), 2);
}

#[test]
fn picking_up_takes_the_first_item_underfoot() {
    let mut world = World::new();
    let a = world.create_entity().build();
    let b = world.create_entity().build();
    let mut log = GameLog::new();
    let items = vec![(a, Position { x: 1, y: 1 }), (b, Position { x: 2, y: 2 })];
    assert_eq!(pickup_item(&items, Point { x: 2, y: 2 }, &mut log), Some(b));
    assert_eq!(log.entries.len(), 1);
    assert_eq!(pickup_item(&items, Point { x: 3, y: 3 }, &mut log), None);
    assert_eq!(log.entries.last().unwrap(), "There is nothing here to pickup.");
}

#[test]
fn frozen_players_can_only_pass() {
    assert_eq!(player_input_action(true, Some(PlayerCommand::Pickup), true), InputAction::PassTurn);
    assert_eq!(player_input_action(true, None, false), InputAction::AwaitInput);
    assert_eq!(player_input_action(false, Some(PlayerCommand::SkipTurn), true), InputAction::Execute { command: PlayerCommand::SkipTurn });
    assert_eq!(player_input_action(false, None, true), InputAction::AwaitInput);
}
