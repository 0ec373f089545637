use rltk::RandomNumberGenerator;
use specs::{Builder, World, WorldExt};
use rogue::components::ai::MovementRoutingOptions;
use rogue::components::spawn_despawn::EntitySpawnKind;
use rogue::geometry::Point;
use rogue::map::{GameMap, RoutingMap, TileType, MAP_HEIGHT, MAP_SIZE, MAP_WIDTH};
use rogue::systems::map_indexing::{index_map, PlacedEntity};

fn no_avoid() -> MovementRoutingOptions {
    MovementRoutingOptions {
        avoid_blocked: false,
        avoid_fire: false,
        avoid_chill: false,
        avoid_water: false,
        avoid_steam: false,
        avoid_smoke: false,
        avoid_lava: false,
        avoid_brimstone: false,
        avoid_ice: false,
    }
}

/// A map that is floor inside a border of walls, with its blocked flags set.
fn open_map() -> GameMap {
    let mut map = GameMap::new(1);
    for y in 1..MAP_HEIGHT - 1 {
        for x in 1..MAP_WIDTH - 1 {
            let idx = map.xy_idx(x, y);
            map.tiles[idx] = TileType::Floor;
        }
    }
    map.populate_blocked();
    map
}

#[test]
fn new_map_is_all_wall() {
    let map = GameMap::new(3);
    assert_eq!(map.width, 80);
    assert_eq!(map.height, 43);
    assert_eq!(map.depth, 3);
    assert_eq!(MAP_SIZE, 3440);
    assert_eq!(map.tiles.len(), MAP_SIZE);
    assert!(map.tiles.iter().all(|t| *t == TileType::Wall));
    assert!(map.tile_content.iter().all(|c| c.is_empty()));
    assert_eq!(map.dimensions(), Point { x: 80, y: 43 });
}

#[test]
fn indices_round_trip() {
    let map = GameMap::new(1);
    assert_eq!(map.xy_idx(0, 0), 0);
    assert_eq!(map.xy_idx(5, 2), 165);
    assert_eq!(map.idx_xy(165), (5, 2));
    assert_eq!(map.idx_xy(3439), (79, 42));
}

#[test]
fn interior_excludes_the_zero_row_and_column() {
    let map = GameMap::new(1);
    assert!(!map.within_bounds(0, 5));
    assert!(!map.within_bounds(5, 0));
    assert!(map.within_bounds(1, 1));
    assert!(map.within_bounds(79, 42));
    assert!(!map.within_bounds(80, 42));
}

#[test]
fn blocked_follows_walls() {
    let map = open_map();
    assert!(map.blocked[map.xy_idx(0, 0)]);
    assert!(!map.blocked[map.xy_idx(1, 1)]);
    assert!(map.is_opaque(map.xy_idx(0, 3)));
    assert!(!map.is_opaque(map.xy_idx(3, 3)));
}

#[test]
fn exits_list_open_neighbours_cardinal_first() {
    let map = open_map();
    let idx = map.xy_idx(5, 5);
    let exits = map.get_available_exits(idx);
    let got: Vec<(usize, bool)> = exits.iter().map(|e| (e.idx, e.diagonal)).collect();
    assert_eq!(
        got,
        vec![
            (map.xy_idx(4, 5), false),
            (map.xy_idx(6, 5), false),
            (map.xy_idx(5, 4), false),
            (map.xy_idx(5, 6), false),
            (map.xy_idx(4, 4), true),
            (map.xy_idx(6, 4), true),
            (map.xy_idx(4, 6), true),
            (map.xy_idx(6, 6), true),
        ]
    );
    // In a corner only three neighbours are open.
    let corner = map.xy_idx(1, 1);
    assert_eq!(map.get_available_exits(corner).len(), 3);
    assert!(!map.is_exit_valid(0, 1));
    assert!(map.is_exit_valid(2, 1));
}

#[test]
fn ray_stops_at_the_first_blocked_tile() {
    let mut map = open_map();
    let wall = map.xy_idx(5, 2);
    map.blocked[wall] = true;
    let ray = map.get_ray_tiles(Point { x: 2, y: 2 }, Point { x: 9, y: 2 });
    assert_eq!(ray, vec![Point { x: 3, y: 2 }, Point { x: 4, y: 2 }, Point { x: 5, y: 2 }]);
    let ray = map.get_ray_tiles(Point { x: 2, y: 3 }, Point { x: 5, y: 3 });
    assert_eq!(ray, vec![Point { x: 3, y: 3 }, Point { x: 4, y: 3 }, Point { x: 5, y: 3 }]);
    // A ray to one's own tile is empty.
    assert!(map.get_ray_tiles(Point { x: 2, y: 3 }, Point { x: 2, y: 3 }).is_empty());
}

#[test]
fn l_infinity_circle_is_the_ring_inside_the_map() {
    let map = GameMap::new(1);
    let ring = map.get_l_infinity_circle_around(Point { x: 10, y: 10 }, 1);
    assert_eq!(ring.len(), 8);
    assert_eq!(&ring[0..4], &[
        Point { x: 9, y: 9 },
        Point { x: 11, y: 9 },
        Point { x: 9, y: 11 },
        Point { x: 11, y: 11 },
    ]);
    for p in ring.iter() {
        assert_eq!(std::cmp::max((p.x - 10).abs(), (p.y - 10).abs()), 1);
    }
    let ring = map.get_l_infinity_circle_around(Point { x: 10, y: 10 }, 3);
    assert_eq!(ring.len(), 24);
    // At the corner of the map the points outside the interior are dropped.
    let ring = map.get_l_infinity_circle_around(Point { x: 1, y: 1 }, 1);
    assert_eq!(ring, vec![Point { x: 2, y: 2 }, Point { x: 2, y: 1 }, Point { x: 1, y: 2 }]);
    assert_eq!(map.get_l_infinity_circle_around(Point { x: 10, y: 10 }, 0), vec![Point { x: 10, y: 10 }; 4]);
}

#[test]
fn random_points_are_open_floor() {
    let map = open_map();
    let mut rng = RandomNumberGenerator::seeded(5);
    for _ in 0..50 {
        if let Some((x, y)) = map.random_unblocked_point(10, &mut rng) {
            assert_eq!(map.tiles[map.xy_idx(x, y)], TileType::Floor);
        }
        if let Some((x, y)) = map.random_adjacent_unblocked_point(5, 5) {
            assert!((x - 5).abs() <= 1 && (y - 5).abs() <= 1 && (x, y) != (5, 5));
        }
    }
    let walls = GameMap::new(1);
    assert_eq!(walls.random_point(20, &mut rng), None);
    assert_eq!(walls.random_unblocked_point(0, &mut rng), None);
}

#[test]
fn routing_map_avoids_walls_and_chosen_hazards() {
    let mut map = open_map();
    let fire = map.xy_idx(3, 3);
    map.fire[fire] = true;
    let plain = RoutingMap::from_map(&map, &no_avoid());
    assert!(plain.avoid[map.xy_idx(0, 0)]);
    assert!(!plain.avoid[fire]);
    let careful = RoutingMap::from_map(&map, &MovementRoutingOptions { avoid_fire: true, ..no_avoid() });
    assert!(careful.avoid[fire]);
    assert!(!careful.is_exit_valid(3, 3));
    assert!(careful.is_exit_valid(3, 4));
}

#[test]
fn indexing_rebuilds_the_per_tile_state() {
    let mut world = World::new();
    let a = world.create_entity().build();
    let b = world.create_entity().build();
    let c = world.create_entity().build();
    let mut map = open_map();
    let i = map.xy_idx(7, 7);
    map.fire[i] = true;
    let placed = vec![
        PlacedEntity { entity: a, x: 2, y: 2, blocks_tile: true, kind: None },
        PlacedEntity { entity: b, x: 2, y: 2, blocks_tile: false, kind: Some(EntitySpawnKind::Fire { spread_chance: 10, dissipate_chance: 10 }) },
        PlacedEntity { entity: c, x: 4, y: 3, blocks_tile: false, kind: Some(EntitySpawnKind::Chill { spread_chance: 1, dissipate_chance: 1 }) },
    ];
    index_map(&mut map, &placed);
    let i22 = map.xy_idx(2, 2);
    let i43 = map.xy_idx(4, 3);
    assert!(map.blocked[i22]);
    assert!(map.fire[i22]);
    assert!(!map.fire[map.xy_idx(7, 7)]);
    assert!(map.chill[i43]);
    assert!(!map.blocked[i43]);
    assert_eq!(map.tile_content[i22], vec![a, b]);
    assert_eq!(map.tile_content[i43], vec![c]);
    assert!(map.blocked[map.xy_idx(0, 0)]);
}

#[test]
fn draws_pick_the_first_open_floor() {
    let mut map = open_map();
    // Draws are 1-based: (1, 1) names the corner wall, (3, 3) the floor at (2, 2).
    assert_eq!(map.first_open_point(&vec![(1, 1), (3, 3), (4, 4)]), Some((2, 2)));
    assert_eq!(map.first_open_point(&vec![(1, 1), (80, 43)]), None);
    assert_eq!(map.open_point_on_draw((5, 6)), Some((4, 5)));
    let stain = map.xy_idx(7, 7);
    map.tiles[stain] = TileType::BloodStain;
    assert_eq!(map.open_point_on_draw((8, 8)), Some((7, 7)));
    map.blocked[stain] = true;
    assert_eq!(map.unblocked_on_draw(Some((7, 7))), None);
    assert_eq!(map.unblocked_on_draw(Some((6, 6))), Some((6, 6)));
    assert_eq!(map.unblocked_on_draw(None), None);
}

#[test]
fn adjacent_draws_name_interior_neighbours() {
    let mut map = open_map();
    assert_eq!(map.adjacent_point_on_draw(5, 5, 1, -1), Some((6, 4)));
    assert_eq!(map.adjacent_point_on_draw(5, 5, 0, 0), None);
    assert_eq!(map.adjacent_point_on_draw(1, 1, -1, 0), None);
    let i = map.xy_idx(6, 5);
    map.blocked[i] = true;
    assert_eq!(map.adjacent_unblocked_point_on_draw(5, 5, 1, 0), None);
    assert_eq!(map.adjacent_unblocked_point_on_draw(5, 5, -1, 0), Some((4, 5)));
}

#[test]
fn water_is_avoided_only_when_asked() {
    let mut map = open_map();
    let w = map.xy_idx(3, 4);
    map.water[w] = true;
    let plain = RoutingMap::from_map(&map, &no_avoid());
    assert!(!plain.avoid[w]);
    let wary = RoutingMap::from_map(&map, &MovementRoutingOptions { avoid_water: true, ..no_avoid() });
    assert!(wary.avoid[w]);
}
