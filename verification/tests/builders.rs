use std::collections::VecDeque;
use rltk::RandomNumberGenerator;
use rogue::map::{GameMap, TileType, MAP_HEIGHT, MAP_WIDTH};
use rogue::map_builders::cellular_automata_map::{seed_tile, CellularAutomataBuilder};
use rogue::map_builders::common::{apply_horizontal_tunnel, apply_room, apply_vertical_tunnel, get_stairs_position, try_get_stairs_position, Rectangle};
use rogue::map_builders::components::{enumerate_connected_components, fill_all_but_largest_component, largest_component_index};
use rogue::map_builders::noise::{GrassGeometry, StatueGeometry, WaterGeometry};
use rogue::map_builders::simple_map::{room_region, SimpleMapBuilder};
use rogue::geometry::Point;

/// Which tiles a breadth first search over floor tiles (four neighbours)
/// reaches from `start`.
fn flood(map: &GameMap, start: usize) -> Vec<bool> {
    let mut seen = vec![false; map.tiles.len()];
    let mut q = VecDeque::new();
    seen[start] = true;
    q.push_back(start);
    while let Some(i) = q.pop_front() {
        let (x, y) = ((i as i32) % map.width, (i as i32) / map.width);
        for (dx, dy) in [(-1, 0), (1, 0), (0, -1), (0, 1)] {
            let (nx, ny) = (x + dx, y + dy);
            if nx < 0 || ny < 0 || nx >= map.width || ny >= map.height {
                continue;
            }
            let j = map.xy_idx(nx, ny);
            if !seen[j] && map.tiles[j] == TileType::Floor {
                seen[j] = true;
                q.push_back(j);
            }
        }
    }
    seen
}

#[test]
fn rectangles_intersect_and_center() {
    let a = Rectangle::new(2, 2, 4, 4);
    assert_eq!(a, Rectangle { x1: 2, x2: 6, y1: 2, y2: 6 });
    assert_eq!(a.center(), (4, 4));
    assert!(a.intersect(&Rectangle::new(6, 6, 2, 2)));
    assert!(!a.intersect(&Rectangle::new(7, 2, 2, 2)));
    assert_eq!(Rectangle::new(-5, 0, 2, 1).center(), (-4, 0));
    assert_eq!(Rectangle::new(-5, 0, 4, 1).center(), (-3, 0));
}

#[test]
fn rooms_and_tunnels_carve_floor() {
    let mut map = GameMap::new(1);
    apply_room(&mut map, &Rectangle::new(2, 2, 3, 2));
    // The interior is x in 3..=5, y in 3..=4.
    assert_eq!(map.tiles[map.xy_idx(3, 3)], TileType::Floor);
    assert_eq!(map.tiles[map.xy_idx(5, 4)], TileType::Floor);
    assert_eq!(map.tiles[map.xy_idx(2, 3)], TileType::Wall);
    assert_eq!(map.tiles[map.xy_idx(6, 3)], TileType::Wall);
    apply_horizontal_tunnel(&mut map, 20, 10, 7);
    for x in 10..=20 {
        assert_eq!(map.tiles[map.xy_idx(x, 7)], TileType::Floor);
    }
    assert_eq!(map.tiles[map.xy_idx(21, 7)], TileType::Wall);
    apply_vertical_tunnel(&mut map, 9, 12, 30);
    for y in 9..=12 {
        assert_eq!(map.tiles[map.xy_idx(30, y)], TileType::Floor);
    }
    // The tile at index zero is never carved.
    apply_horizontal_tunnel(&mut map, 0, 2, 0);
    assert_eq!(map.tiles[0], TileType::Wall);
    assert_eq!(map.tiles[1], TileType::Floor);
}

#[test]
fn stairs_go_in_a_wall_beside_the_floor() {
    let mut map = GameMap::new(1);
    apply_room(&mut map, &Rectangle::new(0, 0, MAP_WIDTH - 3, MAP_HEIGHT - 3));
    map.populate_blocked();
    for _ in 0..20 {
        if let Some(p) = try_get_stairs_position(&map) {
            assert!(map.blocked[map.xy_idx(p.x, p.y)]);
        }
    }
    let p = get_stairs_position(&map).unwrap();
    let blocked = |x: i32, y: i32| map.blocked[map.xy_idx(x, y)];
    assert!(blocked(p.x, p.y));
    let horizontal = p.x > 0 && p.x < MAP_WIDTH - 1 && (blocked(p.x - 1, p.y) != blocked(p.x + 1, p.y));
    let vertical = p.y > 0 && p.y < MAP_HEIGHT - 1 && (blocked(p.x, p.y - 1) != blocked(p.x, p.y + 1));
    assert!(horizontal || vertical);
    // A map without floor has no place for stairs.
    let mut walls = GameMap::new(1);
    walls.populate_blocked();
    assert_eq!(get_stairs_position(&walls), None);
}

#[test]
fn only_the_largest_component_survives() {
    let mut map = GameMap::new(1);
    apply_room(&mut map, &Rectangle::new(1, 1, 3, 3));
    apply_room(&mut map, &Rectangle::new(10, 10, 5, 5));
    let snapshot = map.clone();
    let components = enumerate_connected_components(&snapshot, |i| flood(&snapshot, i));
    assert_eq!(components.len(), 2);
    assert_eq!(components[0].size(), 9);
    assert_eq!(components[1].size(), 25);
    assert_eq!(components[0].base_index(), map.xy_idx(2, 2));
    assert_eq!(largest_component_index(&components), 1);
    fill_all_but_largest_component(&mut map, components);
    assert_eq!(map.tiles[map.xy_idx(2, 2)], TileType::Wall);
    assert_eq!(map.tiles[map.xy_idx(12, 12)], TileType::Floor);
    let left = map.tiles.iter().filter(|t| **t == TileType::Floor).count();
    assert_eq!(left, 25);
}

#[test]
fn cellular_automata_build_a_cave() {
    let mut rng = RandomNumberGenerator::seeded(21);
    let mut b = CellularAutomataBuilder::new(2);
    assert!(b.map().tiles.iter().all(|t| *t == TileType::Wall));
    b.ititialize(&mut rng);
    // The border stays wall.
    for x in 0..MAP_WIDTH {
        assert_eq!(b.map().tiles[b.map().xy_idx(x, 0)], TileType::Wall);
        assert_eq!(b.map().tiles[b.map().xy_idx(x, MAP_HEIGHT - 1)], TileType::Wall);
    }
    let floors = b.map().tiles.iter().filter(|t| **t == TileType::Floor).count();
    assert!(floors > 0);
    b.update();
    for y in 0..MAP_HEIGHT {
        assert_eq!(b.map().tiles[b.map().xy_idx(0, y)], TileType::Wall);
    }
    b.add_to_noise_area(7, 100);
    b.add_to_noise_area(3, 101);
    b.add_to_noise_area(7, 102);
    assert_eq!(b.noise_areas(), &vec![(7, vec![100, 102]), (3, vec![101])]);
}

#[test]
fn simple_maps_place_disjoint_rooms() {
    let mut rng = RandomNumberGenerator::seeded(17);
    let mut b = SimpleMapBuilder::new(1);
    b.carve_out_rooms_and_corridors(&mut rng);
    assert!(!b.rooms.is_empty());
    for (i, r) in b.rooms.iter().enumerate() {
        assert!(r.x1 >= 0 && r.x2 <= MAP_WIDTH - 2 && r.y1 >= 0 && r.y2 <= MAP_HEIGHT - 2);
        for other in b.rooms[..i].iter() {
            assert!(!r.intersect(other));
        }
        for y in r.y1 + 1..=r.y2 {
            for x in r.x1 + 1..=r.x2 {
                assert_eq!(b.map.tiles[b.map.xy_idx(x, y)], TileType::Floor);
            }
        }
        let region = room_region(&b.map, *r);
        assert_eq!(region.len() as i32, (r.x2 - r.x1 - 1) * (r.y2 - r.y1 - 1));
    }
}

#[test]
fn terrain_geometries_are_rolled() {
    let mut rng = RandomNumberGenerator::seeded(1);
    for _ in 0..20 {
        let g = GrassGeometry::random(&mut rng);
        assert_ne!(g, GrassGeometry::NoGrass);
        let _w: WaterGeometry = WaterGeometry::random(&mut rng);
        let _s: StatueGeometry = StatueGeometry::random(&mut rng);
    }
    let _ = Point::new(1, 2);
}

#[test]
fn noise_areas_gather_floor_by_cell() {
    let mut b = CellularAutomataBuilder::new(1);
    let (i21, i31, i22) = {
        let m = b.map();
        (m.xy_idx(2, 1), m.xy_idx(3, 1), m.xy_idx(2, 2))
    };
    b.map_mut().tiles[i21] = TileType::Floor;
    b.map_mut().tiles[i31] = TileType::Floor;
    b.map_mut().tiles[i22] = TileType::Floor;
    let mut cells = vec![0i32; b.map().tiles.len()];
    cells[i31] = 5;
    // Border tiles are never filed, even when open.
    let corner = b.map().xy_idx(0, 0);
    b.map_mut().tiles[corner] = TileType::Floor;
    b.populate_noise_areas(&cells);
    assert_eq!(b.noise_areas(), &vec![(0, vec![i21, i22]), (5, vec![i31])]);
}

#[test]
fn geometries_follow_their_rolls() {
    assert_eq!(WaterGeometry::for_roll(1), WaterGeometry::NoWater);
    assert_eq!(WaterGeometry::for_roll(2), WaterGeometry::LargeLakes);
    assert_eq!(WaterGeometry::for_roll(3), WaterGeometry::SmallLakes);
    assert_eq!(GrassGeometry::for_roll(1), GrassGeometry::OnlyShort);
    assert_eq!(GrassGeometry::for_roll(2), GrassGeometry::SporadicTall);
    assert_eq!(GrassGeometry::for_roll(3), GrassGeometry::GroveTall);
    assert_eq!(StatueGeometry::for_roll(1), StatueGeometry::NoStatues);
    assert_eq!(StatueGeometry::for_roll(2), StatueGeometry::SomeStatues);
}

#[test]
fn seeding_rolls_above_48_give_floor() {
    assert_eq!(seed_tile(49), TileType::Floor);
    assert_eq!(seed_tile(100), TileType::Floor);
    assert_eq!(seed_tile(48), TileType::Wall);
    assert_eq!(seed_tile(1), TileType::Wall);
}
