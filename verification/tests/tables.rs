use rogue::spawn_tables::{acceptable_distance, spawn_position_acceptable};
use rltk::RandomNumberGenerator;
use rogue::random_table::{RandomEntry, RandomTable};
use rogue::spawn_tables::{
    get_monster_spawn_table, item_random_table, item_spawn_point, monster_random_table,
    pop_spawn_location, place_monsters, random_item, sample_monster_types, spawn_parameters,
    ItemType, MonsterSpawnBound, MonsterType, SpawnableTiles, drops_orb, orb_drop_on_roll, item_spawn_on_draw, CHANCE_DROP_ORB,
};
use rogue::geometry::Point;

fn abc_table() -> RandomTable<char> {
    RandomTable::new().insert('a', 2).insert('b', 3).insert('c', 5)
}

#[test]
fn random_entry_keeps_item_and_weight() {
    let e = RandomEntry::new(7u8, 3);
    let _ = e;
}

#[test]
fn empty_table_rolls_nothing() {
    let t: RandomTable<char> = RandomTable::new();
    assert_eq!(t.roll_with(0), None);
    let mut rng = RandomNumberGenerator::seeded(1);
    assert_eq!(t.roll(&mut rng), None);
}

#[test]
fn roll_selects_by_cumulative_weight() {
    let t = abc_table();
    // Rolls 0..2 land on 'a', 2..5 on 'b', 5..10 on 'c'.
    assert_eq!(t.roll_with(0), Some('a'));
    assert_eq!(t.roll_with(1), Some('a'));
    assert_eq!(t.roll_with(2), Some('b'));
    assert_eq!(t.roll_with(4), Some('b'));
    assert_eq!(t.roll_with(5), Some('c'));
    assert_eq!(t.roll_with(9), Some('c'));
    assert_eq!(t.roll_with(10), None);
}

#[test]
fn zero_weight_entries_are_never_rolled() {
    let t = RandomTable::new().insert('x', 0).insert('y', 4).insert('z', 0);
    for r in 0..4 {
        assert_eq!(t.roll_with(r), Some('y'));
    }
}

#[test]
fn roll_with_generator_stays_in_table() {
    let t = abc_table();
    let mut rng = RandomNumberGenerator::seeded(42);
    for _ in 0..200 {
        let r = t.roll(&mut rng);
        assert!(matches!(r, Some('a') | Some('b') | Some('c')));
    }
}

#[test]
fn monster_spawn_table_lists_all_types() {
    let table = get_monster_spawn_table();
    assert_eq!(table.len(), 13);
    assert_eq!(table[0].0, MonsterType::Rat);
    assert_eq!(table[12].0, MonsterType::Orc);
    let orc = spawn_parameters(MonsterType::Orc);
    assert_eq!((orc.difficulty, orc.min_depth, orc.max_depth, orc.chance), (4, 5, 12, 25));
    let snake = spawn_parameters(MonsterType::Snake);
    assert_eq!(snake.bound, MonsterSpawnBound::Grass);
}

#[test]
fn monster_table_filters_by_depth_and_terrain() {
    // Floor 1 without grass or water: rat, bat and basic goblin.
    let t = monster_random_table(1, false, false);
    for r in 0..25 {
        assert_eq!(t.roll_with(r), Some((MonsterType::Rat, MonsterSpawnBound::Anywhere)));
    }
    assert_eq!(t.roll_with(25), Some((MonsterType::Bat, MonsterSpawnBound::Anywhere)));
    assert_eq!(t.roll_with(50), Some((MonsterType::GoblinBasic, MonsterSpawnBound::Anywhere)));
    assert_eq!(t.roll_with(75), None);
    // With grass and water, snakes and piranhas join.
    let t = monster_random_table(1, true, true);
    assert_eq!(t.roll_with(50), Some((MonsterType::Snake, MonsterSpawnBound::Grass)));
    assert_eq!(t.roll_with(75), Some((MonsterType::Piranha, MonsterSpawnBound::Water)));
    // Floor 12: only jellies and orcs.
    let t = monster_random_table(12, true, true);
    assert_eq!(t.roll_with(0), Some((MonsterType::OrangeJelly, MonsterSpawnBound::Anywhere)));
    assert_eq!(t.roll_with(10), Some((MonsterType::BlueJelly, MonsterSpawnBound::Anywhere)));
    assert_eq!(t.roll_with(20), Some((MonsterType::Orc, MonsterSpawnBound::Anywhere)));
    assert_eq!(t.roll_with(45), None);
}

#[test]
fn monster_sampling_meets_the_quota() {
    let mut rng = RandomNumberGenerator::seeded(7);
    for depth in 1..=12 {
        let monsters = sample_monster_types(&mut rng, depth, false, false);
        let quota = 10 + (5 * depth) / 2;
        let total: i32 = monsters.iter().map(|(m, _)| spawn_parameters(*m).difficulty).sum();
        let last = spawn_parameters(monsters[monsters.len() - 1].0).difficulty;
        assert!(total > quota);
        assert!(total - last <= quota);
        for (m, _) in monsters.iter() {
            let p = spawn_parameters(*m);
            assert!(p.min_depth <= depth && depth <= p.max_depth);
            assert_eq!(p.bound, MonsterSpawnBound::Anywhere);
        }
    }
}

#[test]
fn item_table_weights_grow_with_depth() {
    let t = item_random_table(0);
    // Turnip 8, pomegranate 0, health potion 4, ...
    assert_eq!(t.roll_with(0), Some(ItemType::Turnip));
    assert_eq!(t.roll_with(7), Some(ItemType::Turnip));
    assert_eq!(t.roll_with(8), Some(ItemType::HealthPotion));
    assert_eq!(t.roll_with(20), Some(ItemType::NoItem));
    assert_eq!(t.roll_with(94), Some(ItemType::NoItem));
    assert_eq!(t.roll_with(95), None);
    let t = item_random_table(2);
    assert_eq!(t.roll_with(10), Some(ItemType::Pomegranate));
    assert_eq!(t.roll_with(122), Some(ItemType::NoItem));
    assert_eq!(t.roll_with(123), None);
    let mut rng = RandomNumberGenerator::seeded(3);
    for _ in 0..50 {
        let _item = random_item(&mut rng, 3);
    }
}

#[test]
fn item_spawn_point_comes_from_the_region() {
    let mut rng = RandomNumberGenerator::seeded(11);
    assert_eq!(item_spawn_point(&mut rng, &Vec::new()), None);
    let region = vec![5usize, 9, 13];
    for _ in 0..100 {
        if let Some(i) = item_spawn_point(&mut rng, &region) {
            assert!(region.contains(&i));
        }
    }
}

fn spawnable(n: usize) -> SpawnableTiles {
    SpawnableTiles {
        ok_to_spawn: vec![true; n],
        grass: vec![false; n],
        shallow_water: vec![false; n],
        deep_water: vec![false; n],
    }
}

#[test]
fn spawn_locations_are_popped_from_the_end() {
    let mut tiles = spawnable(16);
    tiles.ok_to_spawn[6] = false;
    tiles.grass[1] = true;
    // Width 4: (2,1) is index 6, (1,0) index 1, (3,3) index 15.
    let mut buffer = vec![Point { x: 1, y: 0 }, Point { x: 3, y: 3 }, Point { x: 2, y: 1 }];
    let p = pop_spawn_location(&mut buffer, &tiles, 4, MonsterSpawnBound::Anywhere);
    assert_eq!(p, Some(Point { x: 3, y: 3 }));
    assert_eq!(buffer, vec![Point { x: 1, y: 0 }]);
    let mut buffer = vec![Point { x: 1, y: 0 }, Point { x: 3, y: 3 }];
    let p = pop_spawn_location(&mut buffer, &tiles, 4, MonsterSpawnBound::Grass);
    assert_eq!(p, Some(Point { x: 1, y: 0 }));
    assert!(buffer.is_empty());
    let mut buffer = vec![Point { x: 3, y: 3 }];
    assert_eq!(pop_spawn_location(&mut buffer, &tiles, 4, MonsterSpawnBound::Water), None);
}

#[test]
fn placed_monsters_take_distinct_tiles() {
    let mut tiles = spawnable(16);
    let spawns = vec![
        (MonsterType::Rat, MonsterSpawnBound::Anywhere),
        (MonsterType::Bat, MonsterSpawnBound::Anywhere),
    ];
    // The same location twice: the second monster must take another one.
    let mut general = vec![Point { x: 0, y: 2 }, Point { x: 1, y: 1 }, Point { x: 1, y: 1 }];
    let mut grass = Vec::new();
    let mut water = Vec::new();
    let placed = place_monsters(&spawns, &mut general, &mut grass, &mut water, &mut tiles, 4).unwrap();
    assert_eq!(placed, vec![(MonsterType::Rat, Point { x: 1, y: 1 }), (MonsterType::Bat, Point { x: 0, y: 2 })]);
    assert!(!tiles.ok_to_spawn[5]);
    assert!(!tiles.ok_to_spawn[8]);
    // Nothing left for a third monster.
    let more = vec![(MonsterType::Rat, MonsterSpawnBound::Anywhere)];
    assert_eq!(place_monsters(&more, &mut general, &mut grass, &mut water, &mut tiles, 4), None);
}

#[test]
fn start_tiles_keep_away_from_monsters() {
    assert_eq!(acceptable_distance(0), 15);
    assert_eq!(acceptable_distance(4), 15);
    assert_eq!(acceptable_distance(5), 14);
    assert_eq!(acceptable_distance(80), -1);
    let monsters = vec![Point { x: 10, y: 10 }];
    // Exactly 15 tiles away passes on the first try; 14 does not.
    assert!(spawn_position_acceptable(0, Point { x: 25, y: 10 }, &monsters, true, false));
    assert!(!spawn_position_acceptable(0, Point { x: 24, y: 10 }, &monsters, true, false));
    assert!(spawn_position_acceptable(5, Point { x: 24, y: 10 }, &monsters, true, false));
    // (9, 12) from (0, 0) is exactly 15 away.
    assert!(spawn_position_acceptable(0, Point { x: 19, y: 22 }, &monsters, true, false));
    // Spawn flags are checked whatever the distance.
    assert!(!spawn_position_acceptable(80, Point { x: 10, y: 10 }, &monsters, false, false));
    assert!(!spawn_position_acceptable(80, Point { x: 10, y: 10 }, &monsters, true, true));
    assert!(spawn_position_acceptable(80, Point { x: 10, y: 10 }, &monsters, true, false));
    assert!(spawn_position_acceptable(0, Point { x: 10, y: 10 }, &vec![], true, false));
}

#[test]
fn orbs_drop_on_a_low_enough_roll() {
    assert_eq!(CHANCE_DROP_ORB, 20);
    assert!(orb_drop_on_roll(20));
    assert!(orb_drop_on_roll(1));
    assert!(!orb_drop_on_roll(21));
    let mut rng = RandomNumberGenerator::seeded(3);
    let drops = (0..200).filter(|_| drops_orb(&mut rng)).count();
    assert!(drops > 0 && drops < 200);
}

#[test]
fn items_spawn_on_a_quarter_of_the_rolls() {
    let region = vec![7usize, 9, 11];
    assert_eq!(item_spawn_on_draw(&region, 25, 2), Some(11));
    assert_eq!(item_spawn_on_draw(&region, 1, 0), Some(7));
    assert_eq!(item_spawn_on_draw(&region, 26, 1), None);
    assert_eq!(item_spawn_on_draw(&region, 100, 1), None);
}
