use specs::{Builder, World, WorldExt};
use rogue::components::ai::MonsterBasicAI;
use rogue::components::basics::{Position, Viewshed};
use rogue::geometry::Point;
use rogue::map::{GameMap, TileType};
use rogue::systems::monster_ai::{
    any_monster_in_view, attack_spellcaster_decision, basic_ai_decision, can_act, cleric_decision,
    first_castable_spell, furthest_point, indices_of, is_next_to, l_infinity_distance_of,
    adjacent_position_on_draw, monster_to_buff, monster_to_heal, move_monster, random_adjacent_position, BasicAIAction, ClericAction, SeenMonster,
    SpellcasterAction,
};

fn basic(remaining: i32, wander: bool) -> MonsterBasicAI {
    MonsterBasicAI {
        only_follow_within_viewshed: false,
        no_visibility_wander: wander,
        chance_to_move_to_random_adjacent_tile: 0,
        escape_when_at_low_health: false,
        lost_visibility_keep_following_turns_max: 3,
        lost_visibility_keep_following_turns_remaining: remaining,
    }
}

#[test]
fn frozen_monsters_cannot_act() {
    assert!(can_act(false));
    assert!(!can_act(true));
}

#[test]
fn adjacency_and_distance() {
    let p = Point { x: 5, y: 5 };
    assert!(is_next_to(p, Point { x: 6, y: 6 }));
    assert!(is_next_to(p, p));
    assert!(!is_next_to(p, Point { x: 7, y: 5 }));
    assert_eq!(l_infinity_distance_of(p, Point { x: 8, y: 3 }), 3);
    assert_eq!(l_infinity_distance_of(p, Point { x: 4, y: 9 }), 4);
}

#[test]
fn basic_monsters_chase_and_forget() {
    let mut ai = basic(0, false);
    assert_eq!(basic_ai_decision(&mut ai, true, true), BasicAIAction::MeleeAttackPlayer);
    assert_eq!(ai.lost_visibility_keep_following_turns_remaining, 0);
    // Seeing the player restarts the memory.
    assert_eq!(basic_ai_decision(&mut ai, false, true), BasicAIAction::ChasePlayer);
    assert_eq!(ai.lost_visibility_keep_following_turns_remaining, 3);
    // Out of sight it keeps following for a few turns.
    for left in [2, 1, 0] {
        assert_eq!(basic_ai_decision(&mut ai, false, false), BasicAIAction::ChasePlayer);
        assert_eq!(ai.lost_visibility_keep_following_turns_remaining, left);
    }
    assert_eq!(basic_ai_decision(&mut ai, false, false), BasicAIAction::Idle);
    let mut wanderer = basic(0, true);
    assert_eq!(basic_ai_decision(&mut wanderer, false, false), BasicAIAction::Wander);
}

#[test]
fn spellcasters_cast_when_they_can() {
    let mut world = World::new();
    let caster = world.create_entity().build();
    let other = world.create_entity().build();
    let s1 = world.create_entity().build();
    let s2 = world.create_entity().build();
    let spells = vec![(s1, other, 3), (s2, caster, 0), (s1, caster, 1)];
    assert_eq!(first_castable_spell(&spells, caster), Some(s1));
    assert_eq!(first_castable_spell(&spells[..2].to_vec(), caster), None);
    assert!(matches!(attack_spellcaster_decision(true, true, 1, 3, Some(s2)), SpellcasterAction::CastAtPlayer { spell } if spell == s2));
    assert!(matches!(attack_spellcaster_decision(true, true, 5, 3, Some(s2)), SpellcasterAction::MeleeAttackPlayer));
    assert!(matches!(attack_spellcaster_decision(true, false, 5, 3, None), SpellcasterAction::KeepDistance));
    assert!(matches!(attack_spellcaster_decision(false, false, 1, 3, Some(s2)), SpellcasterAction::Idle));
}

#[test]
fn clerics_heal_the_badly_hurt() {
    let mut world = World::new();
    let cleric = world.create_entity().build();
    let hurt = world.create_entity().build();
    let fine = world.create_entity().build();
    let spell = world.create_entity().build();
    let seen = vec![Point { x: 1, y: 1 }, Point { x: 2, y: 2 }];
    let monsters = vec![
        SeenMonster { entity: cleric, pos: Point { x: 1, y: 1 }, hp: 1, max_hp: 10 },
        SeenMonster { entity: fine, pos: Point { x: 2, y: 2 }, hp: 5, max_hp: 10 },
        SeenMonster { entity: hurt, pos: Point { x: 9, y: 9 }, hp: 1, max_hp: 10 },
    ];
    assert_eq!(monster_to_heal(&monsters, &seen, cleric), None);
    assert!(any_monster_in_view(&monsters, &seen, cleric));
    let seen_all = vec![Point { x: 9, y: 9 }, Point { x: 2, y: 2 }];
    assert_eq!(monster_to_heal(&monsters, &seen_all, cleric), Some(hurt));
    assert!(matches!(cleric_decision(Some(spell), Some(hurt), true, true, true), ClericAction::CastAt { spell: s, target: t } if s == spell && t == hurt));
    assert!(matches!(cleric_decision(None, Some(hurt), true, true, true), ClericAction::MeleeAttackPlayer));
    assert!(matches!(cleric_decision(Some(spell), None, false, true, true), ClericAction::StayNearMonsters));
    assert!(matches!(cleric_decision(None, None, false, false, true), ClericAction::KeepDistanceFromPlayer));
    assert!(matches!(cleric_decision(None, None, false, false, false), ClericAction::Idle));
    assert!(!any_monster_in_view(&monsters[..1].to_vec(), &seen, cleric));
}

#[test]
fn furthest_point_from_the_player() {
    let from = Point { x: 0, y: 0 };
    let circle = vec![Point { x: 1, y: 1 }, Point { x: 3, y: 0 }, Point { x: 0, y: 3 }];
    assert_eq!(furthest_point(&circle, from), Point { x: 3, y: 0 });
    assert_eq!(furthest_point(&vec![from], from), Point { x: 0, y: 0 });
}

#[test]
fn monsters_move_and_carry_their_block() {
    let mut map = GameMap::new(1);
    let i = map.xy_idx(2, 2);
    map.tiles[i] = TileType::Floor;
    let i = map.xy_idx(3, 2);
    map.tiles[i] = TileType::Floor;
    map.populate_blocked();
    let i = map.xy_idx(2, 2);
    map.blocked[i] = true;
    let mut pos = Position { x: 2, y: 2 };
    let mut vs = Viewshed { visible_tiles: Vec::new(), range: 8, dirty: false };
    move_monster(&mut map, &mut pos, 3, 2, &mut vs);
    assert_eq!(pos, Position { x: 3, y: 2 });
    assert!(vs.dirty);
    assert!(!map.blocked[map.xy_idx(2, 2)]);
    assert!(map.blocked[map.xy_idx(3, 2)]);
    assert_eq!(indices_of(&map, &vec![Point { x: 3, y: 2 }, Point { x: 0, y: 1 }]), vec![163, 80]);
    // Walled in: a random step goes nowhere blocked.
    for _ in 0..20 {
        let (x, y) = random_adjacent_position(&map, Position { x: 5, y: 5 });
        assert_eq!((x, y), (5, 5));
    }
}

#[test]
fn enchanters_buff_the_first_unbuffed_ally_in_view() {
    let mut world = World::new();
    let enchanter = world.create_entity().build();
    let a = world.create_entity().build();
    let b = world.create_entity().build();
    let seen = vec![Point { x: 1, y: 1 }, Point { x: 2, y: 2 }, Point { x: 3, y: 3 }];
    let monsters = vec![
        SeenMonster { entity: enchanter, pos: Point { x: 1, y: 1 }, hp: 8, max_hp: 8 },
        SeenMonster { entity: a, pos: Point { x: 2, y: 2 }, hp: 8, max_hp: 8 },
        SeenMonster { entity: b, pos: Point { x: 3, y: 3 }, hp: 8, max_hp: 8 },
    ];
    assert_eq!(monster_to_buff(&monsters, &vec![false, false, false], &seen, enchanter), Some(a));
    assert_eq!(monster_to_buff(&monsters, &vec![false, true, false], &seen, enchanter), Some(b));
    assert_eq!(monster_to_buff(&monsters, &vec![false, true, true], &seen, enchanter), None);
    assert_eq!(monster_to_buff(&monsters, &vec![false, false, false], &seen[..1].to_vec(), enchanter), None);
}

#[test]
fn wanderers_step_onto_free_draws_only() {
    let mut map = GameMap::new(1);
    for i in 0..map.tiles.len() {
        map.tiles[i] = TileType::Floor;
    }
    let pos = Position { x: 5, y: 5 };
    assert_eq!(adjacent_position_on_draw(&map, pos, 1, 1), (6, 6));
    let i = map.xy_idx(4, 5);
    map.blocked[i] = true;
    assert_eq!(adjacent_position_on_draw(&map, pos, -1, 0), (5, 5));
    assert_eq!(adjacent_position_on_draw(&map, pos, 0, 0), (5, 5));
}
