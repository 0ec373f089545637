use specs::{Builder, World, WorldExt};
use rogue::components::magic::BlessingOrbBag;
use rogue::geometry::Point;
use rogue::run_state::{
    blessing_available, deleted_when_descending, is_clock_turn, is_entitys_turn, main_menu_result, tick,
    HelpMenuResult, MainMenuResult, MainMenuSelection, MenuKey, MenuResult, RunState, TargetingResult,
    TargetingVerb, TickAction, TickEvent, TargetingKey, keyboard_targeting_result, mouse_targeting_result,
    spellbook_result, inventory_result, descend,
};

type State = RunState<u8>;

fn step(state: State, event: TickEvent<u8>) -> (State, Option<State>, Vec<TickAction>) {
    let s = tick(state, None, event);
    (s.state, s.next_state, s.actions)
}

#[test]
fn turn_guards() {
    let p: State = RunState::PlayerTurn;
    let m: State = RunState::MonsterTurn;
    let h: State = RunState::HazardTurn;
    assert!(is_entitys_turn(&p, true, false, false));
    assert!(!is_entitys_turn(&p, false, true, false));
    assert!(is_entitys_turn(&m, false, true, false));
    assert!(is_entitys_turn(&h, false, false, true));
    assert!(!is_entitys_turn(&RunState::<u8>::AwaitingInput, true, true, true));
    assert!(is_clock_turn(&p, true));
    assert!(is_clock_turn(&m, false));
    assert!(!is_clock_turn(&m, true));
}

#[test]
fn the_turns_cycle_without_animations() {
    let (s, _, a) = step(RunState::PreGame, TickEvent::Nothing);
    assert!(matches!(s, RunState::HazardTurn));
    assert!(a.is_empty());
    let (s, _, a) = step(s, TickEvent::HazardsRan { animation_alive: false, blessing: false });
    assert!(matches!(s, RunState::AwaitingInput));
    assert!(matches!(a.as_slice(), [TickAction::CleanUpAndSynchronize]));
    let (s, _, _) = step(s, TickEvent::Input { next: RunState::PlayerTurn });
    assert!(matches!(s, RunState::PlayerTurn));
    let (s, _, _) = step(s, TickEvent::SystemsRan { animation_alive: false });
    assert!(matches!(s, RunState::MonsterTurn));
    let (s, _, _) = step(s, TickEvent::SystemsRan { animation_alive: false });
    assert!(matches!(s, RunState::UpkeepTrun));
    let (s, _, _) = step(s, TickEvent::Nothing);
    assert!(matches!(s, RunState::HazardTurn));
}

#[test]
fn animations_delay_the_next_state() {
    let s = tick(RunState::<u8>::PlayerTurn, None, TickEvent::SystemsRan { animation_alive: true });
    assert!(matches!(s.state, RunState::PlayingAnimation));
    assert!(matches!(s.next_state, Some(RunState::MonsterTurn)));
    assert!(s.actions.is_empty());
    let again = tick(s.state, s.next_state, TickEvent::SystemsRan { animation_alive: true });
    assert!(matches!(again.state, RunState::PlayingAnimation));
    let done = tick(again.state, again.next_state, TickEvent::SystemsRan { animation_alive: false });
    assert!(matches!(done.state, RunState::MonsterTurn));
    assert!(matches!(done.actions.as_slice(), [TickAction::CleanUpAndSynchronize]));
}

#[test]
fn blessings_are_offered_after_the_hazards() {
    let (s, _, a) = step(RunState::HazardTurn, TickEvent::HazardsRan { animation_alive: false, blessing: true });
    assert!(matches!(s, RunState::ShowBlessingSelectionMenu));
    assert!(matches!(a.as_slice(), [TickAction::CreateOfferedBlessings, TickAction::CleanUpAndSynchronize]));
    let mut world = World::new();
    let blessing = world.create_entity().build();
    let menu = |result| TickEvent::Menu { result, targeting: None, untargeted: false, equipped: false };
    let (s2, _, a) = step(s, menu(MenuResult::Selected { thing: blessing }));
    assert!(matches!(s2, RunState::PlayerTurn));
    assert!(matches!(a.as_slice(), [TickAction::ReceiveBlessing { thing }, TickAction::CleanUpOfferedBlessings] if *thing == blessing));
    let (s3, _, a) = step(s, menu(MenuResult::Cancel));
    assert!(matches!(s3, RunState::AwaitingInput));
    assert!(matches!(a.as_slice(), [TickAction::CleanUpOfferedBlessings]));
    assert!(matches!(step(s, menu(MenuResult::NoResponse)).0, RunState::ShowBlessingSelectionMenu));
}

#[test]
fn menus_lead_to_targeting_or_the_players_turn() {
    let mut world = World::new();
    let potion = world.create_entity().build();
    let menu = |result, targeting, untargeted, equipped| TickEvent::Menu { result, targeting, untargeted, equipped };
    let (s, _, a) = step(RunState::ShowUseInventory, menu(MenuResult::Selected { thing: potion }, None, false, false));
    assert!(matches!(s, RunState::PlayerTurn));
    assert!(matches!(a.as_slice(), [TickAction::UseUntargeted { thing }] if *thing == potion));
    let (s, _, a) = step(RunState::ShowEquipInventory, menu(MenuResult::Selected { thing: potion }, None, false, true));
    assert!(matches!(s, RunState::PlayerTurn));
    assert!(matches!(a.as_slice(), [TickAction::RemoveItem { .. }]));
    let (s, _, _) = step(RunState::ShowThrowInventory, menu(MenuResult::Selected { thing: potion }, Some(7), false, false));
    assert!(matches!(s, RunState::ShowTargetingKeyboard { targeting: 7, verb: TargetingVerb::Thrown, current: None, .. }));
    let (s, _, _) = step(RunState::ShowSpellbook, menu(MenuResult::Selected { thing: potion }, Some(3), false, false));
    assert!(matches!(s, RunState::ShowTargetingKeyboard { targeting: 3, verb: TargetingVerb::Cast, .. }));
    let (s, _, _) = step(RunState::ShowSpellbook, menu(MenuResult::Cancel, None, false, false));
    assert!(matches!(s, RunState::AwaitingInput));
}

#[test]
fn targeting_moves_switches_and_selects() {
    let mut world = World::new();
    let potion = world.create_entity().build();
    let kb: State = RunState::ShowTargetingKeyboard { targeting: 1, verb: TargetingVerb::Thrown, thing: potion, current: None };
    let (s, _, _) = step(kb, TickEvent::Targeting { result: TargetingResult::MoveCursor { pos: Point { x: 4, y: 4 } } });
    assert!(matches!(s, RunState::ShowTargetingKeyboard { current: Some(Point { x: 4, y: 4 }), .. }));
    let (s, _, _) = step(s, TickEvent::Targeting { result: TargetingResult::SwitchModality });
    assert!(matches!(s, RunState::ShowTargetingMouse { targeting: 1, .. }));
    let (s, _, a) = step(s, TickEvent::Targeting { result: TargetingResult::Selected { pos: Point { x: 2, y: 3 } } });
    assert!(matches!(s, RunState::PlayerTurn));
    assert!(matches!(a.as_slice(), [TickAction::UseTargeted { thing, target, verb: TargetingVerb::Thrown }] if *thing == potion && *target == Point { x: 2, y: 3 }));
    let (s, _, _) = step(kb, TickEvent::Targeting { result: TargetingResult::Cancel });
    assert!(matches!(s, RunState::AwaitingInput));
}

#[test]
fn main_menu_and_help_and_descending() {
    let (s, _, a) = step(RunState::MainMenu { current: MainMenuSelection::LoadGame }, TickEvent::MainMenu { result: MainMenuResult::Selected { selected: MainMenuSelection::LoadGame } });
    assert!(matches!(s, RunState::AwaitingInput));
    assert!(matches!(a.as_slice(), [TickAction::LoadGame]));
    let (s, _, _) = step(RunState::MainMenu { current: MainMenuSelection::NewGame }, TickEvent::MainMenu { result: MainMenuResult::Selected { selected: MainMenuSelection::NewGame } });
    assert!(matches!(s, RunState::PreGame));
    let (s, _, a) = step(RunState::SaveGame, TickEvent::Nothing);
    assert!(matches!(s, RunState::MainMenu { current: MainMenuSelection::LoadGame }));
    assert!(matches!(a.as_slice(), [TickAction::SaveGame]));
    let (s, _, _) = step(RunState::ShowHelpMenu { details: None }, TickEvent::Help { result: HelpMenuResult::Selected { selected: 4 }, has_key_codes: true });
    assert!(matches!(s, RunState::ShowHelpMenu { details: Some(4) }));
    let (s, _, _) = step(s, TickEvent::Help { result: HelpMenuResult::Cancel, has_key_codes: false });
    assert!(matches!(s, RunState::ShowHelpMenu { details: None }));
    let (s, _, _) = step(s, TickEvent::Help { result: HelpMenuResult::Cancel, has_key_codes: false });
    assert!(matches!(s, RunState::AwaitingInput));
    let (s, _, a) = step(RunState::NextLevel, TickEvent::Nothing);
    assert!(matches!(s, RunState::PreGame));
    assert!(matches!(a.as_slice(), [TickAction::DescendLevel]));
    let s = tick(RunState::<u8>::MapGeneration, Some(RunState::PreGame), TickEvent::MapGeneration { done: true });
    assert!(matches!(s.state, RunState::PreGame));
}

#[test]
fn main_menu_keys_move_the_selection() {
    assert_eq!(main_menu_result(MainMenuSelection::NewGame, Some(MenuKey::Down), true), MainMenuResult::NoSelection { current: MainMenuSelection::LoadGame });
    assert_eq!(main_menu_result(MainMenuSelection::NewGame, Some(MenuKey::Down), false), MainMenuResult::NoSelection { current: MainMenuSelection::Quit });
    assert_eq!(main_menu_result(MainMenuSelection::Quit, Some(MenuKey::Up), false), MainMenuResult::NoSelection { current: MainMenuSelection::NewGame });
    assert_eq!(main_menu_result(MainMenuSelection::NewGame, Some(MenuKey::Up), true), MainMenuResult::NoSelection { current: MainMenuSelection::Quit });
    assert_eq!(main_menu_result(MainMenuSelection::LoadGame, Some(MenuKey::Escape), true), MainMenuResult::NoSelection { current: MainMenuSelection::Quit });
    assert_eq!(main_menu_result(MainMenuSelection::LoadGame, Some(MenuKey::Return), true), MainMenuResult::Selected { selected: MainMenuSelection::LoadGame });
    assert_eq!(main_menu_result(MainMenuSelection::LoadGame, None, true), MainMenuResult::NoSelection { current: MainMenuSelection::LoadGame });
}

#[test]
fn blessing_needs_the_tile_and_the_orbs() {
    let tiles = vec![Point { x: 3, y: 3 }];
    assert!(blessing_available(&tiles, Point { x: 3, y: 3 }, &BlessingOrbBag { count: 4 }));
    assert!(!blessing_available(&tiles, Point { x: 3, y: 3 }, &BlessingOrbBag { count: 3 }));
    assert!(!blessing_available(&tiles, Point { x: 2, y: 3 }, &BlessingOrbBag { count: 9 }));
}

#[test]
fn descending_keeps_the_player_and_its_things() {
    let mut world = World::new();
    let player = world.create_entity().build();
    let other = world.create_entity().build();
    assert!(!deleted_when_descending(true, None, None, None, player));
    assert!(!deleted_when_descending(false, Some(player), None, None, player));
    assert!(!deleted_when_descending(false, None, Some(player), None, player));
    assert!(!deleted_when_descending(false, None, None, Some(player), player));
    assert!(deleted_when_descending(false, Some(other), None, None, player));
    assert!(deleted_when_descending(false, None, None, None, player));
}

#[test]
fn targeting_keys_move_and_choose() {
    let c = Point { x: 5, y: 7 };
    assert_eq!(keyboard_targeting_result(c, None), TargetingResult::NoResponse);
    assert_eq!(keyboard_targeting_result(c, Some(TargetingKey::Escape)), TargetingResult::Cancel);
    assert_eq!(keyboard_targeting_result(c, Some(TargetingKey::Tab)), TargetingResult::SwitchModality);
    assert_eq!(keyboard_targeting_result(c, Some(TargetingKey::Return)), TargetingResult::Selected { pos: c });
    assert_eq!(
        keyboard_targeting_result(c, Some(TargetingKey::Left)),
        TargetingResult::MoveCursor { pos: Point { x: 4, y: 7 } }
    );
    assert_eq!(
        keyboard_targeting_result(c, Some(TargetingKey::Right)),
        TargetingResult::MoveCursor { pos: Point { x: 6, y: 7 } }
    );
    assert_eq!(
        keyboard_targeting_result(c, Some(TargetingKey::Up)),
        TargetingResult::MoveCursor { pos: Point { x: 5, y: 6 } }
    );
    assert_eq!(
        keyboard_targeting_result(c, Some(TargetingKey::Down)),
        TargetingResult::MoveCursor { pos: Point { x: 5, y: 8 } }
    );
    assert_eq!(keyboard_targeting_result(c, Some(TargetingKey::Other)), TargetingResult::NoResponse);
}

#[test]
fn mouse_clicks_select_only_in_range() {
    let m = Point { x: 3, y: 3 };
    assert_eq!(mouse_targeting_result(m, true, true, None), TargetingResult::Selected { pos: m });
    assert_eq!(mouse_targeting_result(m, false, true, None), TargetingResult::Cancel);
    assert_eq!(mouse_targeting_result(m, true, false, None), TargetingResult::NoResponse);
    assert_eq!(mouse_targeting_result(m, true, false, Some(TargetingKey::Tab)), TargetingResult::SwitchModality);
    assert_eq!(mouse_targeting_result(m, false, false, Some(TargetingKey::Escape)), TargetingResult::Cancel);
    assert_eq!(mouse_targeting_result(m, true, true, Some(TargetingKey::Escape)), TargetingResult::Selected { pos: m });
}

#[test]
fn the_spell_menu_casts_only_charged_spells() {
    let mut world = World::new();
    let fireball = world.create_entity().build();
    let blink = world.create_entity().build();
    let spells = vec![(fireball, 2), (blink, 0)];
    assert!(matches!(spellbook_result(true, None, &spells), MenuResult::Cancel));
    assert!(matches!(spellbook_result(false, Some(0), &spells), MenuResult::Selected { thing } if thing == fireball));
    // A spell with no charge left cannot be picked.
    assert!(matches!(spellbook_result(false, Some(1), &spells), MenuResult::NoResponse));
    assert!(matches!(spellbook_result(false, Some(2), &spells), MenuResult::NoResponse));
    assert!(matches!(spellbook_result(false, None, &spells), MenuResult::NoResponse));
}

#[test]
fn item_menus_select_the_lettered_thing() {
    let mut world = World::new();
    let a = world.create_entity().build();
    let b = world.create_entity().build();
    let items = vec![a, b];
    assert!(matches!(inventory_result(true, Some(0), &items), MenuResult::Cancel));
    assert!(matches!(inventory_result(false, Some(1), &items), MenuResult::Selected { thing } if thing == b));
    assert!(matches!(inventory_result(false, Some(2), &items), MenuResult::NoResponse));
    assert!(matches!(inventory_result(false, None, &items), MenuResult::NoResponse));
}

#[test]
fn descending_goes_one_level_deeper() {
    let mut log = rogue::gamelog::GameLog::new();
    assert_eq!(descend(3, &mut log), 4);
    assert_eq!(log.entries.last().unwrap(), "You descend.");
    assert_eq!(log.entries.len(), 2);
}
