use vstd::prelude::*;
use specs::Entity;
use crate::geometry::Point;
use crate::components::basics::contains_point;
use crate::components::magic::{BlessingOrbBag, ORBS_NEEDED_FOR_BLESSING};
use crate::entity::same_entity;
use crate::gamelog::GameLog;

verus! {

//--------------------------------------------------------------------
// The game's state machine. From the main menu a new game goes to PreGame,
// and then cycles
//
//   HazardTurn -> AwaitingInput -> (menus) -> PlayerTurn -> MonsterTurn
//     -> UpkeepTrun -> HazardTurn
//
// with a detour through PlayingAnimation whenever a turn started an
// animation, and through ShowBlessingSelectionMenu when the player stands on
// a blessing tile with enough orbs. Descending resets the machine to PreGame.
//--------------------------------------------------------------------

#[derive(PartialEq, Eq, Structural, Copy, Clone, Debug)]
pub enum MainMenuSelection {
    NewGame,
    LoadGame,
    Quit,
}

#[derive(PartialEq, Eq, Structural, Copy, Clone, Debug)]
pub enum MainMenuResult {
    NoSelection { current: MainMenuSelection },
    Selected { selected: MainMenuSelection },
}

/// Whether an item is thrown or a spell is cast at its target.
#[derive(PartialEq, Eq, Structural, Copy, Clone, Debug)]
pub enum TargetingVerb {
    Thrown,
    Cast,
}

/// The answer of an item or spell menu this frame.
#[derive(Copy, Clone)]
pub enum MenuResult {
    Cancel,
    NoResponse,
    Selected { thing: Entity },
}

/// The answer of the targeting screen this frame.
#[derive(PartialEq, Eq, Structural, Copy, Clone, Debug)]
pub enum TargetingResult {
    Cancel,
    NoResponse,
    SwitchModality,
    Selected { pos: Point },
    MoveCursor { pos: Point },
}

/// The answer of the help menu this frame; `Selected` names the command.
#[derive(Copy, Clone)]
pub enum HelpMenuResult {
    Cancel,
    NoSelection { current: usize },
    Selected { selected: usize },
}

/// The states of the game. `T` is what the targeting screens need to draw
/// their range and area (the state machine only carries it along).
#[derive(Copy, Clone)]
pub enum RunState<T> {
    MainMenu { current: MainMenuSelection },
    MapGeneration,
    SaveGame,
    PreGame,
    HazardTurn,
    AwaitingInput,
    PlayerTurn,
    MonsterTurn,
    UpkeepTrun,
    /// The help menu, on its list of commands or on the details of the
    /// command with the given index.
    ShowHelpMenu { details: Option<usize> },
    ShowBlessingSelectionMenu,
    ShowUseInventory,
    ShowThrowInventory,
    ShowEquipInventory,
    ShowSpellbook,
    ShowTargetingMouse { targeting: T, verb: TargetingVerb, thing: Entity },
    ShowTargetingKeyboard { targeting: T, verb: TargetingVerb, thing: Entity, current: Option<Point> },
    PlayingAnimation,
    NextLevel,
}

/// Whether an entity acts in this state: the player on the player's turn,
/// monsters on the monsters' turn, hazards on the hazards' turn.
pub open spec fn acts_this_turn<T>(state: RunState<T>, is_player: bool, is_monster: bool, is_hazard: bool) -> bool {
    ||| (state is PlayerTurn && is_player)
    ||| (state is MonsterTurn && is_monster)
    ||| (state is HazardTurn && is_hazard)
}

/// The turn guard of the systems that act for players, monsters and hazards.
pub fn is_entitys_turn<T>(state: &RunState<T>, is_player: bool, is_monster: bool, is_hazard: bool) -> (b: bool)
    ensures
        b == acts_this_turn(*state, is_player, is_monster, is_hazard),
{
    match state {
        RunState::PlayerTurn => is_player,
        RunState::MonsterTurn => is_monster,
        RunState::HazardTurn => is_hazard,
        _ => false,
    }
}

/// The turn guard of the clocks that tick for the player on the player's
/// turn and for every other entity on the monsters' turn.
pub fn is_clock_turn<T>(state: &RunState<T>, is_player: bool) -> (b: bool)
    ensures
        b == ((*state is PlayerTurn && is_player) || (*state is MonsterTurn && !is_player)),
{
    match state {
        RunState::PlayerTurn => is_player,
        RunState::MonsterTurn => !is_player,
        _ => false,
    }
}

/// What the game found while running the current state this frame, as the
/// state machine needs it.
#[derive(Copy, Clone)]
pub enum TickEvent<T> {
    /// Nothing to report (states whose work has no outcome).
    Nothing,
    /// The main menu's answer.
    MainMenu { result: MainMenuResult },
    /// Whether the animation of the map generation is over (it always is
    /// when the generation is not shown).
    MapGeneration { done: bool },
    /// The turn's systems ran; whether an animation is playing.
    SystemsRan { animation_alive: bool },
    /// The hazards' turn ran; whether an animation is playing, and whether the
    /// player stands on a blessing tile with enough orbs for a blessing.
    HazardsRan { animation_alive: bool, blessing: bool },
    /// The state the player's input leads to.
    Input { next: RunState<T> },
    /// A menu's answer. For a selected thing: how it is targeted (if it is),
    /// whether it is used untargeted, and whether the player has it equipped.
    Menu { result: MenuResult, targeting: Option<T>, untargeted: bool, equipped: bool },
    /// The targeting screen's answer.
    Targeting { result: TargetingResult },
    /// The help menu's answer, and whether the selected command has keys.
    Help { result: HelpMenuResult, has_key_codes: bool },
}

/// What the game does once the state machine has decided.
#[derive(Copy, Clone)]
pub enum TickAction {
    LoadGame,
    SaveGame,
    Quit,
    /// Run the clean-up and synchronization systems.
    CleanUpAndSynchronize,
    /// Offer the blessings of the tile the player stands on.
    CreateOfferedBlessings,
    /// Grant the chosen blessing, pay its orbs, and take it off the offer.
    ReceiveBlessing { thing: Entity },
    /// Remove the blessings on offer.
    CleanUpOfferedBlessings,
    /// The player uses the thing (untargeted).
    UseUntargeted { thing: Entity },
    /// The player takes off the thing.
    RemoveItem { thing: Entity },
    /// The player puts on the thing.
    EquipItem { thing: Entity },
    /// The player throws or casts the thing at a position.
    UseTargeted { thing: Entity, target: Point, verb: TargetingVerb },
    /// Leave the floor for a new one, one level deeper.
    DescendLevel,
}

/// The outcome of one frame of the state machine.
pub struct Step<T> {
    pub state: RunState<T>,
    /// Where to go once the animation being played is over.
    pub next_state: Option<RunState<T>>,
    pub actions: Vec<TickAction>,
}

/// The state after a turn whose systems ran: a playing animation is watched
/// first, and the game then goes on to `after`.
pub open spec fn after_turn<T>(alive: bool, next_state: Option<RunState<T>>, after: RunState<T>) -> (RunState<T>, Option<RunState<T>>, Seq<TickAction>) {
    if alive {
        (RunState::PlayingAnimation, Some(after), seq![])
    } else {
        (after, next_state, seq![TickAction::CleanUpAndSynchronize])
    }
}

/// The transition of the state machine: the new state, the state to go to
/// after an animation, and the actions to carry out, for each state and
/// what was found while running it. An event that does not belong to the
/// state leaves everything as it is.
pub open spec fn transition<T>(state: RunState<T>, next_state: Option<RunState<T>>, event: TickEvent<T>) -> (RunState<T>, Option<RunState<T>>, Seq<TickAction>) {
    match (state, event) {
        (RunState::MainMenu { .. }, TickEvent::MainMenu { result }) => match result {
            MainMenuResult::NoSelection { current } => (RunState::MainMenu { current }, next_state, seq![]),
            MainMenuResult::Selected { selected } => match selected {
                MainMenuSelection::NewGame => (RunState::PreGame, next_state, seq![]),
                MainMenuSelection::LoadGame => (RunState::AwaitingInput, next_state, seq![TickAction::LoadGame]),
                MainMenuSelection::Quit => (state, next_state, seq![TickAction::Quit]),
            },
        },
        (RunState::MapGeneration, TickEvent::MapGeneration { done }) => if done {
            (next_state.unwrap(), next_state, seq![])
        } else {
            (state, next_state, seq![])
        },
        (RunState::SaveGame, _) => (RunState::MainMenu { current: MainMenuSelection::LoadGame }, next_state, seq![TickAction::SaveGame]),
        (RunState::PreGame, _) => (RunState::HazardTurn, next_state, seq![]),
        (RunState::AwaitingInput, TickEvent::Input { next }) => (next, next_state, seq![]),
        (RunState::PlayingAnimation, TickEvent::SystemsRan { animation_alive }) => if animation_alive {
            (state, next_state, seq![])
        } else {
            (next_state.unwrap(), next_state, seq![TickAction::CleanUpAndSynchronize])
        },
        (RunState::PlayerTurn, TickEvent::SystemsRan { animation_alive }) => after_turn(animation_alive, next_state, RunState::MonsterTurn),
        (RunState::MonsterTurn, TickEvent::SystemsRan { animation_alive }) => after_turn(animation_alive, next_state, RunState::UpkeepTrun),
        (RunState::HazardTurn, TickEvent::HazardsRan { animation_alive, blessing }) => {
            let after = if blessing { RunState::ShowBlessingSelectionMenu } else { RunState::AwaitingInput };
            let r = after_turn(animation_alive, next_state, after);
            if blessing {
                (r.0, r.1, seq![TickAction::CreateOfferedBlessings] + r.2)
            } else {
                r
            }
        },
        (RunState::UpkeepTrun, _) => (RunState::HazardTurn, next_state, seq![]),
        (RunState::ShowBlessingSelectionMenu, TickEvent::Menu { result, .. }) => match result {
            MenuResult::Cancel => (RunState::AwaitingInput, next_state, seq![TickAction::CleanUpOfferedBlessings]),
            MenuResult::NoResponse => (state, next_state, seq![]),
            MenuResult::Selected { thing } => (
                RunState::PlayerTurn,
                next_state,
                seq![TickAction::ReceiveBlessing { thing }, TickAction::CleanUpOfferedBlessings],
            ),
        },
        (RunState::ShowUseInventory, TickEvent::Menu { result, .. }) => match result {
            MenuResult::Cancel => (RunState::AwaitingInput, next_state, seq![]),
            MenuResult::NoResponse => (state, next_state, seq![]),
            MenuResult::Selected { thing } => (RunState::PlayerTurn, next_state, seq![TickAction::UseUntargeted { thing }]),
        },
        (RunState::ShowEquipInventory, TickEvent::Menu { result, equipped, .. }) => match result {
            MenuResult::Cancel => (RunState::AwaitingInput, next_state, seq![]),
            MenuResult::NoResponse => (state, next_state, seq![]),
            MenuResult::Selected { thing } => (
                RunState::PlayerTurn,
                next_state,
                if equipped { seq![TickAction::RemoveItem { thing }] } else { seq![TickAction::EquipItem { thing }] },
            ),
        },
        (RunState::ShowThrowInventory, TickEvent::Menu { result, targeting, .. }) => match result {
            MenuResult::Cancel => (RunState::AwaitingInput, next_state, seq![]),
            MenuResult::NoResponse => (state, next_state, seq![]),
            MenuResult::Selected { thing } => (
                RunState::ShowTargetingKeyboard { targeting: targeting.unwrap(), verb: TargetingVerb::Thrown, thing, current: None },
                next_state,
                seq![],
            ),
        },
        (RunState::ShowSpellbook, TickEvent::Menu { result, targeting, untargeted, .. }) => match result {
            MenuResult::Cancel => (RunState::AwaitingInput, next_state, seq![]),
            MenuResult::NoResponse => (state, next_state, seq![]),
            MenuResult::Selected { thing } => if untargeted {
                (RunState::PlayerTurn, next_state, seq![TickAction::UseUntargeted { thing }])
            } else {
                match targeting {
                    Some(t) => (RunState::ShowTargetingKeyboard { targeting: t, verb: TargetingVerb::Cast, thing, current: None }, next_state, seq![]),
                    None => (state, next_state, seq![]),
                }
            },
        },
        (RunState::ShowTargetingMouse { targeting, verb, thing }, TickEvent::Targeting { result }) => match result {
            TargetingResult::Cancel => (RunState::AwaitingInput, next_state, seq![]),
            TargetingResult::SwitchModality => (RunState::ShowTargetingKeyboard { targeting, verb, thing, current: None }, next_state, seq![]),
            TargetingResult::Selected { pos } => (RunState::PlayerTurn, next_state, seq![TickAction::UseTargeted { thing, target: pos, verb }]),
            _ => (state, next_state, seq![]),
        },
        (RunState::ShowTargetingKeyboard { targeting, verb, thing, .. }, TickEvent::Targeting { result }) => match result {
            TargetingResult::Cancel => (RunState::AwaitingInput, next_state, seq![]),
            TargetingResult::SwitchModality => (RunState::ShowTargetingMouse { targeting, verb, thing }, next_state, seq![]),
            TargetingResult::MoveCursor { pos } => (RunState::ShowTargetingKeyboard { targeting, verb, thing, current: Some(pos) }, next_state, seq![]),
            TargetingResult::Selected { pos } => (RunState::PlayerTurn, next_state, seq![TickAction::UseTargeted { thing, target: pos, verb }]),
            TargetingResult::NoResponse => (state, next_state, seq![]),
        },
        (RunState::ShowHelpMenu { details }, TickEvent::Help { result, has_key_codes }) => match result {
            HelpMenuResult::Cancel => match details {
                None => (RunState::AwaitingInput, next_state, seq![]),
                Some(_) => (RunState::ShowHelpMenu { details: None }, next_state, seq![]),
            },
            HelpMenuResult::NoSelection { .. } => (state, next_state, seq![]),
            HelpMenuResult::Selected { selected } => if has_key_codes {
                (RunState::ShowHelpMenu { details: Some(selected) }, next_state, seq![])
            } else {
                (state, next_state, seq![])
            },
        },
        (RunState::NextLevel, _) => (RunState::PreGame, next_state, seq![TickAction::DescendLevel]),
        _ => (state, next_state, seq![]),
    }
}

/// The event needs the state to go to after an animation or the map
/// generation, and that state is known.
pub open spec fn needs_next_state<T>(state: RunState<T>, event: TickEvent<T>) -> bool {
    ||| (state is MapGeneration && (event matches TickEvent::MapGeneration { done } && done))
    ||| (state is PlayingAnimation && (event matches TickEvent::SystemsRan { animation_alive } && !animation_alive))
}

/// A throw selection names how the thrown thing is targeted.
pub open spec fn throw_has_targeting<T>(state: RunState<T>, event: TickEvent<T>) -> bool {
    state is ShowThrowInventory && (event matches TickEvent::Menu { result, .. } && result is Selected)
}

/// Runs one frame of the state machine.
pub fn tick<T: Copy>(state: RunState<T>, next_state: Option<RunState<T>>, event: TickEvent<T>) -> (step: Step<T>)
    requires
        needs_next_state(state, event) ==> next_state.is_some(),
        throw_has_targeting(state, event) ==> event->targeting.is_some(),
    ensures
        (step.state, step.next_state, step.actions@) == transition(state, next_state, event),
{
    let mut actions: Vec<TickAction> = Vec::new();
    let mut new_next = next_state;
    let new_state = match (state, event) {
        (RunState::MainMenu { .. }, TickEvent::MainMenu { result }) => match result {
            MainMenuResult::NoSelection { current } => RunState::MainMenu { current },
            MainMenuResult::Selected { selected } => match selected {
                MainMenuSelection::NewGame => RunState::PreGame,
                MainMenuSelection::LoadGame => {
                    actions.push(TickAction::LoadGame);
                    RunState::AwaitingInput
                },
                MainMenuSelection::Quit => {
                    actions.push(TickAction::Quit);
                    state
                },
            },
        },
        (RunState::MapGeneration, TickEvent::MapGeneration { done }) => if done {
            next_state.unwrap()
        } else {
            state
        },
        (RunState::SaveGame, _) => {
            actions.push(TickAction::SaveGame);
            RunState::MainMenu { current: MainMenuSelection::LoadGame }
        },
        (RunState::PreGame, _) => RunState::HazardTurn,
        (RunState::AwaitingInput, TickEvent::Input { next }) => next,
        (RunState::PlayingAnimation, TickEvent::SystemsRan { animation_alive }) => if animation_alive {
            state
        } else {
            actions.push(TickAction::CleanUpAndSynchronize);
            next_state.unwrap()
        },
        (RunState::PlayerTurn, TickEvent::SystemsRan { animation_alive }) => if animation_alive {
            new_next = Some(RunState::MonsterTurn);
            RunState::PlayingAnimation
        } else {
            actions.push(TickAction::CleanUpAndSynchronize);
            RunState::MonsterTurn
        },
        (RunState::MonsterTurn, TickEvent::SystemsRan { animation_alive }) => if animation_alive {
            new_next = Some(RunState::UpkeepTrun);
            RunState::PlayingAnimation
        } else {
            actions.push(TickAction::CleanUpAndSynchronize);
            RunState::UpkeepTrun
        },
        (RunState::HazardTurn, TickEvent::HazardsRan { animation_alive, blessing }) => {
            let after = if blessing {
                actions.push(TickAction::CreateOfferedBlessings);
                RunState::ShowBlessingSelectionMenu
            } else {
                RunState::AwaitingInput
            };
            if animation_alive {
                new_next = Some(after);
                RunState::PlayingAnimation
            } else {
                actions.push(TickAction::CleanUpAndSynchronize);
                after
            }
        },
        (RunState::UpkeepTrun, _) => RunState::HazardTurn,
        (RunState::ShowBlessingSelectionMenu, TickEvent::Menu { result, .. }) => match result {
            MenuResult::Cancel => {
                actions.push(TickAction::CleanUpOfferedBlessings);
                RunState::AwaitingInput
            },
            MenuResult::NoResponse => state,
            MenuResult::Selected { thing } => {
                actions.push(TickAction::ReceiveBlessing { thing });
                actions.push(TickAction::CleanUpOfferedBlessings);
                RunState::PlayerTurn
            },
        },
        (RunState::ShowUseInventory, TickEvent::Menu { result, .. }) => match result {
            MenuResult::Cancel => RunState::AwaitingInput,
            MenuResult::NoResponse => state,
            MenuResult::Selected { thing } => {
                actions.push(TickAction::UseUntargeted { thing });
                RunState::PlayerTurn
            },
        },
        (RunState::ShowEquipInventory, TickEvent::Menu { result, equipped, .. }) => match result {
            MenuResult::Cancel => RunState::AwaitingInput,
            MenuResult::NoResponse => state,
            MenuResult::Selected { thing } => {
                if equipped {
                    actions.push(TickAction::RemoveItem { thing });
                } else {
                    actions.push(TickAction::EquipItem { thing });
                }
                RunState::PlayerTurn
            },
        },
        (RunState::ShowThrowInventory, TickEvent::Menu { result, targeting, .. }) => match result {
            MenuResult::Cancel => RunState::AwaitingInput,
            MenuResult::NoResponse => state,
            MenuResult::Selected { thing } => RunState::ShowTargetingKeyboard {
                targeting: targeting.unwrap(),
                verb: TargetingVerb::Thrown,
                thing,
                current: None,
            },
        },
        (RunState::ShowSpellbook, TickEvent::Menu { result, targeting, untargeted, .. }) => match result {
            MenuResult::Cancel => RunState::AwaitingInput,
            MenuResult::NoResponse => state,
            MenuResult::Selected { thing } => if untargeted {
                actions.push(TickAction::UseUntargeted { thing });
                RunState::PlayerTurn
            } else {
                match targeting {
                    Some(t) => RunState::ShowTargetingKeyboard { targeting: t, verb: TargetingVerb::Cast, thing, current: None },
                    None => state,
                }
            },
        },
        (RunState::ShowTargetingMouse { targeting, verb, thing }, TickEvent::Targeting { result }) => match result {
            TargetingResult::Cancel => RunState::AwaitingInput,
            TargetingResult::SwitchModality => RunState::ShowTargetingKeyboard { targeting, verb, thing, current: None },
            TargetingResult::Selected { pos } => {
                actions.push(TickAction::UseTargeted { thing, target: pos, verb });
                RunState::PlayerTurn
            },
            _ => state,
        },
        (RunState::ShowTargetingKeyboard { targeting, verb, thing, .. }, TickEvent::Targeting { result }) => match result {
            TargetingResult::Cancel => RunState::AwaitingInput,
            TargetingResult::SwitchModality => RunState::ShowTargetingMouse { targeting, verb, thing },
            TargetingResult::MoveCursor { pos } => RunState::ShowTargetingKeyboard { targeting, verb, thing, current: Some(pos) },
            TargetingResult::Selected { pos } => {
                actions.push(TickAction::UseTargeted { thing, target: pos, verb });
                RunState::PlayerTurn
            },
            TargetingResult::NoResponse => state,
        },
        (RunState::ShowHelpMenu { details }, TickEvent::Help { result, has_key_codes }) => match result {
            HelpMenuResult::Cancel => match details {
                None => RunState::AwaitingInput,
                Some(_) => RunState::ShowHelpMenu { details: None },
            },
            HelpMenuResult::NoSelection { .. } => state,
            HelpMenuResult::Selected { selected } => if has_key_codes {
                RunState::ShowHelpMenu { details: Some(selected) }
            } else {
                state
            },
        },
        (RunState::NextLevel, _) => {
            actions.push(TickAction::DescendLevel);
            RunState::PreGame
        },
        _ => state,
    };
    proof {
        assert(actions@ =~= transition(state, next_state, event).2);
    }
    Step { state: new_state, next_state: new_next, actions }
}

/// Without animations the turns cycle: the hazards' turn leads to the
/// player's input (or to the blessing menu), the player's turn to the
/// monsters', theirs to the upkeep turn, and the upkeep turn back to the
/// hazards'.
pub proof fn lemma_turn_cycle<T>(next_state: Option<RunState<T>>)
    ensures
        transition(RunState::<T>::HazardTurn, next_state, TickEvent::HazardsRan { animation_alive: false, blessing: false }).0 is AwaitingInput,
        transition(RunState::<T>::HazardTurn, next_state, TickEvent::HazardsRan { animation_alive: false, blessing: true }).0 is ShowBlessingSelectionMenu,
        transition(RunState::<T>::PlayerTurn, next_state, TickEvent::SystemsRan { animation_alive: false }).0 is MonsterTurn,
        transition(RunState::<T>::MonsterTurn, next_state, TickEvent::SystemsRan { animation_alive: false }).0 is UpkeepTrun,
        transition(RunState::<T>::UpkeepTrun, next_state, TickEvent::<T>::Nothing).0 is HazardTurn,
        transition(RunState::<T>::PreGame, next_state, TickEvent::<T>::Nothing).0 is HazardTurn,
{
}

/// An animation only delays the turn it interrupts: a turn that started an
/// animation, followed by the frame on which the animation is over, reaches
/// the same state, with the same clean-up, as the turn would have without
/// the animation.
pub proof fn lemma_animation_detour<T>(state: RunState<T>, next_state: Option<RunState<T>>, blessing: bool)
    requires
        state is PlayerTurn || state is MonsterTurn || state is HazardTurn,
    ensures
        ({
            let event_alive = if state is HazardTurn {
                TickEvent::HazardsRan { animation_alive: true, blessing }
            } else {
                TickEvent::<T>::SystemsRan { animation_alive: true }
            };
            let event_done = if state is HazardTurn {
                TickEvent::HazardsRan { animation_alive: false, blessing }
            } else {
                TickEvent::<T>::SystemsRan { animation_alive: false }
            };
            let first = transition(state, next_state, event_alive);
            let second = transition(first.0, first.1, TickEvent::<T>::SystemsRan { animation_alive: false });
            let direct = transition(state, next_state, event_done);
            &&& first.0 is PlayingAnimation
            &&& second.0 == direct.0
            &&& first.2 + second.2 == direct.2
        }),
{
    let first = transition(state, next_state, if state is HazardTurn {
        TickEvent::HazardsRan { animation_alive: true, blessing }
    } else {
        TickEvent::<T>::SystemsRan { animation_alive: true }
    });
    let second = transition(first.0, first.1, TickEvent::<T>::SystemsRan { animation_alive: false });
    let direct = transition(state, next_state, if state is HazardTurn {
        TickEvent::HazardsRan { animation_alive: false, blessing }
    } else {
        TickEvent::<T>::SystemsRan { animation_alive: false }
    });
    assert(first.2 + second.2 =~= direct.2);
}

/// What a frame of a turn reports: whether an animation is playing and, on
/// the hazards' turn, whether a blessing is available.
pub open spec fn turn_frame_event<T>(state: RunState<T>, alive: bool, blessing: bool) -> TickEvent<T> {
    if state is HazardTurn {
        TickEvent::HazardsRan { animation_alive: alive, blessing }
    } else {
        TickEvent::SystemsRan { animation_alive: alive }
    }
}

/// The states the machine reaches frame after frame, from `state`, when the
/// frame `i` reports `alive[i]` (and `blessing`), with the frames that play an
/// animation left out.
pub open spec fn turn_states<T>(state: RunState<T>, next_state: Option<RunState<T>>, alive: Seq<bool>, blessing: bool) -> Seq<
    RunState<T>,
>
    decreases alive.len(),
{
    if alive.len() == 0 {
        Seq::empty()
    } else {
        let t = transition(state, next_state, turn_frame_event(state, alive[0], blessing));
        let rest = turn_states(t.0, t.1, alive.drop_first(), blessing);
        if t.0 is PlayingAnimation {
            rest
        } else {
            seq![t.0] + rest
        }
    }
}

/// The number of frames on which no animation is playing.
pub open spec fn quiet_frames(alive: Seq<bool>) -> nat
    decreases alive.len(),
{
    if alive.len() == 0 {
        0
    } else {
        (if alive[0] { 0nat } else { 1nat }) + quiet_frames(alive.drop_first())
    }
}

/// The state the turns end in: the player's input, or the blessing menu.
pub open spec fn end_of_turns<T>(blessing: bool) -> RunState<T> {
    if blessing {
        RunState::ShowBlessingSelectionMenu
    } else {
        RunState::AwaitingInput
    }
}

/// The turns still to come after `state`, up to the player's input.
pub open spec fn turns_after<T>(state: RunState<T>, blessing: bool) -> Seq<RunState<T>> {
    match state {
        RunState::PlayerTurn => seq![RunState::MonsterTurn, RunState::UpkeepTrun, RunState::HazardTurn, end_of_turns(blessing)],
        RunState::MonsterTurn => seq![RunState::UpkeepTrun, RunState::HazardTurn, end_of_turns(blessing)],
        RunState::UpkeepTrun => seq![RunState::HazardTurn, end_of_turns(blessing)],
        RunState::HazardTurn => seq![end_of_turns(blessing)],
        _ => Seq::empty(),
    }
}

/// A state of the turn cycle (or its end).
pub open spec fn in_turn_cycle<T>(state: RunState<T>, blessing: bool) -> bool {
    state is PlayerTurn || state is MonsterTurn || state is UpkeepTrun || state is HazardTurn || state == end_of_turns::<T>(blessing)
}

/// Where the machine stands within the turn cycle: at one of its states, or
/// playing an animation on the way to one.
pub open spec fn turn_position<T>(state: RunState<T>, next_state: Option<RunState<T>>, blessing: bool) -> bool {
    if state is PlayingAnimation {
        next_state matches Some(a) && in_turn_cycle(a, blessing) && !(a is PlayerTurn)
    } else {
        in_turn_cycle(state, blessing)
    }
}

/// The turns still to come from a position of the cycle.
pub open spec fn pending_turns<T>(state: RunState<T>, next_state: Option<RunState<T>>, blessing: bool) -> Seq<RunState<T>> {
    if state is PlayingAnimation {
        seq![next_state.unwrap()] + turns_after(next_state.unwrap(), blessing)
    } else {
        turns_after(state, blessing)
    }
}

proof fn lemma_turn_states_follow_cycle<T>(state: RunState<T>, next_state: Option<RunState<T>>, alive: Seq<bool>, blessing: bool)
    requires
        turn_position(state, next_state, blessing),
    ensures
        turn_states(state, next_state, alive, blessing).len() >= quiet_frames(alive),
        forall|k: int|
            0 <= k < turn_states(state, next_state, alive, blessing).len() && k < pending_turns(state, next_state, blessing).len()
                ==> #[trigger] turn_states(state, next_state, alive, blessing)[k] == pending_turns(state, next_state, blessing)[k],
    decreases alive.len(),
{
    if alive.len() > 0 {
        let t = transition(state, next_state, turn_frame_event(state, alive[0], blessing));
        lemma_turn_states_follow_cycle(t.0, t.1, alive.drop_first(), blessing);
        let all = turn_states(state, next_state, alive, blessing);
        let rest = turn_states(t.0, t.1, alive.drop_first(), blessing);
        let p = pending_turns(state, next_state, blessing);
        let q = pending_turns(t.0, t.1, blessing);
        if t.0 is PlayingAnimation {
            assert(all == rest);
            assert(p =~= q);
        } else if p.len() > 0 {
            assert(all == seq![t.0] + rest);
            assert(p =~= seq![t.0] + q);
            assert forall|k: int| 0 <= k < all.len() && k < p.len() implies #[trigger] all[k] == p[k] by {
                if k > 0 {
                    assert(all[k] == rest[k - 1]);
                    assert(p[k] == q[k - 1]);
                }
            }
        }
    }
}

/// Once the player has acted, the turns run in order, however many
/// animations interrupt them: leaving out the frames that play an
/// animation, the states are the monsters' turn, the upkeep turn, the
/// hazards' turn and then the player's input (or the blessing menu), with
/// nothing between them and no input read; once four frames without a
/// playing animation have passed, the whole cycle has run.
pub proof fn lemma_turn_order<T>(next_state: Option<RunState<T>>, alive: Seq<bool>, blessing: bool)
    ensures
        ({
            let states = turn_states(RunState::<T>::PlayerTurn, next_state, alive, blessing);
            &&& forall|k: int| 0 <= k < states.len() && k < 4 ==> #[trigger] states[k] == turns_after(RunState::<T>::PlayerTurn, blessing)[k]
            &&& quiet_frames(alive) >= 4 ==> states.len() >= 4
        }),
{
    lemma_turn_states_follow_cycle(RunState::<T>::PlayerTurn, next_state, alive, blessing);
}

/// What choosing a thing in a menu does. In the equipment menu, choosing a
/// thing the player does not wear puts it on and choosing a worn one takes it
/// off, and either uses the turn; choosing in the use menu uses the thing;
/// choosing in the throw menu (or a targeted spell) opens the keyboard
/// targeting for it, and choosing a target then uses it there; an
/// untargeted spell is used at once. The state to go to after an animation
/// is left as it was.
pub proof fn lemma_menu_choices<T>(
    next_state: Option<RunState<T>>,
    thing: Entity,
    targeting: Option<T>,
    untargeted: bool,
    equipped: bool,
    t: T,
    verb: TargetingVerb,
    pos: Point,
    current: Option<Point>,
)
    ensures
        ({
            let chosen = TickEvent::Menu { result: MenuResult::Selected { thing }, targeting, untargeted, equipped };
            let equip = transition(RunState::<T>::ShowEquipInventory, next_state, chosen);
            let use_ = transition(RunState::<T>::ShowUseInventory, next_state, chosen);
            let throw = transition(RunState::<T>::ShowThrowInventory, next_state, chosen);
            let cast = transition(RunState::<T>::ShowSpellbook, next_state, chosen);
            let aim = transition(
                RunState::ShowTargetingKeyboard { targeting: t, verb, thing, current },
                next_state,
                TickEvent::Targeting { result: TargetingResult::Selected { pos } },
            );
            &&& equip.0 is PlayerTurn && equip.1 == next_state && equip.2.len() == 1
            &&& !equipped ==> equip.2[0] == TickAction::EquipItem { thing }
            &&& equipped ==> equip.2[0] == TickAction::RemoveItem { thing }
            &&& use_.0 is PlayerTurn && use_.2 == seq![TickAction::UseUntargeted { thing }]
            &&& targeting matches Some(tg) ==> throw.0 == (RunState::ShowTargetingKeyboard {
                targeting: tg,
                verb: TargetingVerb::Thrown,
                thing,
                current: None,
            }) && throw.2.len() == 0
            &&& untargeted ==> cast.0 is PlayerTurn && cast.2 == seq![TickAction::UseUntargeted { thing }]
            &&& !untargeted && (targeting matches Some(tg)) ==> cast.0 == (RunState::ShowTargetingKeyboard {
                targeting: targeting->0,
                verb: TargetingVerb::Cast,
                thing,
                current: None,
            }) && cast.2.len() == 0
            &&& aim.0 is PlayerTurn && aim.2 == seq![TickAction::UseTargeted { thing, target: pos, verb }]
        }),
{
}

/// The other answers the machine gives: descending starts the next floor
/// with the descent; saving returns to the main menu, on "load game", after
/// saving; the main menu starts a new game, loads the saved one, or quits;
/// the player's input decides the next state; a chosen blessing is received
/// (and the offer cleared) and uses the turn, while a refused one only
/// clears the offer; the targeting screens switch between mouse and
/// keyboard, and the keyboard cursor moves where the player points it.
pub proof fn lemma_other_answers<T>(
    next_state: Option<RunState<T>>,
    event: TickEvent<T>,
    current: MainMenuSelection,
    next: RunState<T>,
    thing: Entity,
    targeting: Option<T>,
    untargeted: bool,
    equipped: bool,
    t: T,
    verb: TargetingVerb,
    pos: Point,
    cursor: Option<Point>,
)
    ensures
        transition(RunState::<T>::NextLevel, next_state, event) == (RunState::<T>::PreGame, next_state, seq![
            TickAction::DescendLevel,
        ]),
        transition(RunState::<T>::SaveGame, next_state, event) == (RunState::<T>::MainMenu {
            current: MainMenuSelection::LoadGame,
        }, next_state, seq![TickAction::SaveGame]),
        transition(
            RunState::<T>::MainMenu { current },
            next_state,
            TickEvent::MainMenu { result: MainMenuResult::Selected { selected: MainMenuSelection::NewGame } },
        ).0 is PreGame,
        transition(
            RunState::<T>::MainMenu { current },
            next_state,
            TickEvent::MainMenu { result: MainMenuResult::Selected { selected: MainMenuSelection::LoadGame } },
        ) == (RunState::<T>::AwaitingInput, next_state, seq![TickAction::LoadGame]),
        transition(
            RunState::<T>::MainMenu { current },
            next_state,
            TickEvent::MainMenu { result: MainMenuResult::Selected { selected: MainMenuSelection::Quit } },
        ).2 == seq![TickAction::Quit],
        transition(RunState::<T>::AwaitingInput, next_state, TickEvent::Input { next }) == (next, next_state, Seq::<
            TickAction,
        >::empty()),
        transition(
            RunState::<T>::ShowBlessingSelectionMenu,
            next_state,
            TickEvent::Menu { result: MenuResult::Selected { thing }, targeting, untargeted, equipped },
        ) == (RunState::<T>::PlayerTurn, next_state, seq![
            TickAction::ReceiveBlessing { thing },
            TickAction::CleanUpOfferedBlessings,
        ]),
        transition(
            RunState::<T>::ShowBlessingSelectionMenu,
            next_state,
            TickEvent::Menu { result: MenuResult::Cancel, targeting, untargeted, equipped },
        ) == (RunState::<T>::AwaitingInput, next_state, seq![TickAction::CleanUpOfferedBlessings]),
        transition(
            RunState::ShowTargetingKeyboard { targeting: t, verb, thing, current: cursor },
            next_state,
            TickEvent::Targeting { result: TargetingResult::SwitchModality },
        ).0 == (RunState::ShowTargetingMouse { targeting: t, verb, thing }),
        transition(
            RunState::ShowTargetingMouse { targeting: t, verb, thing },
            next_state,
            TickEvent::Targeting { result: TargetingResult::SwitchModality },
        ).0 == (RunState::ShowTargetingKeyboard { targeting: t, verb, thing, current: None }),
        transition(
            RunState::ShowTargetingKeyboard { targeting: t, verb, thing, current: cursor },
            next_state,
            TickEvent::Targeting { result: TargetingResult::MoveCursor { pos } },
        ).0 == (RunState::ShowTargetingKeyboard { targeting: t, verb, thing, current: Some(pos) }),
        transition(
            RunState::ShowTargetingMouse { targeting: t, verb, thing },
            next_state,
            TickEvent::Targeting { result: TargetingResult::Selected { pos } },
        ) == (RunState::<T>::PlayerTurn, next_state, seq![TickAction::UseTargeted { thing, target: pos, verb }]),
{
}

/// A menu with no answer this frame stays open and does nothing.
pub proof fn lemma_menus_wait_for_an_answer<T>(
    state: RunState<T>,
    next_state: Option<RunState<T>>,
    targeting: Option<T>,
    untargeted: bool,
    equipped: bool,
)
    requires
        state is ShowUseInventory || state is ShowEquipInventory || state is ShowThrowInventory
            || state is ShowSpellbook || state is ShowBlessingSelectionMenu,
    ensures
        transition(state, next_state, TickEvent::Menu { result: MenuResult::NoResponse, targeting, untargeted, equipped })
            == (state, next_state, Seq::<TickAction>::empty()),
{
    assert(transition(state, next_state, TickEvent::Menu { result: MenuResult::NoResponse, targeting, untargeted, equipped }).2
        =~= Seq::<TickAction>::empty());
}

/// Cancelling an item, spell or targeting menu returns to waiting for the
/// player's input, without using the turn.
pub proof fn lemma_cancel_returns_to_input<T>(state: RunState<T>, next_state: Option<RunState<T>>, targeting: Option<T>, untargeted: bool, equipped: bool)
    ensures
        (state is ShowUseInventory || state is ShowEquipInventory || state is ShowThrowInventory || state is ShowSpellbook
            || state is ShowBlessingSelectionMenu) ==> transition(state, next_state, TickEvent::Menu { result: MenuResult::Cancel, targeting, untargeted, equipped }).0 is AwaitingInput,
        (state is ShowTargetingMouse || state is ShowTargetingKeyboard) ==> transition(state, next_state, TickEvent::Targeting { result: TargetingResult::Cancel }).0 is AwaitingInput,
{
}

/// The keys the main menu reacts to.
#[derive(PartialEq, Eq, Structural, Copy, Clone, Debug)]
pub enum MenuKey {
    Up,
    Down,
    Return,
    Escape,
    Other,
}

/// The entry above `current`, wrapping around; "load game" is skipped when
/// there is no saved game.
pub open spec fn menu_up(current: MainMenuSelection, save_exists: bool) -> MainMenuSelection {
    match current {
        MainMenuSelection::NewGame => MainMenuSelection::Quit,
        MainMenuSelection::LoadGame => MainMenuSelection::NewGame,
        MainMenuSelection::Quit => if save_exists { MainMenuSelection::LoadGame } else { MainMenuSelection::NewGame },
    }
}

/// The entry below `current`, wrapping around; "load game" is skipped when
/// there is no saved game.
pub open spec fn menu_down(current: MainMenuSelection, save_exists: bool) -> MainMenuSelection {
    match current {
        MainMenuSelection::NewGame => if save_exists { MainMenuSelection::LoadGame } else { MainMenuSelection::Quit },
        MainMenuSelection::LoadGame => MainMenuSelection::Quit,
        MainMenuSelection::Quit => MainMenuSelection::NewGame,
    }
}

/// The main menu's answer to a key (or to no key): up and down move the
/// selection, escape selects "quit", return chooses the selection.
pub fn main_menu_result(current: MainMenuSelection, key: Option<MenuKey>, save_exists: bool) -> (r: MainMenuResult)
    ensures
        r == match key {
            None => MainMenuResult::NoSelection { current },
            Some(MenuKey::Escape) => MainMenuResult::NoSelection { current: MainMenuSelection::Quit },
            Some(MenuKey::Up) => MainMenuResult::NoSelection { current: menu_up(current, save_exists) },
            Some(MenuKey::Down) => MainMenuResult::NoSelection { current: menu_down(current, save_exists) },
            Some(MenuKey::Return) => MainMenuResult::Selected { selected: current },
            Some(MenuKey::Other) => MainMenuResult::NoSelection { current },
        },
{
    match key {
        None => MainMenuResult::NoSelection { current },
        Some(k) => match k {
            MenuKey::Escape => MainMenuResult::NoSelection { current: MainMenuSelection::Quit },
            MenuKey::Up => {
                let mut selection = match current {
                    MainMenuSelection::NewGame => MainMenuSelection::Quit,
                    MainMenuSelection::LoadGame => MainMenuSelection::NewGame,
                    MainMenuSelection::Quit => MainMenuSelection::LoadGame,
                };
                if selection == MainMenuSelection::LoadGame && !save_exists {
                    selection = MainMenuSelection::NewGame;
                }
                MainMenuResult::NoSelection { current: selection }
            },
            MenuKey::Down => {
                let mut selection = match current {
                    MainMenuSelection::NewGame => MainMenuSelection::LoadGame,
                    MainMenuSelection::LoadGame => MainMenuSelection::Quit,
                    MainMenuSelection::Quit => MainMenuSelection::NewGame,
                };
                if selection == MainMenuSelection::LoadGame && !save_exists {
                    selection = MainMenuSelection::Quit;
                }
                MainMenuResult::NoSelection { current: selection }
            },
            MenuKey::Return => MainMenuResult::Selected { selected: current },
            MenuKey::Other => MainMenuResult::NoSelection { current },
        },
    }
}

/// Without a saved game, moving through the main menu never lands on "load
/// game"; pressing up then down (or down then up) from an entry that can be
/// selected returns to it.
pub proof fn lemma_menu_navigation(current: MainMenuSelection, save_exists: bool)
    ensures
        !save_exists ==> menu_up(current, save_exists) != MainMenuSelection::LoadGame,
        !save_exists ==> menu_down(current, save_exists) != MainMenuSelection::LoadGame,
        (save_exists || current != MainMenuSelection::LoadGame) ==> menu_down(menu_up(current, save_exists), save_exists) == current,
        (save_exists || current != MainMenuSelection::LoadGame) ==> menu_up(menu_down(current, save_exists), save_exists) == current,
{
}

/// An item menu's answer this frame. `items` are the things listed, in menu
/// order; `escape` is whether escape was pressed and `letter` the index of
/// the menu letter pressed, if any. Escape cancels; the letter of a listed
/// thing selects it; any other key, or none, leaves the menu open.
pub fn inventory_result(escape: bool, letter: Option<usize>, items: &Vec<Entity>) -> (r: MenuResult)
    ensures
        escape ==> r is Cancel,
        !escape && (letter matches Some(i) && i < items.len()) ==> r == (MenuResult::Selected {
            thing: items@[letter->0 as int],
        }),
        !escape && !(letter matches Some(i) && i < items.len()) ==> r is NoResponse,
{
    if escape {
        return MenuResult::Cancel;
    }
    match letter {
        Some(i) => {
            if i < items.len() {
                MenuResult::Selected { thing: items[i] }
            } else {
                MenuResult::NoResponse
            }
        },
        None => MenuResult::NoResponse,
    }
}

/// Whether the spell menu's letter `letter` names a listed spell with a
/// charge left.
pub open spec fn castable_choice(letter: Option<usize>, spells: Seq<(Entity, i32)>) -> bool {
    letter matches Some(i) && i < spells.len() && spells[i as int].1 > 0
}

/// The spell menu's answer this frame. `spells` are the spells listed, in
/// menu order, each with the charges it has left; `escape` is whether escape
/// was pressed and `letter` the index of the menu letter pressed, if any.
/// Escape cancels; the letter of a spell with a charge left casts it; any
/// other key, or none, leaves the menu open.
pub fn spellbook_result(escape: bool, letter: Option<usize>, spells: &Vec<(Entity, i32)>) -> (r: MenuResult)
    ensures
        escape ==> r is Cancel,
        !escape && castable_choice(letter, spells@) ==> r == (MenuResult::Selected {
            thing: spells@[letter->0 as int].0,
        }),
        !escape && !castable_choice(letter, spells@) ==> r is NoResponse,
{
    if escape {
        return MenuResult::Cancel;
    }
    match letter {
        Some(i) => {
            if i < spells.len() {
                let (spell, charges) = spells[i];
                if charges > 0 {
                    return MenuResult::Selected { thing: spell };
                }
            }
            MenuResult::NoResponse
        },
        None => MenuResult::NoResponse,
    }
}

/// The player earns a blessing on a turn it stands on a blessing tile with
/// enough orbs in its bag.
pub fn blessing_available(blessing_tiles: &Vec<Point>, player: Point, bag: &BlessingOrbBag) -> (b: bool)
    ensures
        b == (blessing_tiles@.contains(player) && bag.count >= ORBS_NEEDED_FOR_BLESSING),
{
    contains_point(blessing_tiles, player) && bag.enough_orbs_for_blessing()
}

/// The rest of the descent, once the floor is cleared: the next floor is one
/// level deeper, and the log tells the player "You descend.".
pub fn descend(depth: i32, log: &mut GameLog) -> (next_depth: i32)
    requires
        depth < i32::MAX,
    ensures
        next_depth == depth + 1,
        final(log).entries@.len() == old(log).entries@.len() + 1,
        final(log).entries@.drop_last() == old(log).entries@,
        final(log).entries@.last()@ == "You descend."@,
{
    log.push("You descend.".to_owned());
    assert(log.entries@.drop_last() =~= old(log).entries@);
    depth + 1
}

/// What becomes of an entity when the player descends: the player and what
/// it carries (in its backpack, its spellbook, or worn) come along; the rest
/// of the floor is deleted.
pub fn deleted_when_descending(
    is_player: bool,
    backpack_owner: Option<Entity>,
    spellbook_owner: Option<Entity>,
    equipped_owner: Option<Entity>,
    player: Entity,
) -> (d: bool)
    ensures
        d == (!is_player && backpack_owner != Some(player) && spellbook_owner != Some(player) && equipped_owner
            != Some(player)),
{
    let in_backpack = match backpack_owner {
        Some(o) => same_entity(o, player),
        None => false,
    };
    let in_spellbook = match spellbook_owner {
        Some(o) => same_entity(o, player),
        None => false,
    };
    let worn = match equipped_owner {
        Some(o) => same_entity(o, player),
        None => false,
    };
    !is_player && !in_backpack && !in_spellbook && !worn
}

/// The keys the keyboard targeting screen reacts to (the arrows, or the
/// vi keys, move the cursor).
#[derive(PartialEq, Eq, Structural, Copy, Clone, Debug)]
pub enum TargetingKey {
    Escape,
    Tab,
    Return,
    Left,
    Right,
    Up,
    Down,
    Other,
}

/// The keyboard targeting screen's answer to a key: escape cancels, tab
/// switches to the mouse, return selects the cursor's tile, and the four
/// directions move the cursor one tile.
pub fn keyboard_targeting_result(cursor: Point, key: Option<TargetingKey>) -> (r: TargetingResult)
    requires
        i32::MIN < cursor.x < i32::MAX,
        i32::MIN < cursor.y < i32::MAX,
    ensures
        r == match key {
            None => TargetingResult::NoResponse,
            Some(TargetingKey::Escape) => TargetingResult::Cancel,
            Some(TargetingKey::Tab) => TargetingResult::SwitchModality,
            Some(TargetingKey::Return) => TargetingResult::Selected { pos: cursor },
            Some(TargetingKey::Left) => TargetingResult::MoveCursor { pos: Point { x: (cursor.x - 1) as i32, y: cursor.y } },
            Some(TargetingKey::Right) => TargetingResult::MoveCursor { pos: Point { x: (cursor.x + 1) as i32, y: cursor.y } },
            Some(TargetingKey::Up) => TargetingResult::MoveCursor { pos: Point { x: cursor.x, y: (cursor.y - 1) as i32 } },
            Some(TargetingKey::Down) => TargetingResult::MoveCursor { pos: Point { x: cursor.x, y: (cursor.y + 1) as i32 } },
            Some(TargetingKey::Other) => TargetingResult::NoResponse,
        },
{
    match key {
        None => TargetingResult::NoResponse,
        Some(k) => match k {
            TargetingKey::Escape => TargetingResult::Cancel,
            TargetingKey::Tab => TargetingResult::SwitchModality,
            TargetingKey::Return => TargetingResult::Selected { pos: cursor },
            TargetingKey::Left => TargetingResult::MoveCursor { pos: Point { x: cursor.x - 1, y: cursor.y } },
            TargetingKey::Right => TargetingResult::MoveCursor { pos: Point { x: cursor.x + 1, y: cursor.y } },
            TargetingKey::Up => TargetingResult::MoveCursor { pos: Point { x: cursor.x, y: cursor.y - 1 } },
            TargetingKey::Down => TargetingResult::MoveCursor { pos: Point { x: cursor.x, y: cursor.y + 1 } },
            TargetingKey::Other => TargetingResult::NoResponse,
        },
    }
}

/// The mouse targeting screen's answer: a click on a tile in range selects
/// it, a click elsewhere cancels; otherwise escape cancels and tab switches
/// to the keyboard.
pub fn mouse_targeting_result(mouse: Point, in_range: bool, clicked: bool, key: Option<TargetingKey>) -> (r:
    TargetingResult)
    ensures
        r == if clicked && in_range {
            TargetingResult::Selected { pos: mouse }
        } else if clicked {
            TargetingResult::Cancel
        } else {
            match key {
                Some(TargetingKey::Escape) => TargetingResult::Cancel,
                Some(TargetingKey::Tab) => TargetingResult::SwitchModality,
                _ => TargetingResult::NoResponse,
            }
        },
{
    if clicked {
        if in_range {
            TargetingResult::Selected { pos: mouse }
        } else {
            TargetingResult::Cancel
        }
    } else {
        match key {
            Some(TargetingKey::Escape) => TargetingResult::Cancel,
            Some(TargetingKey::Tab) => TargetingResult::SwitchModality,
            _ => TargetingResult::NoResponse,
        }
    }
}

} // verus!
