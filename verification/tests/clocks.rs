use rogue::components::hunger::{HungerClock, HungerState};
use rogue::components::magic::{BlessingOrbBag, SpellCharges};
use rogue::components::signaling::ElementalDamageKind;
use rogue::components::swimming::SwimStamina;
use rogue::gamelog::GameLog;
use rogue::systems::hunger::{run_hunger_clocks, tick_hunger_clock, HungerTick};
use rogue::systems::swimming::{recharge_spell, tick_swim_stamina};

fn clock(state: HungerState, time: i32) -> HungerClock {
    HungerClock { state, state_duration: 10, time, tick_damage: 2 }
}

#[test]
fn hunger_worsens_when_the_clock_runs_out() {
    let mut c = clock(HungerState::WellFed, 2);
    assert_eq!(tick_hunger_clock(&mut c, true), HungerTick::Waiting);
    assert_eq!(c.time, 1);
    assert_eq!(tick_hunger_clock(&mut c, true), HungerTick::BecameNormal);
    assert_eq!((c.state, c.time), (HungerState::Normal, 10));
    let mut c = clock(HungerState::Normal, 1);
    assert_eq!(tick_hunger_clock(&mut c, true), HungerTick::BecameHungry);
    assert_eq!((c.state, c.time), (HungerState::Hungry, 10));
    let mut c = clock(HungerState::Hungry, 1);
    assert_eq!(tick_hunger_clock(&mut c, true), HungerTick::BecameStarving);
    assert_eq!((c.state, c.time), (HungerState::Starving, 0));
    assert_eq!(tick_hunger_clock(&mut c, true), HungerTick::Starved);
    assert_eq!(c.time, -1);
    let before = c;
    assert_eq!(tick_hunger_clock(&mut c, false), HungerTick::OutOfTurn);
    assert_eq!(c, before);
    c.satiate();
    assert_eq!((c.state, c.time), (HungerState::WellFed, 10));
}

#[test]
fn hunger_system_ticks_each_clock_on_its_turn() {
    let mut log = GameLog::new();
    let mut clocks = vec![clock(HungerState::Normal, 1), clock(HungerState::Starving, 0), clock(HungerState::WellFed, 5), clock(HungerState::Starving, 0)];
    let starved = run_hunger_clocks(&mut clocks, &vec![true, true, false, true], &mut log);
    assert_eq!(starved, vec![1, 3]);
    assert_eq!(clocks[0].state, HungerState::Hungry);
    assert_eq!(clocks[2].time, 5);
    assert_eq!(clocks[3].time, -1);
    assert_eq!(log.entries.last().unwrap(), "You begin to feel hungry.");
}

#[test]
fn a_clock_out_of_turn_does_not_hold_up_the_next() {
    // A monster's clock listed before the player's, on the player's turn.
    let mut log = GameLog::new();
    let mut clocks = vec![clock(HungerState::WellFed, 3), clock(HungerState::Normal, 1)];
    let starved = run_hunger_clocks(&mut clocks, &vec![false, true], &mut log);
    assert_eq!(starved, Vec::<usize>::new());
    assert_eq!(clocks[0].time, 3);
    assert_eq!(clocks[1].state, HungerState::Hungry);
    assert_eq!(log.entries.len(), 2);
}

#[test]
fn swimming_costs_stamina_and_drowns() {
    let mut s = SwimStamina { max_stamina: 2, stamina: 1, drowning_damage: 5 };
    assert!(!tick_swim_stamina(&mut s, true));
    assert_eq!(s.stamina, 0);
    assert!(tick_swim_stamina(&mut s, true));
    assert_eq!(s.stamina, 0);
    assert!(!tick_swim_stamina(&mut s, false));
    assert!(!tick_swim_stamina(&mut s, false));
    assert!(!tick_swim_stamina(&mut s, false));
    assert_eq!(s.stamina, 2);
}

fn charges(charges: i32, ticks: i32) -> SpellCharges {
    SpellCharges { max_charges: 2, charges, regen_ticks: 3, ticks, element: ElementalDamageKind::Fire }
}

#[test]
fn spells_recharge_over_time() {
    let mut c = charges(0, 0);
    assert!(!c.tick());
    assert!(!c.tick());
    assert!(c.tick());
    assert_eq!((c.charges, c.ticks), (1, 0));
    let mut full = charges(2, 1);
    assert!(!full.tick());
    assert_eq!((full.charges, full.ticks), (2, 0));
    let mut c = charges(1, 1);
    c.expend_charge();
    assert_eq!((c.charges, c.ticks), (0, 0));
    c.expend_charge();
    assert_eq!(c.charges, 0);
}

#[test]
fn matching_items_speed_up_recharge() {
    let mut c = charges(0, 1);
    assert!(recharge_spell(&mut c, Some(ElementalDamageKind::Fire)));
    assert_eq!((c.charges, c.ticks), (1, 0));
    let mut c = charges(0, 1);
    assert!(!recharge_spell(&mut c, Some(ElementalDamageKind::Chill)));
    assert_eq!((c.charges, c.ticks), (0, 2));
    let mut c = charges(0, 1);
    assert!(!recharge_spell(&mut c, None));
}

#[test]
fn blessings_cost_four_orbs() {
    let mut bag = BlessingOrbBag { count: 5 };
    assert!(bag.enough_orbs_for_blessing());
    bag.cash_in_orbs_for_blessing();
    assert_eq!(bag.count, 1);
    assert!(!bag.enough_orbs_for_blessing());
    bag.cash_in_orbs_for_blessing();
    assert_eq!(bag.count, 0);
}

#[test]
fn each_hunger_state_lasts_its_time() {
    let mut clock = HungerClock { state: HungerState::WellFed, state_duration: 5, time: 3, tick_damage: 1 };
    assert_eq!(tick_hunger_clock(&mut clock, true), HungerTick::Waiting);
    assert_eq!(tick_hunger_clock(&mut clock, true), HungerTick::Waiting);
    assert_eq!((clock.state, clock.time), (HungerState::WellFed, 1));
    assert_eq!(tick_hunger_clock(&mut clock, true), HungerTick::BecameNormal);
    assert_eq!((clock.state, clock.time), (HungerState::Normal, 5));
    for _ in 0..4 {
        assert_eq!(tick_hunger_clock(&mut clock, true), HungerTick::Waiting);
    }
    assert_eq!(tick_hunger_clock(&mut clock, true), HungerTick::BecameHungry);
    assert_eq!((clock.state, clock.time), (HungerState::Hungry, 5));
}
