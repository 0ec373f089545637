use vstd::prelude::*;
use crate::components::hunger::{HungerClock, HungerState};
use crate::gamelog::GameLog;

verus! {

//----------------------------------------------------------------------------
// Hunger.
//
// The player's hunger clock ticks each of the player's turns (any other
// clock on the monsters' turn). When it runs out the hunger state worsens by
// one step; a starving entity takes damage instead.
//----------------------------------------------------------------------------

/// What one tick of a hunger clock did.
#[derive(PartialEq, Eq, Structural, Copy, Clone, Debug)]
pub enum HungerTick {
    /// The clock does not tick this turn; it is left as it is.
    OutOfTurn,
    /// Time passed, and the state holds.
    Waiting,
    BecameNormal,
    BecameHungry,
    BecameStarving,
    /// The entity is starving and takes the clock's tick damage.
    Starved,
}

/// The clock after one tick, and what the tick did.
pub open spec fn hunger_step(c: HungerClock, proceed: bool) -> (HungerClock, HungerTick) {
    if !proceed {
        (c, HungerTick::OutOfTurn)
    } else {
        let t = HungerClock { time: (c.time - 1) as i32, ..c };
        if t.time > 0 {
            (t, HungerTick::Waiting)
        } else {
            match c.state {
                HungerState::WellFed => (
                    HungerClock { state: HungerState::Normal, time: c.state_duration, ..c },
                    HungerTick::BecameNormal,
                ),
                HungerState::Normal => (
                    HungerClock { state: HungerState::Hungry, time: c.state_duration, ..c },
                    HungerTick::BecameHungry,
                ),
                HungerState::Hungry => (
                    HungerClock { state: HungerState::Starving, ..t },
                    HungerTick::BecameStarving,
                ),
                HungerState::Starving => (t, HungerTick::Starved),
            }
        }
    }
}

/// Ticks a hunger clock; `proceed` is whether it is the clock's turn.
pub fn tick_hunger_clock(clock: &mut HungerClock, proceed: bool) -> (r: HungerTick)
    requires
        proceed ==> old(clock).time > i32::MIN,
    ensures
        (*final(clock), r) == hunger_step(*old(clock), proceed),
{
    if !proceed {
        return HungerTick::OutOfTurn;
    }
    clock.time = clock.time - 1;
    if clock.time > 0 {
        return HungerTick::Waiting;
    }
    match clock.state {
        HungerState::WellFed => {
            clock.state = HungerState::Normal;
            clock.time = clock.state_duration;
            HungerTick::BecameNormal
        },
        HungerState::Normal => {
            clock.state = HungerState::Hungry;
            clock.time = clock.state_duration;
            HungerTick::BecameHungry
        },
        HungerState::Hungry => {
            clock.state = HungerState::Starving;
            HungerTick::BecameStarving
        },
        HungerState::Starving => HungerTick::Starved,
    }
}

/// The clock after `n` ticks on its owner's turns.
pub open spec fn hunger_steps(c: HungerClock, n: nat) -> HungerClock
    decreases n,
{
    if n == 0 {
        c
    } else {
        hunger_step(hunger_steps(c, (n - 1) as nat), true).0
    }
}

/// The hunger state that follows `s` when its time runs out.
pub open spec fn next_hunger_state(s: HungerState) -> HungerState {
    match s {
        HungerState::WellFed => HungerState::Normal,
        HungerState::Normal => HungerState::Hungry,
        _ => HungerState::Starving,
    }
}

proof fn lemma_hunger_countdown(c: HungerClock, k: nat)
    requires
        k < c.time,
    ensures
        hunger_steps(c, k) == (HungerClock { time: (c.time - k) as i32, ..c }),
    decreases k,
{
    if k > 0 {
        lemma_hunger_countdown(c, (k - 1) as nat);
    }
}

/// Each hunger state lasts the clock's remaining time: for the first
/// `time - 1` ticks the state holds while the time counts down, and the tick
/// that runs the time out moves to the next state (with the full duration
/// again, on the way to hungry).
pub proof fn lemma_hunger_state_lasts(c: HungerClock, k: nat)
    requires
        0 < c.time,
        k < c.time,
    ensures
        hunger_steps(c, k).state == c.state,
        hunger_steps(c, k).time == c.time - k,
        hunger_steps(c, c.time as nat).state == next_hunger_state(c.state),
        (c.state is WellFed || c.state is Normal) ==> hunger_steps(c, c.time as nat).time == c.state_duration,
{
    lemma_hunger_countdown(c, k);
    lemma_hunger_countdown(c, (c.time - 1) as nat);
    assert(hunger_steps(c, c.time as nat) == hunger_step(hunger_steps(c, (c.time - 1) as nat), true).0);
}

/// The message a tick writes to the log, if any.
pub open spec fn hunger_message(r: HungerTick) -> Option<Seq<char>> {
    match r {
        HungerTick::BecameHungry => Some("You begin to feel hungry."@),
        HungerTick::BecameStarving => Some("You are starving."@),
        _ => None,
    }
}

/// The messages logged while running the first `n` clocks, in order: those
/// of the clocks whose turn it is.
pub open spec fn hunger_messages(clocks: Seq<HungerClock>, proceed: Seq<bool>, n: int) -> Seq<Seq<char>>
    decreases n,
{
    if n <= 0 {
        Seq::empty()
    } else {
        let r = hunger_step(clocks[n - 1], true).1;
        hunger_messages(clocks, proceed, n - 1) + if proceed[n - 1] && hunger_message(r) is Some {
            seq![hunger_message(r).unwrap()]
        } else {
            Seq::empty()
        }
    }
}

/// Runs the hunger clocks, as the hunger system does each turn: each clock
/// whose turn it is (`proceed`) ticks, the others are left as they are.
/// Returns the positions of the clocks whose entity starved this turn, in
/// order, and logs the clocks' messages in order.
pub fn run_hunger_clocks(clocks: &mut Vec<HungerClock>, proceed: &Vec<bool>, log: &mut GameLog) -> (starved: Vec<usize>)
    requires
        old(clocks).len() == proceed.len(),
        forall|i: int| 0 <= i < old(clocks).len() && proceed[i] ==> old(clocks)[i].time > i32::MIN,
    ensures
        final(clocks).len() == old(clocks).len(),
        forall|i: int|
            0 <= i < final(clocks).len() ==> final(clocks)[i] == if proceed[i] {
                hunger_step(old(clocks)[i], true).0
            } else {
                old(clocks)[i]
            },
        forall|k: int|
            0 <= k < starved.len() ==> {
                &&& starved[k] < old(clocks).len()
                &&& proceed[starved[k] as int]
                &&& hunger_step(old(clocks)[starved[k] as int], true).1 == HungerTick::Starved
            },
        forall|i: int|
            0 <= i < old(clocks).len() && proceed[i] && hunger_step(old(clocks)[i], true).1 == HungerTick::Starved
                ==> exists|k: int| 0 <= k < starved.len() && starved[k] == i,
        forall|k1: int, k2: int| 0 <= k1 < k2 < starved.len() ==> starved[k1] < starved[k2],
        final(log).entries@.map_values(|m: String| m@) == old(log).entries@.map_values(|m: String| m@)
            + hunger_messages(old(clocks)@, proceed@, old(clocks).len() as int),
{
    let ghost old_clocks = clocks@;
    let mut starved: Vec<usize> = Vec::new();
    let mut i: usize = 0;
    while i < clocks.len()
        invariant
            clocks.len() == old_clocks.len(),
            old_clocks.len() == proceed.len(),
            old_clocks == old(clocks)@,
            forall|k: int| 0 <= k < old_clocks.len() && proceed[k] ==> old_clocks[k].time > i32::MIN,
            0 <= i <= clocks.len(),
            forall|k: int|
                0 <= k < i ==> clocks[k] == if proceed[k] {
                    hunger_step(old_clocks[k], true).0
                } else {
                    old_clocks[k]
                },
            forall|k: int| i <= k < clocks.len() ==> clocks[k] == old_clocks[k],
            forall|k: int|
                0 <= k < starved.len() ==> {
                    &&& starved[k] < i
                    &&& proceed[starved[k] as int]
                    &&& hunger_step(old_clocks[starved[k] as int], true).1 == HungerTick::Starved
                },
            forall|k: int|
                0 <= k < i && proceed[k] && hunger_step(old_clocks[k], true).1 == HungerTick::Starved ==> exists|m: int|
                    0 <= m < starved.len() && starved[m] == k,
            forall|k1: int, k2: int| 0 <= k1 < k2 < starved.len() ==> starved[k1] < starved[k2],
            log.entries@.map_values(|m: String| m@) == old(log).entries@.map_values(|m: String| m@)
                + hunger_messages(old_clocks, proceed@, i as int),
        decreases clocks.len() - i,
    {
        let go = proceed[i];
        let ghost prev_starved = starved@;
        let ghost prev_log = log.entries@;
        if go {
            let mut c = clocks[i];
            assert(c == old_clocks[i as int]);
            let r = tick_hunger_clock(&mut c, true);
            clocks.set(i, c);
            match r {
                HungerTick::BecameHungry => log.push("You begin to feel hungry.".to_owned()),
                HungerTick::BecameStarving => log.push("You are starving.".to_owned()),
                HungerTick::Starved => {
                    starved.push(i);
                },
                _ => {},
            }
        }
        proof {
            let r = hunger_step(old_clocks[i as int], true).1;
            if go && hunger_message(r) is Some {
                assert(log.entries@.map_values(|m: String| m@) =~= prev_log.map_values(|m: String| m@).push(
                    hunger_message(r).unwrap(),
                ));
            } else {
                assert(log.entries@ == prev_log);
            }
            assert(hunger_messages(old_clocks, proceed@, i + 1) == hunger_messages(old_clocks, proceed@, i as int)
                + if proceed@[i as int] && hunger_message(r) is Some {
                seq![hunger_message(r).unwrap()]
            } else {
                Seq::<Seq<char>>::empty()
            });
            assert forall|k: int|
                0 <= k < i + 1 && proceed[k] && hunger_step(old_clocks[k], true).1 == HungerTick::Starved implies exists|m: int|
                0 <= m < starved.len() && starved[m] == k by {
                if k == i {
                    assert(starved[starved.len() - 1] == i);
                } else {
                    let m = choose|m: int| 0 <= m < prev_starved.len() && prev_starved[m] == k;
                    assert(starved@[m] == k);
                }
            }
        }
        i = i + 1;
    }
    starved
}

} // verus!
