use vstd::prelude::*;

verus! {

//------------------------------------------------------------------
// Components and data structures for the hunger system.
//
// The player progresses through hunger states as game turns pass, with later
// states inflicting worse effects on the player.
//------------------------------------------------------------------

#[derive(PartialEq, Eq, Structural, Copy, Clone, Debug)]
pub enum HungerState {
    WellFed,
    Normal,
    // When Hungry the player cannot wait heal.
    Hungry,
    // When Starving, the player takes a small amount of damage each tick.
    Starving,
}

#[derive(PartialEq, Eq, Structural, Copy, Clone, Debug)]
pub struct HungerClock {
    pub state: HungerState,
    // How many turns each state lasts.
    pub state_duration: i32,
    // How many turns are left in the current state.
    pub time: i32,
    // Damage the player takes each tick when Starving.
    pub tick_damage: i32,
}

impl HungerClock {
    /// Restores the player to WellFed, with a full state duration ahead.
    pub fn satiate(&mut self)
        ensures
            *final(self) == (HungerClock {
                state: HungerState::WellFed,
                time: old(self).state_duration,
                ..*old(self)
            }),
    {
        self.state = HungerState::WellFed;
        self.time = self.state_duration;
    }
}

} // verus!
