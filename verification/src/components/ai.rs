use vstd::prelude::*;

verus! {

//------------------------------------------------------------------
// Monster AI Components
//
// These components hold data needed to configure and track the state of
// enemy monster AI behaviour.
//------------------------------------------------------------------

// Tags monsters if they can act in a given turn.
#[derive(Clone, Copy)]
pub struct CanAct {}

/// Which kinds of tile a moving entity routes around.
#[derive(PartialEq, Eq, Structural, Clone, Copy, Debug)]
pub struct MovementRoutingOptions {
    pub avoid_blocked: bool,
    pub avoid_fire: bool,
    pub avoid_chill: bool,
    pub avoid_water: bool,
    pub avoid_steam: bool,
    pub avoid_smoke: bool,
    pub avoid_lava: bool,
    pub avoid_brimstone: bool,
    pub avoid_ice: bool,
}

#[derive(Clone, Copy)]
pub struct MonsterMovementRoutingOptions {
    pub options: MovementRoutingOptions,
}

#[derive(Clone, Copy)]
pub struct MonsterBasicAI {
    pub only_follow_within_viewshed: bool,
    // Should the monster wander about when they cannot see the player.
    pub no_visibility_wander: bool,
    // The chance for the entity to disregard any other action, and move to a
    // random adjacent tile.
    pub chance_to_move_to_random_adjacent_tile: i32,
    // Should the monster try to escape when at low health?
    pub escape_when_at_low_health: bool,
    // These attributes allow a monster to continue following the player even
    // when the player moves out of the monster's view range.
    pub lost_visibility_keep_following_turns_max: i32,
    pub lost_visibility_keep_following_turns_remaining: i32,
}

impl MonsterBasicAI {
    /// Restarts the count of turns to keep following an unseen player.
    pub fn reset_keep_following(&mut self)
        ensures
            *final(self) == (MonsterBasicAI {
                lost_visibility_keep_following_turns_remaining: old(
                    self,
                ).lost_visibility_keep_following_turns_max,
                ..*old(self)
            }),
    {
        self.lost_visibility_keep_following_turns_remaining =
        self.lost_visibility_keep_following_turns_max
    }

    /// Are there turns left to keep following an unseen player?
    pub fn do_keep_following(&self) -> (b: bool)
        ensures
            b == (self.lost_visibility_keep_following_turns_remaining > 0),
    {
        self.lost_visibility_keep_following_turns_remaining > 0
    }

    /// Uses up one turn of following an unseen player.
    pub fn decrement_keep_following(&mut self)
        requires
            old(self).lost_visibility_keep_following_turns_remaining > i32::MIN,
        ensures
            *final(self) == (MonsterBasicAI {
                lost_visibility_keep_following_turns_remaining: (old(
                    self,
                ).lost_visibility_keep_following_turns_remaining - 1) as i32,
                ..*old(self)
            }),
    {
        self.lost_visibility_keep_following_turns_remaining -= 1
    }
}

#[derive(Clone, Copy)]
pub struct MonsterAttackSpellcasterAI {
    pub distance_to_keep_away: i32,
}

#[derive(PartialEq, Eq, Structural, Copy, Clone, Debug)]
pub enum SupportSpellcasterKind {
    Cleric,
    EnchanterAttack,
    EnchanterDefense,
}

#[derive(Clone, Copy)]
pub struct MonsterSupportSpellcasterAI {
    pub support_kind: SupportSpellcasterKind,
    pub distance_to_keep_away_from_player: i32,
    pub distance_to_keep_away_from_monsters: i32,
}

} // verus!
