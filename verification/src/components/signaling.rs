use vstd::prelude::*;
use specs::Entity;
use crate::geometry::Point;

verus! {

//------------------------------------------------------------------
// Signaling Components
// These components signal that some change needs to occur or effect needs to
// be applied while processing a turn.
//------------------------------------------------------------------

// Signals that the entity has entered into melee combat with a chosen target.
#[derive(Copy, Clone)]
pub struct WantsToMeleeAttack {
    pub target: Entity,
}

// Signals that an entity wants to pick up an item.
#[derive(Copy, Clone)]
pub struct WantsToPickupItem {
    pub by: Entity,
    pub item: Entity,
}

// Signals that the owning entity wants to use an untargeted effect.
#[derive(Copy, Clone)]
pub struct WantsToUseUntargeted {
    pub thing: Entity,
}

// The entity has requested to move to a specific map position.
#[derive(PartialEq, Eq, Structural, Copy, Clone, Debug)]
pub struct WantsToMoveToPosition {
    pub pt: Point,
    // Override any movement options check and force the move.
    pub force: bool,
}

// The entity has requested to teleport to a random map position.
#[derive(Copy, Clone)]
pub struct WantsToMoveToRandomPosition {}

#[derive(PartialEq, Eq, Structural, Copy, Clone, Debug)]
pub enum ElementalDamageKind {
    Physical,
    Fire,
    Chill,
    Hunger,
    Drowning,
}

/// Damage queued for an entity this turn, as parallel lists of amounts and
/// kinds.
pub struct WantsToTakeDamage {
    pub amounts: Vec<i32>,
    pub kinds: Vec<ElementalDamageKind>,
}

impl WantsToTakeDamage {
    /// Queues one more instance of damage: appended to the queued damage when
    /// there is some, otherwise queued as the first instance.
    pub fn new_damage(
        queued: &mut Option<WantsToTakeDamage>,
        amount: i32,
        kind: ElementalDamageKind,
    )
        ensures
            final(queued).is_some(),
            old(queued).is_some() ==> final(queued).unwrap().amounts@
                == old(queued).unwrap().amounts@.push(amount),
            old(queued).is_some() ==> final(queued).unwrap().kinds@
                == old(queued).unwrap().kinds@.push(kind),
            old(queued).is_none() ==> final(queued).unwrap().amounts@ == seq![amount],
            old(queued).is_none() ==> final(queued).unwrap().kinds@ == seq![kind],
    {
        match queued.take() {
            Some(mut d) => {
                d.amounts.push(amount);
                d.kinds.push(kind);
                *queued = Some(d);
            },
            None => {
                let mut amounts: Vec<i32> = Vec::new();
                amounts.push(amount);
                let mut kinds: Vec<ElementalDamageKind> = Vec::new();
                kinds.push(kind);
                assert(amounts@ =~= seq![amount]);
                assert(kinds@ =~= seq![kind]);
                *queued = Some(WantsToTakeDamage { amounts, kinds });
            },
        }
    }
}

} // verus!
