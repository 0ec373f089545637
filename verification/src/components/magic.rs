use vstd::prelude::*;
use specs::Entity;
use crate::components::melee::{max_int, min_int};
use crate::components::signaling::ElementalDamageKind;

verus! {

//------------------------------------------------------------------
// Components and data structures for the magic system
//
// An entity that knows a spell has some number of charges of it to expend
// (each charge grants one cast). Charges are replenished over time, with a
// timer ticking each game turn.
//------------------------------------------------------------------

#[derive(Copy, Clone)]
pub struct BlessingOrb {}

pub const ORBS_NEEDED_FOR_BLESSING: i32 = 4;

#[derive(PartialEq, Eq, Structural, Copy, Clone, Debug)]
pub struct BlessingOrbBag {
    pub count: i32,
}

impl BlessingOrbBag {
    pub fn enough_orbs_for_blessing(&self) -> (b: bool)
        ensures
            b == (self.count >= ORBS_NEEDED_FOR_BLESSING),
    {
        self.count >= ORBS_NEEDED_FOR_BLESSING
    }

    /// Pays the orbs a blessing costs, never going below zero.
    pub fn cash_in_orbs_for_blessing(&mut self)
        requires
            old(self).count >= i32::MIN + ORBS_NEEDED_FOR_BLESSING,
        ensures
            final(self).count == max_int(0, old(self).count - ORBS_NEEDED_FOR_BLESSING),
    {
        self.count = if self.count - ORBS_NEEDED_FOR_BLESSING > 0 {
            self.count - ORBS_NEEDED_FOR_BLESSING
        } else {
            0
        };
    }
}

#[derive(Copy, Clone)]
pub struct BlessingSelectionTile {}

#[derive(Copy, Clone)]
pub struct OfferedBlessing {}

#[derive(PartialEq, Eq, Structural, Copy, Clone, Debug)]
pub enum BlessingSlot {
    NoSlot,
    Movement,
    Assist,
    NonElementalAttack,
    FireAttackLevel1,
    FireAttackLevel2,
    ChillAttackLevel1,
    ChillAttackLevel2,
}

#[derive(PartialEq, Eq, Structural, Copy, Clone, Debug)]
pub struct Castable {
    pub slot: BlessingSlot,
}

// Tags a spell as in the spellbook of its owner: the owner can cast it.
#[derive(Copy, Clone)]
pub struct InSpellBook {
    pub owner: Entity,
    pub slot: BlessingSlot,
}

/// The charges of a spell that are available, and how far along the recharge
/// of the next one is.
#[derive(PartialEq, Eq, Structural, Copy, Clone, Debug)]
pub struct SpellCharges {
    // The maximum number of charges of this spell that can be available.
    pub max_charges: i32,
    // The current number of available charges of this spell.
    pub charges: i32,
    // The number of turns to recharge one use of this spell.
    pub regen_ticks: i32,
    // The number of turns into recharging another use of this spell.
    pub ticks: i32,
    // Element, used to modify the recharge rate under certain circumstances.
    pub element: ElementalDamageKind,
}

/// The charges after one tick of the recharge timer.
pub open spec fn tick_spec(s: SpellCharges) -> SpellCharges {
    let ticks = min_int(s.ticks + 1, s.regen_ticks as int);
    if ticks == s.regen_ticks && s.charges < s.max_charges {
        SpellCharges { charges: (s.charges + 1) as i32, ticks: 0, ..s }
    } else if s.charges == s.max_charges {
        SpellCharges { ticks: 0, ..s }
    } else {
        SpellCharges { ticks: ticks as i32, ..s }
    }
}

impl SpellCharges {
    /// Spends one charge (never going below zero) and restarts the recharge.
    pub fn expend_charge(&mut self)
        requires
            old(self).charges > i32::MIN,
        ensures
            *final(self) == (SpellCharges {
                charges: max_int(0, old(self).charges - 1) as i32,
                ticks: 0,
                ..*old(self)
            }),
    {
        self.charges = if self.charges - 1 > 0 { self.charges - 1 } else { 0 };
        self.ticks = 0;
    }

    /// Advances the recharge timer by one turn. When the timer reaches
    /// `regen_ticks` and a charge is missing, a charge is restored, the timer
    /// restarts and the result is `true`. At full charges the timer is held
    /// at zero.
    pub fn tick(&mut self) -> (recharged: bool)
        requires
            old(self).ticks < i32::MAX,
        ensures
            *final(self) == tick_spec(*old(self)),
            recharged == (min_int(old(self).ticks + 1, old(self).regen_ticks as int)
                == old(self).regen_ticks && old(self).charges < old(self).max_charges),
    {
        self.ticks = if self.ticks + 1 < self.regen_ticks { self.ticks + 1 } else { self.regen_ticks };
        if self.ticks == self.regen_ticks && self.charges < self.max_charges {
            self.charges += 1;
            self.ticks = 0;
            return true;
        }
        if self.charges == self.max_charges {
            self.ticks = 0;
        }
        false
    }
}

/// A spell never gains charges past its maximum: a tick keeps
/// `0 <= charges <= max_charges` and `0 <= ticks <= regen_ticks` when they
/// held before it, and so does spending a charge.
pub proof fn lemma_charges_stay_in_range(s: SpellCharges)
    requires
        0 <= s.charges <= s.max_charges,
        0 <= s.ticks <= s.regen_ticks,
    ensures
        0 <= tick_spec(s).charges <= tick_spec(s).max_charges,
        0 <= tick_spec(s).ticks <= tick_spec(s).regen_ticks,
        tick_spec(s).max_charges == s.max_charges,
        0 <= max_int(0, s.charges - 1) <= s.max_charges,
{
}

#[derive(PartialEq, Eq, Structural, Copy, Clone, Debug)]
pub struct IncresesSpellRechargeRate {
    pub element: ElementalDamageKind,
}

#[derive(Copy, Clone)]
pub struct SingleCast {}

} // verus!
