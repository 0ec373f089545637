use vstd::prelude::*;
use crate::components::signaling::ElementalDamageKind;

verus! {

//------------------------------------------------------------------
// Game effects components
//
// These components tag entities as having certain effects when used in
// various game contexts:
//
//   - [...]WhenUsed: effects of an item or spell used from the item menu,
//     i.e. as an untargeted effect;
//   - [...]WhenThrown: effects of an item thrown at a target;
//   - [...]WhenCast: effects of a spell cast at a target;
//   - [...]WhenEncroachedUpon: effects an entity has on any other entity
//     occupying the same tile.
//
// Some entities (potions, for example) act differently when thrown and when
// used; some weapon specials allow both a thrown and a cast effect.
//------------------------------------------------------------------

/// Increases the user's maximum hit points.
#[derive(PartialEq, Eq, Structural, Copy, Clone, Debug)]
pub struct IncreasesMaxHpWhenUsed {
    pub amount: i32,
}

/// Makes the user's spells charge more quickly.
#[derive(PartialEq, Eq, Structural, Copy, Clone, Debug)]
pub struct DecreasesSpellRechargeWhenUsed {
    pub percentage: i32,
}

/// Damage inflicted by a thrown or cast effect.
#[derive(PartialEq, Eq, Structural, Copy, Clone, Debug)]
pub struct InflictsDamageData {
    pub damage: i32,
    pub kind: ElementalDamageKind,
}

#[derive(PartialEq, Eq, Structural, Copy, Clone, Debug)]
pub struct InflictsDamageWhenThrown(pub InflictsDamageData);

#[derive(PartialEq, Eq, Structural, Copy, Clone, Debug)]
pub struct InflictsDamageWhenCast(pub InflictsDamageData);

/// Damage inflicted on any other entity occupying the same tile (steam, chill).
#[derive(PartialEq, Eq, Structural, Copy, Clone, Debug)]
pub struct InflictsDamageWhenEncroachedUpon {
    pub damage: i32,
    pub kind: ElementalDamageKind,
}

/// Freezing inflicted by a thrown or cast effect.
#[derive(PartialEq, Eq, Structural, Copy, Clone, Debug)]
pub struct InflictsFreezingData {
    pub turns: i32,
}

#[derive(PartialEq, Eq, Structural, Copy, Clone, Debug)]
pub struct InflictsFreezingWhenCast(pub InflictsFreezingData);

#[derive(PartialEq, Eq, Structural, Copy, Clone, Debug)]
pub struct InflictsFreezingWhenThrown(pub InflictsFreezingData);

/// Burning inflicted by a thrown or cast effect.
#[derive(PartialEq, Eq, Structural, Copy, Clone, Debug)]
pub struct InflictsBurningData {
    pub turns: i32,
    pub tick_damage: i32,
}

#[derive(PartialEq, Eq, Structural, Copy, Clone, Debug)]
pub struct InflictsBurningWhenThrown(pub InflictsBurningData);

#[derive(PartialEq, Eq, Structural, Copy, Clone, Debug)]
pub struct InflictsBurningWhenCast(pub InflictsBurningData);

/// Buffs melee attack damage for a number of turns.
#[derive(PartialEq, Eq, Structural, Copy, Clone, Debug)]
pub struct BuffsMeleeAttackWhenCast {
    pub turns: i32,
}

/// Buffs physical defense for a number of turns.
#[derive(PartialEq, Eq, Structural, Copy, Clone, Debug)]
pub struct BuffsPhysicalDefenseWhenCast {
    pub turns: i32,
}

/// Inflicts burning on any other entity occupying the same tile.
#[derive(PartialEq, Eq, Structural, Copy, Clone, Debug)]
pub struct InflictsBurningWhenEncroachedUpon {
    pub turns: i32,
    pub tick_damage: i32,
}

/// Any entity encroaching on the owner stops burning (water).
#[derive(PartialEq, Eq, Structural, Copy, Clone, Debug)]
pub struct RemoveBurningWhenEncroachedUpon {}

/// Any fire encroaching on the owner dissipates at once.
#[derive(PartialEq, Eq, Structural, Copy, Clone, Debug)]
pub struct DissipateFireWhenEncroachedUpon {}

/// The owner stops burning every upkeep turn.
#[derive(PartialEq, Eq, Structural, Copy, Clone, Debug)]
pub struct RemoveBurningOnUpkeep {}

/// A chance to inflict burning on adjacent entities.
#[derive(PartialEq, Eq, Structural, Copy, Clone, Debug)]
pub struct ChanceToInflictBurningOnAdjacentEntities {
    pub chance: i32,
}

/// Inflicts freezing on any other entity occupying the same tile.
#[derive(PartialEq, Eq, Structural, Copy, Clone, Debug)]
pub struct InflictsFreezingWhenEncroachedUpon {
    pub turns: i32,
}

/// Grants a melee defense bonus.
#[derive(PartialEq, Eq, Structural, Copy, Clone, Debug)]
pub struct GrantsMeleeDefenseBonus {
    pub bonus: i32,
}

/// Restores all of the user's hit points.
#[derive(PartialEq, Eq, Structural, Copy, Clone, Debug)]
pub struct ProvidesFullHealing {}

/// Restores a charge to all of the user's spells.
#[derive(PartialEq, Eq, Structural, Copy, Clone, Debug)]
pub struct ProvidesFullSpellRecharge {}

/// Restores the user to well fed.
#[derive(PartialEq, Eq, Structural, Copy, Clone, Debug)]
pub struct ProvidesFullFood {}

/// Grants fire immunity.
#[derive(PartialEq, Eq, Structural, Copy, Clone, Debug)]
pub struct ProvidesFireImmunityWhenUsed {
    pub turns: i32,
}

/// Grants chill immunity.
#[derive(PartialEq, Eq, Structural, Copy, Clone, Debug)]
pub struct ProvidesChillImmunityWhenUsed {
    pub turns: i32,
}

/// Teleports the user to a random position.
#[derive(PartialEq, Eq, Structural, Copy, Clone, Debug)]
pub struct MovesToRandomPosition {}

/// Moves the user to the targeted position.
#[derive(PartialEq, Eq, Structural, Copy, Clone, Debug)]
pub struct MoveToPositionWhenCast {}

} // verus!
