use vstd::prelude::*;

verus! {

/// How long an entity can stay in water before drowning, and the damage it
/// takes each turn once drowning.
#[derive(PartialEq, Eq, Structural, Copy, Clone, Debug)]
pub struct SwimStamina {
    pub max_stamina: i32,
    pub stamina: i32,
    pub drowning_damage: i32,
}

} // verus!
