use vstd::prelude::*;
use crate::components::melee::min_int;
use crate::components::swimming::SwimStamina;
use crate::components::magic::{SpellCharges, tick_spec};
use crate::components::signaling::ElementalDamageKind;

verus! {

//----------------------------------------------------------------------------
// Swim stamina and spell charges: the clocks ticked once a turn.
//----------------------------------------------------------------------------

/// The stamina after one turn: a turn in water costs one point of stamina,
/// and a turn out of it restores one, up to the maximum.
pub open spec fn swim_step(s: SwimStamina, in_water: bool) -> SwimStamina {
    if in_water {
        if s.stamina >= 1 {
            SwimStamina { stamina: (s.stamina - 1) as i32, ..s }
        } else {
            s
        }
    } else {
        SwimStamina { stamina: min_int(s.stamina + 1, s.max_stamina as int) as i32, ..s }
    }
}

/// Ticks an entity's swim stamina. Returns whether the entity is drowning
/// (in water with no stamina left): it then takes its drowning damage.
pub fn tick_swim_stamina(stamina: &mut SwimStamina, in_water: bool) -> (drowning: bool)
    requires
        !in_water ==> old(stamina).stamina < i32::MAX,
    ensures
        *final(stamina) == swim_step(*old(stamina), in_water),
        drowning == (in_water && old(stamina).stamina < 1),
{
    if in_water {
        if stamina.stamina >= 1 {
            stamina.stamina = stamina.stamina - 1;
            false
        } else {
            true
        }
    } else {
        stamina.stamina = if stamina.stamina + 1 < stamina.max_stamina {
            stamina.stamina + 1
        } else {
            stamina.max_stamina
        };
        false
    }
}

/// Stamina stays within `0..=max_stamina` turn after turn.
pub proof fn lemma_swim_stamina_in_range(s: SwimStamina, in_water: bool)
    requires
        0 <= s.stamina <= s.max_stamina,
    ensures
        0 <= swim_step(s, in_water).stamina <= swim_step(s, in_water).max_stamina,
        swim_step(s, in_water).max_stamina == s.max_stamina,
{
}

/// The charges of a spell after a turn: one tick, and a second one when the
/// owner wears an item that speeds the recharge of the spell's element.
pub open spec fn recharge_step(s: SpellCharges, bonus_element: Option<ElementalDamageKind>) -> SpellCharges {
    if bonus_element == Some(s.element) {
        tick_spec(tick_spec(s))
    } else {
        tick_spec(s)
    }
}

/// Whether a tick restores a charge.
pub open spec fn tick_recharges(s: SpellCharges) -> bool {
    min_int(s.ticks + 1, s.regen_ticks as int) == s.regen_ticks && s.charges < s.max_charges
}

/// Recharges a spell for one turn. `bonus_element` is the element whose
/// recharge an item worn by the spell's owner speeds up, if any. Returns
/// whether a charge was restored.
pub fn recharge_spell(charges: &mut SpellCharges, bonus_element: Option<ElementalDamageKind>) -> (recharged: bool)
    requires
        old(charges).ticks < i32::MAX - 1,
        0 <= old(charges).ticks,
    ensures
        *final(charges) == recharge_step(*old(charges), bonus_element),
        recharged == (tick_recharges(*old(charges)) || (bonus_element == Some(old(charges).element)
            && tick_recharges(tick_spec(*old(charges))))),
{
    let mut did_recharge = charges.tick();
    let bonus = match bonus_element {
        Some(e) => e == charges.element,
        None => false,
    };
    if bonus {
        let again = charges.tick();
        did_recharge = did_recharge || again;
    }
    did_recharge
}

} // verus!
