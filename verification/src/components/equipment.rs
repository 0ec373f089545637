use vstd::prelude::*;
use specs::Entity;
use crate::components::magic::BlessingOrbBag;
use crate::entity::same_entity;

verus! {

//------------------------------------------------------------------
// Equipment and the inventory: what can be worn where, what is worn by whom,
// and where picked up things go.
//------------------------------------------------------------------

#[derive(PartialEq, Eq, Structural, Copy, Clone, Debug)]
pub enum EquipmentSlot {
    Melee,
    Armor,
}

/// The item can be worn in the slot.
#[derive(PartialEq, Eq, Structural, Copy, Clone, Debug)]
pub struct Equippable {
    pub slot: EquipmentSlot,
}

/// The item is worn by `owner` in the slot.
#[derive(Copy, Clone)]
pub struct Equipped {
    pub owner: Entity,
    pub slot: EquipmentSlot,
}

/// The owning entity wants to wear the item in the slot.
#[derive(Copy, Clone)]
pub struct WantsToEquipItem {
    pub item: Entity,
    pub slot: EquipmentSlot,
}

/// The owning entity wants to take off the item.
#[derive(Copy, Clone)]
pub struct WantsToRemoveItem {
    pub item: Entity,
    pub slot: EquipmentSlot,
}

/// The worn items that make way for a new item: those `equipper` wears in
/// `slot`, in the order given.
pub fn items_to_unequip(worn: &Vec<(Entity, Equipped)>, equipper: Entity, slot: EquipmentSlot) -> (r: Vec<Entity>)
    ensures
        r@ == worn@.filter(|w: (Entity, Equipped)| w.1.owner == equipper && w.1.slot == slot).map_values(
            |w: (Entity, Equipped)| w.0,
        ),
{
    let mut r: Vec<Entity> = Vec::new();
    let mut i: usize = 0;
    while i < worn.len()
        invariant
            i <= worn.len(),
            r@ == worn@.take(i as int).filter(|w: (Entity, Equipped)| w.1.owner == equipper && w.1.slot == slot).map_values(
                |w: (Entity, Equipped)| w.0,
            ),
        decreases worn.len() - i,
    {
        let (item, eq) = worn[i];
        proof {
            reveal_with_fuel(Seq::filter, 1);
            assert(worn@.take(i as int + 1).drop_last() =~= worn@.take(i as int));
        }
        if same_entity(eq.owner, equipper) && eq.slot == slot {
            r.push(item);
        }
        i = i + 1;
    }
    assert(worn@.take(worn.len() as int) =~= worn@);
    r
}

/// Where a picked up thing goes.
#[derive(PartialEq, Eq, Structural, Copy, Clone, Debug)]
pub enum PickupDestination {
    Backpack,
    Spellbook,
    BlessingOrbBag,
}

/// Where a picked up thing goes: spells into the spellbook, blessing orbs
/// into the orb bag, anything else into the backpack.
pub fn pickup_destination(is_castable: bool, is_orb: bool) -> (d: PickupDestination)
    ensures
        d == if is_castable {
            PickupDestination::Spellbook
        } else if is_orb {
            PickupDestination::BlessingOrbBag
        } else {
            PickupDestination::Backpack
        },
{
    if is_castable {
        PickupDestination::Spellbook
    } else if is_orb {
        PickupDestination::BlessingOrbBag
    } else {
        PickupDestination::Backpack
    }
}

/// Puts a picked up blessing orb in the bag.
pub fn add_orb(bag: &mut BlessingOrbBag)
    requires
        old(bag).count < i32::MAX,
    ensures
        final(bag).count == old(bag).count + 1,
{
    bag.count = bag.count + 1;
}

} // verus!
