use vstd::prelude::*;
use specs::Entity;

verus! {

/// Entities of the ECS are carried through the library as opaque handles.
#[verifier::external_type_specification]
#[verifier::external_body]
pub struct ExEntity(Entity);

/// `Entity`'s `clone`: specs derives `Clone` and `Copy` for it, so a clone is
/// the same value.
pub assume_specification[ <Entity as Clone>::clone ](e: &Entity) -> (r: Entity)
    ensures
        r == *e,
;

/// Whether two handles name the same entity: calls `Entity`'s `==`, which
/// specs derives, so that it compares the index and generation the handles
/// are made of, and two handles are equal exactly when they are the same value.
#[verifier::external_body]
pub(crate) fn same_entity(a: Entity, b: Entity) -> (r: bool)
    ensures
        r == (a == b),
{
    a == b
}

} // verus!
