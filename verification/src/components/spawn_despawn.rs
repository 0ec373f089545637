use vstd::prelude::*;

verus! {

//------------------------------------------------------------------
// Spawn Components
//
// These components influence entity spawning behaviour.
//------------------------------------------------------------------

// The kinds of entities that can spawn. Tags a spawn request so that the
// appropriate function is used to spawn the entity.
#[derive(PartialEq, Eq, Structural, Copy, Clone, Debug)]
pub enum EntitySpawnKind {
    Fire { spread_chance: i32, dissipate_chance: i32 },
    Chill { spread_chance: i32, dissipate_chance: i32 },
    Steam { spread_chance: i32, dissipate_chance: i32 },
    PinkJelly { max_hp: i32, hp: i32 },
    MagicOrb,
}

// Tags entities with their kind, used to look up the appropriate destructor.
#[derive(PartialEq, Eq, Structural, Copy, Clone, Debug)]
pub struct IsEntityKind {
    pub kind: EntitySpawnKind,
}

// A targeted effect spawns new entities in an area when resolved.
#[derive(PartialEq, Eq, Structural, Copy, Clone, Debug)]
pub struct SpawnsEntityInAreaWhenTargeted {
    pub radius: i32,
    pub kind: EntitySpawnKind,
}

// The entity has a random chance to spawn entities in an adjacent space.
#[derive(PartialEq, Eq, Structural, Copy, Clone, Debug)]
pub struct ChanceToSpawnAdjacentEntity {
    pub chance: i32,
    pub kind: EntitySpawnKind,
}

// The entity spawns another entity in the same space when burning (grass
// spawns fire when burned, for example).
#[derive(PartialEq, Eq, Structural, Copy, Clone, Debug)]
pub struct ChanceToSpawnEntityWhenBurning {
    pub kind: EntitySpawnKind,
    pub chance: i32,
}

// The entity has a chance to dissipate every turn.
#[derive(PartialEq, Eq, Structural, Copy, Clone, Debug)]
pub struct ChanceToDissipate {
    pub chance: i32,
}

// The entity dissipates (is destroyed) when burning.
#[derive(Copy, Clone)]
pub struct DissipateWhenBurning {}

// The entity has dissipated and is removed at the end of the current turn.
#[derive(Copy, Clone)]
pub struct WantsToDissipate {}

} // verus!
