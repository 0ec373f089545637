pub mod damage;
pub mod hunger;
pub mod swimming;
pub mod map_indexing;
pub mod spawning;
pub mod encroachment;
pub mod melee_combat;
pub mod monster_ai;
pub mod status;
pub mod targeted;
pub mod movement;
