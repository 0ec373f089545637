pub mod ai;
pub mod melee;
pub mod signaling;
pub mod hunger;
pub mod magic;
pub mod swimming;
pub mod spawn_despawn;
pub mod status_effects;
pub mod basics;
pub mod game_effects;
pub mod equipment;
