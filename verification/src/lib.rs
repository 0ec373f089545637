//! Verified core of a turn based roguelike: the dungeon map, map generation
//! steps, weighted random tables, combat and status rules, and the decisions
//! taken by the game's systems each turn.
pub mod geometry;
pub mod rng;
pub mod entity;
pub mod grid;
pub mod components;
pub mod map;
pub mod map_geometry;
pub mod random_table;
pub mod map_builders;
pub mod gamelog;
pub mod systems;
pub mod run_state;
pub mod player;
pub mod spawn_tables;
