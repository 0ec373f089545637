pub mod common;
pub mod components;
pub mod cellular_automata_map;
pub mod noise;
pub mod colormaps;
pub mod simple_map;
