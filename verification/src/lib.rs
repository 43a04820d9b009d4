//! World generation for a tile-based city builder, and the few decisions of
//! build mode that go with it.
//!
//! A grid of noise percentages is classified into terrain, laid out as
//! square tiles around the world origin, and sprinkled with resource nodes.
//! The library works on whole numbers throughout: a noise sample comes in as
//! the percentage of its magnitude, and a place in the world as a number of
//! half units.
//!
//! Every function carries a contract that Verus proves, but for the two
//! random draws in `rng`, whose contracts are taken on trust from the `rand`
//! crate.

pub mod bounds;
pub mod building;
pub mod global_state;
pub mod loading;
pub mod menu;
mod rng;
pub mod tiles;
pub mod ui;
pub mod world_gen;
