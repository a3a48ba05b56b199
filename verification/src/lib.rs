//! Grid collision, key and lock gating, and level transitions for a
//! tile-based adventure, with every rule stated as a contract.

pub mod animations;
pub mod collider;
pub mod colors;
pub mod entities;
pub mod free_movement;
pub mod grid;
pub mod indices;
pub mod player_movement;
pub mod systems;
pub mod tables;
pub mod world;
