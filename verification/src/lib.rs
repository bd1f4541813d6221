//! Core of a tile-based roguelike: a grid index, a dungeon-map generator
//! that carves rooms and corridors into a wall-filled grid, a component
//! store for positioned, renderable actors, and the per-tick movement and
//! render-extraction logic that drives them.
//!
//! Rendering and input belong to an external console backend; this crate
//! only computes. Each tick takes the decoded key press and hands back the
//! draw sequence (terrain cells first, then entity cells) as plain data.

pub mod components;
pub mod constants;
pub mod geometry;
pub mod rooms;
pub mod systems;
pub mod utils;
pub mod world;
