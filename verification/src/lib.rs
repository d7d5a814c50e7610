//! Simulation and render core of a first-person, tile-grid 2.5D game.
//!
//! The crate owns the world representation (a rectangular grid of wall
//! tiles plus a texture atlas), the player's position and facing, the
//! per-frame collision-aware movement update, and the column-by-column
//! pixel sampling that a raycasting renderer draws vertical strips from.
//!
//! Positions are continuous in tile units, held in fixed-point integers
//! (`FP_ONE` units per tile); angles are whole degrees in `[0, 360)`.

pub mod color;
pub mod config;
pub mod framebuffer;
pub mod input;
pub mod player_movement;
pub mod pose;
pub mod room;
pub mod trig;
pub mod vec2;
