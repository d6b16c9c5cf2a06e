//! Core logic of a small 2D arcade shooter: a player ship steered by
//! directional key events, kept inside the window, firing bullets that fly
//! straight up, with a cooldown between shots.
//!
//! Positions and displacements are carried in whole subpixels (thousandths of
//! a pixel) and time in whole milliseconds, so every step of the game logic
//! is exact integer arithmetic. The rendering front end converts to and from
//! these units at its edge.

pub mod confine;
pub mod cooldown;
pub mod firing;
pub mod geometry;
pub mod input;
pub mod movement;
pub mod player;
