//! A minimal real-time avoidance simulation.
//!
//! A single player entity tracks the host's pointer inside a bounded square
//! arena while many enemy entities perform a random walk.  Collisions are
//! detected with a cheap axis-aligned proximity test; on collision the player
//! becomes inert until the user triggers a reset, which rebuilds the whole
//! world with freshly scattered enemies.
//!
//! Coordinates are fixed-point integers: one unit is a tenth of a world unit,
//! so the 512-wide arena spans `[-2560, 2560]` on each axis and the default
//! entity radius of five world units is `50`.  The host converts to and from
//! its own floating-point coordinates at the boundary.

pub mod entity;
pub mod geometry;
mod rng;
pub mod world;
