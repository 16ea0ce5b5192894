//! Entity simulation of a side-scrolling arcade combat loop: a vehicle that
//! moves vertically along a scrolling background, enemies that wander toward
//! it, projectiles fired at them, and a pool of lives spent on collisions.
//!
//! Coordinates are whole world units; times are milliseconds.

pub mod geometry;
pub mod animation;
pub mod vehicle;
pub mod enemy;
pub mod plasma;
pub mod life;
pub mod world;
mod random;
