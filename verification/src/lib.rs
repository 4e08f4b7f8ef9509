//! A verified core for a 2D swarm simulation: a population of rigid bodies
//! under per-frame random impulses, a player-driven anchor point, and a
//! camera that smoothly tracks the anchor and zooms on scroll input.
//!
//! All scalar quantities are fixed-point values: an `i64` counting
//! thousandths of a world unit (or of a second, for durations).

pub mod anchor;
pub mod body;
pub mod camera;
pub mod fixed;
pub mod frame;
pub mod rng;
pub mod setup;
pub mod systems;
pub mod world;
