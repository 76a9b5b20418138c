//! The decision logic of a small scene: a camera that orbits a target at a
//! fixed angular speed, a sprite whose material flips between a pixel-art and
//! a smooth variant on each key press, and the quad that the sprite is drawn on.
//!
//! Everything here works on plain values. The host engine owns the entities,
//! the clock, the keyboard and the renderer, and hands this library integers
//! and flags.

pub mod orbit;
pub mod quad;
pub mod toggle;
