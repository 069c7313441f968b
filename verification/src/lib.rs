//! Simulation core of a side-scrolling "flappy" arcade game: a deterministic,
//! frame-driven world update covering player physics, sprite animation,
//! obstacle spawning and scrolling, and the out-of-bounds reset.
//!
//! Positions are whole numbers of tenths of a world unit, time is whole
//! milliseconds, and the random vertical offset of a spawned pipe pair is a
//! whole number of thousandths, so every update is exact integer arithmetic.

pub mod laws;
pub mod random;
pub mod systems;
pub mod timer;
pub mod world;
