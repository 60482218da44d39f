//! Simulation core of a vertical arcade shooter.
//!
//! Lengths are integers in micro-pixels, times in microseconds and speeds in
//! pixels per second (micro-pixels per microsecond), so that motion, collision
//! and scoring are exact integer arithmetic.
pub mod collide;
pub mod game;
pub mod score;
pub mod shape;
pub mod spawn;
