//! A lunar-lander simulation on a fixed timestep, in exact integer arithmetic.
//!
//! A ship falls under gravity from the top of the screen. While the thrust key is held and
//! fuel is left, the engine pushes against the fall. The round ends when the ship reaches the
//! ground, and is won if it arrives slowly enough.

pub mod frame;
pub mod game;
pub mod input;
pub mod laws;
pub mod model;
pub mod outcome;
pub mod units;
