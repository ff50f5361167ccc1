//! What one frame shows of the game.

use vstd::prelude::*;

verus! {

/// The figures that a frame shows, in the units of [`crate::units`].
#[derive(Clone, Copy, Debug, PartialEq, Eq, Structural)]
pub struct Frame {
    /// How far below the top the ship is drawn, in height units (one metre to the pixel).
    pub ship_offset: i64,
    /// Width of the fuel bar, in tenths of a pixel.
    pub fuel_bar_width: i64,
    /// Fuel to print, in fuel units: never below zero.
    pub fuel: i64,
    /// Speed to print, in speed units.
    pub speed: i64,
    /// Distance left to the ground, in height units.
    pub altitude: i64,
}

} // verus!
