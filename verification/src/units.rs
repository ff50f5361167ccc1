//! Units and rule constants.
//!
//! Time advances in ticks, `FPS` of them to the second. Every quantity is held as a whole
//! number of a unit chosen so that one tick changes it by a whole amount:
//!
//! * a height counts units of 1/3600 m (`HEIGHT_UNITS_PER_METRE` to the metre),
//! * a speed counts height units per tick, that is units of 1/60 m/s
//!   (`SPEED_UNITS_PER_METRE_PER_SECOND` to the metre per second),
//! * an acceleration counts height units per tick per tick, which is exactly m/s^2,
//! * a fuel volume counts units of 0.1 l (`FUEL_UNITS_PER_LITRE` to the litre).
//!
//! Heights grow downwards: 0 is the top of the screen and `CEILING` is the ground.

use vstd::prelude::*;

verus! {

/// Ticks per second.
pub const FPS: u32 = 60;

/// Height units in one metre: `FPS` squared.
pub const HEIGHT_UNITS_PER_METRE: i64 = 3600;

/// Speed units in one metre per second: `FPS`.
pub const SPEED_UNITS_PER_METRE_PER_SECOND: i64 = 60;

/// Fuel units in one litre.
pub const FUEL_UNITS_PER_LITRE: i64 = 10;

/// The height of the ground, 450 m, in height units. The round ends once the ship is there.
pub const CEILING: i64 = 1_620_000;

/// The fastest touchdown that still wins, 5 m/s, in speed units.
pub const SAFE_SPEED: i64 = 300;

/// Pull of gravity, in m/s^2.
pub const GRAVITY: i64 = 10;

/// Push of the engine against gravity while it fires, in m/s^2.
pub const ENGINE: i64 = 40;

/// Fuel in the tank at the start of a round, 100 l, in fuel units.
pub const FUEL_CAPACITY: i64 = 1000;

/// Fuel burnt by one tick of thrust, 0.3 l, in fuel units.
pub const FUEL_BURN: i64 = 3;

/// Width of the fuel bar, in tenths of a pixel, for each fuel unit in the tank
/// (two pixels to the litre).
pub const FUEL_BAR_SCALE: i64 = 2;

} // verus!
