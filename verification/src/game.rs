//! The game state that runs: the model of [`crate::model`] in machine integers.

use vstd::prelude::*;
use crate::frame::Frame;
use crate::input::Key;
use crate::model::Lander;
use crate::outcome::Outcome;
use crate::units::{
    CEILING, ENGINE, FUEL_BAR_SCALE, FUEL_BURN, FUEL_CAPACITY, GRAVITY, SAFE_SPEED,
};

verus! {

/// The state of one round. Its view is the [`Lander`] that it stands for.
pub struct GameState {
    is_active_engine: bool,
    height: i64,
    speed: i64,
    gravity_acceleration: i64,
    engine_acceleration: i64,
    fuel: i64,
}

impl View for GameState {
    type V = Lander;

    closed spec fn view(&self) -> Lander {
        Lander {
            height: self.height as int,
            speed: self.speed as int,
            gravity: self.gravity_acceleration as int,
            engine: self.engine_acceleration as int,
            fuel: self.fuel as int,
            engine_active: self.is_active_engine,
        }
    }
}

impl GameState {
    /// Every state is valid, keeps the accelerations it started with, and is small enough
    /// for a tick to stay within machine integers: while the round runs the ship moves less
    /// than the whole fall in one tick, and the tick that ends the round adds at most one
    /// tick of gravity to that.
    #[verifier::type_invariant]
    closed spec fn inv(&self) -> bool {
        &&& self@.valid()
        &&& self.gravity_acceleration == GRAVITY
        &&& self.engine_acceleration == ENGINE
        &&& self.height <= 2 * CEILING + GRAVITY
        &&& -CEILING <= self.speed <= CEILING + GRAVITY
        &&& self@.running() ==> self.speed <= CEILING
    }

    /// A new round: the ship at rest at the top, the tank full, the engine off.
    pub fn new() -> (state: GameState)
        ensures
            state@ == Lander::initial(),
    {
        GameState {
            is_active_engine: false,
            height: 0,
            speed: 0,
            gravity_acceleration: GRAVITY,
            engine_acceleration: ENGINE,
            fuel: FUEL_CAPACITY,
        }
    }

    /// Advances the round by one tick and reports its grade once it is over.
    ///
    /// While the round runs, the acceleration of this tick (gravity, less the engine's push if
    /// the engine fires) is added to the speed and the new speed to the height; unless that
    /// would lift the ship above the top, where it is put back at rest. The engine fires, and
    /// burns `FUEL_BURN`, exactly when the thrust key is held and fuel is left. A round that is
    /// over stays as it is.
    pub fn update(&mut self) -> (outcome: Option<Outcome>)
        ensures
            final(self)@ == old(self)@.tick(),
            outcome == final(self)@.outcome(),
            final(self)@.valid(),
            // One tick of motion, unless the ship would leave through the top.
            old(self)@.running() && old(self)@.height + old(self)@.speed + old(self)@.acceleration()
                >= 0 ==> {
                &&& final(self)@.speed == old(self)@.speed + old(self)@.acceleration()
                &&& final(self)@.height == old(self)@.height + final(self)@.speed
            },
            // The top stops the ship.
            final(self)@.height >= 0,
            old(self)@.running() && old(self)@.height + old(self)@.speed + old(self)@.acceleration()
                < 0 ==> final(self)@.height == 0 && final(self)@.speed == 0,
            // Fuel only ever goes down, and only by a tick of thrust.
            final(self)@.fuel <= old(self)@.fuel,
            final(self)@.fuel == if old(self)@.running() && old(self)@.thrusting() {
                old(self)@.fuel - FUEL_BURN
            } else {
                old(self)@.fuel
            },
            // The grade is that of the speed on arrival, and it is final.
            outcome is Some <==> final(self)@.height >= CEILING,
            outcome == Some(Outcome::Win) <==> final(self)@.height >= CEILING && final(self)@.speed
                <= SAFE_SPEED,
            old(self)@.ended() ==> final(self)@ == old(self)@,
            // Nothing else changes.
            final(self)@.gravity == old(self)@.gravity,
            final(self)@.engine == old(self)@.engine,
            final(self)@.engine_active == old(self)@.engine_active,
    {
        proof {
            use_type_invariant(&*self);
        }
        if self.height < CEILING {
            let thrusting = self.is_active_engine && self.fuel > 0;
            let acceleration: i64 = if thrusting {
                self.gravity_acceleration - self.engine_acceleration
            } else {
                self.gravity_acceleration
            };
            let fuel: i64 = if thrusting {
                self.fuel - FUEL_BURN
            } else {
                self.fuel
            };
            let speed: i64 = self.speed + acceleration;
            let height: i64 = self.height + speed;
            if height < 0 {
                *self = GameState {
                    is_active_engine: self.is_active_engine,
                    height: 0,
                    speed: 0,
                    gravity_acceleration: self.gravity_acceleration,
                    engine_acceleration: self.engine_acceleration,
                    fuel,
                };
            } else {
                *self = GameState {
                    is_active_engine: self.is_active_engine,
                    height,
                    speed,
                    gravity_acceleration: self.gravity_acceleration,
                    engine_acceleration: self.engine_acceleration,
                    fuel,
                };
            }
        }
        self.outcome()
    }

    /// The grade of the round: `None` while it runs; once the ship is on the ground, a win if
    /// it arrived at `SAFE_SPEED` or slower, otherwise a loss.
    pub fn outcome(&self) -> (outcome: Option<Outcome>)
        ensures
            outcome == self@.outcome(),
    {
        if self.height < CEILING {
            None
        } else if self.speed <= SAFE_SPEED {
            Some(Outcome::Win)
        } else {
            Some(Outcome::Lose)
        }
    }

    /// A key went down: the thrust key switches the engine on, any other key does nothing.
    pub fn key_down_event(&mut self, key: Key)
        ensures
            final(self)@ == old(self)@.key_down(key),
            final(self)@.engine_active == (key == Key::Thrust || old(self)@.engine_active),
    {
        proof {
            use_type_invariant(&*self);
        }
        match key {
            Key::Thrust => {
                *self = GameState {
                    is_active_engine: true,
                    height: self.height,
                    speed: self.speed,
                    gravity_acceleration: self.gravity_acceleration,
                    engine_acceleration: self.engine_acceleration,
                    fuel: self.fuel,
                };
            },
            Key::Other => {},
        }
    }

    /// A key came up: the thrust key switches the engine off, any other key does nothing.
    pub fn key_up_event(&mut self, key: Key)
        ensures
            final(self)@ == old(self)@.key_up(key),
            final(self)@.engine_active == (key != Key::Thrust && old(self)@.engine_active),
    {
        proof {
            use_type_invariant(&*self);
        }
        match key {
            Key::Thrust => {
                *self = GameState {
                    is_active_engine: false,
                    height: self.height,
                    speed: self.speed,
                    gravity_acceleration: self.gravity_acceleration,
                    engine_acceleration: self.engine_acceleration,
                    fuel: self.fuel,
                };
            },
            Key::Other => {},
        }
    }

    /// The figures of the current frame: the ship's offset from the top, the fuel bar's
    /// width, and the fuel, speed and remaining altitude to print.
    pub fn draw(&self) -> (frame: Frame)
        ensures
            frame.ship_offset == self@.height,
            frame.fuel_bar_width == FUEL_BAR_SCALE * self@.fuel,
            frame.fuel == if self@.fuel < 0 {
                0
            } else {
                self@.fuel
            },
            frame.speed == self@.speed,
            frame.altitude == CEILING - self@.height,
    {
        proof {
            use_type_invariant(self);
        }
        Frame {
            ship_offset: self.height,
            fuel_bar_width: FUEL_BAR_SCALE * self.fuel,
            fuel: if self.fuel < 0 {
                0
            } else {
                self.fuel
            },
            speed: self.speed,
            altitude: CEILING - self.height,
        }
    }

    /// Distance fallen from the top, in height units: never negative.
    pub fn height(&self) -> (height: i64)
        ensures
            height == self@.height,
            0 <= height,
    {
        proof {
            use_type_invariant(self);
        }
        self.height
    }

    /// Downward speed, in speed units.
    pub fn speed(&self) -> (speed: i64)
        ensures
            speed == self@.speed,
    {
        self.speed
    }

    /// Fuel left, in fuel units: never more than the tank holds, and never a whole burn
    /// below zero.
    pub fn fuel(&self) -> (fuel: i64)
        ensures
            fuel == self@.fuel,
            -FUEL_BURN < fuel <= FUEL_CAPACITY,
    {
        proof {
            use_type_invariant(self);
        }
        self.fuel
    }

    /// Pull of gravity, in m/s^2: `GRAVITY` throughout the round.
    pub fn gravity_acceleration(&self) -> (gravity: i64)
        ensures
            gravity == self@.gravity,
            gravity == GRAVITY,
    {
        proof {
            use_type_invariant(self);
        }
        self.gravity_acceleration
    }

    /// Push of the engine, in m/s^2: `ENGINE` throughout the round.
    pub fn engine_acceleration(&self) -> (engine: i64)
        ensures
            engine == self@.engine,
            engine == ENGINE,
    {
        proof {
            use_type_invariant(self);
        }
        self.engine_acceleration
    }

    /// Whether the thrust key is held down.
    pub fn is_active_engine(&self) -> (active: bool)
        ensures
            active == self@.engine_active,
    {
        self.is_active_engine
    }
}

} // verus!
