//! The mathematical model of the game: the lander's state as unbounded integers, and what one
//! tick and one key event make of it.

use vstd::prelude::*;
use crate::input::Key;
use crate::outcome::Outcome;
use crate::units::{CEILING, ENGINE, FUEL_BURN, FUEL_CAPACITY, GRAVITY, SAFE_SPEED};

verus! {

/// What can happen to a round: time passes, or a key moves.
pub enum Event {
    /// One tick of the clock.
    Tick,
    /// A key went down.
    KeyDown(Key),
    /// A key came up.
    KeyUp(Key),
}

/// The state of the lander, in the units of [`crate::units`].
pub struct Lander {
    /// Distance fallen from the top, in height units; the ground is at `CEILING`.
    pub height: int,
    /// Downward speed, in speed units.
    pub speed: int,
    /// Pull of gravity, in m/s^2.
    pub gravity: int,
    /// Push of the engine against gravity while it fires, in m/s^2.
    pub engine: int,
    /// Fuel left, in fuel units. The last burn may take it just below zero.
    pub fuel: int,
    /// Whether the thrust key is held down.
    pub engine_active: bool,
}

impl Lander {
    /// The state in which every round starts: at rest at the top, tank full, engine off.
    pub open spec fn initial() -> Lander {
        Lander {
            height: 0,
            speed: 0,
            gravity: GRAVITY as int,
            engine: ENGINE as int,
            fuel: FUEL_CAPACITY as int,
            engine_active: false,
        }
    }

    /// What holds of every state that a round can reach.
    pub open spec fn valid(self) -> bool {
        &&& 0 <= self.height
        &&& 0 <= self.gravity
        &&& 0 <= self.engine
        &&& -FUEL_BURN < self.fuel <= FUEL_CAPACITY
    }

    /// The round is over: the ship has reached the ground.
    pub open spec fn ended(self) -> bool {
        self.height >= CEILING
    }

    /// The round is still running.
    pub open spec fn running(self) -> bool {
        !self.ended()
    }

    /// The engine fires on the next tick: the key is held and fuel is left.
    pub open spec fn thrusting(self) -> bool {
        self.engine_active && self.fuel > 0
    }

    /// Downward acceleration on the next tick, in m/s^2: gravity, less the engine's push
    /// while it fires.
    pub open spec fn acceleration(self) -> int {
        if self.thrusting() {
            self.gravity - self.engine
        } else {
            self.gravity
        }
    }

    /// The grade of the round: none while it runs; once the ship is on the ground, a win if
    /// its speed is at most `SAFE_SPEED`, otherwise a loss.
    pub open spec fn outcome(self) -> Option<Outcome> {
        if self.running() {
            None
        } else if self.speed <= SAFE_SPEED {
            Some(Outcome::Win)
        } else {
            Some(Outcome::Lose)
        }
    }

    /// The state one tick later.
    ///
    /// A finished round stays as it is. In a running one the acceleration is added to the
    /// speed, the new speed is added to the height, and a tick of thrust burns `FUEL_BURN`.
    /// A ship that would rise above the top is put back there, at rest.
    pub open spec fn tick(self) -> Lander {
        if self.ended() {
            self
        } else {
            let speed = self.speed + self.acceleration();
            let height = self.height + speed;
            let fuel = if self.thrusting() {
                self.fuel - FUEL_BURN
            } else {
                self.fuel
            };
            if height < 0 {
                Lander { height: 0, speed: 0, fuel, ..self }
            } else {
                Lander { height, speed, fuel, ..self }
            }
        }
    }

    /// The state after `key` went down: the thrust key switches the engine on.
    pub open spec fn key_down(self, key: Key) -> Lander {
        match key {
            Key::Thrust => Lander { engine_active: true, ..self },
            Key::Other => self,
        }
    }

    /// The state after `key` came up: the thrust key switches the engine off.
    pub open spec fn key_up(self, key: Key) -> Lander {
        match key {
            Key::Thrust => Lander { engine_active: false, ..self },
            Key::Other => self,
        }
    }

    /// The state after one event.
    pub open spec fn step(self, event: Event) -> Lander {
        match event {
            Event::Tick => self.tick(),
            Event::KeyDown(key) => self.key_down(key),
            Event::KeyUp(key) => self.key_up(key),
        }
    }

    /// The state after a sequence of events, the first of them first.
    pub open spec fn run(self, events: Seq<Event>) -> Lander
        decreases events.len(),
    {
        if events.len() == 0 {
            self
        } else {
            self.run(events.drop_last()).step(events.last())
        }
    }
}

} // verus!
