//! Keyboard input, reduced to what the game reacts to.

use vstd::prelude::*;

verus! {

/// A key of the keyboard, as far as the game tells keys apart.
#[derive(Clone, Copy, Debug, PartialEq, Eq, Structural)]
pub enum Key {
    /// The key that fires the engine while it is held down.
    Thrust,
    /// Any other key.
    Other,
}

} // verus!
