//! How a round ends.

use vstd::prelude::*;

verus! {

/// The grade of a finished round.
#[derive(Clone, Copy, Debug, PartialEq, Eq, Structural)]
pub enum Outcome {
    /// The ship touched down gently enough.
    Win,
    /// The ship hit the ground too fast.
    Lose,
}

impl Outcome {
    /// The line announced at the end of the round.
    pub open spec fn spec_message(self) -> Seq<char> {
        match self {
            Outcome::Win => "WINNER"@,
            Outcome::Lose => "GAMEOVER"@,
        }
    }

    /// The line announced at the end of the round: `WINNER` or `GAMEOVER`.
    pub fn message(self) -> (text: &'static str)
        ensures
            text@ == self.spec_message(),
    {
        match self {
            Outcome::Win => "WINNER",
            Outcome::Lose => "GAMEOVER",
        }
    }
}

} // verus!
