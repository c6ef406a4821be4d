//! The choice/outcome logic: which choice beats which, and how two
//! simultaneous choices resolve into a round outcome.

use vstd::prelude::*;

verus! {

/// A player's choice in one round.
#[derive(Clone, Copy, Debug, PartialEq, Eq, Structural)]
pub enum Choice {
    Rock,
    Paper,
    Scissors,
}

/// The outcome of one round, always stated for the first ("player 1")
/// side of the comparison.
#[derive(Clone, Copy, Debug, PartialEq, Eq, Structural)]
pub enum RoundResult {
    Win,
    Lose,
    Draw,
}

impl Choice {
    /// Holds for exactly the three cyclic pairs: Rock beats Scissors,
    /// Paper beats Rock, Scissors beats Paper.
    pub open spec fn spec_beats(self, other: Choice) -> bool {
        ||| (self == Choice::Rock && other == Choice::Scissors)
        ||| (self == Choice::Paper && other == Choice::Rock)
        ||| (self == Choice::Scissors && other == Choice::Paper)
    }

    /// Draw on equal choices, Win where `self` beats `other`, Lose otherwise.
    pub open spec fn spec_compare(self, other: Choice) -> RoundResult {
        if self == other {
            RoundResult::Draw
        } else if self.spec_beats(other) {
            RoundResult::Win
        } else {
            RoundResult::Lose
        }
    }

    /// Returns true if this choice beats the other choice.
    pub fn beats(&self, other: &Choice) -> (r: bool)
        ensures
            r == self.spec_beats(*other),
    {
        matches!(
            (self, other),
            (Choice::Rock, Choice::Scissors)
                | (Choice::Paper, Choice::Rock)
                | (Choice::Scissors, Choice::Paper)
        )
    }

    /// Compare two choices and return the result for the first choice.
    pub fn compare(&self, other: &Choice) -> (r: RoundResult)
        ensures
            r == self.spec_compare(*other),
    {
        if self == other {
            RoundResult::Draw
        } else if self.beats(other) {
            RoundResult::Win
        } else {
            RoundResult::Lose
        }
    }
}

/// The two directed comparisons of any pair of choices agree: equal
/// choices draw both ways, and distinct choices give Win on one side
/// exactly where they give Lose on the other.
pub proof fn lemma_compare_opposite(a: Choice, b: Choice)
    ensures
        a == b ==> a.spec_compare(b) == RoundResult::Draw && b.spec_compare(a) == RoundResult::Draw,
        a != b ==> (a.spec_compare(b) == RoundResult::Win <==> b.spec_compare(a) == RoundResult::Lose),
        a != b ==> (a.spec_compare(b) == RoundResult::Lose <==> b.spec_compare(a) == RoundResult::Win),
        a != b ==> a.spec_compare(b) != RoundResult::Draw && b.spec_compare(a) != RoundResult::Draw,
{
}

} // verus!
