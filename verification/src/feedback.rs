//! The feedback reported for one comparison of two pin codes.

use vstd::prelude::*;

use crate::code::MAX_LENGTH;
use crate::text::decimal_digits;
use crate::text::push_decimal;
use vstd::string::StringExecFns;

verus! {

/// The result of comparing a guessed pin code against a secret one:
/// how many positions were right, and how many further colours were right
/// but misplaced.
pub struct BasicFeedback {
    correct_positions: usize,
    correct_colours: usize,
}

/// The rendering of a feedback as a line of text.
pub open spec fn feedback_text(positions: usize, colours: usize) -> Seq<char> {
    "correct positions: "@ + decimal_digits(positions as nat) + ", correct colours: "@
        + decimal_digits(colours as nat)
}

impl BasicFeedback {
    /// The number of positions where guess and secret agree.
    pub closed spec fn positions_spec(&self) -> usize {
        self.correct_positions
    }

    /// The number of colour matches outside the agreeing positions.
    pub closed spec fn colours_spec(&self) -> usize {
        self.correct_colours
    }

    /// Packs the two counts into a feedback value.
    pub fn new(correct_positions: usize, correct_colours: usize) -> (r: BasicFeedback)
        ensures
            r.positions_spec() == correct_positions,
            r.colours_spec() == correct_colours,
    {
        BasicFeedback { correct_positions, correct_colours }
    }

    /// Whether the guess matched the whole board.
    pub fn is_correct(&self) -> (r: bool)
        ensures
            r == (self.positions_spec() == MAX_LENGTH),
    {
        self.correct_positions == MAX_LENGTH
    }

    /// The number of positions where guess and secret agree.
    pub fn correct_positions(&self) -> (r: usize)
        ensures
            r == self.positions_spec(),
    {
        self.correct_positions
    }

    /// The number of colour matches outside the agreeing positions.
    pub fn correct_colours(&self) -> (r: usize)
        ensures
            r == self.colours_spec(),
    {
        self.correct_colours
    }

    /// Renders the feedback as text, positions first.
    pub fn display(&self) -> (r: String)
        ensures
            r@ == feedback_text(self.positions_spec(), self.colours_spec()),
    {
        let mut out = String::from_str("correct positions: ");
        push_decimal(&mut out, self.correct_positions);
        out.append(", correct colours: ");
        push_decimal(&mut out, self.correct_colours);
        proof {
            assert(out@ =~= feedback_text(self.positions_spec(), self.colours_spec()));
        }
        out
    }
}

} // verus!
