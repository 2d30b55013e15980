//! Pin codes: fixed-length boards of coloured pins, compared by the scoring
//! engine.

use vstd::prelude::*;
use vstd::string::StrSliceExecFns;

use crate::feedback::BasicFeedback;
use crate::pin::{PinColour, pin_name};
use crate::scoring::{colour_matches, exact_matches, score_codes};

verus! {

/// The number of pins on a board.
pub const MAX_LENGTH: usize = 5;

/// A code of pins: an ordered board of colours that can be compared against
/// another board of the same size.
pub trait Code: Sized {
    /// The pins on the board, in order.
    spec fn pins_spec(&self) -> Seq<PinColour>;

    /// Whether the board has its full, fixed size.
    spec fn well_formed(&self) -> bool;

    /// Puts `colour` at `at_position`.
    fn set_pin(&mut self, at_position: usize, colour: PinColour)
        requires
            old(self).well_formed(),
            at_position < old(self).pins_spec().len(),
        ensures
            final(self).well_formed(),
            final(self).pins_spec() == old(self).pins_spec().update(at_position as int, colour),
    ;

    /// A fresh board, every position unset.
    fn new() -> (r: Self)
        ensures
            r.well_formed(),
            r.pins_spec().len() == MAX_LENGTH,
            forall|i: int| 0 <= i < r.pins_spec().len() ==> r.pins_spec()[i] == PinColour::Empty,
    ;

    /// Compares a guessed board against this one and reports how many
    /// positions agree and how many further colours are right but misplaced.
    fn compare(&self, guessed: &Self) -> (r: BasicFeedback)
        requires
            self.pins_spec().len() == guessed.pins_spec().len(),
        ensures
            r.positions_spec() == exact_matches(self.pins_spec(), guessed.pins_spec()),
            r.colours_spec() == colour_matches(self.pins_spec(), guessed.pins_spec()),
    ;

    /// The name of each pin on the board, one line per pin.
    fn display(&self) -> (r: Vec<String>)
        ensures
            r@.len() == self.pins_spec().len(),
            forall|i: int| 0 <= i < r@.len() ==> (#[trigger] r@[i])@ == pin_name(
                self.pins_spec()[i]),
    ;

    /// The size of the board.
    fn size(&self) -> (r: usize)
        requires
            self.well_formed(),
        ensures
            r == self.pins_spec().len(),
    ;
}

/// The standard board: a vector of pins of the fixed size.
#[derive(PartialEq, Eq, Debug)]
pub struct BasicCode {
    pins: Vec<PinColour>,
}

impl Code for BasicCode {
    closed spec fn pins_spec(&self) -> Seq<PinColour> {
        self.pins@
    }

    closed spec fn well_formed(&self) -> bool {
        self.pins@.len() == MAX_LENGTH
    }

    fn set_pin(&mut self, at_position: usize, colour: PinColour) {
        self.pins.set(at_position, colour);
    }

    fn new() -> (r: BasicCode) {
        let mut pins: Vec<PinColour> = Vec::new();
        while pins.len() < MAX_LENGTH
            invariant
                pins@.len() <= MAX_LENGTH,
                forall|i: int| 0 <= i < pins@.len() ==> pins@[i] == PinColour::Empty,
            decreases MAX_LENGTH - pins@.len(),
        {
            pins.push(PinColour::Empty);
        }
        BasicCode { pins }
    }

    fn compare(&self, guessed: &Self) -> (r: BasicFeedback) {
        let (correct_positions, correct_colours) = score_codes(&self.pins, &guessed.pins);
        BasicFeedback::new(correct_positions, correct_colours)
    }

    fn display(&self) -> (r: Vec<String>) {
        let n = self.pins.len();
        let mut lines: Vec<String> = Vec::new();
        let mut i: usize = 0;
        while i < n
            invariant
                i <= n,
                n == self.pins@.len(),
                lines@.len() == i,
                forall|k: int| 0 <= k < i ==> (#[trigger] lines@[k])@ == pin_name(self.pins@[k]),
            decreases n - i,
        {
            lines.push(self.pins[i].name().to_owned());
            i += 1;
        }
        lines
    }

    fn size(&self) -> (r: usize) {
        MAX_LENGTH
    }
}

} // verus!
