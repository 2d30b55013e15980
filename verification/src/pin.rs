//! The colour alphabet for pin-based codes.

use vstd::prelude::*;

use crate::scoring::Symbol;

verus! {

/// A pin colour; `Empty` is the placeholder for a position not yet set.
#[derive(PartialEq, Eq, Structural, Debug, Copy, Clone, Hash)]
pub enum PinColour {
    Blue,
    Green,
    Yellow,
    Orange,
    Red,
    Purple,
    Black,
    White,
    Brown,
    Empty,
}

/// The name of a colour, as shown to the player.
pub open spec fn pin_name(c: PinColour) -> Seq<char> {
    match c {
        PinColour::Blue => "Blue"@,
        PinColour::Green => "Green"@,
        PinColour::Yellow => "Yellow"@,
        PinColour::Orange => "Orange"@,
        PinColour::Red => "Red"@,
        PinColour::Purple => "Purple"@,
        PinColour::Black => "Black"@,
        PinColour::White => "White"@,
        PinColour::Brown => "Brown"@,
        PinColour::Empty => "Empty"@,
    }
}

impl PinColour {
    /// The name of the colour.
    pub fn name(&self) -> (r: &'static str)
        ensures
            r@ == pin_name(*self),
    {
        match self {
            PinColour::Blue => "Blue",
            PinColour::Green => "Green",
            PinColour::Yellow => "Yellow",
            PinColour::Orange => "Orange",
            PinColour::Red => "Red",
            PinColour::Purple => "Purple",
            PinColour::Black => "Black",
            PinColour::White => "White",
            PinColour::Brown => "Brown",
            PinColour::Empty => "Empty",
        }
    }
}

impl Symbol for PinColour {
    fn sym_eq(&self, other: &Self) -> (r: bool)
        ensures
            r == (self == other),
    {
        *self == *other
    }
}

} // verus!
