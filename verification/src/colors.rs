//! Colouring text for the terminal through the `colored` crate.
//!
//! Whether the escape codes are actually emitted depends on the process
//! environment (the crate honours `NO_COLOR` and friends and can be switched
//! off at run time), so each wrapper promises only that the text comes back
//! either unchanged or framed in the one escape pair its colour uses.

use vstd::prelude::*;
use colored::Colorize;

verus! {

/// `body` framed in an ANSI colour escape pair: `ESC [ code m`, the text,
/// then `ESC [ 0 m`.
pub open spec fn ansi_wrapped(code: Seq<char>, body: Seq<char>) -> Seq<char> {
    seq!['\u{1b}', '['] + code + seq!['m'] + body + seq!['\u{1b}', '[', '0', 'm']
}

/// `body` framed in the red escape pair.
pub open spec fn red_text(body: Seq<char>) -> Seq<char> {
    ansi_wrapped(seq!['3', '1'], body)
}

/// `body` framed in the green escape pair.
pub open spec fn green_text(body: Seq<char>) -> Seq<char> {
    ansi_wrapped(seq!['3', '2'], body)
}

/// `body` framed in the yellow escape pair.
pub open spec fn yellow_text(body: Seq<char>) -> Seq<char> {
    ansi_wrapped(seq!['3', '3'], body)
}

/// Relies on `colored::Colorize::red` and `ColoredString`'s `Display`: text
/// free of escape characters comes back framed in the red escape pair, or
/// unchanged when colouring is disabled for the process.
#[verifier::external_body]
pub(crate) fn red_str(s: &str) -> (r: String)
    requires
        !s@.contains('\u{1b}'),
    ensures
        r@ == s@ || r@ == red_text(s@),
{
    s.red().to_string()
}

/// Relies on `colored::Colorize::green` and `ColoredString`'s `Display`: text
/// free of escape characters comes back framed in the green escape pair, or
/// unchanged when colouring is disabled for the process.
#[verifier::external_body]
pub(crate) fn green_str(s: &str) -> (r: String)
    requires
        !s@.contains('\u{1b}'),
    ensures
        r@ == s@ || r@ == green_text(s@),
{
    s.green().to_string()
}

/// Relies on `colored::Colorize::yellow` and `ColoredString`'s `Display`:
/// text free of escape characters comes back framed in the yellow escape
/// pair, or unchanged when colouring is disabled for the process.
#[verifier::external_body]
pub(crate) fn yellow_str(s: &str) -> (r: String)
    requires
        !s@.contains('\u{1b}'),
    ensures
        r@ == s@ || r@ == yellow_text(s@),
{
    s.yellow().to_string()
}

} // verus!
