//! Showing messages and past guesses for games that track players by free-form
//! names and scores as bare pairs.

use vstd::prelude::*;
use vstd::string::StrSliceExecFns;
use vstd::string::StringExecFns;

use crate::colors::{green_str, green_text, red_str, red_text};
use crate::text::{contains_char, push_decimal, str_to_chars};
use crate::ui::{IO, colorify_guess};

verus! {

/// The player's name coloured: green for the first player, red for anyone
/// else; a name already holding escape characters is passed through plain.
pub fn colored_player_name(player: &str) -> (r: String)
    ensures
        player@.contains('\u{1b}') ==> r@ == player@,
        !player@.contains('\u{1b}') && player@ == "Player 1"@ ==> (r@ == player@ || r@
            == green_text(player@)),
        !player@.contains('\u{1b}') && player@ != "Player 1"@ ==> (r@ == player@ || r@ == red_text(
            player@,
        )),
{
    let pv = str_to_chars(player);
    if contains_char(&pv, '\u{1b}') {
        return String::from_str(player);
    }
    let first = String::from_str("Player 1");
    if String::from_str(player).eq(&first) {
        green_str(player)
    } else {
        red_str(player)
    }
}

/// Shows `message` under the player's coloured name.
pub fn display_message(player: &str, message: &str) {
    let mut line = colored_player_name(player);
    line.append(": ");
    line.append(message);
    let io = IO {  };
    io.output(line.as_str());
}

/// Shows every previous guess with its bulls and cows, the guess coloured
/// against the secret when asked.
pub fn display_previous_guesses(
    player: &str,
    previous_guesses: &[(String, (usize, usize))],
    secret: &str,
    colorify: bool,
) {
    let io = IO {  };
    let mut header = String::new();
    header.append("\n");
    let name = colored_player_name(player);
    header.append(name.as_str());
    header.append(": Previous guesses:");
    io.output(header.as_str());
    let n = previous_guesses.len();
    let mut i: usize = 0;
    while i < n
        invariant
            i <= n,
            n == previous_guesses@.len(),
        decreases n - i,
    {
        let guess_display = if colorify {
            colorify_guess(previous_guesses[i].0.as_str(), secret)
        } else {
            previous_guesses[i].0.clone()
        };
        let (bulls, cows) = previous_guesses[i].1;
        let mut line = colored_player_name(player);
        line.append(": Guess: ");
        line.append(guess_display.as_str());
        line.append(", Bulls: ");
        push_decimal(&mut line, bulls);
        line.append(", Cows: ");
        push_decimal(&mut line, cows);
        io.output(line.as_str());
        i += 1;
    }
}

} // verus!
