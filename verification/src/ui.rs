//! Presenting the game to the two players: player names, message lines, and
//! guesses rendered with each symbol coloured by how well it matched.

use vstd::prelude::*;
use vstd::string::StrSliceExecFns;
use vstd::string::StringExecFns;
use std::io::Write;

use crate::colors::{green_str, green_text, red_str, red_text, yellow_str, yellow_text};
use crate::game::score_text;
use crate::scoring::Score;
use crate::text::{contains_char, str_to_chars};

verus! {

/// Which player a message or prompt belongs to.
#[derive(PartialEq, Eq, Structural, Copy, Clone, Debug)]
pub enum PlayerType {
    /// The player holding the secret.
    Keeper,
    /// The player guessing it.
    Seeker,
}

/// The plain name of a player.
pub open spec fn player_name(p: PlayerType) -> Seq<char> {
    match p {
        PlayerType::Keeper => "Keeper"@,
        PlayerType::Seeker => "Seeker"@,
    }
}

impl PlayerType {
    /// The player's name, coloured red for the keeper and green for the
    /// seeker when colouring is on.
    pub fn colored_name(&self) -> (r: String)
        ensures
            self is Keeper ==> r@ == player_name(*self) || r@ == red_text(player_name(*self)),
            self is Seeker ==> r@ == player_name(*self) || r@ == green_text(player_name(*self)),
    {
        match self {
            PlayerType::Keeper => {
                proof {
                    reveal_strlit("Keeper");
                    assert(!"Keeper"@.contains('\u{1b}'));
                }
                red_str("Keeper")
            },
            PlayerType::Seeker => {
                proof {
                    reveal_strlit("Seeker");
                    assert(!"Seeker"@.contains('\u{1b}'));
                }
                green_str("Seeker")
            },
        }
    }
}

/// The terminal this game is played on.
pub struct IO {}

impl IO {
    /// Relies on `std::io::Stdout::write_fmt` (through `writeln`): shows the
    /// line on standard output.
    #[verifier::external_body]
    pub fn output(&self, message: &str) {
        let mut stdout = std::io::stdout();
        let _ = writeln!(stdout, "{}", message);
    }
}

/// One of the two players, with the terminal their messages go to.
pub struct Player {
    pub player_type: PlayerType,
    pub io: IO,
}

impl Player {
    /// The plain name of the player.
    pub fn as_str(&self) -> (r: &'static str)
        ensures
            r@ == player_name(self.player_type),
    {
        match self.player_type {
            PlayerType::Keeper => "Keeper",
            PlayerType::Seeker => "Seeker",
        }
    }

    /// Shows `message` under this player's coloured name.
    pub fn display_message(&self, message: &str) {
        let mut line = self.player_type.colored_name();
        line.append(": ");
        line.append(message);
        self.io.output(line.as_str());
    }

    /// Shows the list of guesses made so far with their scores.
    pub fn display_guesses(&self, guesses: &Vec<(String, Score)>) {
        let formatted = format_guesses(guesses);
        let mut text = String::from_str("Previous Guesses:");
        let n = formatted.len();
        let mut i: usize = 0;
        while i < n
            invariant
                i <= n,
                n == formatted@.len(),
            decreases n - i,
        {
            text.append("\n\t");
            text.append(formatted[i].as_str());
            i += 1;
        }
        self.display_message(text.as_str());
    }

    /// Shows the list of guesses with each symbol coloured by how well it
    /// matched `secret`.
    pub fn display_guesses_colorified(&self, guesses: &Vec<(String, Score)>, secret: &str) {
        let colorified = colorify_guesses(guesses, secret);
        self.display_guesses(&colorified);
    }
}

/// How the guess symbol at position `i` is shown against the secret: framed
/// green when it sits at the right place, framed yellow when the secret holds
/// it elsewhere, plain otherwise; `on` tells whether the frame was actually
/// emitted.  An escape character is always passed through plain.
pub open spec fn colour_piece(g: Seq<char>, s: Seq<char>, on: bool, i: int) -> Seq<char> {
    let c = g[i];
    if c == '\u{1b}' {
        seq![c]
    } else if s[i] == c {
        if on {
            green_text(seq![c])
        } else {
            seq![c]
        }
    } else if s.contains(c) {
        if on {
            yellow_text(seq![c])
        } else {
            seq![c]
        }
    } else {
        seq![c]
    }
}

/// The first `n` compared positions of `g` rendered against `s`, with `b`
/// saying at each position whether the colour frame was emitted.
pub open spec fn coloured_prefix(g: Seq<char>, s: Seq<char>, b: Seq<bool>, n: int) -> Seq<char>
    decreases n,
{
    if n <= 0 {
        Seq::empty()
    } else {
        coloured_prefix(g, s, b, n - 1) + colour_piece(g, s, b[n - 1], n - 1)
    }
}

/// Whether `out` renders `g` against `s`: position by position over the part
/// the two share, green for an exact match, yellow for a symbol the secret
/// holds elsewhere, plain otherwise, each frame emitted or not as the
/// process-wide colour switch stood at that moment.
pub open spec fn is_colorified(out: Seq<char>, g: Seq<char>, s: Seq<char>) -> bool {
    let n = if g.len() <= s.len() {
        g.len() as int
    } else {
        s.len() as int
    };
    exists|b: Seq<bool>| b.len() == n && out == coloured_prefix(g, s, b, n)
}

/// A rendered prefix does not care what the choice sequence says beyond it.
proof fn lemma_prefix_ignores_later_choices(
    g: Seq<char>,
    s: Seq<char>,
    b: Seq<bool>,
    x: bool,
    n: int,
)
    requires
        0 <= n <= b.len(),
    ensures
        coloured_prefix(g, s, b.push(x), n) == coloured_prefix(g, s, b, n),
    decreases n,
{
    if n > 0 {
        lemma_prefix_ignores_later_choices(g, s, b, x, n - 1);
    }
}

/// Renders `guess` against `secret`, colouring each compared symbol green
/// when exactly placed and yellow when present elsewhere in the secret.
/// Symbols beyond the secret's length are not shown, as a comparison stops at
/// the shorter code.
pub fn colorify_guess(guess: &str, secret: &str) -> (r: String)
    ensures
        is_colorified(r@, guess@, secret@),
{
    let gv = str_to_chars(guess);
    let sv = str_to_chars(secret);
    let n = if gv.len() <= sv.len() {
        gv.len()
    } else {
        sv.len()
    };
    let mut out = String::new();
    let ghost mut b: Seq<bool> = Seq::<bool>::empty();
    let mut i: usize = 0;
    while i < n
        invariant
            i <= n,
            gv@ == guess@,
            sv@ == secret@,
            n == if gv@.len() <= sv@.len() {
                gv@.len() as int
            } else {
                sv@.len() as int
            },
            b.len() == i as int,
            out@ == coloured_prefix(guess@, secret@, b, i as int),
        decreases n - i,
    {
        let c = gv[i];
        let cs = guess.substring_char(i, i + 1);
        proof {
            assert(cs@ =~= seq![guess@[i as int]]);
        }
        let ghost b0 = b;
        if c == '\u{1b}' {
            out.append(cs);
            proof {
                b = b.push(false);
            }
        } else if sv[i] == c {
            proof {
                assert(!cs@.contains('\u{1b}'));
            }
            let coloured = green_str(cs);
            out.append(coloured.as_str());
            proof {
                b = b.push(coloured@ != cs@);
            }
        } else if contains_char(&sv, c) {
            proof {
                assert(!cs@.contains('\u{1b}'));
            }
            let coloured = yellow_str(cs);
            out.append(coloured.as_str());
            proof {
                b = b.push(coloured@ != cs@);
            }
        } else {
            out.append(cs);
            proof {
                b = b.push(false);
            }
        }
        i += 1;
        proof {
            lemma_prefix_ignores_later_choices(guess@, secret@, b0, b.last(), i - 1);
            assert(out@ == coloured_prefix(guess@, secret@, b, i as int));
        }
    }
    proof {
        assert(is_colorified(out@, guess@, secret@)) by {
            assert(b.len() == n as int && out@ == coloured_prefix(guess@, secret@, b, n as int));
        }
    }
    out
}

/// Renders every guess in the list against `secret`, keeping each score.
pub fn colorify_guesses(guesses: &Vec<(String, Score)>, secret: &str) -> (r: Vec<(String, Score)>)
    ensures
        r@.len() == guesses@.len(),
        forall|i: int|
            0 <= i < r@.len() ==> (#[trigger] r@[i]).1 == guesses@[i].1 && is_colorified(
                r@[i].0@,
                guesses@[i].0@,
                secret@,
            ),
{
    let n = guesses.len();
    let mut out: Vec<(String, Score)> = Vec::new();
    let mut i: usize = 0;
    while i < n
        invariant
            i <= n,
            n == guesses@.len(),
            out@.len() == i,
            forall|k: int|
                0 <= k < i ==> (#[trigger] out@[k]).1 == guesses@[k].1 && is_colorified(
                    out@[k].0@,
                    guesses@[k].0@,
                    secret@,
                ),
        decreases n - i,
    {
        let coloured = colorify_guess(guesses[i].0.as_str(), secret);
        out.push((coloured, guesses[i].1));
        i += 1;
    }
    out
}

/// Formats every guess in the list as the guess, a separator, and its score.
pub fn format_guesses(guesses: &Vec<(String, Score)>) -> (r: Vec<String>)
    ensures
        r@.len() == guesses@.len(),
        forall|i: int|
            0 <= i < r@.len() ==> (#[trigger] r@[i])@ == guesses@[i].0@ + ", "@ + score_text(
                guesses@[i].1,
            ),
{
    let n = guesses.len();
    let mut out: Vec<String> = Vec::new();
    let mut i: usize = 0;
    while i < n
        invariant
            i <= n,
            n == guesses@.len(),
            out@.len() == i,
            forall|k: int|
                0 <= k < i ==> (#[trigger] out@[k])@ == guesses@[k].0@ + ", "@ + score_text(
                    guesses@[k].1,
                ),
        decreases n - i,
    {
        let mut line = guesses[i].0.clone();
        line.append(", ");
        let rendered = guesses[i].1.display();
        line.append(rendered.as_str());
        proof {
            assert(line@ =~= guesses@[i as int].0@ + ", "@ + score_text(guesses@[i as int].1));
        }
        out.push(line);
        i += 1;
    }
    out
}

/// Formats one guess for display, coloured against the secret when asked.
pub fn format_guess_for_display(guess: &str, secret: &str, colorify: bool) -> (r: String)
    ensures
        colorify ==> is_colorified(r@, guess@, secret@),
        !colorify ==> r@ == guess@,
{
    if colorify {
        colorify_guess(guess, secret)
    } else {
        String::from_str(guess)
    }
}

} // verus!
