//! The turn machine: feeding each player's input to the session, switching
//! turns, and noticing when the seeker has won.  Reading input is the
//! caller's business; this module only decides what each line of input does.

use vstd::prelude::*;
use vstd::string::StrSliceExecFns;
use vstd::string::StringExecFns;

use crate::game::{ErrResponse, Game, GameStruct, accepts_secret};
use crate::scoring::{Score, colour_matches, exact_matches};
use crate::ui::{IO, Player, PlayerType};

verus! {

/// Which rules the session is played under: `Classic` never changes the
/// secret, `ChangeSecret` lets the keeper replace it between rounds, and
/// `Curtail` buffers one move of each player before applying it.
#[derive(PartialEq, Eq, Structural, Copy, Clone, Debug)]
pub enum Variant {
    Classic,
    ChangeSecret,
    Curtail,
}

/// The player whose turn it is not.
pub open spec fn other_player(p: PlayerType) -> PlayerType {
    match p {
        PlayerType::Keeper => PlayerType::Seeker,
        PlayerType::Seeker => PlayerType::Keeper,
    }
}

/// One running game: the session, the variant played, whose turn it is, and
/// the buffered moves of the curtailed variant.
pub struct GameLoop {
    game: GameStruct,
    variant: Variant,
    player: Player,
    /// Whether the seeker has guessed the secret.
    pub is_over: bool,
    guess_buffer: String,
    secret_buffer: String,
}

impl GameLoop {
    /// The characters of the current secret.
    pub closed spec fn secret_spec(&self) -> Seq<char> {
        self.game.secret_spec()
    }

    /// The guesses scored so far, each with its score, oldest first.
    pub closed spec fn history_spec(&self) -> Seq<(Seq<char>, Score)> {
        self.game.history_spec()
    }

    /// The codes the secret has been set to, oldest first.
    pub closed spec fn prev_secrets_spec(&self) -> Seq<Seq<char>> {
        self.game.prev_secrets_spec()
    }

    /// The variant being played.
    pub closed spec fn variant_spec(&self) -> Variant {
        self.variant
    }

    /// Whose turn it is.
    pub closed spec fn player_spec(&self) -> PlayerType {
        self.player.player_type
    }

    /// The buffered guess of the curtailed variant.
    pub closed spec fn guess_buffer_spec(&self) -> Seq<char> {
        self.guess_buffer@
    }

    /// The buffered secret of the curtailed variant.
    pub closed spec fn secret_buffer_spec(&self) -> Seq<char> {
        self.secret_buffer@
    }

    /// Whether the seeker has guessed the secret.
    pub closed spec fn over_spec(&self) -> bool {
        self.is_over
    }

    /// A fresh game under `variant`: the keeper moves first, to set the
    /// secret.
    pub fn new(variant: Variant) -> (r: GameLoop)
        ensures
            r.variant_spec() == variant,
            r.player_spec() == PlayerType::Keeper,
            !r.over_spec(),
            r.secret_spec() == Seq::<char>::empty(),
            r.history_spec() == Seq::<(Seq<char>, Score)>::empty(),
            r.prev_secrets_spec() == Seq::<Seq<char>>::empty(),
            r.guess_buffer_spec() == Seq::<char>::empty(),
            r.secret_buffer_spec() == Seq::<char>::empty(),
    {
        GameLoop {
            game: GameStruct::new(),
            variant,
            player: Player { player_type: PlayerType::Keeper, io: IO {  } },
            is_over: false,
            guess_buffer: String::new(),
            secret_buffer: String::new(),
        }
    }

    /// The player whose turn it is.
    pub fn current_player(&self) -> (r: PlayerType)
        ensures
            r == self.player_spec(),
    {
        self.player.player_type
    }

    /// Hands one line of input to whichever player is to act: the keeper's
    /// input sets or changes the secret, the seeker's input is a guess.
    pub fn take_input(&mut self, input: &str)
        ensures
            final(self).variant_spec() == old(self).variant_spec(),
            old(self).over_spec() ==> final(self).over_spec(),
    {
        let pt = self.player.player_type;
        match pt {
            PlayerType::Keeper => self.do_change_secret(input),
            PlayerType::Seeker => self.do_guess(input),
        }
    }

    /// The keeper's move: under `Curtail` the first valid secret is only
    /// buffered; otherwise the change is attempted at once.
    fn do_change_secret(&mut self, new_secret: &str)
        ensures
            final(self).variant_spec() == old(self).variant_spec(),
            old(self).over_spec() ==> final(self).over_spec(),
    {
        if self.variant == Variant::Curtail && self.secret_buffer.as_str().is_empty() {
            let checked = self.game.validate_secret(new_secret);
            if checked.is_ok() {
                self.secret_buffer = String::from_str(new_secret);
            }
        } else {
            self.attempt_change_secret(new_secret);
        }
    }

    /// The seeker's move: under `Curtail` the guess is only buffered;
    /// otherwise it is scored at once.
    fn do_guess(&mut self, new_guess: &str)
        ensures
            final(self).variant_spec() == old(self).variant_spec(),
            old(self).over_spec() ==> final(self).over_spec(),
    {
        let v = self.variant;
        match v {
            Variant::Curtail => self.buffer_guess(new_guess),
            _ => self.attempt_guess(new_guess),
        }
    }

    /// Gives the turn to the other player and shows them the guesses so far.
    fn switch_player(&mut self)
        ensures
            final(self).player_spec() == other_player(old(self).player_spec()),
            final(self).variant_spec() == old(self).variant_spec(),
            final(self).secret_spec() == old(self).secret_spec(),
            final(self).history_spec() == old(self).history_spec(),
            final(self).prev_secrets_spec() == old(self).prev_secrets_spec(),
            final(self).over_spec() == old(self).over_spec(),
            final(self).guess_buffer_spec() == old(self).guess_buffer_spec(),
            final(self).secret_buffer_spec() == old(self).secret_buffer_spec(),
    {
        let next = match self.player.player_type {
            PlayerType::Keeper => PlayerType::Seeker,
            PlayerType::Seeker => PlayerType::Keeper,
        };
        self.player = Player { player_type: next, io: IO {  } };
        self.print_state();
    }

    /// Shows the current player the guesses made so far.
    fn print_state(&self) {
        self.player.display_guesses(self.game.get_previous_guesses());
    }

    /// Tries to replace the secret; on refusal the error is shown, and for a
    /// contradiction the offending guesses are shown coloured against the
    /// refused candidate.
    fn attempt_change_secret(&mut self, new_secret: &str)
        ensures
            final(self).variant_spec() == old(self).variant_spec(),
            old(self).over_spec() ==> final(self).over_spec(),
            !accepts_secret(
                old(self).secret_spec(),
                old(self).prev_secrets_spec(),
                old(self).history_spec(),
                new_secret@,
            ) ==> *final(self) == *old(self),
            accepts_secret(
                old(self).secret_spec(),
                old(self).prev_secrets_spec(),
                old(self).history_spec(),
                new_secret@,
            ) ==> final(self).secret_spec() == new_secret@,
    {
        let result = self.game.change_secret(new_secret);
        match result {
            Ok(()) => {
                self.handle_successful_secret_change(new_secret);
            },
            Err(response) => {
                let text = response.message();
                self.player.display_message(text.as_str());
                match response {
                    ErrResponse::GuessMismatch(guesses) => {
                        self.player.display_guesses_colorified(&guesses, new_secret);
                    },
                    _ => (),
                }
            },
        }
    }

    /// After a secret change: under `Curtail` a buffered guess is now scored,
    /// otherwise the turn simply passes.
    fn handle_successful_secret_change(&mut self, _new_secret: &str)
        ensures
            final(self).variant_spec() == old(self).variant_spec(),
            final(self).secret_spec() == old(self).secret_spec(),
            final(self).prev_secrets_spec() == old(self).prev_secrets_spec(),
            old(self).over_spec() ==> final(self).over_spec(),
    {
        let v = self.variant;
        match v {
            Variant::Curtail => {
                let guess = self.guess_buffer.clone();
                if !guess.as_str().is_empty() {
                    self.attempt_guess(guess.as_str());
                } else {
                    self.switch_player();
                }
            },
            _ => self.switch_player(),
        }
    }

    /// Buffers a guess of the right length and passes the turn; a guess of
    /// the wrong length is dropped silently.
    fn buffer_guess(&mut self, new_guess: &str)
        ensures
            final(self).variant_spec() == old(self).variant_spec(),
            final(self).secret_spec() == old(self).secret_spec(),
            final(self).history_spec() == old(self).history_spec(),
            final(self).over_spec() == old(self).over_spec(),
            new_guess@.len() == old(self).secret_spec().len() ==> final(self).guess_buffer_spec()
                == new_guess@ && final(self).player_spec() == other_player(
                old(self).player_spec()),
            new_guess@.len() != old(self).secret_spec().len() ==> *final(self) == *old(self),
    {
        let checked = self.game.validate_guess(new_guess);
        if checked.is_ok() {
            self.guess_buffer = String::from_str(new_guess);
            self.switch_player();
        }
    }

    /// Scores a guess against the secret, records it, announces the score,
    /// and ends the game when every position matched; a guess of the wrong
    /// length is answered with the error message and costs no turn.
    fn attempt_guess(&mut self, new_guess: &str)
        ensures
            final(self).variant_spec() == old(self).variant_spec(),
            final(self).secret_spec() == old(self).secret_spec(),
            final(self).prev_secrets_spec() == old(self).prev_secrets_spec(),
            new_guess@.len() == old(self).secret_spec().len()
                ==> final(self).history_spec() == old(self).history_spec().push(
                (
                    new_guess@,
                    (Score {
                        bulls: exact_matches(old(self).secret_spec(), new_guess@) as usize,
                        cows: colour_matches(old(self).secret_spec(), new_guess@) as usize,
                    }),
                ),
            ) && final(self).player_spec() == other_player(old(self).player_spec())
                && final(self).over_spec() == (old(self).over_spec() || exact_matches(
                old(self).secret_spec(),
                new_guess@,
            ) == old(self).secret_spec().len()),
            new_guess@.len() != old(self).secret_spec().len() ==> *final(self) == *old(self),
    {
        let result = self.game.handle_guess(new_guess);
        match result {
            Ok(score) => {
                let rendered = score.display();
                self.player.display_message(rendered.as_str());
                if score.bulls == self.game.get_secret_len() {
                    self.player.display_message("Congratulations! You've guessed the secret.");
                    self.player.display_guesses_colorified(
                        self.game.get_previous_guesses(),
                        self.game.get_secret().as_str(),
                    );
                    self.is_over = true;
                }
                self.switch_player();
            },
            Err(msg) => {
                self.player.display_message(msg);
            },
        }
    }
}

} // verus!
