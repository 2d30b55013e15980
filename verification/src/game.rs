//! The game session: scoring guesses against the current secret, the guess
//! history, and the secret-consistency validator that decides whether a
//! replacement secret agrees with every score already revealed.

use vstd::prelude::*;
use vstd::string::StringExecFns;

use crate::scoring::{Score, exact_matches, colour_matches, score_codes};
use crate::text::{all_digits, check_all_digits, decimal_digits, push_decimal, str_to_chars};

verus! {

/// Whether `sc` is the score that `guess` earns against `secret`.
pub open spec fn matches_score(secret: Seq<char>, guess: Seq<char>, sc: Score) -> bool {
    sc.bulls == exact_matches(secret, guess) && sc.cows == colour_matches(secret, guess)
}

/// The ghost content of a guess history: each entry as the guessed code and
/// the score it earned.
pub open spec fn entries_view(h: Seq<(String, Score)>) -> Seq<(Seq<char>, Score)> {
    h.map_values(|e: (String, Score)| (e.0@, e.1))
}

/// The history entries whose recorded score disagrees with the score the
/// candidate secret would have given, in history order.
pub open spec fn mismatched_entries(cand: Seq<char>, h: Seq<(Seq<char>, Score)>) -> Seq<
    (Seq<char>, Score),
>
    decreases h.len(),
{
    if h.len() == 0 {
        Seq::empty()
    } else {
        let rest = mismatched_entries(cand, h.drop_last());
        if matches_score(cand, h.last().0, h.last().1) {
            rest
        } else {
            rest.push(h.last())
        }
    }
}

/// A candidate contradicts no history entry exactly when it reproduces every
/// recorded score.
pub proof fn lemma_no_mismatches(cand: Seq<char>, h: Seq<(Seq<char>, Score)>)
    ensures
        mismatched_entries(cand, h).len() == 0 <==> (forall|i: int|
            0 <= i < h.len() ==> matches_score(cand, (#[trigger] h[i]).0, h[i].1)),
    decreases h.len(),
{
    if h.len() != 0 {
        lemma_no_mismatches(cand, h.drop_last());
        assert(forall|i: int| 0 <= i < h.len() - 1 ==> h.drop_last()[i] == #[trigger] h[i]);
    }
}

/// One contradicted history entry: the guess, the score it was given when it
/// was made, and the score the candidate secret would give it instead.
#[derive(PartialEq, Debug)]
pub struct Mismatch {
    pub guess: String,
    pub expected: Score,
    pub score_under_candidate: Score,
}

/// The verdict on a candidate replacement secret.
#[derive(PartialEq, Debug)]
pub enum SecretValidation {
    /// The candidate may replace the current secret.
    Accepted,
    /// The candidate's length differs from the expected length carried here.
    RejectedLength(usize),
    /// The candidate holds a symbol outside the digit alphabet.
    RejectedAlphabet,
    /// The candidate would retroactively falsify these history entries.
    RejectedContradiction(Vec<Mismatch>),
}

/// Whether `ms` reports exactly the entries `entries`, each with the score it
/// would earn under the candidate `cand`.
pub open spec fn mismatch_report_ok(
    ms: Seq<Mismatch>,
    entries: Seq<(Seq<char>, Score)>,
    cand: Seq<char>,
) -> bool {
    &&& ms.len() == entries.len()
    &&& forall|i: int|
        0 <= i < ms.len() ==> {
            let m = #[trigger] ms[i];
            m.guess@ == entries[i].0 && m.expected == entries[i].1 && matches_score(
                cand,
                entries[i].0,
                m.score_under_candidate,
            )
        }
}

/// Scores a guess against a secret of the same length: `bulls` are the
/// positions matched exactly, `cows` the symbols present elsewhere, each
/// secret symbol consumed at most once.
pub fn score_guess(secret: &str, guess: &str) -> (r: Score)
    requires
        secret@.len() == guess@.len(),
    ensures
        matches_score(secret@, guess@, r),
{
    let sv = str_to_chars(secret);
    let gv = str_to_chars(guess);
    let (bulls, cows) = score_codes(&sv, &gv);
    Score::new(bulls, cows)
}

/// Decides whether `candidate` may replace `current_secret` without
/// falsifying any score in `history`: the candidate must have the current
/// length, must consist of digits, and must give every historical guess
/// exactly the score it was given when it was made.
///
/// The verdict is a pure function of the arguments; nothing is changed by
/// asking, so asking twice returns the same verdict twice.
pub fn validate_new_secret(
    current_secret: &str,
    history: &Vec<(String, Score)>,
    candidate: &str,
) -> (r: SecretValidation)
    requires
        forall|i: int|
            0 <= i < history@.len() ==> (#[trigger] history@[i]).0@.len()
                == current_secret@.len(),
    ensures
        candidate@.len() != current_secret@.len() ==> (r matches
            SecretValidation::RejectedLength(l) && l == current_secret@.len()),
        candidate@.len() == current_secret@.len() && !all_digits(candidate@) ==> r matches
            SecretValidation::RejectedAlphabet,
        candidate@.len() == current_secret@.len() && all_digits(candidate@)
            && mismatched_entries(candidate@, entries_view(history@)).len() == 0 ==> r matches
            SecretValidation::Accepted,
        candidate@.len() == current_secret@.len() && all_digits(candidate@)
            && mismatched_entries(candidate@, entries_view(history@)).len() != 0 ==> (r matches
            SecretValidation::RejectedContradiction(ms) && mismatch_report_ok(
            ms@,
            mismatched_entries(candidate@, entries_view(history@)),
            candidate@,
        )),
{
    if candidate.unicode_len() != current_secret.unicode_len() {
        return SecretValidation::RejectedLength(current_secret.unicode_len());
    }
    let cand_chars = str_to_chars(candidate);
    if !check_all_digits(&cand_chars) {
        return SecretValidation::RejectedAlphabet;
    }
    let n = history.len();
    let mut mismatches: Vec<Mismatch> = Vec::new();
    let mut i: usize = 0;
    while i < n
        invariant
            i <= n,
            n == history@.len(),
            cand_chars@ == candidate@,
            candidate@.len() == current_secret@.len(),
            forall|k: int|
                0 <= k < history@.len() ==> (#[trigger] history@[k]).0@.len()
                    == current_secret@.len(),
            mismatch_report_ok(
                mismatches@,
                mismatched_entries(candidate@, entries_view(history@.take(i as int))),
                candidate@,
            ),
        decreases n - i,
    {
        let guess_chars = str_to_chars(history[i].0.as_str());
        let (bulls, cows) = score_codes(&cand_chars, &guess_chars);
        let actual = Score::new(bulls, cows);
        let expected = history[i].1;
        proof {
            let ev_i = entries_view(history@.take(i as int));
            let e = (history@[i as int].0@, history@[i as int].1);
            let ev_next = entries_view(history@.take(i + 1));
            assert(ev_next =~= ev_i.push(e));
            assert(ev_next.drop_last() =~= ev_i);
            assert(ev_next.last() == e);
            assert(mismatched_entries(candidate@, ev_next) == if matches_score(
                candidate@,
                e.0,
                e.1,
            ) {
                mismatched_entries(candidate@, ev_i)
            } else {
                mismatched_entries(candidate@, ev_i).push(e)
            });
        }
        if actual != expected {
            let m = Mismatch {
                guess: history[i].0.clone(),
                expected,
                score_under_candidate: actual,
            };
            mismatches.push(m);
        }
        i += 1;
    }
    proof {
        assert(history@.take(n as int) =~= history@);
    }
    if mismatches.len() == 0 {
        SecretValidation::Accepted
    } else {
        SecretValidation::RejectedContradiction(mismatches)
    }
}

/// An error returned when a secret change is refused.
#[derive(PartialEq, Debug)]
pub enum ErrResponse {
    /// The candidate's length differs from the expected length carried here.
    LengthMismatch(usize),
    /// The candidate holds a character that is not a decimal digit.
    CharsetMismatch(),
    /// The candidate was already used as a secret before.
    NoSecretChange(),
    /// The candidate contradicts these history entries, carried with the
    /// score each was given when it was made.
    GuessMismatch(Vec<(String, Score)>),
}

/// The text shown for a refused secret change, by error.
pub open spec fn message_text(e: ErrResponse) -> Seq<char> {
    match e {
        ErrResponse::LengthMismatch(l) => "Input length did not match the secret. Expected "@
            + decimal_digits(l as nat),
        ErrResponse::CharsetMismatch() => "Expected Digits only"@,
        ErrResponse::NoSecretChange() => "The secret was chosen before"@,
        ErrResponse::GuessMismatch(_) => "Previous Guesses did not match the new secret"@,
    }
}

impl ErrResponse {
    /// A line of text describing the error, fit to show to the player.
    pub fn message(&self) -> (r: String)
        ensures
            r@ == message_text(*self),
    {
        match self {
            ErrResponse::LengthMismatch(l) => {
                let mut out = String::from_str("Input length did not match the secret. Expected ");
                push_decimal(&mut out, *l);
                out
            },
            ErrResponse::CharsetMismatch() => String::from_str("Expected Digits only"),
            ErrResponse::NoSecretChange() => String::from_str("The secret was chosen before"),
            ErrResponse::GuessMismatch(_) => String::from_str(
                "Previous Guesses did not match the new secret",
            ),
        }
    }
}

/// The rendering of a score as a line of text.
pub open spec fn score_text(sc: Score) -> Seq<char> {
    "Bulls: "@ + decimal_digits(sc.bulls as nat) + ", Cows: "@ + decimal_digits(sc.cows as nat)
}

impl Score {
    /// Renders the score as text, bulls first.
    pub fn display(&self) -> (r: String)
        ensures
            r@ == score_text(*self),
    {
        let mut out = String::from_str("Bulls: ");
        push_decimal(&mut out, self.bulls);
        out.append(", Cows: ");
        push_decimal(&mut out, self.cows);
        proof {
            assert(out@ =~= score_text(*self));
        }
        out
    }
}

/// Whether a report of contradicted guesses lists exactly the entries
/// `entries`, each with the score it was given when it was made.
pub open spec fn pairs_report_ok(
    ms: Seq<(String, Score)>,
    entries: Seq<(Seq<char>, Score)>,
) -> bool {
    &&& ms.len() == entries.len()
    &&& forall|i: int|
        0 <= i < ms.len() ==> (#[trigger] ms[i]).0@ == entries[i].0 && ms[i].1 == entries[i].1
}

/// The conditions under which a session with secret `s`, previous secrets
/// `prev` and history `h` accepts `c` as its next secret: the very first
/// secret only needs to be a non-empty digit string, a replacement must in
/// addition keep the length, must not repeat an earlier secret, and must
/// agree with every score in the history.
pub open spec fn accepts_secret(
    s: Seq<char>,
    prev: Seq<Seq<char>>,
    h: Seq<(Seq<char>, Score)>,
    c: Seq<char>,
) -> bool {
    if s.len() == 0 && h.len() == 0 {
        c.len() > 0 && all_digits(c)
    } else {
        &&& c.len() == s.len()
        &&& c.len() > 0
        &&& all_digits(c)
        &&& !prev.contains(c)
        &&& mismatched_entries(c, h).len() == 0
    }
}

/// Whether `r` is the right verdict for changing the secret of a session in
/// state `(s, prev, h)` to `c`: acceptance exactly under `accepts_secret`,
/// and each refusal carrying the error that names the first failing check.
pub open spec fn change_verdict_ok(
    s: Seq<char>,
    prev: Seq<Seq<char>>,
    h: Seq<(Seq<char>, Score)>,
    c: Seq<char>,
    r: Result<(), ErrResponse>,
) -> bool {
    let init = s.len() == 0 && h.len() == 0;
    &&& (r is Ok <==> accepts_secret(s, prev, h, c))
    &&& (c.len() == 0 ==> (r matches Result::Err(ErrResponse::LengthMismatch(l)) && l
        == s.len()))
    &&& (c.len() > 0 && init && !all_digits(c) ==> r matches Result::Err(
        ErrResponse::CharsetMismatch(),
    ))
    &&& (c.len() > 0 && !init && c.len() != s.len() ==> (r matches Result::Err(
        ErrResponse::LengthMismatch(l),
    ) && l == s.len()))
    &&& (c.len() > 0 && !init && c.len() == s.len() && !all_digits(c) ==> r matches Result::Err(
        ErrResponse::CharsetMismatch(),
    ))
    &&& (c.len() > 0 && !init && c.len() == s.len() && all_digits(c) && prev.contains(c)
        ==> r matches Result::Err(ErrResponse::NoSecretChange()))
    &&& (c.len() > 0 && !init && c.len() == s.len() && all_digits(c) && !prev.contains(c)
        && mismatched_entries(c, h).len() != 0 ==> (r matches Result::Err(
        ErrResponse::GuessMismatch(ms),
    ) && pairs_report_ok(ms@, mismatched_entries(c, h))))
}

/// A game session: the current secret, every secret used before it, and the
/// scored guesses made so far.
pub trait Game: Sized {
    /// The characters of the current secret.
    spec fn secret_spec(&self) -> Seq<char>;

    /// The codes the secret has been set to, oldest first.
    spec fn prev_secrets_spec(&self) -> Seq<Seq<char>>;

    /// The guesses scored so far, each with its score, oldest first.
    spec fn history_spec(&self) -> Seq<(Seq<char>, Score)>;

    /// The scored guesses made so far.  Every entry carries exactly the
    /// score the current secret gives its guess: the fair-play guarantee
    /// that `change_secret` preserves.
    fn get_previous_guesses(&self) -> (r: &Vec<(String, Score)>)
        ensures
            entries_view(r@) == self.history_spec(),
            forall|i: int|
                0 <= i < self.history_spec().len() ==> {
                    let e = #[trigger] self.history_spec()[i];
                    e.0.len() == self.secret_spec().len() && matches_score(
                        self.secret_spec(),
                        e.0,
                        e.1,
                    )
                },
    ;

    /// The current secret.
    fn get_secret(&self) -> (r: &String)
        ensures
            r@ == self.secret_spec(),
    ;

    /// The length of the current secret.
    fn get_secret_len(&self) -> (r: usize)
        ensures
            r == self.secret_spec().len(),
    ;

    /// Scores `guess` against the current secret without recording it,
    /// refusing a guess whose length differs from the secret's.
    fn validate_guess(&mut self, guess: &str) -> (r: Result<Score, &'static str>)
        ensures
            *final(self) == *old(self),
            guess@.len() == old(self).secret_spec().len() ==> (r matches Result::Ok(sc)
                && matches_score(old(self).secret_spec(), guess@, sc)),
            guess@.len() != old(self).secret_spec().len() ==> (r matches Result::Err(m) && m@
                == "Invalid guess length."@),
    ;

    /// Scores `guess` against the current secret and appends it to the
    /// history, refusing a guess whose length differs from the secret's.
    fn handle_guess(&mut self, guess: &str) -> (r: Result<Score, &'static str>)
        ensures
            final(self).secret_spec() == old(self).secret_spec(),
            final(self).prev_secrets_spec() == old(self).prev_secrets_spec(),
            guess@.len() == old(self).secret_spec().len() ==> (r matches Result::Ok(sc)
                && matches_score(old(self).secret_spec(), guess@, sc)
                && final(self).history_spec() == old(self).history_spec().push((guess@, sc))),
            guess@.len() != old(self).secret_spec().len() ==> (r matches Result::Err(m) && m@
                == "Invalid guess length."@ && *final(self) == *old(self)),
    ;

    /// Replaces the secret by `new_secret` when that does not falsify any
    /// recorded score, and reports why not otherwise.  The history is never
    /// touched; on refusal nothing is.
    fn change_secret(&mut self, new_secret: &str) -> (r: Result<(), ErrResponse>)
        ensures
            final(self).history_spec() == old(self).history_spec(),
            change_verdict_ok(
                old(self).secret_spec(),
                old(self).prev_secrets_spec(),
                old(self).history_spec(),
                new_secret@,
                r,
            ),
            r is Ok ==> final(self).secret_spec() == new_secret@ && final(self).prev_secrets_spec()
                == old(self).prev_secrets_spec().push(
                if old(self).secret_spec().len() == 0 {
                    new_secret@
                } else {
                    old(self).secret_spec()
                },
            ),
            r is Err ==> *final(self) == *old(self),
    ;
}

/// The standard game session.
pub struct GameStruct {
    secret: String,
    previous_secrets: Vec<String>,
    previous_guesses: Vec<(String, Score)>,
}

impl GameStruct {
    /// The fair-play guarantee: every recorded score is exactly the score the
    /// current secret gives to the recorded guess, so the history never lies
    /// about the secret on display.
    #[verifier::type_invariant]
    spec fn wf(self) -> bool {
        forall|i: int|
            0 <= i < self.history_spec().len() ==> {
                let e = #[trigger] self.history_spec()[i];
                e.0.len() == self.secret_spec().len() && matches_score(self.secret_spec(), e.0, e.1)
            }
    }

    /// A fresh session with no secret, no previous secrets and no guesses.
    pub fn new() -> (r: GameStruct)
        ensures
            r.secret_spec() == Seq::<char>::empty(),
            r.prev_secrets_spec() == Seq::<Seq<char>>::empty(),
            r.history_spec() == Seq::<(Seq<char>, Score)>::empty(),
    {
        let r = GameStruct {
            secret: String::new(),
            previous_secrets: Vec::new(),
            previous_guesses: Vec::new(),
        };
        proof {
            assert(r.secret_spec() =~= Seq::<char>::empty());
            assert(r.prev_secrets_spec() =~= Seq::<Seq<char>>::empty());
            assert(r.history_spec() =~= Seq::<(Seq<char>, Score)>::empty());
        }
        r
    }

    /// Records an already-scored guess.  The caller vouches that the score is
    /// the one the current secret gives, which is how every entry of a
    /// history comes to be.
    pub fn add_guess(&mut self, guess: String, score: Score)
        requires
            guess@.len() == old(self).secret_spec().len(),
            matches_score(old(self).secret_spec(), guess@, score),
        ensures
            final(self).secret_spec() == old(self).secret_spec(),
            final(self).prev_secrets_spec() == old(self).prev_secrets_spec(),
            final(self).history_spec() == old(self).history_spec().push((guess@, score)),
    {
        proof {
            use_type_invariant(&*self);
        }
        let ghost old_view = self.history_spec();
        let ghost g = guess@;
        let mut entries: Vec<(String, Score)> = Vec::new();
        proof {
            assert(entries_view(entries@).len() == 0);
        }
        core::mem::swap(&mut self.previous_guesses, &mut entries);
        entries.push((guess, score));
        proof {
            assert(entries_view(entries@) =~= old_view.push((g, score)));
        }
        core::mem::swap(&mut self.previous_guesses, &mut entries);
        proof {
            assert(self.history_spec() =~= old_view.push((g, score)));
        }
    }

    /// Whether `candidate` was already used as a secret.
    fn contains_previous(&self, candidate: &String) -> (r: bool)
        ensures
            r == self.prev_secrets_spec().contains(candidate@),
    {
        let n = self.previous_secrets.len();
        let mut i: usize = 0;
        while i < n
            invariant
                i <= n,
                n == self.previous_secrets@.len(),
                forall|k: int| 0 <= k < i ==> self.prev_secrets_spec()[k] != candidate@,
            decreases n - i,
        {
            if self.previous_secrets[i].eq(candidate) {
                proof {
                    assert(self.prev_secrets_spec()[i as int] == candidate@);
                }
                return true;
            }
            i += 1;
        }
        proof {
            if self.prev_secrets_spec().contains(candidate@) {
                let k = choose|k: int|
                    0 <= k < self.prev_secrets_spec().len() && self.prev_secrets_spec()[k]
                        == candidate@;
                assert(false);
            }
        }
        false
    }

    /// Checks whether `new_secret` may become the secret, and on the very
    /// first, still-empty secret also installs it.  A replacement of an
    /// existing secret is only checked, never applied; `change_secret`
    /// applies it.
    pub fn validate_secret(&mut self, new_secret: &str) -> (r: Result<(), ErrResponse>)
        ensures
            change_verdict_ok(
                old(self).secret_spec(),
                old(self).prev_secrets_spec(),
                old(self).history_spec(),
                new_secret@,
                r,
            ),
            r is Err ==> *final(self) == *old(self),
            r is Ok && old(self).secret_spec().len() != 0 ==> *final(self) == *old(self),
            r is Ok && old(self).secret_spec().len() == 0 ==> final(self).secret_spec()
                == new_secret@ && final(self).prev_secrets_spec() == old(self).prev_secrets_spec()
                && final(self).history_spec() == old(self).history_spec(),
    {
        proof {
            use_type_invariant(&*self);
        }
        if new_secret.unicode_len() == 0 {
            return Err(ErrResponse::LengthMismatch(self.secret.unicode_len()));
        }
        if self.secret.unicode_len() == 0 && self.previous_guesses.len() == 0 {
            let cv = str_to_chars(new_secret);
            if check_all_digits(&cv) {
                let ghost old_hist = self.history_spec();
                let ghost old_prev = self.prev_secrets_spec();
                self.secret = String::from_str(new_secret);
                proof {
                    assert(self.history_spec() =~= old_hist);
                    assert(self.prev_secrets_spec() =~= old_prev);
                }
                return Ok(());
            } else {
                return Err(ErrResponse::CharsetMismatch());
            }
        }
        proof {
            assert(old(self).history_spec().len() == 0 ==> entries_view(self.previous_guesses@)
                =~= Seq::<(Seq<char>, Score)>::empty());
        }
        if new_secret.unicode_len() != self.secret.unicode_len() {
            return Err(ErrResponse::LengthMismatch(self.secret.unicode_len()));
        }
        let cv = str_to_chars(new_secret);
        if !check_all_digits(&cv) {
            return Err(ErrResponse::CharsetMismatch());
        }
        let cand = String::from_str(new_secret);
        if self.contains_previous(&cand) {
            return Err(ErrResponse::NoSecretChange());
        }
        proof {
            assert forall|i: int|
                0 <= i < self.previous_guesses@.len() implies (
            #[trigger] self.previous_guesses@[i]).0@.len() == self.secret@.len() by {
                assert(self.history_spec()[i] == (
                    self.previous_guesses@[i].0@,
                    self.previous_guesses@[i].1,
                ));
            }
        }
        match validate_new_secret(self.secret.as_str(), &self.previous_guesses, new_secret) {
            SecretValidation::Accepted => Ok(()),
            SecretValidation::RejectedContradiction(ms) => {
                let pairs = mismatch_pairs(ms);
                Err(ErrResponse::GuessMismatch(pairs))
            },
            SecretValidation::RejectedLength(_) => vstd::pervasive::unreached(),
            SecretValidation::RejectedAlphabet => vstd::pervasive::unreached(),
        }
    }
}

/// Turns a contradiction report into pairs of guess and originally recorded
/// score.
fn mismatch_pairs(ms: Vec<Mismatch>) -> (r: Vec<(String, Score)>)
    ensures
        r@.len() == ms@.len(),
        forall|i: int|
            0 <= i < r@.len() ==> (#[trigger] r@[i]).0@ == ms@[i].guess@ && r@[i].1
                == ms@[i].expected,
{
    let n = ms.len();
    let mut out: Vec<(String, Score)> = Vec::new();
    let mut i: usize = 0;
    while i < n
        invariant
            i <= n,
            n == ms@.len(),
            out@.len() == i,
            forall|k: int|
                0 <= k < i ==> (#[trigger] out@[k]).0@ == ms@[k].guess@ && out@[k].1
                    == ms@[k].expected,
        decreases n - i,
    {
        out.push((ms[i].guess.clone(), ms[i].expected));
        i += 1;
    }
    out
}

impl Game for GameStruct {
    closed spec fn secret_spec(&self) -> Seq<char> {
        self.secret@
    }

    closed spec fn prev_secrets_spec(&self) -> Seq<Seq<char>> {
        self.previous_secrets@.map_values(|s: String| s@)
    }

    closed spec fn history_spec(&self) -> Seq<(Seq<char>, Score)> {
        entries_view(self.previous_guesses@)
    }

    fn get_previous_guesses(&self) -> (r: &Vec<(String, Score)>) {
        proof {
            use_type_invariant(&*self);
        }
        &self.previous_guesses
    }

    fn get_secret(&self) -> (r: &String) {
        &self.secret
    }

    fn get_secret_len(&self) -> (r: usize) {
        self.secret.unicode_len()
    }

    fn validate_guess(&mut self, guess: &str) -> (r: Result<Score, &'static str>) {
        if guess.unicode_len() != self.secret.unicode_len() {
            Err("Invalid guess length.")
        } else {
            Ok(score_guess(self.secret.as_str(), guess))
        }
    }

    fn handle_guess(&mut self, guess: &str) -> (r: Result<Score, &'static str>) {
        let result = self.validate_guess(guess);
        match result {
            Err(msg) => Err(msg),
            Ok(score) => {
                self.add_guess(String::from_str(guess), score);
                Ok(score)
            },
        }
    }

    fn change_secret(&mut self, new_secret: &str) -> (r: Result<(), ErrResponse>) {
        let ghost init = self.secret_spec().len() == 0;
        let result = self.validate_secret(new_secret);
        match result {
            Ok(()) => {
                proof {
                    use_type_invariant(&*self);
                    lemma_no_mismatches(new_secret@, self.history_spec());
                }
                let ghost old_prev = self.prev_secrets_spec();
                let mut displaced = String::from_str(new_secret);
                core::mem::swap(&mut self.secret, &mut displaced);
                let mut prev: Vec<String> = Vec::new();
                core::mem::swap(&mut self.previous_secrets, &mut prev);
                prev.push(displaced);
                core::mem::swap(&mut self.previous_secrets, &mut prev);
                proof {
                    assert(self.prev_secrets_spec() =~= old_prev.push(
                        if init {
                            new_secret@
                        } else {
                            old(self).secret_spec()
                        },
                    ));
                }
                Ok(())
            },
            Err(e) => Err(e),
        }
    }
}


/// The outcome of `update_secret`: acceptance, or a line of text saying why
/// the candidate was refused.
#[derive(PartialEq, Debug)]
pub enum SecretChangeResponse {
    Valid,
    Invalid(String),
}

/// The text `update_secret` reports for a refused candidate `c` against a
/// session in state `(s, prev, h)`.
pub open spec fn update_refusal_text(
    s: Seq<char>,
    prev: Seq<Seq<char>>,
    h: Seq<(Seq<char>, Score)>,
    c: Seq<char>,
) -> Seq<char> {
    let init = s.len() == 0 && h.len() == 0;
    if c.len() == 0 || (!init && c.len() != s.len()) {
        "New secret length mismatch."@
    } else if !all_digits(c) {
        "New secret must be composed of digits only."@
    } else if !init && prev.contains(c) {
        "The secret was chosen before."@
    } else {
        "New secret contradicts the scores of previous guesses."@
    }
}

impl GameStruct {
    /// Replaces the secret exactly as `change_secret` does, reporting the
    /// outcome as a response that carries display text instead of a
    /// structured error.
    pub fn update_secret(&mut self, new_secret: String) -> (r: SecretChangeResponse)
        ensures
            final(self).history_spec() == old(self).history_spec(),
            r == SecretChangeResponse::Valid <==> accepts_secret(
                old(self).secret_spec(),
                old(self).prev_secrets_spec(),
                old(self).history_spec(),
                new_secret@,
            ),
            r == SecretChangeResponse::Valid ==> final(self).secret_spec() == new_secret@
                && final(self).prev_secrets_spec() == old(self).prev_secrets_spec().push(
                if old(self).secret_spec().len() == 0 {
                    new_secret@
                } else {
                    old(self).secret_spec()
                },
            ),
            r matches SecretChangeResponse::Invalid(m) ==> *final(self) == *old(self) && m@
                == update_refusal_text(
                old(self).secret_spec(),
                old(self).prev_secrets_spec(),
                old(self).history_spec(),
                new_secret@,
            ),
    {
        match self.change_secret(new_secret.as_str()) {
            Ok(()) => SecretChangeResponse::Valid,
            Err(ErrResponse::LengthMismatch(_)) => SecretChangeResponse::Invalid(
                String::from_str("New secret length mismatch."),
            ),
            Err(ErrResponse::CharsetMismatch()) => SecretChangeResponse::Invalid(
                String::from_str("New secret must be composed of digits only."),
            ),
            Err(ErrResponse::NoSecretChange()) => SecretChangeResponse::Invalid(
                String::from_str("The secret was chosen before."),
            ),
            Err(ErrResponse::GuessMismatch(_)) => SecretChangeResponse::Invalid(
                String::from_str("New secret contradicts the scores of previous guesses."),
            ),
        }
    }
}

/// A session that checks guesses and secret changes exactly like
/// `GameStruct`, but only buffers an accepted guess instead of recording it,
/// so that the turn driver can decide later what to do with it.
pub struct BufferGame {
    game: GameStruct,
    buffered_guess: Option<String>,
}

impl BufferGame {
    /// The characters of the current secret.
    pub closed spec fn secret_spec(&self) -> Seq<char> {
        self.game.secret_spec()
    }

    /// The codes the secret has been set to, oldest first.
    pub closed spec fn prev_secrets_spec(&self) -> Seq<Seq<char>> {
        self.game.prev_secrets_spec()
    }

    /// The guesses scored so far, each with its score, oldest first.
    pub closed spec fn history_spec(&self) -> Seq<(Seq<char>, Score)> {
        self.game.history_spec()
    }

    /// The buffered guess, if an accepted guess is waiting.
    pub closed spec fn buffered_guess_spec(&self) -> Option<Seq<char>> {
        match self.buffered_guess {
            Some(ref g) => Some(g@),
            None => None,
        }
    }

    /// A fresh session with no secret, no guesses, and nothing buffered.
    pub fn new() -> (r: BufferGame)
        ensures
            r.secret_spec() == Seq::<char>::empty(),
            r.prev_secrets_spec() == Seq::<Seq<char>>::empty(),
            r.history_spec() == Seq::<(Seq<char>, Score)>::empty(),
            r.buffered_guess_spec() is None,
    {
        BufferGame { game: GameStruct::new(), buffered_guess: None }
    }

    /// The scored guesses made so far.
    pub fn get_previous_guesses(&self) -> (r: &Vec<(String, Score)>)
        ensures
            entries_view(r@) == self.history_spec(),
    {
        self.game.get_previous_guesses()
    }

    /// The current secret.
    pub fn get_secret(&self) -> (r: &String)
        ensures
            r@ == self.secret_spec(),
    {
        self.game.get_secret()
    }

    /// The length of the current secret.
    pub fn get_secret_len(&self) -> (r: usize)
        ensures
            r == self.secret_spec().len(),
    {
        self.game.get_secret_len()
    }

    /// Scores `guess` against the current secret without recording or
    /// buffering it.
    pub fn validate_guess(&mut self, guess: &str) -> (r: Result<Score, &'static str>)
        ensures
            *final(self) == *old(self),
            guess@.len() == old(self).secret_spec().len() ==> (r matches Result::Ok(sc)
                && matches_score(old(self).secret_spec(), guess@, sc)),
            guess@.len() != old(self).secret_spec().len() ==> (r matches Result::Err(m) && m@
                == "Invalid guess length."@),
    {
        self.game.validate_guess(guess)
    }

    /// Scores `guess` against the current secret and, when it is acceptable,
    /// buffers it instead of recording it; the history is never touched.
    pub fn handle_guess(&mut self, guess: &str) -> (r: Result<Score, &'static str>)
        ensures
            final(self).secret_spec() == old(self).secret_spec(),
            final(self).prev_secrets_spec() == old(self).prev_secrets_spec(),
            final(self).history_spec() == old(self).history_spec(),
            guess@.len() == old(self).secret_spec().len() ==> (r matches Result::Ok(sc)
                && matches_score(old(self).secret_spec(), guess@, sc)
                && final(self).buffered_guess_spec() == Some(guess@)),
            guess@.len() != old(self).secret_spec().len() ==> (r matches Result::Err(m) && m@
                == "Invalid guess length."@ && *final(self) == *old(self)),
    {
        let result = self.game.validate_guess(guess);
        match result {
            Err(msg) => Err(msg),
            Ok(score) => {
                self.buffered_guess = Some(String::from_str(guess));
                Ok(score)
            },
        }
    }

    /// Replaces the secret exactly as the underlying session does.
    pub fn change_secret(&mut self, new_secret: &str) -> (r: Result<(), ErrResponse>)
        ensures
            final(self).history_spec() == old(self).history_spec(),
            change_verdict_ok(
                old(self).secret_spec(),
                old(self).prev_secrets_spec(),
                old(self).history_spec(),
                new_secret@,
                r,
            ),
            r is Ok ==> final(self).secret_spec() == new_secret@ && final(self).prev_secrets_spec()
                == old(self).prev_secrets_spec().push(
                if old(self).secret_spec().len() == 0 {
                    new_secret@
                } else {
                    old(self).secret_spec()
                },
            ),
            r is Err ==> *final(self) == *old(self),
    {
        self.game.change_secret(new_secret)
    }
}

} // verus!
