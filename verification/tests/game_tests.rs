use mastermind::game::{
    ErrResponse, Game, GameStruct, Mismatch, SecretChangeResponse, SecretValidation, score_guess,
    validate_new_secret,
};
use mastermind::scoring::Score;

#[test]
fn test_score_guess_correct() {
    assert_eq!(score_guess("1234", "1234"), Score::new(4, 0));
}

#[test]
fn test_score_guess_with_cows() {
    assert_eq!(score_guess("1234", "1243"), Score::new(2, 2));
}

#[test]
fn test_score_guess() {
    let secret = "1234";
    let guess = "1243";
    let score = score_guess(secret, guess);
    assert_eq!(score.bulls, 2);
    assert_eq!(score.cows, 2);
}

#[test]
fn test_no_overcount_on_repeated_symbols() {
    assert_eq!(score_guess("1122", "1111"), Score::new(2, 0));
}

#[test]
fn test_exact_matches_symmetric() {
    let a = "1122";
    let b = "1212";
    assert_eq!(score_guess(a, b).bulls, score_guess(b, a).bulls);
    assert_eq!(score_guess(a, b).bulls, 2);
}

#[test]
fn test_score_within_bounds() {
    let score = score_guess("3133", "1333");
    assert!(score.bulls + score.cows <= 4);
    assert_eq!(score, Score::new(2, 2));
}

#[test]
fn test_perfect_match_no_colour_credit() {
    assert_eq!(score_guess("5075", "5075"), Score::new(4, 0));
}

#[test]
fn test_empty_codes_score_zero() {
    assert_eq!(score_guess("", ""), Score::new(0, 0));
}

#[test]
fn test_init_secret_valid() {
    let mut game = GameStruct::new();
    let response = game.change_secret("1234");
    assert!(response.is_ok());
    assert_eq!(*game.get_secret(), "1234".to_string());
}

#[test]
fn test_init_secret_empty() {
    let mut game = GameStruct::new();
    let response = game.change_secret("");
    assert!(response.is_err());
    assert_eq!(game.get_secret_len(), 0);
}

#[test]
fn game_test_update_secret_valid() {
    let mut game = GameStruct::new();
    let _ = game.change_secret("1234");
    let response = game.change_secret("4321");
    assert!(response.is_ok());
    assert_eq!(*game.get_secret(), "4321".to_string());
}

#[test]
fn game_test_update_secret_invalid_length() {
    let mut game = GameStruct::new();
    let _ = game.change_secret("1234");
    let response = game.change_secret("123");
    assert_eq!(response, Err(ErrResponse::LengthMismatch(4)));
}

#[test]
fn test_update_secret_no_change() {
    let mut game = GameStruct::new();
    let _ = game.change_secret("1234");
    let response = game.change_secret("1234");
    assert_eq!(response, Err(ErrResponse::NoSecretChange()));
}

#[test]
fn test_update_secret_invalid_digits() {
    let mut game = GameStruct::new();
    let _ = game.change_secret("1234");
    let response = game.change_secret("123a");
    assert_eq!(response, Err(ErrResponse::CharsetMismatch()));
}

#[test]
fn test_update_secret_invalid_mismatch() {
    let mut game = GameStruct::new();
    let _ = game.change_secret("1234");
    game.add_guess("5673".to_string(), Score::new(0, 1));
    let response = game.change_secret("1278");
    let expected = ErrResponse::GuessMismatch(vec![("5673".to_string(), Score::new(0, 1))]);
    assert_eq!(response, Err(expected));
}

#[test]
fn game_tests_test_update_secret_valid() {
    let mut game = GameStruct::new();
    let _ = game.change_secret("1234");
    let result = game.update_secret("1245".to_string());
    assert_eq!(result, SecretChangeResponse::Valid);
    assert_eq!(*game.get_secret(), "1245".to_string());
}

#[test]
fn game_tests_test_update_secret_invalid_length() {
    let mut game = GameStruct::new();
    let _ = game.change_secret("1234");
    let result = game.update_secret("123".to_string());
    assert_eq!(
        result,
        SecretChangeResponse::Invalid("New secret length mismatch.".to_string())
    );
}

#[test]
fn test_update_secret_invalid_characters() {
    let mut game = GameStruct::new();
    let _ = game.change_secret("1234");
    let result = game.update_secret("12a4".to_string());
    assert_eq!(
        result,
        SecretChangeResponse::Invalid("New secret must be composed of digits only.".to_string())
    );
}

#[test]
fn test_update_secret_rejected_repeat_message() {
    let mut game = GameStruct::new();
    let _ = game.change_secret("1234");
    let result = game.update_secret("1234".to_string());
    assert_eq!(
        result,
        SecretChangeResponse::Invalid("The secret was chosen before.".to_string())
    );
}

#[test]
fn test_validator_accepts_consistent_candidate() {
    let history = vec![("5678".to_string(), Score::new(0, 0))];
    let verdict = validate_new_secret("1234", &history, "4321");
    assert_eq!(verdict, SecretValidation::Accepted);
}

#[test]
fn test_validator_rejects_contradicting_candidate() {
    let history = vec![("5678".to_string(), Score::new(0, 0))];
    let verdict = validate_new_secret("1234", &history, "5671");
    let expected = SecretValidation::RejectedContradiction(vec![Mismatch {
        guess: "5678".to_string(),
        expected: Score::new(0, 0),
        score_under_candidate: Score::new(3, 0),
    }]);
    assert_eq!(verdict, expected);
}

#[test]
fn test_validator_rejects_wrong_length() {
    let history = vec![("5678".to_string(), Score::new(0, 0))];
    assert_eq!(
        validate_new_secret("1234", &history, "432"),
        SecretValidation::RejectedLength(4)
    );
}

#[test]
fn test_validator_rejects_wrong_alphabet() {
    let history = vec![("5678".to_string(), Score::new(0, 0))];
    assert_eq!(
        validate_new_secret("1234", &history, "43a1"),
        SecretValidation::RejectedAlphabet
    );
}

#[test]
fn test_validator_accepts_twice_without_side_effects() {
    let history = vec![("5678".to_string(), Score::new(0, 0))];
    let first = validate_new_secret("1234", &history, "4321");
    let second = validate_new_secret("1234", &history, "4321");
    assert_eq!(first, SecretValidation::Accepted);
    assert_eq!(second, SecretValidation::Accepted);
}

#[test]
fn test_session_rejects_rewriting_history() {
    let mut game = GameStruct::new();
    let _ = game.change_secret("1234");
    let score = game.handle_guess("1243").unwrap();
    assert_eq!(score, Score::new(2, 2));
    assert_eq!(game.get_previous_guesses().len(), 1);
    let response = game.change_secret("1243");
    assert!(matches!(response, Err(ErrResponse::GuessMismatch(_))));
    assert_eq!(*game.get_secret(), "1234".to_string());
}

#[test]
fn test_validate_guess_wrong_length_message() {
    let mut game = GameStruct::new();
    let _ = game.change_secret("1234");
    let result = game.validate_guess("12345");
    assert_eq!(result, Err("Invalid guess length."));
    assert_eq!(game.get_previous_guesses().len(), 0);
}

#[test]
fn test_error_messages() {
    assert_eq!(
        ErrResponse::LengthMismatch(17).message(),
        "Input length did not match the secret. Expected 17".to_string()
    );
    assert_eq!(
        ErrResponse::CharsetMismatch().message(),
        "Expected Digits only".to_string()
    );
    assert_eq!(
        ErrResponse::NoSecretChange().message(),
        "The secret was chosen before".to_string()
    );
    assert_eq!(
        ErrResponse::GuessMismatch(vec![]).message(),
        "Previous Guesses did not match the new secret".to_string()
    );
}

#[test]
fn test_score_display_text() {
    assert_eq!(Score::new(2, 2).display(), "Bulls: 2, Cows: 2".to_string());
    assert_eq!(
        Score::new(12, 345).display(),
        "Bulls: 12, Cows: 345".to_string()
    );
    assert_eq!(Score::new(0, 0).display(), "Bulls: 0, Cows: 0".to_string());
}
