use colored::Colorize;
use mastermind::game::{Game, GameStruct};
use mastermind::gameloop::{GameLoop, Variant};
use mastermind::scoring::Score;

#[test]
pub fn run_game() {
    let mut gameloop = GameLoop::new(Variant::ChangeSecret);
    let inputs = [
        "1234", // set the first secret
        "123",  // guess, too short
        "1235", // guess
        "1236", // change the secret
        "1237", // guess
        "123",  // change the secret, too short
        "9210", // change the secret, contradicts the history
        "1231", // change the secret
        "1231", // guess, correct
    ];
    for input in inputs {
        assert!(!gameloop.is_over);
        println!("{}: {}", "INPUT".yellow(), input);
        gameloop.take_input(&input);
    }
    assert!(gameloop.is_over);
}

#[test]
fn test_classic_game_to_victory() {
    let mut gameloop = GameLoop::new(Variant::Classic);
    gameloop.take_input("42");
    assert!(!gameloop.is_over);
    gameloop.take_input("42");
    assert!(gameloop.is_over);
}

#[test]
fn test_buffer_game_buffers_instead_of_recording() {
    let mut game = mastermind::game::BufferGame::new();
    assert!(game.change_secret("1234").is_ok());
    assert_eq!(game.get_secret_len(), 4);
    let score = game.handle_guess("1243").unwrap();
    assert_eq!(score, Score::new(2, 2));
    assert_eq!(game.get_previous_guesses().len(), 0);
    assert_eq!(*game.get_secret(), "1234".to_string());
}

#[test]
fn test_buffer_game_validates_guess_length() {
    let mut game = mastermind::game::BufferGame::new();
    assert!(game.change_secret("1234").is_ok());
    assert_eq!(game.validate_guess("124"), Err("Invalid guess length."));
}

#[test]
fn test_session_keeps_history_in_order() {
    let mut game = GameStruct::new();
    let _ = game.change_secret("1234");
    let first = game.handle_guess("1111").unwrap();
    let second = game.handle_guess("4321").unwrap();
    assert_eq!(first, Score::new(1, 0));
    assert_eq!(second, Score::new(0, 4));
    let history = game.get_previous_guesses();
    assert_eq!(history.len(), 2);
    assert_eq!(history[0], ("1111".to_string(), Score::new(1, 0)));
    assert_eq!(history[1], ("4321".to_string(), Score::new(0, 4)));
}
