use colored::Colorize;
use mastermind::display::colored_player_name;
use mastermind::scoring::Score;
use mastermind::ui::{Player, PlayerType, colorify_guess, colorify_guesses, format_guess_for_display,
    format_guesses};

#[test]
fn test_format_guess_for_display_with_color() {
    colored::control::set_override(true);
    let secret = "1234";
    let guess = "1243";
    let result = colorify_guess(guess, secret);
    assert_eq!(
        result,
        "\u{1b}[32m1\u{1b}[0m\u{1b}[32m2\u{1b}[0m\u{1b}[33m4\u{1b}[0m\u{1b}[33m3\u{1b}[0m"
    );
}

#[test]
fn test_format_guess_for_display() {
    colored::control::set_override(true);
    let formatted = format_guess_for_display("1243", "1234", true);
    assert_eq!(
        formatted,
        format!("{}{}{}{}", "1".green(), "2".green(), "4".yellow(), "3".yellow())
    );
}

#[test]
fn test_format_guess_for_display_plain() {
    let formatted = format_guess_for_display("1243", "1234", false);
    assert_eq!(formatted, "1243".to_string());
}

#[test]
fn test_colorify_absent_symbols_stay_plain() {
    let result = colorify_guess("59", "12");
    assert_eq!(result, "59".to_string());
}

#[test]
fn test_colorify_stops_at_the_shorter_code() {
    colored::control::set_override(true);
    let result = colorify_guess("129", "12");
    assert_eq!(result, format!("{}{}", "1".green(), "2".green()));
}

#[test]
fn test_colorify_guesses_keeps_scores() {
    colored::control::set_override(true);
    let guesses = vec![("1243".to_string(), Score::new(2, 2))];
    let coloured = colorify_guesses(&guesses, "1234");
    assert_eq!(coloured.len(), 1);
    assert_eq!(coloured[0].1, Score::new(2, 2));
    assert_eq!(
        coloured[0].0,
        format!("{}{}{}{}", "1".green(), "2".green(), "4".yellow(), "3".yellow())
    );
}

#[test]
fn test_format_guesses_lines() {
    let guesses = vec![
        ("1243".to_string(), Score::new(2, 2)),
        ("1111".to_string(), Score::new(1, 0)),
    ];
    let lines = format_guesses(&guesses);
    assert_eq!(
        lines,
        vec![
            "1243, Bulls: 2, Cows: 2".to_string(),
            "1111, Bulls: 1, Cows: 0".to_string(),
        ]
    );
}

#[test]
fn test_player_names() {
    let keeper = Player { player_type: PlayerType::Keeper, io: mastermind::ui::IO {} };
    let seeker = Player { player_type: PlayerType::Seeker, io: mastermind::ui::IO {} };
    assert_eq!(keeper.as_str(), "Keeper");
    assert_eq!(seeker.as_str(), "Seeker");
}

#[test]
fn test_colored_player_names() {
    colored::control::set_override(true);
    assert_eq!(
        PlayerType::Keeper.colored_name(),
        "Keeper".red().to_string()
    );
    assert_eq!(
        PlayerType::Seeker.colored_name(),
        "Seeker".green().to_string()
    );
}

#[test]
fn test_colored_free_player_names() {
    colored::control::set_override(true);
    assert_eq!(
        colored_player_name("Player 1"),
        "Player 1".green().to_string()
    );
    assert_eq!(
        colored_player_name("Player 2"),
        "Player 2".red().to_string()
    );
}
