use mastermind::code::{BasicCode, Code};
use mastermind::pin::PinColour;

#[test]
fn code_test_equality() {
    let mut code1 = BasicCode::new();
    code1.set_pin(0, PinColour::Black);
    code1.set_pin(1, PinColour::Blue);

    let mut code2 = BasicCode::new();
    code2.set_pin(0, PinColour::Black);
    code2.set_pin(1, PinColour::Blue);

    assert_eq!(code1, code2);

    let mut code1 = BasicCode::new();
    code1.set_pin(0, PinColour::Black);
    code1.set_pin(1, PinColour::Brown);

    let mut code2 = BasicCode::new();
    code2.set_pin(0, PinColour::Black);
    code2.set_pin(1, PinColour::Blue);

    assert_ne!(code1, code2);
}

#[test]
fn test_feedback() {
    let mut code1 = BasicCode::new();
    code1.set_pin(0, PinColour::Black);
    code1.set_pin(1, PinColour::Blue);

    let mut code2 = BasicCode::new();
    code2.set_pin(0, PinColour::Black);
    code2.set_pin(1, PinColour::Blue);

    let feedback = code1.compare(&code2);
    assert!(feedback.is_correct());
    assert_eq!(5, feedback.correct_positions());
    assert_eq!(0, feedback.correct_colours());

    let mut code1 = BasicCode::new();
    code1.set_pin(0, PinColour::Black);
    code1.set_pin(1, PinColour::Brown);
    code1.set_pin(2, PinColour::Blue);
    code1.set_pin(3, PinColour::Empty);
    code1.set_pin(4, PinColour::Empty);

    let mut code2 = BasicCode::new();
    code2.set_pin(0, PinColour::Black);
    code2.set_pin(1, PinColour::Blue);
    code2.set_pin(2, PinColour::Empty);
    code2.set_pin(4, PinColour::Empty);
    code2.set_pin(3, PinColour::Empty);

    let feedback = code1.compare(&code2);
    assert!(!feedback.is_correct());
    assert_eq!(3, feedback.correct_positions());
    assert_eq!(1, feedback.correct_colours());
}

#[test]
fn pin_test_equality() {
    assert_eq!(PinColour::Blue, PinColour::Blue);
    assert_ne!(PinColour::Blue, PinColour::Green);
}

#[test]
fn test_code_size_and_display() {
    let mut code = BasicCode::new();
    assert_eq!(code.size(), 5);
    code.set_pin(0, PinColour::Red);
    code.set_pin(4, PinColour::White);
    let lines = code.display();
    assert_eq!(
        lines,
        vec![
            "Red".to_string(),
            "Empty".to_string(),
            "Empty".to_string(),
            "Empty".to_string(),
            "White".to_string(),
        ]
    );
}

#[test]
fn test_pin_names() {
    assert_eq!(PinColour::Blue.name(), "Blue");
    assert_eq!(PinColour::Orange.name(), "Orange");
    assert_eq!(PinColour::Empty.name(), "Empty");
}

#[test]
fn test_feedback_display_text() {
    let mut code1 = BasicCode::new();
    code1.set_pin(0, PinColour::Green);
    let code2 = BasicCode::new();
    let feedback = code1.compare(&code2);
    assert_eq!(
        feedback.display(),
        "correct positions: 4, correct colours: 0".to_string()
    );
}
