use mastermind::text::{check_all_digits, contains_char, str_to_chars, usize_to_string};

#[test]
fn test_decimal_rendering() {
    assert_eq!(usize_to_string(0), "0".to_string());
    assert_eq!(usize_to_string(7), "7".to_string());
    assert_eq!(usize_to_string(907), "907".to_string());
    assert_eq!(usize_to_string(120034), "120034".to_string());
}

#[test]
fn test_str_to_chars() {
    assert_eq!(str_to_chars("1234"), vec!['1', '2', '3', '4']);
    assert_eq!(str_to_chars(""), Vec::<char>::new());
}

#[test]
fn test_digit_checks() {
    assert!(check_all_digits(&vec!['0', '5', '9']));
    assert!(!check_all_digits(&vec!['1', 'a']));
    assert!(check_all_digits(&vec![]));
}

#[test]
fn test_contains_char() {
    assert!(contains_char(&vec!['x', 'y'], 'y'));
    assert!(!contains_char(&vec!['x', 'y'], 'z'));
}
