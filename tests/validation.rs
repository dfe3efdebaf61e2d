use randy_ng::validate::validate_input;

fn chars(s: &str) -> Vec<char> {
    s.chars().collect()
}

fn accepted(range: &str, guess: &str) -> bool {
    validate_input(&chars(range), &chars(guess))
}

#[test]
fn accepts_guess_inside_range() {
    assert!(accepted("1..10", "5"));
}

#[test]
fn accepts_guess_on_either_bound() {
    assert!(accepted("1..10", "1"));
    assert!(accepted("1..10", "10"));
    assert!(accepted("0..1", "0"));
}

#[test]
fn rejects_guess_outside_range() {
    assert!(!accepted("1..10", "0"));
    assert!(!accepted("1..10", "11"));
    assert!(!accepted("3..7", "100"));
}

#[test]
fn rejects_start_not_below_end() {
    assert!(!accepted("10..1", "5"));
    assert!(!accepted("5..5", "5"));
}

#[test]
fn rejects_malformed_range() {
    assert!(!accepted("", "1"));
    assert!(!accepted("..10", "1"));
    assert!(!accepted("1..", "1"));
    assert!(!accepted("1.10", "1"));
    assert!(!accepted("1...10", "2"));
    assert!(!accepted("a..10", "2"));
    assert!(!accepted("1..10 ", "2"));
    assert!(!accepted(" 1..10", "2"));
    assert!(!accepted("-1..10", "2"));
    assert!(!accepted("1..5..10", "2"));
}

#[test]
fn rejects_malformed_guess() {
    assert!(!accepted("1..10", ""));
    assert!(!accepted("1..10", "5a"));
    assert!(!accepted("1..10", " 5"));
    assert!(!accepted("1..10", "+5"));
    assert!(!accepted("1..10", "5.0"));
}

#[test]
fn rejects_non_ascii_digits() {
    assert!(!accepted("\u{661}..\u{665}", "\u{662}"));
}

#[test]
fn leading_zeros_read_as_numbers() {
    assert!(accepted("007..010", "08"));
    assert!(!accepted("010..007", "8"));
}

#[test]
fn numbers_too_large_are_rejected() {
    let max = usize::MAX.to_string();
    let over = format!("{}0", max);
    assert!(accepted(&format!("0..{}", max), "1"));
    assert!(accepted(&format!("0..{}", max), &max));
    assert!(!accepted(&format!("0..{}", over), "1"));
    assert!(!accepted(&format!("{}..{}", over, over), "1"));
    assert!(!accepted("0..10", &over));
}
