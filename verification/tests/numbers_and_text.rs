use gossip::decimal::{parse_usize, to_decimal};
use gossip::text::{contains, join, labelled};

#[test]
fn decimal_of_zero_and_others() {
    assert_eq!(to_decimal(0), "0");
    assert_eq!(to_decimal(7), "7");
    assert_eq!(to_decimal(10), "10");
    assert_eq!(to_decimal(12345), "12345");
    assert_eq!(to_decimal(usize::MAX), usize::MAX.to_string());
}

#[test]
fn parse_accepts_plain_and_plus_signed_numbers() {
    assert_eq!(parse_usize("0"), Some(0));
    assert_eq!(parse_usize("42"), Some(42));
    assert_eq!(parse_usize("+7"), Some(7));
    assert_eq!(parse_usize("007"), Some(7));
    assert_eq!(parse_usize(&usize::MAX.to_string()), Some(usize::MAX));
}

#[test]
fn parse_rejects_what_std_rejects() {
    for text in ["", "+", "-1", "12a", " 5", "5 ", "++1", "1.0", "٣"] {
        assert_eq!(parse_usize(text), None, "{text:?}");
        assert!(text.parse::<usize>().is_err());
    }
    let too_big = format!("{}0", usize::MAX);
    assert_eq!(parse_usize(&too_big), None);
}

#[test]
fn parse_agrees_with_std_on_samples() {
    for text in ["1", "29", "+29", "0029", "18446744073709551615", "18446744073709551616", "x", "-0"] {
        assert_eq!(parse_usize(text), text.parse::<usize>().ok(), "{text:?}");
    }
}

#[test]
fn decimal_round_trip_scenario() {
    for n in [0usize, 1, 9, 10, 99, 100, 65535, 123456789] {
        assert_eq!(parse_usize(&to_decimal(n)), Some(n));
    }
}

#[test]
fn contains_finds_substrings() {
    assert!(contains("no such table: local_settings", "no such table"));
    assert!(contains("error: no such table", "no such table"));
    assert!(!contains("no such column: x", "no such table"));
    assert!(contains("anything", ""));
    assert!(!contains("", "a"));
    assert!(!contains("no such tabl", "no such table"));
}

#[test]
fn join_puts_separator_between_parts() {
    assert_eq!(join(&vec![], ", "), "");
    assert_eq!(join(&vec!["a"], ", "), "a");
    assert_eq!(join(&vec!["a", "b", "c"], ", "), "a, b, c");
}

#[test]
fn labelled_falls_back_to_question_mark() {
    assert_eq!(labelled("Last event: ", Some("5 minutes ago")), "Last event: 5 minutes ago");
    assert_eq!(labelled("Last event: ", None), "Last event: ?");
}
