use langs::text::decimal_string;
use langs::text::pad_left;
use langs::text::pad_right;
use langs::text::spaces;
use langs::text::str_eq;

#[test]
fn string_equality_is_character_exact() {
    assert!(str_eq("", ""));
    assert!(str_eq("rs", "rs"));
    assert!(!str_eq("rs", "Rs"));
    assert!(!str_eq("rs", "r"));
    assert!(!str_eq("r", "rs"));
    assert!(str_eq("C++", "C++"));
}

#[test]
fn spaces_have_the_requested_length() {
    assert_eq!(spaces(0), "");
    assert_eq!(spaces(1), " ");
    assert_eq!(spaces(4), "    ");
}

#[test]
fn padding_left_justifies_and_right_justifies() {
    assert_eq!(pad_right("ab", 5), "ab   ");
    assert_eq!(pad_right("abcde", 5), "abcde");
    assert_eq!(pad_right("abcdef", 5), "abcdef");
    assert_eq!(pad_right("", 3), "   ");
    assert_eq!(pad_left("42", 5), "   42");
    assert_eq!(pad_left("12345", 5), "12345");
    assert_eq!(pad_left("123456", 5), "123456");
    assert_eq!(pad_left("", 2), "  ");
}

#[test]
fn decimal_rendering_matches_the_usual_numerals() {
    assert_eq!(decimal_string(0), "0");
    assert_eq!(decimal_string(7), "7");
    assert_eq!(decimal_string(10), "10");
    assert_eq!(decimal_string(105), "105");
    assert_eq!(decimal_string(90210), "90210");
    assert_eq!(decimal_string(usize::MAX), usize::MAX.to_string());
}
