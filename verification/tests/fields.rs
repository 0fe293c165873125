use horizons::numbers::is_number;
use horizons::{take_expecting, take_or_empty, trim};

#[test]
fn take_expecting_strips_the_tag() {
    assert_eq!(Some("  1.5E+00 rest"), take_expecting(" X =  1.5E+00 rest", " X ="));
    assert_eq!(Some(""), take_expecting(" X =", " X ="));
}

#[test]
fn take_expecting_rejects_a_missing_tag() {
    assert_eq!(None, take_expecting(" Y =  1.5E+00", " X ="));
    assert_eq!(None, take_expecting(" X", " X ="));
    assert_eq!(None, take_expecting("", " X ="));
}

#[test]
fn take_or_empty_splits_at_the_field_width() {
    assert_eq!(("abcd", "ef"), take_or_empty("abcdef", 4));
    assert_eq!(("abcdef", ""), take_or_empty("abcdef", 6));
}

#[test]
fn take_or_empty_keeps_a_short_line_whole() {
    assert_eq!(("abc", ""), take_or_empty("abc", 4));
    assert_eq!(("", ""), take_or_empty("", 1));
}

#[test]
fn trim_removes_the_field_padding() {
    assert_eq!("1.870010427985840E+02", trim("  1.870010427985840E+02 "));
    assert_eq!("-5.0E-03", trim("-5.0E-03"));
    assert_eq!("", trim("      "));
    assert_eq!("", trim(""));
    assert_eq!("a b", trim("\t a b \r\n"));
}

#[test]
fn numbers_in_decimal_and_scientific_notation_are_accepted() {
    for good in [
        "0", "7", "-7", "+7", "1.5", "-1.5", "1.", ".5", "-.5", "1E5", "1e5", "1.5E+03",
        "-3.362664133558439E-01", "1.344100266143978e-02", "12345.6789E+00",
    ] {
        assert!(is_number(good), "{} should be accepted", good);
    }
}

#[test]
fn text_outside_the_number_grammar_is_rejected() {
    for bad in [
        "", " ", ".", "+", "-", "e5", "1.5.2", "1,5", "1.5E", "1.5E+", "1.5E+0.3", "1.5 E+03",
        "abc", "n/a", "1.5X", "--1", "1e5e5", "inf", "NaN",
    ] {
        assert!(!is_number(bad), "{} should be rejected", bad);
    }
}
