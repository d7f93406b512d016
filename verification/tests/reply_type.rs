use standard_reply::StandardTypes;
use standard_reply::text::{str_eq, str_eq_ignore_ascii_case};

#[test]
fn parse_type_spec_examples() {
    assert_eq!(Ok(StandardTypes::Fail), StandardTypes::from_str("fail"));
    assert_eq!(Ok(StandardTypes::Warn), StandardTypes::from_str("Warn"));
    assert!(StandardTypes::from_str("bogus").is_err());
}

#[test]
fn is_standard_type_spec_examples() {
    assert!(StandardTypes::is_standard_type("NOTE"));
    assert!(!StandardTypes::is_standard_type("ERROR"));
}

#[test]
fn parse_type_all_variants_any_case() {
    assert_eq!(Ok(StandardTypes::Fail), StandardTypes::from_str("FAIL"));
    assert_eq!(Ok(StandardTypes::Fail), StandardTypes::from_str("fAiL"));
    assert_eq!(Ok(StandardTypes::Warn), StandardTypes::from_str("warn"));
    assert_eq!(Ok(StandardTypes::Note), StandardTypes::from_str("NOTE"));
    assert_eq!(Ok(StandardTypes::Note), StandardTypes::from_str("note"));
}

#[test]
fn parse_type_error_message() {
    assert_eq!(
        Err("Unexpected standard response type, neither fail, warn or note."),
        StandardTypes::from_str("FAILURE")
    );
}

#[test]
fn recognizer_agrees_with_parse() {
    let tokens = [
        "FAIL", "fail", "FaIl", "WARN", "warn", "NOTE", "nOtE", "ERROR", "bogus", "", "FAIL ",
        "AIL", "FAI", "NOTES",
    ];
    for token in tokens {
        assert_eq!(
            StandardTypes::is_standard_type(token),
            StandardTypes::from_str(token).is_ok()
        );
    }
}

#[test]
fn text_equality_helpers() {
    assert!(str_eq("MULTILINE_MAX_BYTES", "MULTILINE_MAX_BYTES"));
    assert!(!str_eq("FAIL", "fail"));
    assert!(!str_eq("FAIL", "FAI"));
    assert!(str_eq("", ""));
    assert!(str_eq_ignore_ascii_case("FAIL", "fail"));
    assert!(str_eq_ignore_ascii_case("FaIl", "fAiL"));
    assert!(!str_eq_ignore_ascii_case("FAIL", "FAI"));
    assert!(!str_eq_ignore_ascii_case("FAIL", "WARN"));
    // Only ASCII letters fold: a non-ASCII case pair stays distinct.
    assert!(!str_eq_ignore_ascii_case("\u{e4}", "\u{c4}"));
}
