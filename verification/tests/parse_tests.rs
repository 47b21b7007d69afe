use tictactoe::parse::ParseError;
use tictactoe::parse::Position;
use tictactoe::parse::is_string_numeric;
use tictactoe::parse::parse_index;
use tictactoe::parse::parse_position;

#[test]
fn numeric_strings_are_recognised() {
    assert!(is_string_numeric("0"));
    assert!(is_string_numeric("123"));
    assert!(is_string_numeric("002"));
    assert!(!is_string_numeric("12a"));
    assert!(!is_string_numeric("a"));
    assert!(!is_string_numeric("1,2"));
    assert!(!is_string_numeric("-1"));
}

#[test]
fn empty_string_counts_as_numeric() {
    assert!(is_string_numeric(""));
}

#[test]
fn valid_indices_parse() {
    assert_eq!(parse_index("0"), Some(0));
    assert_eq!(parse_index("1"), Some(1));
    assert_eq!(parse_index("2"), Some(2));
    assert_eq!(parse_index("02"), Some(2));
}

#[test]
fn invalid_indices_are_rejected() {
    assert_eq!(parse_index(""), None);
    assert_eq!(parse_index("3"), None);
    assert_eq!(parse_index("10"), None);
    assert_eq!(parse_index("a"), None);
    assert_eq!(parse_index("1a"), None);
    assert_eq!(parse_index("-1"), None);
    assert_eq!(parse_index("99999999999999999999"), None);
}

#[test]
fn well_formed_position_parses() {
    assert_eq!(parse_position("1,2"), Ok(Position { row: 1, column: 2 }));
    assert_eq!(parse_position("0,0"), Ok(Position { row: 0, column: 0 }));
    assert_eq!(parse_position("2,1"), Ok(Position { row: 2, column: 1 }));
}

#[test]
fn out_of_range_position_is_rejected() {
    assert_eq!(parse_position("3,0"), Err(ParseError::InvalidIndex));
    assert_eq!(parse_position("0,3"), Err(ParseError::InvalidIndex));
}

#[test]
fn non_numeric_component_is_rejected() {
    assert_eq!(parse_position("a,1"), Err(ParseError::InvalidIndex));
    assert_eq!(parse_position("1,b"), Err(ParseError::InvalidIndex));
    assert_eq!(parse_position(","), Err(ParseError::InvalidIndex));
}

#[test]
fn missing_separator_is_rejected() {
    assert_eq!(parse_position("1"), Err(ParseError::MissingSeparator));
    assert_eq!(parse_position(""), Err(ParseError::MissingSeparator));
    assert_eq!(parse_position("12"), Err(ParseError::MissingSeparator));
}

#[test]
fn split_happens_at_the_first_comma() {
    assert_eq!(parse_position("1,2,0"), Err(ParseError::InvalidIndex));
}
