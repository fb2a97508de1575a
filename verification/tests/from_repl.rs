use stepson::from_repl::{parse_u8, FromRepl, ParseError};

/// The words of a line, as the stack `from_repl` expects: reversed, so the
/// first word of the line is popped first.
fn stack_of(line_words: &[&str]) -> Vec<String> {
    line_words.iter().rev().map(|w| w.to_string()).collect()
}

#[test]
fn parse_u8_decimal() {
    assert_eq!(parse_u8("0"), Ok(0));
    assert_eq!(parse_u8("7"), Ok(7));
    assert_eq!(parse_u8("104"), Ok(104));
    assert_eq!(parse_u8("255"), Ok(255));
}

#[test]
fn parse_u8_plus_sign() {
    assert_eq!(parse_u8("+17"), Ok(17));
    assert_eq!(parse_u8("+0"), Ok(0));
}

#[test]
fn parse_u8_rejects_out_of_range() {
    assert_eq!(parse_u8("256"), Err(ParseError::InvalidInt));
    assert_eq!(parse_u8("999999999999999999"), Err(ParseError::InvalidInt));
}

#[test]
fn parse_u8_rejects_malformed() {
    assert_eq!(parse_u8(""), Err(ParseError::InvalidInt));
    assert_eq!(parse_u8("+"), Err(ParseError::InvalidInt));
    assert_eq!(parse_u8("12a"), Err(ParseError::InvalidInt));
    assert_eq!(parse_u8("-1"), Err(ParseError::InvalidInt));
    assert_eq!(parse_u8(" 3"), Err(ParseError::InvalidInt));
}

#[test]
fn byte_from_words() {
    let mut words = stack_of(&["42"]);
    assert_eq!(u8::from_repl(&mut words), Ok(42));
    assert!(words.is_empty());

    let mut none = stack_of(&[]);
    assert_eq!(u8::from_repl(&mut none), Err(ParseError::ExpectedArgument));
}

#[test]
fn byte_string_from_words() {
    let mut words = stack_of(&["1", "2", "250"]);
    assert_eq!(Vec::<u8>::from_repl(&mut words), Ok(vec![1, 2, 250]));

    let mut empty = stack_of(&[]);
    assert_eq!(Vec::<u8>::from_repl(&mut empty), Ok(vec![]));

    let mut bad = stack_of(&["1", "x", "3"]);
    assert_eq!(Vec::<u8>::from_repl(&mut bad), Err(ParseError::InvalidInt));
}
