use rshell::parser::Parser;
use rshell::token::{Operator, Quoting, Token};

#[test]
fn test_simple_words() {
    let parser = Parser::new().unwrap();
    let tokens = parser.tokenize("echo hello world");
    assert_eq!(
        tokens,
        vec![
            Token::Word("echo".into(), Quoting::Unquoted),
            Token::Whitespace,
            Token::Word("hello".into(), Quoting::Unquoted),
            Token::Whitespace,
            Token::Word("world".into(), Quoting::Unquoted),
        ]
    );
}

#[test]
fn test_simple_single_quotes() {
    let parser = Parser::new().unwrap();
    let tokens = parser.tokenize("echo 'hello world'");
    assert_eq!(
        tokens,
        vec![
            Token::Word("echo".into(), Quoting::Unquoted),
            Token::Whitespace,
            Token::Word("hello world".into(), Quoting::SingleQuoted),
        ]
    );
}

#[test]
fn test_simple_double_quotes() {
    let parser = Parser::new().unwrap();
    let tokens = parser.tokenize("echo \"hello world\"");
    assert_eq!(
        tokens,
        vec![
            Token::Word("echo".into(), Quoting::Unquoted),
            Token::Whitespace,
            Token::Word("hello world".into(), Quoting::DoubleQuoted),
        ]
    );
}

#[test]
fn test_single_and_double_quotes_with_space() {
    let parser = Parser::new().unwrap();
    let tokens = parser.tokenize("echo 'hello' \"world\"");
    assert_eq!(
        tokens,
        vec![
            Token::Word("echo".into(), Quoting::Unquoted),
            Token::Whitespace,
            Token::Word("hello".into(), Quoting::SingleQuoted),
            Token::Whitespace,
            Token::Word("world".into(), Quoting::DoubleQuoted),
        ]
    );
}

#[test]
fn test_single_and_double_quotes_without_space() {
    let parser = Parser::new().unwrap();
    let tokens = parser.tokenize("echo 'hello'\"world\"");
    assert_eq!(
        tokens,
        vec![
            Token::Word("echo".into(), Quoting::Unquoted),
            Token::Whitespace,
            Token::Word("hello".into(), Quoting::SingleQuoted),
            Token::Word("world".into(), Quoting::DoubleQuoted),
        ]
    );
}

#[test]
fn test_single_and_double_inside_eachother() {
    let parser = Parser::new().unwrap();
    let tokens = parser.tokenize("echo 'he\"llo' \"w'orld\"");
    assert_eq!(
        tokens,
        vec![
            Token::Word("echo".into(), Quoting::Unquoted),
            Token::Whitespace,
            Token::Word("he\"llo".into(), Quoting::SingleQuoted),
            Token::Whitespace,
            Token::Word("w'orld".into(), Quoting::DoubleQuoted),
        ]
    );
}

#[test]
fn test_simple_semicolon() {
    let parser = Parser::new().unwrap();
    let tokens = parser.tokenize("echo hi;");
    assert_eq!(
        tokens,
        vec![
            Token::Word("echo".into(), Quoting::Unquoted),
            Token::Whitespace,
            Token::Word("hi".into(), Quoting::Unquoted),
            Token::Operator(Operator::Semicolon),
        ]
    );
}

#[test]
fn test_simple_and() {
    let parser = Parser::new().unwrap();
    let tokens = parser.tokenize("hello && world");
    assert_eq!(
        tokens,
        vec![
            Token::Word("hello".into(), Quoting::Unquoted),
            Token::Whitespace,
            Token::Operator(Operator::And),
            Token::Whitespace,
            Token::Word("world".into(), Quoting::Unquoted),
        ]
    );
}

#[test]
fn test_multiple_whitespace() {
    let parser = Parser::new().unwrap();
    let tokens = parser.tokenize("echo  hi");
    assert_eq!(
        tokens,
        vec![
            Token::Word("echo".into(), Quoting::Unquoted),
            Token::Whitespace,
            Token::Word("hi".into(), Quoting::Unquoted),
        ]
    );
}

#[test]
fn test_escaping_double_quotes() {
    let parser = Parser::new().unwrap();
    let tokens = parser.tokenize("echo \\\"hi\\\"");
    assert_eq!(
        tokens,
        vec![
            Token::Word("echo".into(), Quoting::Unquoted),
            Token::Whitespace,
            Token::Word("\"hi\"".into(), Quoting::Unquoted),
        ]
    );
}

#[test]
fn test_escaping_backslash() {
    let parser = Parser::new().unwrap();
    let tokens = parser.tokenize("echo \\\\");
    assert_eq!(
        tokens,
        vec![
            Token::Word("echo".into(), Quoting::Unquoted),
            Token::Whitespace,
            Token::Word("\\".into(), Quoting::Unquoted),
        ]
    );
}

#[test]
fn test_escaping_newline() {
    let parser = Parser::new().unwrap();
    let tokens = parser.tokenize("echo \"\\n\"");
    assert_eq!(
        tokens,
        vec![
            Token::Word("echo".into(), Quoting::Unquoted),
            Token::Whitespace,
            Token::Word("\n".into(), Quoting::DoubleQuoted),
        ]
    );
}
