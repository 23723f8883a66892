use rshell::lexer::tokenize;
use rshell::text::char_is_whitespace;
use rshell::token::{Operator, Quoting, Token};

fn word(text: &str) -> Token {
    Token::Word(text.to_string(), Quoting::Unquoted)
}

fn single(text: &str) -> Token {
    Token::Word(text.to_string(), Quoting::SingleQuoted)
}

fn double(text: &str) -> Token {
    Token::Word(text.to_string(), Quoting::DoubleQuoted)
}

#[test]
fn empty_line_has_no_tokens() {
    assert_eq!(tokenize(""), vec![]);
}

#[test]
fn blank_line_is_one_whitespace_token() {
    assert_eq!(tokenize("  \t \n"), vec![Token::Whitespace]);
}

#[test]
fn line_with_newline_ends_in_whitespace() {
    assert_eq!(tokenize("ls\n"), vec![word("ls"), Token::Whitespace]);
}

#[test]
fn leading_whitespace_is_marked_once() {
    assert_eq!(tokenize("   ls"), vec![Token::Whitespace, word("ls")]);
}

#[test]
fn unterminated_single_quote_drops_the_rest() {
    assert_eq!(tokenize("echo 'abc def"), vec![word("echo"), Token::Whitespace]);
}

#[test]
fn unterminated_double_quote_drops_the_rest() {
    assert_eq!(tokenize("echo \"abc"), vec![word("echo"), Token::Whitespace]);
}

#[test]
fn word_before_unterminated_quote_is_kept() {
    assert_eq!(tokenize("ab'cd"), vec![word("ab")]);
}

#[test]
fn trailing_backslash_is_dropped() {
    assert_eq!(tokenize("echo abc\\"), vec![word("echo"), Token::Whitespace, word("abc")]);
}

#[test]
fn lone_backslash_gives_nothing() {
    assert_eq!(tokenize("\\"), vec![]);
}

#[test]
fn escapes_become_control_characters() {
    assert_eq!(tokenize("a\\tb\\rc\\0d\\ne"), vec![word("a\tb\rc\0d\ne")]);
}

#[test]
fn other_escaped_characters_are_taken_as_they_are() {
    assert_eq!(tokenize("a\\;b\\&c\\'d\\xe"), vec![word("a;b&c'dxe")]);
}

#[test]
fn escapes_work_inside_single_quotes() {
    assert_eq!(tokenize("'a\\nb'"), vec![single("a\nb")]);
}

#[test]
fn escaped_quote_does_not_close_the_quote() {
    assert_eq!(tokenize("'a\\'b'"), vec![single("a'b")]);
}

#[test]
fn escaped_space_after_text_stays_in_the_word() {
    assert_eq!(tokenize("a\\ b"), vec![word("a b")]);
}

#[test]
fn escaped_space_before_text_is_forgotten() {
    assert_eq!(tokenize("\\ a"), vec![word("a")]);
}

#[test]
fn escaped_whitespace_alone_is_no_word() {
    assert_eq!(tokenize("\\n\\t"), vec![]);
}

#[test]
fn single_ampersand_is_background() {
    assert_eq!(
        tokenize("sleep 1 &"),
        vec![
            word("sleep"),
            Token::Whitespace,
            word("1"),
            Token::Whitespace,
            Token::Operator(Operator::Background),
        ]
    );
}

#[test]
fn ampersand_ends_a_word() {
    assert_eq!(tokenize("a&b"), vec![word("a"), Token::Operator(Operator::Background), word("b")]);
}

#[test]
fn double_ampersand_without_spaces() {
    assert_eq!(tokenize("a&&b"), vec![word("a"), Token::Operator(Operator::And), word("b")]);
}

#[test]
fn three_ampersands_are_and_then_background() {
    assert_eq!(
        tokenize("&&&"),
        vec![Token::Operator(Operator::And), Token::Operator(Operator::Background)]
    );
}

#[test]
fn semicolon_between_words() {
    assert_eq!(tokenize("a;b"), vec![word("a"), Token::Operator(Operator::Semicolon), word("b")]);
}

#[test]
fn operators_inside_quotes_are_text() {
    assert_eq!(tokenize("'a;b&&c'"), vec![single("a;b&&c")]);
    assert_eq!(tokenize("\"a;b&c\""), vec![double("a;b&c")]);
}

#[test]
fn pipe_is_ordinary_text() {
    assert_eq!(tokenize("a|b || c"), vec![word("a|b"), Token::Whitespace, word("||"), Token::Whitespace, word("c")]);
}

#[test]
fn empty_quotes_give_no_word() {
    assert_eq!(tokenize("''"), vec![]);
    assert_eq!(tokenize("a '' b"), vec![word("a"), Token::Whitespace, word("b")]);
}

#[test]
fn quoted_blank_text_is_a_word() {
    assert_eq!(tokenize("'  '"), vec![single("  ")]);
    assert_eq!(tokenize("\" \""), vec![double(" ")]);
}

#[test]
fn text_before_a_quote_is_its_own_word() {
    assert_eq!(tokenize("ab'cd'ef"), vec![word("ab"), single("cd"), word("ef")]);
}

#[test]
fn whitespace_runs_collapse() {
    assert_eq!(tokenize("a \t  b"), vec![word("a"), Token::Whitespace, word("b")]);
}

#[test]
fn non_ascii_whitespace_separates_words() {
    assert_eq!(tokenize("a\u{a0}b\u{3000}c"), vec![word("a"), Token::Whitespace, word("b"), Token::Whitespace, word("c")]);
}

#[test]
fn non_ascii_text_is_kept() {
    assert_eq!(tokenize("héllo 'wörld'"), vec![word("héllo"), Token::Whitespace, single("wörld")]);
}

#[test]
fn whitespace_class_is_the_standard_one() {
    let mut code: u32 = 0;
    while code <= 0x10FFFF {
        if let Some(c) = char::from_u32(code) {
            assert_eq!(char_is_whitespace(c), c.is_whitespace(), "U+{:04X}", code);
        }
        code += 1;
    }
}

fn check_well_formed(line: &str) {
    let tokens = tokenize(line);
    for pair in tokens.windows(2) {
        assert!(!(pair[0] == Token::Whitespace && pair[1] == Token::Whitespace));
    }
    for token in tokens.iter() {
        match token {
            Token::Word(text, quoting) => {
                assert!(!text.is_empty());
                if *quoting == Quoting::Unquoted {
                    assert!(!text.trim().is_empty());
                }
            }
            Token::Operator(op) => {
                assert_ne!(*op, Operator::Or);
                assert_ne!(*op, Operator::Pipe);
            }
            Token::Whitespace => {}
        }
    }
}

#[test]
fn tokens_are_well_formed() {
    check_well_formed("a   b \\  c ;  ; && & 'x  y' \" \" \\n \\t | || end");
    check_well_formed("  ' ' ' '  \\ \\  \"\"  ");
    check_well_formed("'unterminated   ");
    check_well_formed("a\\\n b");
}
