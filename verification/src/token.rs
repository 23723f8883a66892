//! Tokens: what the tokenizer produces and the parser consumes.

use vstd::prelude::*;

verus! {

/// The quoting context a word was written in. It is fixed when the word is
/// produced and decides later whether variables are expanded in it.
#[derive(Debug, Clone, Copy, PartialEq, Eq, Structural)]
pub enum Quoting {
    Unquoted,
    SingleQuoted,
    DoubleQuoted,
}

/// The operators the tokenizer knows. `Or` and `Pipe` are reserved: no input
/// produces them.
#[derive(Debug, Clone, Copy, PartialEq, Eq, Structural)]
pub enum Operator {
    And,
    Or,
    Pipe,
    Background,
    Semicolon,
}

/// One lexical unit of an input line.
#[derive(Debug, Clone, PartialEq, Eq)]
pub enum Token {
    Word(String, Quoting),
    Operator(Operator),
    Whitespace,
}

/// The mathematical value of a [`Token`]: a word's text is a sequence of
/// characters.
pub enum TokenView {
    Word(Seq<char>, Quoting),
    Operator(Operator),
    Whitespace,
}

impl View for Token {
    type V = TokenView;

    open spec fn view(&self) -> TokenView {
        match *self {
            Token::Word(text, quoting) => TokenView::Word(text@, quoting),
            Token::Operator(op) => TokenView::Operator(op),
            Token::Whitespace => TokenView::Whitespace,
        }
    }
}

/// The values of a sequence of tokens, in order.
pub open spec fn token_views(tokens: Seq<Token>) -> Seq<TokenView> {
    tokens.map_values(|t: Token| t@)
}

impl Token {
    /// Whether this token marks a run of whitespace.
    pub fn is_whitespace(&self) -> (b: bool)
        ensures
            b == (self@ == TokenView::Whitespace),
    {
        match self {
            Token::Whitespace => true,
            _ => false,
        }
    }
}

} // verus!
