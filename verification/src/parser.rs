//! The parser: from tokens to a command.

use vstd::prelude::*;
use regex::Regex;
use crate::command::{command_of, texts, Command};
use crate::environment::Environment;
use crate::expand::{compile, expanded, regex_of, replace_references, VARIABLE_PATTERN};
use crate::lexer::{lex, well_formed};
use crate::token::{token_views, Quoting, Token, TokenView};

verus! {

/// The arguments that a sequence of tokens holds: the texts of its words, in
/// order. A word that was not single-quoted has its variables expanded in
/// `env`; whitespace and operators are left out.
pub open spec fn arguments(tokens: Seq<TokenView>, env: Map<Seq<char>, Seq<char>>) -> Seq<
    Seq<char>,
>
    decreases tokens.len(),
{
    if tokens.len() == 0 {
        Seq::empty()
    } else {
        let before = arguments(tokens.drop_last(), env);
        match tokens.last() {
            TokenView::Word(text, Quoting::SingleQuoted) => before.push(text),
            TokenView::Word(text, _) => before.push(expanded(text, env)),
            _ => before,
        }
    }
}

/// The variable pattern was refused by the regular-expression engine.
#[derive(Debug, Clone, Copy, PartialEq, Eq)]
pub struct InvalidPattern;

/// Turns lines into tokens and tokens into commands.
pub struct Parser {
    variable_regex: Regex,
}

impl Parser {
    #[verifier::type_invariant]
    spec fn holds_variable_pattern(self) -> bool {
        regex_of(VARIABLE_PATTERN@) == Some(self.variable_regex)
    }

    /// A parser, unless the engine refuses [`VARIABLE_PATTERN`].
    pub fn new() -> (parser: Result<Parser, InvalidPattern>)
        ensures
            parser is Ok <==> regex_of(VARIABLE_PATTERN@) is Some,
    {
        match compile(VARIABLE_PATTERN) {
            Ok(variable_regex) => Ok(Parser { variable_regex }),
            Err(_) => Err(InvalidPattern),
        }
    }

    /// Splits a line into tokens.
    pub fn tokenize(&self, input: &str) -> (tokens: Vec<Token>)
        ensures
            token_views(tokens@) == lex(input@),
            well_formed(token_views(tokens@)),
    {
        crate::lexer::tokenize(input)
    }

    /// `word` with its variable references expanded in `env`.
    pub fn expand(&self, word: &str, env: &Environment) -> (out: String)
        ensures
            out@ == expanded(word@, env@),
    {
        proof {
            use_type_invariant(self);
        }
        replace_references(&self.variable_regex, word, env)
    }

    /// The command that `tokens` stand for: none where they hold no word,
    /// else the one that their arguments name.
    pub fn parse(&self, tokens: Vec<Token>, env: &Environment) -> (command: Option<Command>)
        ensures
            command is None <==> arguments(token_views(tokens@), env@).len() == 0,
            match command {
                Some(c) => command_of(arguments(token_views(tokens@), env@)) == Some(c@),
                None => command_of(arguments(token_views(tokens@), env@)) is None,
            },
    {
        let ghost views = token_views(tokens@);
        let mut args: Vec<String> = Vec::new();
        let n = tokens.len();
        let mut i: usize = 0;
        while i < n
            invariant
                n == tokens@.len(),
                i <= n,
                views == token_views(tokens@),
                texts(args@) == arguments(views.take(i as int), env@),
            decreases n - i,
        {
            proof {
                assert(views.take(i + 1).drop_last() =~= views.take(i as int));
                assert(views.take(i + 1).last() == tokens@[i as int]@);
            }
            let ghost before = args@;
            match &tokens[i] {
                Token::Word(word, Quoting::SingleQuoted) => {
                    let arg = word.clone();
                    args.push(arg);
                    assert(texts(args@) =~= texts(before).push(arg@));
                },
                Token::Word(word, _) => {
                    let arg = self.expand(word.as_str(), env);
                    args.push(arg);
                    assert(texts(args@) =~= texts(before).push(arg@));
                },
                _ => {},
            }
            i += 1;
        }
        proof {
            assert(views.take(n as int) =~= views);
        }
        Command::classify(args)
    }
}

} // verus!
