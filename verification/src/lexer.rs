//! The tokenizer: a quoting and escaping state machine that turns a line of
//! text into tokens.
//!
//! The model is [`lex`]: the machine [`LexState`] started on the line, stepped
//! once per character (twice consumed for `&&` and for an escape), and
//! finished. [`tokenize`] computes exactly that.

use vstd::prelude::*;
use crate::text::{char_is_whitespace, chars_of, is_blank, is_whitespace, lemma_blank_push};
use crate::token::{token_views, Operator, Quoting, Token, TokenView};

verus! {

/// What a backslash turns the character after it into.
pub open spec fn unescape(c: char) -> char {
    if c == 'n' {
        '\n'
    } else if c == 't' {
        '\t'
    } else if c == 'r' {
        '\r'
    } else if c == '0' {
        '\0'
    } else {
        c
    }
}

/// The tokenizer's state between two characters.
pub struct LexState {
    /// Inside `'...'`.
    pub single_quoted: bool,
    /// Inside `"..."`.
    pub double_quoted: bool,
    /// The text of the word being read.
    pub current: Seq<char>,
    /// The tokens produced so far.
    pub tokens: Seq<TokenView>,
}

impl LexState {
    /// The state before the first character.
    pub open spec fn start() -> LexState {
        LexState {
            single_quoted: false,
            double_quoted: false,
            current: Seq::empty(),
            tokens: Seq::empty(),
        }
    }

    pub open spec fn quoted(self) -> bool {
        self.single_quoted || self.double_quoted
    }

    /// Outside quotes, accumulated text that is blank is forgotten before the
    /// next character is looked at.
    pub open spec fn settle(self) -> LexState {
        if !self.quoted() && is_blank(self.current) {
            LexState { current: Seq::empty(), ..self }
        } else {
            self
        }
    }

    /// Ends the word being read outside quotes: text that is not blank becomes
    /// an unquoted word.
    pub open spec fn flush_unquoted(self) -> LexState {
        LexState {
            current: Seq::empty(),
            tokens: if is_blank(self.current) {
                self.tokens
            } else {
                self.tokens.push(TokenView::Word(self.current, Quoting::Unquoted))
            },
            ..self
        }
    }

    /// Ends the word being read at a quote character: text that is not empty
    /// becomes a word with the given quoting.
    pub open spec fn flush_at_quote(self, quoting: Quoting) -> LexState {
        LexState {
            current: Seq::empty(),
            tokens: if self.current.len() == 0 {
                self.tokens
            } else {
                self.tokens.push(TokenView::Word(self.current, quoting))
            },
            ..self
        }
    }

    /// Marks a run of whitespace, unless the last token already does.
    pub open spec fn separate(self) -> LexState {
        if self.tokens.len() > 0 && self.tokens.last() == TokenView::Whitespace {
            self
        } else {
            LexState { tokens: self.tokens.push(TokenView::Whitespace), ..self }
        }
    }

    pub open spec fn emit(self, op: Operator) -> LexState {
        LexState { tokens: self.tokens.push(TokenView::Operator(op)), ..self }
    }

    pub open spec fn append(self, c: char) -> LexState {
        LexState { current: self.current.push(c), ..self }
    }

    /// The state after the character at `i`, and the index of the next
    /// character to look at.
    pub open spec fn step(self, line: Seq<char>, i: int) -> (LexState, int)
        recommends
            0 <= i < line.len(),
    {
        let st = self.settle();
        let c = line[i];
        if is_whitespace(c) && !st.quoted() {
            (st.flush_unquoted().separate(), i + 1)
        } else if c == '\'' && !st.double_quoted {
            let quoting = if st.single_quoted {
                Quoting::SingleQuoted
            } else {
                Quoting::Unquoted
            };
            (LexState { single_quoted: !st.single_quoted, ..st.flush_at_quote(quoting) }, i + 1)
        } else if c == '"' && !st.single_quoted {
            let quoting = if st.double_quoted {
                Quoting::DoubleQuoted
            } else {
                Quoting::Unquoted
            };
            (LexState { double_quoted: !st.double_quoted, ..st.flush_at_quote(quoting) }, i + 1)
        } else if c == '&' && !st.quoted() {
            if i + 1 < line.len() && line[i + 1] == '&' {
                (st.flush_unquoted().emit(Operator::And), i + 2)
            } else {
                (st.flush_unquoted().emit(Operator::Background), i + 1)
            }
        } else if c == ';' && !st.quoted() {
            (st.flush_unquoted().emit(Operator::Semicolon), i + 1)
        } else if c == '\\' {
            if i + 1 < line.len() {
                (st.append(unescape(line[i + 1])), i + 2)
            } else {
                (st, i + 1)
            }
        } else {
            (st.append(c), i + 1)
        }
    }

    /// The state at the end of the line, when the machine is at `i` in this
    /// state.
    pub open spec fn run(self, line: Seq<char>, i: int) -> LexState
        decreases line.len() - i,
    {
        if 0 <= i < line.len() {
            let (next, j) = self.step(line, i);
            next.run(line, j)
        } else {
            self
        }
    }

    /// The tokens of the line, once its end is reached. Text left inside an
    /// open quote is dropped; other text that is not blank is a last unquoted
    /// word.
    pub open spec fn finish(self) -> Seq<TokenView> {
        if !is_blank(self.current) && !self.quoted() {
            self.tokens.push(TokenView::Word(self.current, Quoting::Unquoted))
        } else {
            self.tokens
        }
    }
}

/// The tokens of a line.
pub open spec fn lex(line: Seq<char>) -> Seq<TokenView> {
    LexState::start().run(line, 0).finish()
}

/// What holds of the tokens of every line: no two whitespace markers stand
/// side by side, the reserved operators do not occur, no word is empty, and an
/// unquoted word is not blank.
pub open spec fn well_formed(tokens: Seq<TokenView>) -> bool {
    &&& forall|i: int|
        0 <= i < tokens.len() - 1 ==> !(#[trigger] tokens[i] == TokenView::Whitespace && tokens[i
            + 1] == TokenView::Whitespace)
    &&& forall|i: int|
        0 <= i < tokens.len() ==> #[trigger] tokens[i] != TokenView::Operator(Operator::Or)
            && tokens[i] != TokenView::Operator(Operator::Pipe)
    &&& forall|i: int|
        0 <= i < tokens.len() ==> (#[trigger] tokens[i] matches TokenView::Word(text, quoting)
            ==> text.len() > 0 && (quoting == Quoting::Unquoted ==> !is_blank(text)))
}

/// A token that may follow well-formed tokens.
spec fn may_follow(tokens: Seq<TokenView>, t: TokenView) -> bool {
    &&& t == TokenView::Whitespace ==> tokens.len() == 0 || tokens.last() != TokenView::Whitespace
    &&& t != TokenView::Operator(Operator::Or)
    &&& t != TokenView::Operator(Operator::Pipe)
    &&& t matches TokenView::Word(text, quoting) ==> text.len() > 0 && (quoting
        == Quoting::Unquoted ==> !is_blank(text))
}

proof fn lemma_push_well_formed(tokens: Seq<TokenView>, t: TokenView)
    requires
        well_formed(tokens),
        may_follow(tokens, t),
    ensures
        well_formed(tokens.push(t)),
{
    let longer = tokens.push(t);
    assert forall|i: int| 0 <= i < longer.len() - 1 implies !(#[trigger] longer[i]
        == TokenView::Whitespace && longer[i + 1] == TokenView::Whitespace) by {
        if i < tokens.len() - 1 {
            assert(longer[i] == tokens[i] && longer[i + 1] == tokens[i + 1]);
        }
    }
    assert forall|i: int| 0 <= i < longer.len() implies #[trigger] longer[i]
        != TokenView::Operator(Operator::Or) && longer[i] != TokenView::Operator(
        Operator::Pipe,
    ) by {
        if i < tokens.len() {
            assert(longer[i] == tokens[i]);
        }
    }
    assert forall|i: int| 0 <= i < longer.len() implies (#[trigger] longer[i] matches TokenView::Word(
        text,
        quoting,
    ) ==> text.len() > 0 && (quoting == Quoting::Unquoted ==> !is_blank(text))) by {
        if i < tokens.len() {
            assert(longer[i] == tokens[i]);
        }
    }
}

/// One step keeps the tokens well formed and moves forward, within the line.
proof fn lemma_step_well_formed(st: LexState, line: Seq<char>, i: int)
    requires
        well_formed(st.tokens),
        0 <= i < line.len(),
    ensures
        well_formed(st.step(line, i).0.tokens),
        i < st.step(line, i).1 <= line.len(),
{
    let s = st.settle();
    let c = line[i];
    if is_whitespace(c) && !s.quoted() {
        let f = s.flush_unquoted();
        if !is_blank(s.current) {
            lemma_push_well_formed(s.tokens, TokenView::Word(s.current, Quoting::Unquoted));
        }
        if !(f.tokens.len() > 0 && f.tokens.last() == TokenView::Whitespace) {
            lemma_push_well_formed(f.tokens, TokenView::Whitespace);
        }
    } else if c == '\'' && !s.double_quoted {
        if s.current.len() > 0 {
            let quoting = if s.single_quoted {
                Quoting::SingleQuoted
            } else {
                Quoting::Unquoted
            };
            lemma_push_well_formed(s.tokens, TokenView::Word(s.current, quoting));
        }
    } else if c == '"' && !s.single_quoted {
        if s.current.len() > 0 {
            let quoting = if s.double_quoted {
                Quoting::DoubleQuoted
            } else {
                Quoting::Unquoted
            };
            lemma_push_well_formed(s.tokens, TokenView::Word(s.current, quoting));
        }
    } else if (c == '&' || c == ';') && !s.quoted() {
        let f = s.flush_unquoted();
        if !is_blank(s.current) {
            lemma_push_well_formed(s.tokens, TokenView::Word(s.current, Quoting::Unquoted));
        }
        lemma_push_well_formed(f.tokens, TokenView::Operator(Operator::And));
        lemma_push_well_formed(f.tokens, TokenView::Operator(Operator::Background));
        lemma_push_well_formed(f.tokens, TokenView::Operator(Operator::Semicolon));
    }
}

proof fn lemma_run_well_formed(st: LexState, line: Seq<char>, i: int)
    requires
        well_formed(st.tokens),
        0 <= i <= line.len(),
    ensures
        well_formed(st.run(line, i).tokens),
    decreases line.len() - i,
{
    if i < line.len() {
        lemma_step_well_formed(st, line, i);
        let (next, j) = st.step(line, i);
        lemma_run_well_formed(next, line, j);
    }
}

/// The tokens of every line are well formed.
pub proof fn lemma_lex_well_formed(line: Seq<char>)
    ensures
        well_formed(lex(line)),
{
    let end = LexState::start().run(line, 0);
    lemma_run_well_formed(LexState::start(), line, 0);
    if !is_blank(end.current) && !end.quoted() {
        assert(end.current.len() > 0);
        lemma_push_well_formed(end.tokens, TokenView::Word(end.current, Quoting::Unquoted));
    }
}

/// Appending a token appends its value to the values.
proof fn lemma_views_push(tokens: Seq<Token>, t: Token)
    ensures
        token_views(tokens.push(t)) == token_views(tokens).push(t@),
{
    assert(token_views(tokens.push(t)) =~= token_views(tokens).push(t@));
}

/// The executable tokenizer state. `blank` caches whether `current` is blank.
struct Lexer {
    single_quoted: bool,
    double_quoted: bool,
    current: String,
    blank: bool,
    tokens: Vec<Token>,
}

impl View for Lexer {
    type V = LexState;

    closed spec fn view(&self) -> LexState {
        LexState {
            single_quoted: self.single_quoted,
            double_quoted: self.double_quoted,
            current: self.current@,
            tokens: token_views(self.tokens@),
        }
    }
}

impl Lexer {
    spec fn wf(&self) -> bool {
        self.blank == is_blank(self.current@)
    }

    fn new() -> (lexer: Lexer)
        ensures
            lexer.wf(),
            lexer@ == LexState::start(),
    {
        let lexer = Lexer {
            single_quoted: false,
            double_quoted: false,
            current: String::new(),
            blank: true,
            tokens: Vec::new(),
        };
        assert(token_views(lexer.tokens@) =~= Seq::empty());
        lexer
    }

    fn quoted(&self) -> (b: bool)
        ensures
            b == self@.quoted(),
    {
        self.single_quoted || self.double_quoted
    }

    /// Takes the text of the word being read, leaving it empty.
    fn take_current(&mut self) -> (text: String)
        ensures
            text@ == old(self)@.current,
            final(self)@ == (LexState { current: Seq::empty(), ..old(self)@ }),
            final(self).wf(),
    {
        let mut text = String::new();
        std::mem::swap(&mut self.current, &mut text);
        self.blank = true;
        text
    }

    fn push_token(&mut self, t: Token)
        requires
            old(self).wf(),
        ensures
            final(self).wf(),
            final(self)@ == (LexState { tokens: old(self)@.tokens.push(t@), ..old(self)@ }),
    {
        proof {
            lemma_views_push(self.tokens@, t);
        }
        self.tokens.push(t);
    }

    fn settle(&mut self)
        requires
            old(self).wf(),
        ensures
            final(self).wf(),
            final(self)@ == old(self)@.settle(),
    {
        if !self.quoted() && self.blank {
            let _ = self.take_current();
        }
    }

    fn flush_unquoted(&mut self)
        requires
            old(self).wf(),
        ensures
            final(self).wf(),
            final(self)@ == old(self)@.flush_unquoted(),
    {
        let was_blank = self.blank;
        let text = self.take_current();
        if !was_blank {
            self.push_token(Token::Word(text, Quoting::Unquoted));
        }
    }

    fn flush_at_quote(&mut self, quoting: Quoting)
        requires
            old(self).wf(),
        ensures
            final(self).wf(),
            final(self)@ == old(self)@.flush_at_quote(quoting),
    {
        let text = self.take_current();
        if !text.as_str().is_empty() {
            self.push_token(Token::Word(text, quoting));
        }
    }

    fn separate(&mut self)
        requires
            old(self).wf(),
        ensures
            final(self).wf(),
            final(self)@ == old(self)@.separate(),
    {
        let n = self.tokens.len();
        let marked = n > 0 && self.tokens[n - 1].is_whitespace();
        if !marked {
            self.push_token(Token::Whitespace);
        }
    }

    fn append(&mut self, c: char)
        requires
            old(self).wf(),
        ensures
            final(self).wf(),
            final(self)@ == old(self)@.append(c),
    {
        proof {
            lemma_blank_push(self.current@, c);
        }
        self.blank = self.blank && char_is_whitespace(c);
        self.current.push(c);
    }

    fn finish(self) -> (tokens: Vec<Token>)
        requires
            self.wf(),
        ensures
            token_views(tokens@) == self@.finish(),
    {
        let mut lexer = self;
        if !lexer.blank && !lexer.quoted() {
            let text = lexer.take_current();
            lexer.push_token(Token::Word(text, Quoting::Unquoted));
        }
        lexer.tokens
    }
}

/// Decides [`unescape`].
fn unescape_char(c: char) -> (r: char)
    ensures
        r == unescape(c),
{
    if c == 'n' {
        '\n'
    } else if c == 't' {
        '\t'
    } else if c == 'r' {
        '\r'
    } else if c == '0' {
        '\0'
    } else {
        c
    }
}

/// Splits a line into tokens. Every line has a tokenization: malformed input
/// is not an error, text inside a quote that is never closed is dropped.
pub fn tokenize(input: &str) -> (tokens: Vec<Token>)
    ensures
        token_views(tokens@) == lex(input@),
        well_formed(token_views(tokens@)),
{
    proof {
        lemma_lex_well_formed(input@);
    }
    let line = chars_of(input);
    let n = line.len();
    let mut lexer = Lexer::new();
    let mut i: usize = 0;
    while i < n
        invariant
            n == line@.len(),
            i <= n,
            lexer.wf(),
            lexer@.run(line@, i as int) == LexState::start().run(line@, 0),
        decreases n - i,
    {
        lexer.settle();
        let c = line[i];
        if char_is_whitespace(c) && !lexer.quoted() {
            lexer.flush_unquoted();
            lexer.separate();
            i += 1;
        } else if c == '\'' && !lexer.double_quoted {
            let quoting = if lexer.single_quoted {
                Quoting::SingleQuoted
            } else {
                Quoting::Unquoted
            };
            lexer.flush_at_quote(quoting);
            lexer.single_quoted = !lexer.single_quoted;
            i += 1;
        } else if c == '"' && !lexer.single_quoted {
            let quoting = if lexer.double_quoted {
                Quoting::DoubleQuoted
            } else {
                Quoting::Unquoted
            };
            lexer.flush_at_quote(quoting);
            lexer.double_quoted = !lexer.double_quoted;
            i += 1;
        } else if c == '&' && !lexer.quoted() {
            lexer.flush_unquoted();
            if i + 1 < n && line[i + 1] == '&' {
                lexer.push_token(Token::Operator(Operator::And));
                i += 2;
            } else {
                lexer.push_token(Token::Operator(Operator::Background));
                i += 1;
            }
        } else if c == ';' && !lexer.quoted() {
            lexer.flush_unquoted();
            lexer.push_token(Token::Operator(Operator::Semicolon));
            i += 1;
        } else if c == '\\' {
            if i + 1 < n {
                lexer.append(unescape_char(line[i + 1]));
                i += 2;
            } else {
                i += 1;
            }
        } else {
            lexer.append(c);
            i += 1;
        }
    }
    lexer.finish()
}

} // verus!
