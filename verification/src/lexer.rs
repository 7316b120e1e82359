//! The lexer: a cursor over source text that hands out one token per call.

use vstd::prelude::*;
use crate::grammar;
use crate::grammar::{char_at, run_end, word_token, CharClass};
use crate::grammar::{lemma_run_end, lemma_token_end_bounds};
use crate::text::unicode_white_space;
use crate::token::{Token, TokenView, EOF};

verus! {

/// A lexer over one source text.
///
/// It keeps the text, the index of the next character it has not read yet,
/// and the one character it is looking at. Created by [`Lexer::new`], it is
/// ready to classify at once, and [`Lexer::next_token`] is the only way to
/// move it on.
#[derive(Debug)]
pub struct Lexer {
    /// Source code input, one scalar value per element.
    input: Vec<char>,
    /// Index in `input` of the next character to read.
    position: usize,
    /// Current character under examination, `None` at the end of input.
    ch: Option<char>,
}

impl Lexer {
    /// The whole source text.
    pub closed spec fn source(&self) -> Seq<char> {
        self.input@
    }

    /// The index of the next character that has not been read.
    pub closed spec fn cursor(&self) -> int {
        self.position as int
    }

    /// The character under examination, if any is left.
    pub closed spec fn lookahead(&self) -> Option<char> {
        self.ch
    }

    /// The invariant of a lexer. The character under examination, when
    /// there is one, is the character just before the cursor. When there is
    /// none, the cursor is at the end of the text.
    pub open spec fn wf(&self) -> bool {
        &&& 0 <= self.cursor() <= self.source().len()
        &&& match self.lookahead() {
            Some(c) => 1 <= self.cursor() && self.source()[self.cursor() - 1] == c,
            None => self.cursor() == self.source().len(),
        }
    }

    /// How many characters of the source have been consumed: the index of
    /// the character under examination, or the length of the text once it
    /// is exhausted.
    pub open spec fn offset(&self) -> int {
        if self.lookahead() is Some {
            self.cursor() - 1
        } else {
            self.cursor()
        }
    }

    /// The text that has not been consumed yet.
    pub open spec fn unread(&self) -> Seq<char> {
        self.source().skip(self.offset())
    }

    /// Creates a lexer for `input`, looking at its first character.
    pub fn new(input: &str) -> (lexer: Lexer)
        ensures
            lexer.wf(),
            lexer.source() == input@,
            lexer.offset() == 0,
    {
        broadcast use vstd::string::group_string_axioms;

        let mut chars: Vec<char> = Vec::new();
        for c in it: input.chars()
            invariant
                it.seq() == input@,
                chars@ == it.seq().take(it.index()),
        {
            chars.push(c);
        }
        let mut lexer = Lexer { input: chars, position: 0, ch: None };
        lexer.read_char();
        lexer
    }

    /// Returns the next token and moves past it.
    ///
    /// White space before the token is skipped. At the end of the text the
    /// token is end of input, and the lexer stays where it is.
    pub fn next_token(&mut self) -> (token: Token)
        requires
            old(self).wf(),
        ensures
            final(self).wf(),
            final(self).source() == old(self).source(),
            token@ == grammar::next_token(old(self).source(), old(self).offset()),
            final(self).offset() == grammar::next_offset(old(self).source(), old(self).offset()),
            token@ == TokenView::Eof ==> final(self).offset() == final(self).source().len(),
            token@ != TokenView::Eof ==> old(self).offset() < final(self).offset(),
    {
        proof {
            lemma_run_end(self.source(), self.offset(), CharClass::Whitespace);
        }
        self.skip_whitespace();
        proof {
            if self.offset() < self.source().len() {
                lemma_token_end_bounds(self.source(), self.offset());
            }
        }
        let token = match self.ch {
            Some('(') => Token::Lparen,
            Some(')') => Token::Rparen,
            Some('+') => Token::Plus,
            Some(',') => Token::Comma,
            Some(';') => Token::Semicolon,
            Some('=') => {
                if let Some(ch) = self.peek_char() {
                    if ch == '=' {
                        self.read_char();
                        Token::Eq
                    } else {
                        Token::Assign
                    }
                } else {
                    Token::Assign
                }
            },
            Some('{') => Token::Lbrace,
            Some('}') => Token::Rbrace,
            Some('-') => Token::Minus,
            Some('!') => {
                if let Some(ch) = self.peek_char() {
                    if ch == '=' {
                        self.read_char();
                        Token::NotEq
                    } else {
                        Token::Bang
                    }
                } else {
                    Token::Bang
                }
            },
            Some('*') => Token::Asterisk,
            Some('/') => Token::Slash,
            Some('<') => Token::Lt,
            Some('>') => Token::Gt,
            None => Token::Eof,
            Some(ch) => {
                if ch.is_alphabetic() {
                    let ident = self.read_identifier();
                    return self.lookup_ident(ident);
                } else if ch.is_ascii_digit() {
                    let number = self.read_number();
                    return Token::Int(number);
                } else {
                    let mut text = String::new();
                    text.push(ch);
                    Token::Illegal(text)
                }
            },
        };

        self.read_char();
        token
    }

    /// Returns the character after the one under examination, without
    /// consuming anything.
    fn peek_char(&self) -> (next: Option<char>)
        requires
            self.wf(),
        ensures
            next == char_at(self.source(), self.cursor()),
    {
        if self.position < self.input.len() {
            Some(self.input[self.position])
        } else {
            None
        }
    }

    /// Reads the next character and advances the position.
    fn read_char(&mut self)
        requires
            old(self).cursor() <= old(self).source().len(),
        ensures
            final(self).wf(),
            final(self).source() == old(self).source(),
            final(self).offset() == old(self).cursor(),
    {
        if self.position < self.input.len() {
            self.ch = Some(self.input[self.position]);
            self.position = self.position + 1;
        } else {
            self.ch = None;
        }
    }

    /// Consumes the longest run of letters at the current position and
    /// returns it.
    fn read_identifier(&mut self) -> (ident: String)
        requires
            old(self).wf(),
        ensures
            final(self).wf(),
            final(self).source() == old(self).source(),
            final(self).offset() == run_end(old(self).source(), old(self).offset(), CharClass::Letter),
            ident@ == old(self).source().subrange(old(self).offset(), final(self).offset()),
    {
        let mut ident = String::new();
        let ghost start = self.offset();
        loop
            invariant
                self.wf(),
                self.source() == old(self).source(),
                start == old(self).offset(),
                0 <= start <= self.offset(),
                ident@ == self.source().subrange(start, self.offset()),
                run_end(self.source(), start, CharClass::Letter) == run_end(
                    self.source(),
                    self.offset(),
                    CharClass::Letter,
                ),
            ensures
                self.offset() == run_end(self.source(), start, CharClass::Letter),
            decreases self.source().len() - self.offset(),
        {
            match self.ch {
                Some(ch) => {
                    if ch.is_alphabetic() {
                        ident.push(ch);
                        self.read_char();
                    } else {
                        break;
                    }
                },
                None => {
                    break;
                },
            }
        }
        ident
    }

    /// Consumes the longest run of decimal digits at the current position
    /// and returns it.
    fn read_number(&mut self) -> (number: String)
        requires
            old(self).wf(),
        ensures
            final(self).wf(),
            final(self).source() == old(self).source(),
            final(self).offset() == run_end(old(self).source(), old(self).offset(), CharClass::Digit),
            number@ == old(self).source().subrange(old(self).offset(), final(self).offset()),
    {
        let mut number = String::new();
        let ghost start = self.offset();
        loop
            invariant
                self.wf(),
                self.source() == old(self).source(),
                start == old(self).offset(),
                0 <= start <= self.offset(),
                number@ == self.source().subrange(start, self.offset()),
                run_end(self.source(), start, CharClass::Digit) == run_end(
                    self.source(),
                    self.offset(),
                    CharClass::Digit,
                ),
            ensures
                self.offset() == run_end(self.source(), start, CharClass::Digit),
            decreases self.source().len() - self.offset(),
        {
            match self.ch {
                Some(ch) => {
                    if ch.is_ascii_digit() {
                        number.push(ch);
                        self.read_char();
                    } else {
                        break;
                    }
                },
                None => {
                    break;
                },
            }
        }
        number
    }

    /// Consumes the white space at the current position.
    fn skip_whitespace(&mut self)
        requires
            old(self).wf(),
        ensures
            final(self).wf(),
            final(self).source() == old(self).source(),
            final(self).offset() == run_end(
                old(self).source(),
                old(self).offset(),
                CharClass::Whitespace,
            ),
    {
        let ghost start = self.offset();
        loop
            invariant
                self.wf(),
                self.source() == old(self).source(),
                start == old(self).offset(),
                run_end(self.source(), start, CharClass::Whitespace) == run_end(
                    self.source(),
                    self.offset(),
                    CharClass::Whitespace,
                ),
            ensures
                self.offset() == run_end(self.source(), start, CharClass::Whitespace),
            decreases self.source().len() - self.offset(),
        {
            match self.ch {
                Some(ch) => {
                    if ch.is_whitespace() {
                        self.read_char();
                    } else {
                        break;
                    }
                },
                None => {
                    break;
                },
            }
        }
    }

    /// Turns a run of letters into its token: the keyword it spells, or an
    /// identifier.
    pub fn lookup_ident(&self, ident: String) -> (token: Token)
        ensures
            token@ == word_token(ident@),
    {
        let word = ident.as_str();
        if word.eq("let") {
            Token::Let
        } else if word.eq("fn") {
            Token::Function
        } else if word.eq("true") {
            Token::True
        } else if word.eq("false") {
            Token::False
        } else if word.eq("if") {
            Token::If
        } else if word.eq("else") {
            Token::Else
        } else if word.eq("return") {
            Token::Return
        } else {
            Token::Ident(ident)
        }
    }
}

/// Reads all of `input`: every token in order, closed by the end-of-input
/// token.
pub fn tokenize(input: &str) -> (tokens: Vec<Token>)
    ensures
        tokens.deep_view() == grammar::tokens(input@),
{
    let mut lexer = Lexer::new(input);
    let mut tokens: Vec<Token> = Vec::new();
    loop
        invariant_except_break
            tokens.deep_view() + grammar::tokens_from(input@, lexer.offset()) == grammar::tokens(
                input@,
            ),
        invariant
            lexer.wf(),
            lexer.source() == input@,
        ensures
            tokens.deep_view() == grammar::tokens(input@),
        decreases input@.len() - lexer.offset(),
    {
        let token = lexer.next_token();
        let done = token == EOF;
        tokens.push(token);
        if done {
            break;
        }
    }
    tokens
}

/// Whether `input` holds nothing but white space, as an empty text does.
pub fn is_blank(input: &str) -> (blank: bool)
    ensures
        blank == forall|i: int| 0 <= i < input@.len() ==> unicode_white_space(#[trigger] input@[i]),
{
    broadcast use vstd::string::group_string_axioms;

    for c in it: input.chars()
        invariant
            it.seq() == input@,
            forall|i: int| 0 <= i < it.index() ==> unicode_white_space(#[trigger] input@[i]),
    {
        if !c.is_whitespace() {
            return false;
        }
    }
    true
}

} // verus!
