//! The lexical grammar, written as specification functions.
//!
//! The source text is a sequence of characters and a position in it is an
//! index into that sequence. Scanning is one Unicode scalar value per step:
//! a letter is a character with the Unicode `Alphabetic` property, white
//! space is a character with the `White_Space` property and a digit is one
//! of `'0'` through `'9'`.

use vstd::prelude::*;
use crate::text::{ascii_digit, unicode_alphabetic, unicode_white_space};
use crate::token::TokenView;

verus! {

/// The classes of characters that the lexer reads in runs.
pub enum CharClass {
    /// Characters that separate tokens and belong to none.
    Whitespace,
    /// Characters that make up identifiers and keywords.
    Letter,
    /// Characters that make up integer literals.
    Digit,
}

/// Whether `c` belongs to `class`.
pub open spec fn in_class(c: char, class: CharClass) -> bool {
    match class {
        CharClass::Whitespace => unicode_white_space(c),
        CharClass::Letter => unicode_alphabetic(c),
        CharClass::Digit => ascii_digit(c),
    }
}

/// The character at index `at` of `s`, if there is one.
pub open spec fn char_at(s: Seq<char>, at: int) -> Option<char> {
    if 0 <= at < s.len() {
        Some(s[at])
    } else {
        None
    }
}

/// The index just past the longest run of `class` characters that starts at
/// `from`. It is `from` itself when no such character stands there.
pub open spec fn run_end(s: Seq<char>, from: int, class: CharClass) -> int
    decreases s.len() - from,
{
    if 0 <= from < s.len() && in_class(s[from], class) {
        run_end(s, from + 1, class)
    } else {
        from
    }
}

/// The keyword that `word` spells, if it spells one.
pub open spec fn keyword(word: Seq<char>) -> Option<TokenView> {
    if word == "let"@ {
        Some(TokenView::Let)
    } else if word == "fn"@ {
        Some(TokenView::Function)
    } else if word == "true"@ {
        Some(TokenView::True)
    } else if word == "false"@ {
        Some(TokenView::False)
    } else if word == "if"@ {
        Some(TokenView::If)
    } else if word == "else"@ {
        Some(TokenView::Else)
    } else if word == "return"@ {
        Some(TokenView::Return)
    } else {
        None
    }
}

/// The token for a run of letters: its keyword, or else an identifier
/// carrying the run.
pub open spec fn word_token(word: Seq<char>) -> TokenView {
    match keyword(word) {
        Some(token) => token,
        None => TokenView::Ident(word),
    }
}

/// The token that the single character `c` stands for by itself, whatever
/// follows it. `=` and `!` are not among these: what they mean depends on
/// the next character.
pub open spec fn symbol(c: char) -> Option<TokenView> {
    if c == '(' {
        Some(TokenView::Lparen)
    } else if c == ')' {
        Some(TokenView::Rparen)
    } else if c == '{' {
        Some(TokenView::Lbrace)
    } else if c == '}' {
        Some(TokenView::Rbrace)
    } else if c == '+' {
        Some(TokenView::Plus)
    } else if c == '-' {
        Some(TokenView::Minus)
    } else if c == '*' {
        Some(TokenView::Asterisk)
    } else if c == '/' {
        Some(TokenView::Slash)
    } else if c == '<' {
        Some(TokenView::Lt)
    } else if c == '>' {
        Some(TokenView::Gt)
    } else if c == ',' {
        Some(TokenView::Comma)
    } else if c == ';' {
        Some(TokenView::Semicolon)
    } else {
        None
    }
}

/// The token that begins exactly at index `at` of `s`.
///
/// Past the end of the text it is end of input. `=` and `!` join a directly
/// following `=` into `==` and `!=`. A letter begins the longest run of
/// letters, a digit the longest run of digits. A character that begins
/// nothing else is illegal, and is carried by its token.
pub open spec fn token_at(s: Seq<char>, at: int) -> TokenView {
    match char_at(s, at) {
        None => TokenView::Eof,
        Some(c) => {
            if c == '=' {
                if char_at(s, at + 1) == Some('=') {
                    TokenView::Eq
                } else {
                    TokenView::Assign
                }
            } else if c == '!' {
                if char_at(s, at + 1) == Some('=') {
                    TokenView::NotEq
                } else {
                    TokenView::Bang
                }
            } else if let Some(token) = symbol(c) {
                token
            } else if unicode_alphabetic(c) {
                word_token(s.subrange(at, run_end(s, at, CharClass::Letter)))
            } else if ascii_digit(c) {
                TokenView::Int(s.subrange(at, run_end(s, at, CharClass::Digit)))
            } else {
                TokenView::Illegal(seq![c])
            }
        },
    }
}

/// The index just past the token that begins at index `at` of `s`.
pub open spec fn token_end(s: Seq<char>, at: int) -> int {
    match char_at(s, at) {
        None => at,
        Some(c) => {
            if c == '=' || c == '!' {
                if char_at(s, at + 1) == Some('=') {
                    at + 2
                } else {
                    at + 1
                }
            } else if symbol(c) is Some {
                at + 1
            } else if unicode_alphabetic(c) {
                run_end(s, at, CharClass::Letter)
            } else if ascii_digit(c) {
                run_end(s, at, CharClass::Digit)
            } else {
                at + 1
            }
        },
    }
}

/// Where the next token begins when reading resumes at index `from`: past
/// the white space that stands there.
pub open spec fn token_start(s: Seq<char>, from: int) -> int {
    run_end(s, from, CharClass::Whitespace)
}

/// The next token of `s` when reading resumes at index `from`.
pub open spec fn next_token(s: Seq<char>, from: int) -> TokenView {
    token_at(s, token_start(s, from))
}

/// Where reading resumes after the next token has been taken from index
/// `from`.
pub open spec fn next_offset(s: Seq<char>, from: int) -> int {
    token_end(s, token_start(s, from))
}

/// All tokens of `s` from index `from` on, in order, up to and including
/// the end-of-input token that closes them.
pub open spec fn tokens_from(s: Seq<char>, from: int) -> Seq<TokenView>
    decreases s.len() - from,
    via tokens_from_decreases
{
    if 0 <= from && token_start(s, from) < s.len() {
        seq![next_token(s, from)] + tokens_from(s, next_offset(s, from))
    } else {
        seq![TokenView::Eof]
    }
}

/// All tokens of `s`, in order, up to and including the end-of-input token
/// that closes them.
pub open spec fn tokens(s: Seq<char>) -> Seq<TokenView> {
    tokens_from(s, 0)
}

/// A run begins where it is asked for and ends within the text. Everything
/// in it belongs to the class, and what follows it, if anything, does not.
pub proof fn lemma_run_end(s: Seq<char>, from: int, class: CharClass)
    requires
        0 <= from <= s.len(),
    ensures
        from <= run_end(s, from, class) <= s.len(),
        forall|i: int| from <= i < run_end(s, from, class) ==> in_class(#[trigger] s[i], class),
        run_end(s, from, class) < s.len() ==> !in_class(s[run_end(s, from, class)], class),
    decreases s.len() - from,
{
    if from < s.len() && in_class(s[from], class) {
        lemma_run_end(s, from + 1, class);
    }
}

/// A token that begins inside the text ends after its beginning and within
/// the text.
pub proof fn lemma_token_end_bounds(s: Seq<char>, at: int)
    requires
        0 <= at < s.len(),
    ensures
        at < token_end(s, at) <= s.len(),
{
    let c = s[at];
    if c == '=' || c == '!' || symbol(c) is Some {
    } else if unicode_alphabetic(c) {
        lemma_run_end(s, at + 1, CharClass::Letter);
    } else if ascii_digit(c) {
        lemma_run_end(s, at + 1, CharClass::Digit);
    }
}

#[via_fn]
proof fn tokens_from_decreases(s: Seq<char>, from: int) {
    if 0 <= from && token_start(s, from) < s.len() {
        if from <= s.len() {
            lemma_run_end(s, from, CharClass::Whitespace);
            lemma_token_end_bounds(s, token_start(s, from));
        }
    }
}

} // verus!
