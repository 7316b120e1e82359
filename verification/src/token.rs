//! The tokens of the language and their textual forms.

use vstd::prelude::*;
use vstd::std_specs::cmp::PartialEqSpecImpl;
use crate::text::{debug_quoted, quote};

verus! {

/// A token: one indivisible unit of source text.
///
/// Identifiers, integer literals and illegal characters own a copy of the
/// text they were read from. Every other token stands for one fixed text.
#[derive(Eq, Debug)]
pub enum Token {
    /// `=`
    Assign,
    /// `*`
    Asterisk,
    /// `!`
    Bang,
    /// `,`
    Comma,
    /// The keyword `else`.
    Else,
    /// End of input.
    Eof,
    /// `==`
    Eq,
    /// The keyword `false`.
    False,
    /// The keyword `fn`.
    Function,
    /// `>`
    Gt,
    /// An identifier, with its text.
    Ident(String),
    /// The keyword `if`.
    If,
    /// A character that starts no token, with its text.
    Illegal(String),
    /// An integer literal, with its digits.
    Int(String),
    /// `{`
    Lbrace,
    /// The keyword `let`.
    Let,
    /// `(`
    Lparen,
    /// `<`
    Lt,
    /// `-`
    Minus,
    /// `!=`
    NotEq,
    /// `+`
    Plus,
    /// `}`
    Rbrace,
    /// The keyword `return`.
    Return,
    /// `)`
    Rparen,
    /// `;`
    Semicolon,
    /// `/`
    Slash,
    /// The keyword `true`.
    True,
}

/// Tokens are equal when they are the same variant and carry the same text.
impl PartialEq for Token {
    fn eq(&self, other: &Token) -> (equal: bool) {
        match (self, other) {
            (Token::Assign, Token::Assign) => true,
            (Token::Asterisk, Token::Asterisk) => true,
            (Token::Bang, Token::Bang) => true,
            (Token::Comma, Token::Comma) => true,
            (Token::Else, Token::Else) => true,
            (Token::Eof, Token::Eof) => true,
            (Token::Eq, Token::Eq) => true,
            (Token::False, Token::False) => true,
            (Token::Function, Token::Function) => true,
            (Token::Gt, Token::Gt) => true,
            (Token::Ident(a), Token::Ident(b)) => a.eq(b),
            (Token::If, Token::If) => true,
            (Token::Illegal(a), Token::Illegal(b)) => a.eq(b),
            (Token::Int(a), Token::Int(b)) => a.eq(b),
            (Token::Lbrace, Token::Lbrace) => true,
            (Token::Let, Token::Let) => true,
            (Token::Lparen, Token::Lparen) => true,
            (Token::Lt, Token::Lt) => true,
            (Token::Minus, Token::Minus) => true,
            (Token::NotEq, Token::NotEq) => true,
            (Token::Plus, Token::Plus) => true,
            (Token::Rbrace, Token::Rbrace) => true,
            (Token::Return, Token::Return) => true,
            (Token::Rparen, Token::Rparen) => true,
            (Token::Semicolon, Token::Semicolon) => true,
            (Token::Slash, Token::Slash) => true,
            (Token::True, Token::True) => true,
            _ => false,
        }
    }
}

impl PartialEqSpecImpl for Token {
    open spec fn obeys_eq_spec() -> bool {
        true
    }

    open spec fn eq_spec(&self, other: &Token) -> bool {
        self@ == other@
    }
}

/// The end-of-input token.
pub const EOF: Token = Token::Eof;

/// The mathematical value of a [`Token`]: the same variants, with the text
/// of the payload-carrying ones as a sequence of characters.
pub enum TokenView {
    Assign,
    Asterisk,
    Bang,
    Comma,
    Else,
    Eof,
    Eq,
    False,
    Function,
    Gt,
    Ident(Seq<char>),
    If,
    Illegal(Seq<char>),
    Int(Seq<char>),
    Lbrace,
    Let,
    Lparen,
    Lt,
    Minus,
    NotEq,
    Plus,
    Rbrace,
    Return,
    Rparen,
    Semicolon,
    Slash,
    True,
}

impl View for Token {
    type V = TokenView;

    open spec fn view(&self) -> TokenView {
        match self {
            Token::Assign => TokenView::Assign,
            Token::Asterisk => TokenView::Asterisk,
            Token::Bang => TokenView::Bang,
            Token::Comma => TokenView::Comma,
            Token::Else => TokenView::Else,
            Token::Eof => TokenView::Eof,
            Token::Eq => TokenView::Eq,
            Token::False => TokenView::False,
            Token::Function => TokenView::Function,
            Token::Gt => TokenView::Gt,
            Token::Ident(text) => TokenView::Ident(text@),
            Token::If => TokenView::If,
            Token::Illegal(text) => TokenView::Illegal(text@),
            Token::Int(text) => TokenView::Int(text@),
            Token::Lbrace => TokenView::Lbrace,
            Token::Let => TokenView::Let,
            Token::Lparen => TokenView::Lparen,
            Token::Lt => TokenView::Lt,
            Token::Minus => TokenView::Minus,
            Token::NotEq => TokenView::NotEq,
            Token::Plus => TokenView::Plus,
            Token::Rbrace => TokenView::Rbrace,
            Token::Return => TokenView::Return,
            Token::Rparen => TokenView::Rparen,
            Token::Semicolon => TokenView::Semicolon,
            Token::Slash => TokenView::Slash,
            Token::True => TokenView::True,
        }
    }
}

impl DeepView for Token {
    type V = TokenView;

    open spec fn deep_view(&self) -> TokenView {
        self.view()
    }
}

impl TokenView {
    /// The text of the token: the lexeme it carries, or the fixed text it
    /// stands for. End of input has the empty text.
    pub open spec fn literal(self) -> Seq<char> {
        match self {
            TokenView::Assign => "="@,
            TokenView::Asterisk => "*"@,
            TokenView::Bang => "!"@,
            TokenView::Comma => ","@,
            TokenView::Else => "else"@,
            TokenView::Eof => ""@,
            TokenView::Eq => "=="@,
            TokenView::False => "false"@,
            TokenView::Function => "fn"@,
            TokenView::Gt => ">"@,
            TokenView::Ident(text) => text,
            TokenView::If => "if"@,
            TokenView::Illegal(text) => text,
            TokenView::Int(text) => text,
            TokenView::Lbrace => "{"@,
            TokenView::Let => "let"@,
            TokenView::Lparen => "("@,
            TokenView::Lt => "<"@,
            TokenView::Minus => "-"@,
            TokenView::NotEq => "!="@,
            TokenView::Plus => "+"@,
            TokenView::Rbrace => "}"@,
            TokenView::Return => "return"@,
            TokenView::Rparen => ")"@,
            TokenView::Semicolon => ";"@,
            TokenView::Slash => "/"@,
            TokenView::True => "true"@,
        }
    }

    /// The name of the token's category, as shown in diagnostics.
    pub open spec fn category(self) -> Seq<char> {
        match self {
            TokenView::Assign => "assign"@,
            TokenView::Asterisk => "asterisk"@,
            TokenView::Bang => "bang"@,
            TokenView::Comma => "comma"@,
            TokenView::Else => "else"@,
            TokenView::Eof => "eof"@,
            TokenView::Eq => "eq"@,
            TokenView::False => "false"@,
            TokenView::Function => "function"@,
            TokenView::Gt => "gt"@,
            TokenView::Ident(_) => "ident"@,
            TokenView::If => "if"@,
            TokenView::Illegal(_) => "illegal"@,
            TokenView::Int(_) => "int"@,
            TokenView::Lbrace => "lbrace"@,
            TokenView::Let => "let"@,
            TokenView::Lparen => "lparen"@,
            TokenView::Lt => "lt"@,
            TokenView::Minus => "minus"@,
            TokenView::NotEq => "noteq"@,
            TokenView::Plus => "plus"@,
            TokenView::Rbrace => "rbrace"@,
            TokenView::Return => "return"@,
            TokenView::Rparen => "rparen"@,
            TokenView::Semicolon => "semicolon"@,
            TokenView::Slash => "slash"@,
            TokenView::True => "true"@,
        }
    }
}

/// The diagnostic rendering of a token with category `category` and text
/// `literal`: `Token { type: "...", literal: "..." }`, both parts quoted as
/// `{:?}` quotes a string.
pub open spec fn debug_rendering(category: Seq<char>, literal: Seq<char>) -> Seq<char> {
    "Token { type: "@ + debug_quoted(category) + ", literal: "@ + debug_quoted(literal) + " }"@
}

impl Token {
    /// The text of the token.
    pub fn literal(&self) -> (text: &str)
        ensures
            text@ == self@.literal(),
    {
        match self {
            Self::Assign => "=",
            Self::Asterisk => "*",
            Self::Bang => "!",
            Self::Comma => ",",
            Self::Else => "else",
            Self::Eof => "",
            Self::Eq => "==",
            Self::False => "false",
            Self::Function => "fn",
            Self::Gt => ">",
            Self::Ident(s) => s.as_str(),
            Self::If => "if",
            Self::Illegal(s) => s.as_str(),
            Self::Int(s) => s.as_str(),
            Self::Lbrace => "{",
            Self::Let => "let",
            Self::Lparen => "(",
            Self::Lt => "<",
            Self::Minus => "-",
            Self::NotEq => "!=",
            Self::Plus => "+",
            Self::Rbrace => "}",
            Self::Return => "return",
            Self::Rparen => ")",
            Self::Semicolon => ";",
            Self::Slash => "/",
            Self::True => "true",
        }
    }

    /// The name of the token's category, as shown in diagnostics.
    pub fn category(&self) -> (name: &'static str)
        ensures
            name@ == self@.category(),
    {
        match self {
            Self::Assign => "assign",
            Self::Asterisk => "asterisk",
            Self::Bang => "bang",
            Self::Comma => "comma",
            Self::Else => "else",
            Self::Eof => "eof",
            Self::Eq => "eq",
            Self::False => "false",
            Self::Function => "function",
            Self::Gt => "gt",
            Self::Ident(_) => "ident",
            Self::If => "if",
            Self::Illegal(_) => "illegal",
            Self::Int(_) => "int",
            Self::Lbrace => "lbrace",
            Self::Let => "let",
            Self::Lparen => "lparen",
            Self::Lt => "lt",
            Self::Minus => "minus",
            Self::NotEq => "noteq",
            Self::Plus => "plus",
            Self::Rbrace => "rbrace",
            Self::Return => "return",
            Self::Rparen => "rparen",
            Self::Semicolon => "semicolon",
            Self::Slash => "slash",
            Self::True => "true",
        }
    }

    /// The token as it is displayed: its text, in an owned string.
    pub fn to_string(&self) -> (text: String)
        ensures
            text@ == self@.literal(),
    {
        String::from_str(self.literal())
    }

    /// Renders the token for diagnostics under the category name
    /// `token_type`.
    pub fn debug_fmt(&self, token_type: &str) -> (rendered: String)
        ensures
            rendered@ == debug_rendering(token_type@, self@.literal()),
    {
        let mut rendered = String::from_str("Token { type: ");
        rendered.append(quote(token_type).as_str());
        rendered.append(", literal: ");
        rendered.append(quote(self.literal()).as_str());
        rendered.append(" }");
        rendered
    }

    /// Renders the token for diagnostics under its own category name.
    pub fn to_debug_string(&self) -> (rendered: String)
        ensures
            rendered@ == debug_rendering(self@.category(), self@.literal()),
    {
        self.debug_fmt(self.category())
    }
}

} // verus!
