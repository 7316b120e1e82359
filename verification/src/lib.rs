//! A lexer for a small C-like scripting language.
//!
//! [`Lexer`] turns source text into [`Token`]s, one per call. The rules it
//! follows are written down as specification functions in [`grammar`], and
//! what holds of every text is proved in [`laws`]. The standard-library
//! calls that the proofs take on trust are gathered in [`text`].

pub mod grammar;
pub mod laws;
pub mod lexer;
pub mod text;
pub mod token;

pub use lexer::{is_blank, tokenize, Lexer};
pub use token::{Token, TokenView, EOF};
