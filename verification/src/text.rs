//! Contracts for the standard-library text primitives the lexer is built on.
//!
//! Everything in this module is taken on trust: Verus believes these
//! contracts and does not look at the code behind them. The rest of the
//! crate is proved from them.

use vstd::prelude::*;

verus! {

/// Whether `c` has the Unicode `Alphabetic` property, as the standard
/// library's tables decide it.
pub uninterp spec fn unicode_alphabetic(c: char) -> bool;

/// Whether `c` has the Unicode `White_Space` property, as the standard
/// library's tables decide it.
pub uninterp spec fn unicode_white_space(c: char) -> bool;

/// The text that formatting a string slice with `{:?}` produces: the slice
/// in double quotes, with the characters that need it escaped.
pub uninterp spec fn debug_quoted(text: Seq<char>) -> Seq<char>;

/// An ASCII decimal digit, `'0'` through `'9'`.
pub open spec fn ascii_digit(c: char) -> bool {
    '0' <= c && c <= '9'
}

/// `char::is_alphabetic` answers by the Unicode `Alphabetic` property. The
/// property is table-driven, so the contract only gives the answer a name.
pub assume_specification[ char::is_alphabetic ](c: char) -> (b: bool)
    ensures
        b == unicode_alphabetic(c),
;

/// `char::is_whitespace` answers by the Unicode `White_Space` property. The
/// property is table-driven, so the contract only gives the answer a name.
pub assume_specification[ char::is_whitespace ](c: char) -> (b: bool)
    ensures
        b == unicode_white_space(c),
;

/// `char::is_ascii_digit` is true exactly for `'0'` through `'9'`.
pub assume_specification[ char::is_ascii_digit ](c: &char) -> (b: bool)
    ensures
        b == ascii_digit(*c),
;

/// `String::push` appends one character to the end of the string.
pub assume_specification[ String::push ](s: &mut String, c: char)
    ensures
        final(s)@ == old(s)@.push(c),
;

/// Equality of string slices is equality of their characters.
pub assume_specification[ <str as PartialEq>::eq ](a: &str, b: &str) -> (r: bool)
    ensures
        r == (a@ == b@),
;

/// Formats `text` with `{:?}`, the standard library's `Debug` rendering of a
/// string slice. The escaping rules are long, so the contract only gives
/// the result a name.
#[verifier::external_body]
pub(crate) fn quote(text: &str) -> (quoted: String)
    ensures
        quoted@ == debug_quoted(text@),
{
    format!("{:?}", text)
}

} // verus!
