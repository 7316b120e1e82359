//! What holds of every text: the laws of the grammar, proved.

use vstd::prelude::*;
use crate::grammar::{
    char_at, in_class, lemma_run_end, lemma_token_end_bounds, next_offset, next_token, run_end,
    token_at, token_end, token_start, tokens, tokens_from, CharClass,
};
use crate::lexer::Lexer;
use crate::text::{ascii_digit, unicode_alphabetic, unicode_white_space};
use crate::token::TokenView;

verus! {

/// A run is the only stretch from its beginning in which every character
/// belongs to the class and which no character of the class follows.
pub proof fn lemma_run_end_unique(s: Seq<char>, from: int, class: CharClass, end: int)
    requires
        0 <= from <= end <= s.len(),
        forall|i: int| from <= i < end ==> in_class(#[trigger] s[i], class),
        end < s.len() ==> !in_class(s[end], class),
    ensures
        run_end(s, from, class) == end,
    decreases end - from,
{
    if from < end {
        lemma_run_end_unique(s, from + 1, class, end);
    }
}

/// The token at a position is end of input exactly when the position is
/// not inside the text.
pub proof fn lemma_eof_only_at_end(s: Seq<char>, at: int)
    ensures
        token_at(s, at) == TokenView::Eof <==> !(0 <= at < s.len()),
{
}

/// Every token but end of input consumes at least one character, and none
/// reaches past the end of the text. End of input consumes nothing.
pub proof fn lemma_progress(s: Seq<char>, from: int)
    requires
        0 <= from <= s.len(),
    ensures
        from <= token_start(s, from) <= next_offset(s, from) <= s.len(),
        next_token(s, from) != TokenView::Eof ==> from < next_offset(s, from),
        next_token(s, from) == TokenView::Eof ==> next_offset(s, from) == s.len(),
{
    lemma_run_end(s, from, CharClass::Whitespace);
    let start = token_start(s, from);
    if start < s.len() {
        lemma_token_end_bounds(s, start);
    }
}

/// The next token is end of input exactly when nothing but white space is
/// left.
pub proof fn lemma_eof_iff_only_whitespace_left(s: Seq<char>, from: int)
    requires
        0 <= from <= s.len(),
    ensures
        next_token(s, from) == TokenView::Eof <==> forall|i: int|
            from <= i < s.len() ==> unicode_white_space(#[trigger] s[i]),
{
    lemma_run_end(s, from, CharClass::Whitespace);
}

/// Once end of input has been produced, every further token is end of
/// input again and the position no longer moves.
pub proof fn lemma_eof_is_final(s: Seq<char>, from: int)
    requires
        next_token(s, from) == TokenView::Eof,
    ensures
        next_token(s, next_offset(s, from)) == TokenView::Eof,
        next_offset(s, next_offset(s, from)) == next_offset(s, from),
{
}

/// Reading a text to its end yields end of input exactly once, as the last
/// token, after at most one token for each character.
pub proof fn lemma_tokens_end_with_single_eof(s: Seq<char>, from: int)
    requires
        0 <= from <= s.len(),
    ensures
        1 <= tokens_from(s, from).len() <= s.len() - from + 1,
        tokens_from(s, from).last() == TokenView::Eof,
        forall|i: int|
            0 <= i < tokens_from(s, from).len() - 1 ==> #[trigger] tokens_from(s, from)[i]
                != TokenView::Eof,
    decreases s.len() - from,
{
    lemma_progress(s, from);
    if token_start(s, from) < s.len() {
        lemma_tokens_end_with_single_eof(s, next_offset(s, from));
    }
}

/// A text of nothing but white space, the empty text among them, has end of
/// input as its first and only token.
pub proof fn lemma_blank_text_is_just_eof(s: Seq<char>)
    requires
        forall|i: int| 0 <= i < s.len() ==> unicode_white_space(#[trigger] s[i]),
    ensures
        next_token(s, 0) == TokenView::Eof,
        tokens(s) == seq![TokenView::Eof],
{
    lemma_run_end(s, 0, CharClass::Whitespace);
}

/// The text of every token is exactly the stretch of source that was
/// consumed to produce it. For the tokens that stand for a fixed text,
/// keywords among them, that fixed text is what stood in the source.
pub proof fn lemma_literal_is_consumed_text(s: Seq<char>, at: int)
    requires
        0 <= at <= s.len(),
    ensures
        token_at(s, at).literal() == s.subrange(at, token_end(s, at)),
{
    reveal_strlit("");
    reveal_strlit("=");
    reveal_strlit("==");
    reveal_strlit("!");
    reveal_strlit("!=");
    reveal_strlit("(");
    reveal_strlit(")");
    reveal_strlit("{");
    reveal_strlit("}");
    reveal_strlit("+");
    reveal_strlit("-");
    reveal_strlit("*");
    reveal_strlit("/");
    reveal_strlit("<");
    reveal_strlit(">");
    reveal_strlit(",");
    reveal_strlit(";");
}

/// The text of the next token is what stands in the source between the end
/// of the white space before it and the place where reading resumes.
pub proof fn lemma_next_literal_is_consumed_text(s: Seq<char>, from: int)
    requires
        0 <= from <= s.len(),
    ensures
        next_token(s, from).literal() == s.subrange(token_start(s, from), next_offset(s, from)),
{
    lemma_run_end(s, from, CharClass::Whitespace);
    lemma_literal_is_consumed_text(s, token_start(s, from));
}

/// Tokens are as long as they can be. Two adjacent characters `==` are one
/// token and so are `!=`, so neither `=` nor `!` is ever produced with a
/// `=` directly after it. An identifier is never directly followed by a
/// letter, nor an integer literal by a digit.
pub proof fn lemma_maximal_munch(s: Seq<char>, at: int)
    requires
        0 <= at <= s.len(),
    ensures
        char_at(s, at) == Some('=') && char_at(s, at + 1) == Some('=') ==> token_at(s, at)
            == TokenView::Eq && token_end(s, at) == at + 2,
        char_at(s, at) == Some('!') && char_at(s, at + 1) == Some('=') ==> token_at(s, at)
            == TokenView::NotEq && token_end(s, at) == at + 2,
        token_at(s, at) == TokenView::Assign ==> char_at(s, token_end(s, at)) != Some('='),
        token_at(s, at) == TokenView::Bang ==> char_at(s, token_end(s, at)) != Some('='),
        token_at(s, at) is Ident ==> !(char_at(s, token_end(s, at)) matches Some(c)
            && unicode_alphabetic(c)),
        token_at(s, at) is Int ==> !(char_at(s, token_end(s, at)) matches Some(c) && ascii_digit(
            c,
        )),
{
    lemma_run_end(s, at, CharClass::Letter);
    lemma_run_end(s, at, CharClass::Digit);
}

/// A run in a suffix of the text is the run at the same place in the whole
/// text.
pub proof fn lemma_run_end_of_suffix(s: Seq<char>, cut: int, from: int, class: CharClass)
    requires
        0 <= cut <= from <= s.len(),
    ensures
        run_end(s.skip(cut), from - cut, class) == run_end(s, from, class) - cut,
    decreases s.len() - from,
{
    if from < s.len() && in_class(s[from], class) {
        lemma_run_end_of_suffix(s, cut, from + 1, class);
    }
}

/// The token at a place, and where it ends, depend only on the text from
/// that place on.
pub proof fn lemma_token_of_suffix(s: Seq<char>, cut: int, at: int)
    requires
        0 <= cut <= at <= s.len(),
    ensures
        token_at(s.skip(cut), at - cut) == token_at(s, at),
        token_end(s.skip(cut), at - cut) == token_end(s, at) - cut,
{
    let t = s.skip(cut);
    lemma_run_end_of_suffix(s, cut, at, CharClass::Letter);
    lemma_run_end_of_suffix(s, cut, at, CharClass::Digit);
    lemma_run_end(s, at, CharClass::Letter);
    lemma_run_end(s, at, CharClass::Digit);
    assert(t.subrange(at - cut, run_end(s, at, CharClass::Letter) - cut) =~= s.subrange(
        at,
        run_end(s, at, CharClass::Letter),
    ));
    assert(t.subrange(at - cut, run_end(s, at, CharClass::Digit) - cut) =~= s.subrange(
        at,
        run_end(s, at, CharClass::Digit),
    ));
}

/// The tokens from a place on are the tokens of the text from that place
/// on, read by itself.
pub proof fn lemma_tokens_of_suffix(s: Seq<char>, cut: int, from: int)
    requires
        0 <= cut <= from <= s.len(),
    ensures
        tokens_from(s.skip(cut), from - cut) == tokens_from(s, from),
    decreases s.len() - from,
{
    lemma_run_end_of_suffix(s, cut, from, CharClass::Whitespace);
    lemma_progress(s, from);
    lemma_token_of_suffix(s, cut, token_start(s, from));
    if token_start(s, from) < s.len() {
        lemma_tokens_of_suffix(s, cut, next_offset(s, from));
    }
}

/// Lexing is a function of the text alone. Two lexers that have the same
/// text left to read, as two new lexers for one text do, yield the same
/// token next, leave the same text unread after it, and yield the same
/// tokens when each is read to its end.
pub proof fn lemma_same_text_same_tokens(a: Lexer, b: Lexer)
    requires
        a.wf(),
        b.wf(),
        a.unread() == b.unread(),
    ensures
        next_token(a.source(), a.offset()) == next_token(b.source(), b.offset()),
        a.source().skip(next_offset(a.source(), a.offset())) == b.source().skip(
            next_offset(b.source(), b.offset()),
        ),
        tokens_from(a.source(), a.offset()) == tokens_from(b.source(), b.offset()),
{
    lemma_lexer_reads_unread_text(a);
    lemma_lexer_reads_unread_text(b);
}

/// What a lexer yields is decided by its unread text: the next token, the
/// text left after it, and all the tokens to come.
pub proof fn lemma_lexer_reads_unread_text(lexer: Lexer)
    requires
        lexer.wf(),
    ensures
        next_token(lexer.source(), lexer.offset()) == next_token(lexer.unread(), 0),
        lexer.source().skip(next_offset(lexer.source(), lexer.offset())) == lexer.unread().skip(
            next_offset(lexer.unread(), 0),
        ),
        tokens_from(lexer.source(), lexer.offset()) == tokens(lexer.unread()),
{
    let s = lexer.source();
    let from = lexer.offset();
    lemma_run_end_of_suffix(s, from, from, CharClass::Whitespace);
    lemma_progress(s, from);
    lemma_token_of_suffix(s, from, token_start(s, from));
    lemma_tokens_of_suffix(s, from, from);
}

} // verus!
