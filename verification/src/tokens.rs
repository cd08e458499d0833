//! The token buffer into which program text is written, token by token.

use vstd::prelude::*;

verus! {

/// `quote::Tokens`, a buffer of program text. Nothing is known of a buffer
/// but its text.
#[verifier::external_type_specification]
#[verifier::external_body]
pub struct ExTokens(quote::Tokens);

/// The text that a token buffer holds.
pub uninterp spec fn tokens_text(tokens: quote::Tokens) -> Seq<char>;

/// The text of `s` written as a string literal: what the buffer gains when a
/// string slice is interpolated into it.
pub uninterp spec fn string_literal(s: Seq<char>) -> Seq<char>;

/// A text with one more token: a single space parts the two, unless one of
/// them is empty.
pub open spec fn spaced(text: Seq<char>, token: Seq<char>) -> Seq<char> {
    if text.len() > 0 && token.len() > 0 {
        text.push(' ') + token
    } else {
        text + token
    }
}

/// A text with a run of tokens added one after the other.
pub open spec fn spaced_all(text: Seq<char>, tokens: Seq<Seq<char>>) -> Seq<char>
    decreases tokens.len(),
{
    if tokens.len() == 0 {
        text
    } else {
        spaced(spaced_all(text, tokens.drop_last()), tokens.last())
    }
}

/// `quote::Tokens::new`: a buffer that holds no text.
pub assume_specification[ quote::Tokens::new ]() -> (tokens: quote::Tokens)
    ensures
        tokens_text(tokens) == Seq::<char>::empty(),
;

/// `quote::Tokens::into_string`: the text of the buffer.
pub assume_specification[ quote::Tokens::into_string ](tokens: quote::Tokens) -> (text: String)
    ensures
        text@ == tokens_text(tokens),
;

/// `quote::Tokens::append`: the token goes to the end of the buffer, behind a
/// space where both the buffer and the token hold something.
#[verifier::external_body]
pub(crate) fn append(tokens: &mut quote::Tokens, token: &str)
    ensures
        tokens_text(*final(tokens)) == spaced(tokens_text(*old(tokens)), token@),
{
    tokens.append(token)
}

/// `quote::ToTokens::to_tokens` of a string slice: the slice is appended as
/// one token, written as a string literal.
#[verifier::external_body]
pub(crate) fn append_literal(tokens: &mut quote::Tokens, s: &str)
    ensures
        tokens_text(*final(tokens)) == spaced(tokens_text(*old(tokens)), string_literal(s@)),
{
    quote::ToTokens::to_tokens(s, tokens)
}

/// Adding one more token to a run adds it to the text of the run.
pub proof fn lemma_spaced_all_push(text: Seq<char>, tokens: Seq<Seq<char>>, token: Seq<char>)
    ensures
        spaced_all(text, tokens.push(token)) == spaced(spaced_all(text, tokens), token),
{
    assert(tokens.push(token).drop_last() =~= tokens);
}

/// Adding two runs in turn is adding their concatenation.
pub proof fn lemma_spaced_all_concat(text: Seq<char>, a: Seq<Seq<char>>, b: Seq<Seq<char>>)
    ensures
        spaced_all(text, a + b) == spaced_all(spaced_all(text, a), b),
    decreases b.len(),
{
    if b.len() == 0 {
        assert(a + b =~= a);
    } else {
        lemma_spaced_all_concat(text, a, b.drop_last());
        assert((a + b).drop_last() =~= a + b.drop_last());
    }
}

} // verus!
