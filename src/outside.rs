//! The calls into proc_macro2, convert_case and std's sort that the assembler relies on.
use vstd::prelude::*;
use vstd::relations::sorted_by;
use vstd::utf8::is_ascii_chars;
use convert_case::{Case, Casing};
use proc_macro2::{LexError, Literal, TokenStream};
use crate::order::{lex_le_fn, views};

verus! {

#[verifier::external_type_specification]
#[verifier::external_body]
pub struct ExTokenStream(TokenStream);

#[verifier::external_type_specification]
#[verifier::external_body]
pub struct ExLexError(LexError);

/// Whether proc_macro2's own (fallback) lexer accepts a text as Rust tokens.
pub uninterp spec fn lexes(s: Seq<char>) -> bool;

/// The snake-case form of an identifier.
pub uninterp spec fn snake_of(s: Seq<char>) -> Seq<char>;

/// Relies on proc_macro2's `FromStr for TokenStream`: an `Ok` means that its
/// fallback lexer accepted the text. Outside a procedural macro that lexer
/// decides alone; inside one the compiler's lexer must accept the text as well.
#[verifier::external_body]
pub(crate) fn parse_tokens(s: &str) -> (r: Result<TokenStream, LexError>)
    ensures
        r is Ok ==> lexes(s@),
{
    s.parse::<TokenStream>()
}

/// Relies on proc_macro2's `Literal::string` and its `Display`: the source text
/// of a string literal holding `s`. Its escaping may differ between the
/// fallback and the compiler, so nothing is stated of the text.
#[verifier::external_body]
pub(crate) fn string_literal(s: &str) -> (r: String) {
    Literal::string(s).to_string()
}

/// Relies on convert_case's `to_case(Case::Snake)`: the snake-case form of `s`.
/// Its word splitting counts positions in characters and slices by bytes, so
/// only ASCII text is handed to it.
#[verifier::external_body]
pub(crate) fn snake_case(s: &str) -> (r: String)
    requires
        is_ascii_chars(s@),
    ensures
        r@ == snake_of(s@),
{
    s.to_case(Case::Snake)
}

/// Relies on `slice::sort` over `String`: it reorders the strings ascending by
/// `Ord for String`, which compares UTF-8 bytes and so orders as the characters'
/// code points do.
#[verifier::external_body]
pub(crate) fn sort_strings(v: &mut Vec<String>)
    ensures
        views(final(v)@).to_multiset() == views(old(v)@).to_multiset(),
        sorted_by(views(final(v)@), lex_le_fn()),
{
    v.sort()
}

} // verus!
