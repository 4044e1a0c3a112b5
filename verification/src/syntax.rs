//! The boundary to the Rust syntax library: what is asked of it, and what is
//! taken on trust about its answers.
//!
//! Every question is put as source text: `syn` has `proc_macro2` split the
//! text into tokens and then reads the tokens. Which lexer splits the text
//! depends on the process, so nothing is promised of any answer. What is
//! taken on trust is that the call returns: `syn` panics where it meets a
//! literal of a kind that it does not know, so it is shown no text of
//! which the lexer can make a literal.

use vstd::prelude::*;
use crate::guard::no_literal;

verus! {

/// Asks `syn::parse_str::<syn::Ident>` whether the text is one identifier
/// and no reserved word. Nothing is claimed of the answer. The call reads
/// no literal, whatever the text.
#[verifier::external_body]
pub(crate) fn is_identifier(text: &str) -> bool {
    syn::parse_str::<syn::Ident>(text).is_ok()
}

/// Asks `syn::parse_str::<syn::Generics>` whether the text is a list of
/// generic parameters in angle brackets. Nothing is claimed of the answer.
/// A text of which the lexer can make a literal is left out, because `syn`
/// panics where it meets a literal of a kind that it does not know.
#[verifier::external_body]
pub(crate) fn is_generics(text: &str) -> bool
    requires
        no_literal(text@),
{
    syn::parse_str::<syn::Generics>(text).is_ok()
}

/// Asks `syn::parse_str::<syn::TypeParam>` whether the text is one type
/// parameter. Nothing is claimed of the answer. A text of which the lexer
/// can make a literal is left out, as for `is_generics`.
#[verifier::external_body]
pub(crate) fn is_type_param(text: &str) -> bool
    requires
        no_literal(text@),
{
    syn::parse_str::<syn::TypeParam>(text).is_ok()
}

/// Asks `syn::parse_str::<syn::ItemFn>` whether the text is one function
/// with a body. Nothing is claimed of the answer. A text of which the
/// lexer can make a literal is left out, as for `is_generics`.
#[verifier::external_body]
pub(crate) fn is_function(text: &str) -> bool
    requires
        no_literal(text@),
{
    syn::parse_str::<syn::ItemFn>(text).is_ok()
}

/// `String::push` appends the given character to the end of the string.
#[verifier::external_body]
pub(crate) fn push_char(text: &mut String, ch: char)
    ensures
        final(text)@ == old(text)@.push(ch),
{
    text.push(ch);
}

} // verus!
