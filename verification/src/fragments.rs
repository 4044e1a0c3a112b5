//! Small pieces that the generated code is put together from: keywords,
//! punctuation, bracketed lists, lint attributes and derived names.

use vstd::prelude::*;
use vstd::string::*;
use crate::token::{extend_from, push_token, views, Delimiter, Spacing, Span, Token, TokenView};

verus! {

/// An identifier that the expansion writes itself.
pub open spec fn word_token(name: Seq<char>) -> TokenView {
    TokenView::Ident { name, span: Span::spec_call_site() }
}

/// A punctuation character that the expansion writes itself.
pub open spec fn mark_token(ch: char) -> TokenView {
    TokenView::Punct { ch, spacing: Spacing::Alone, span: Span::spec_call_site() }
}

/// A group that the expansion writes itself.
pub open spec fn group_token(delimiter: Delimiter, tokens: Seq<TokenView>) -> TokenView {
    TokenView::Group { delimiter, tokens, span: Span::spec_call_site() }
}

/// An empty pair of parentheses.
pub open spec fn unit_token() -> TokenView {
    group_token(Delimiter::Parenthesis, Seq::empty())
}

/// The attribute `#[allow(lint)]`.
pub open spec fn allow_attr(lint: Seq<char>) -> Seq<TokenView> {
    seq![
        mark_token('#'),
        group_token(
            Delimiter::Bracket,
            seq![
                word_token("allow"@),
                group_token(Delimiter::Parenthesis, seq![word_token(lint)]),
            ],
        ),
    ]
}

/// Type parameters between angle brackets, or nothing where there are none.
pub open spec fn angle_list(params: Seq<TokenView>) -> Seq<TokenView> {
    if params.len() == 0 {
        Seq::empty()
    } else {
        seq![mark_token('<')] + params + seq![mark_token('>')]
    }
}

/// A name as it goes into a longer name: without the `r#` of a raw
/// identifier.
pub open spec fn name_fragment(name: Seq<char>) -> Seq<char> {
    if name.len() >= 2 && name[0] == 'r' && name[1] == '#' {
        name.subrange(2, name.len() as int)
    } else {
        name
    }
}

/// An identifier at the call site.
pub fn word(name: &str) -> (token: Token)
    ensures
        token@ == word_token(name@),
{
    Token::ident(name, Span::call_site())
}

/// A punctuation character at the call site, not glued to what follows.
pub fn mark(ch: char) -> (token: Token)
    ensures
        token@ == mark_token(ch),
{
    Token::punct(ch, Spacing::Alone, Span::call_site())
}

/// A group at the call site.
pub fn group(delimiter: Delimiter, tokens: Vec<Token>) -> (token: Token)
    ensures
        token@ == group_token(delimiter, views(tokens@)),
{
    Token::group(delimiter, tokens, Span::call_site())
}

/// An empty pair of parentheses at the call site.
pub fn unit() -> (token: Token)
    ensures
        token@ == unit_token(),
{
    let inner: Vec<Token> = Vec::new();
    assert(views(inner@) =~= Seq::empty());
    group(Delimiter::Parenthesis, inner)
}

/// Appends `#[allow(lint)]` to `out`.
pub fn push_allow(out: &mut Vec<Token>, lint: &str)
    ensures
        views(final(out)@) == views(old(out)@) + allow_attr(lint@),
{
    let mut lints: Vec<Token> = Vec::new();
    push_token(&mut lints, word(lint));
    assert(views(lints@) =~= seq![word_token(lint@)]);
    let mut inner: Vec<Token> = Vec::new();
    push_token(&mut inner, word("allow"));
    push_token(&mut inner, group(Delimiter::Parenthesis, lints));
    assert(views(inner@) =~= seq![
        word_token("allow"@),
        group_token(Delimiter::Parenthesis, seq![word_token(lint@)]),
    ]);
    push_token(out, mark('#'));
    push_token(out, group(Delimiter::Bracket, inner));
    assert(views(out@) =~= views(old(out)@) + allow_attr(lint@));
}

/// Appends the type parameters between angle brackets to `out`, or nothing
/// where there are none.
pub fn push_angle_list(out: &mut Vec<Token>, params: &Vec<Token>)
    ensures
        views(final(out)@) == views(old(out)@) + angle_list(views(params@)),
{
    if params.len() > 0 {
        push_token(out, mark('<'));
        extend_from(out, params);
        push_token(out, mark('>'));
    }
    assert(views(out@) =~= views(old(out)@) + angle_list(views(params@)));
}

/// A name as it goes into a longer name.
pub fn fragment(name: &String) -> (part: String)
    ensures
        part@ == name_fragment(name@),
{
    let text = name.as_str();
    let len: usize = text.unicode_len();
    if len >= 2 && text.get_char(0) == 'r' && text.get_char(1) == '#' {
        String::from_str(text.substring_char(2, len))
    } else {
        name.clone()
    }
}

} // verus!
