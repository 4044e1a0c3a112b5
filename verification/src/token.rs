//! A plain-data model of token trees: identifiers, punctuation, literals and
//! delimited groups, each carrying the source location it came from.

use vstd::prelude::*;
use vstd::string::*;
use crate::syntax::push_char;

verus! {

/// A source location, as an index into a table kept by the caller.
/// Index zero stands for the site of the attribute itself.
#[derive(Clone, Copy, Debug, PartialEq, Eq, Structural)]
pub struct Span {
    pub id: usize,
}

impl Span {
    /// The location given to every token that the expansion invents.
    pub open spec fn spec_call_site() -> Span {
        Span { id: 0 }
    }

    #[verifier::when_used_as_spec(spec_call_site)]
    pub fn call_site() -> (span: Span)
        ensures
            span == Span::spec_call_site(),
    {
        Span { id: 0 }
    }
}

/// The brackets around a group of tokens.
#[derive(Clone, Copy, Debug, PartialEq, Eq, Structural)]
pub enum Delimiter {
    Parenthesis,
    Brace,
    Bracket,
    /// A group without brackets of its own.
    Invisible,
}

/// Whether a punctuation character is glued to the token that follows it.
#[derive(Clone, Copy, Debug, PartialEq, Eq, Structural)]
pub enum Spacing {
    Alone,
    Joint,
}

/// One token tree.
#[derive(Debug, PartialEq, Eq)]
pub enum Token {
    Ident { name: String, span: Span },
    Punct { ch: char, spacing: Spacing, span: Span },
    Literal { text: String, span: Span },
    Group { delimiter: Delimiter, tokens: Vec<Token>, span: Span },
}

/// The mathematical value of a token tree.
pub enum TokenView {
    Ident { name: Seq<char>, span: Span },
    Punct { ch: char, spacing: Spacing, span: Span },
    Literal { text: Seq<char>, span: Span },
    Group { delimiter: Delimiter, tokens: Seq<TokenView>, span: Span },
}

/// The value of one token tree.
pub open spec fn token_view(token: Token) -> TokenView
    decreases token,
{
    match token {
        Token::Ident { name, span } => TokenView::Ident { name: name@, span },
        Token::Punct { ch, spacing, span } => TokenView::Punct { ch, spacing, span },
        Token::Literal { text, span } => TokenView::Literal { text: text@, span },
        Token::Group { delimiter, tokens, span } => TokenView::Group {
            delimiter,
            tokens: inner_views(tokens@),
            span,
        },
    }
}

/// The values of the token trees inside a group, last one last.
pub open spec fn inner_views(tokens: Seq<Token>) -> Seq<TokenView>
    decreases tokens,
{
    if tokens.len() == 0 {
        Seq::empty()
    } else {
        inner_views(tokens.drop_last()).push(token_view(tokens.last()))
    }
}

impl View for Token {
    type V = TokenView;

    open spec fn view(&self) -> TokenView {
        token_view(*self)
    }
}

/// The values of a sequence of token trees.
pub open spec fn views(tokens: Seq<Token>) -> Seq<TokenView> {
    Seq::new(tokens.len(), |i: int| tokens[i]@)
}

/// Inside a group, the values are those of the tokens, position by position.
pub proof fn inner_views_are_views(tokens: Seq<Token>)
    ensures
        inner_views(tokens) == views(tokens),
    decreases tokens.len(),
{
    if tokens.len() > 0 {
        inner_views_are_views(tokens.drop_last());
    }
    assert(inner_views(tokens) =~= views(tokens));
}

/// The value of a group is the values of the tokens inside it.
pub proof fn group_view(token: Token)
    requires
        token is Group,
    ensures
        token@ is Group,
        token@->Group_delimiter == token->Group_delimiter,
        token@->Group_span == token->Group_span,
        token@->Group_tokens == views(token->Group_tokens@),
{
    inner_views_are_views(token->Group_tokens@);
}

impl Token {
    /// An identifier token with the given name.
    pub fn ident(name: &str, span: Span) -> (token: Token)
        ensures
            token@ == (TokenView::Ident { name: name@, span }),
    {
        Token::Ident { name: String::from_str(name), span }
    }

    /// A punctuation token.
    pub fn punct(ch: char, spacing: Spacing, span: Span) -> (token: Token)
        ensures
            token@ == (TokenView::Punct { ch, spacing, span }),
    {
        Token::Punct { ch, spacing, span }
    }

    /// A literal token with the given source text.
    pub fn literal(text: &str, span: Span) -> (token: Token)
        ensures
            token@ == (TokenView::Literal { text: text@, span }),
    {
        Token::Literal { text: String::from_str(text), span }
    }

    /// A group holding the given tokens.
    pub fn group(delimiter: Delimiter, tokens: Vec<Token>, span: Span) -> (token: Token)
        ensures
            token@ == (TokenView::Group { delimiter, tokens: views(tokens@), span }),
    {
        let token = Token::Group { delimiter, tokens, span };
        proof {
            group_view(token);
        }
        token
    }
}

/// Copies one token tree.
pub fn copy_token(token: &Token) -> (copy: Token)
    ensures
        copy@ == token@,
    decreases token,
{
    match token {
        Token::Ident { name, span } => Token::Ident { name: name.clone(), span: *span },
        Token::Punct { ch, spacing, span } => Token::Punct {
            ch: *ch,
            spacing: *spacing,
            span: *span,
        },
        Token::Literal { text, span } => Token::Literal { text: text.clone(), span: *span },
        Token::Group { delimiter, tokens, span } => {
            let mut inner: Vec<Token> = Vec::new();
            let mut i: usize = 0;
            while i < tokens.len()
                invariant
                    i <= tokens.len(),
                    inner.len() == i,
                    *token is Group,
                    token->Group_tokens == *tokens,
                    forall|k: int| 0 <= k < i ==> inner[k]@ == tokens[k]@,
                decreases tokens.len() - i,
            {
                inner.push(copy_token(&tokens[i]));
                i += 1;
            }
            proof {
                group_view(*token);
                assert(views(inner@) =~= views(tokens@));
            }
            Token::group(*delimiter, inner, *span)
        },
    }
}

/// Appends copies of `tokens[from..to]` to `out`.
pub fn extend_from_range(out: &mut Vec<Token>, tokens: &Vec<Token>, from: usize, to: usize)
    requires
        from <= to <= tokens.len(),
    ensures
        views(final(out)@) == views(old(out)@) + views(tokens@).subrange(from as int, to as int),
{
    let ghost before = views(out@);
    let mut i: usize = from;
    while i < to
        invariant
            from <= i <= to <= tokens.len(),
            views(out@) == before + views(tokens@).subrange(from as int, i as int),
        decreases to - i,
    {
        let copy = copy_token(&tokens[i]);
        let ghost previous = views(out@);
        out.push(copy);
        assert(views(out@) =~= previous.push(copy@));
        assert(views(out@) =~= before + views(tokens@).subrange(from as int, i + 1));
        i += 1;
    }
    assert(views(tokens@).subrange(from as int, from as int) =~= Seq::<TokenView>::empty());
}

/// Appends copies of all of `tokens` to `out`.
pub fn extend_from(out: &mut Vec<Token>, tokens: &Vec<Token>)
    ensures
        views(final(out)@) == views(old(out)@) + views(tokens@),
{
    extend_from_range(out, tokens, 0, tokens.len());
    assert(views(tokens@).subrange(0, tokens.len() as int) =~= views(tokens@));
}

/// Copies `tokens[from..to]`.
pub fn copy_range(tokens: &Vec<Token>, from: usize, to: usize) -> (copy: Vec<Token>)
    requires
        from <= to <= tokens.len(),
    ensures
        views(copy@) == views(tokens@).subrange(from as int, to as int),
{
    let mut copy: Vec<Token> = Vec::new();
    extend_from_range(&mut copy, tokens, from, to);
    assert(views(copy@) =~= views(tokens@).subrange(from as int, to as int));
    copy
}

/// Copies a whole sequence of tokens.
pub fn copy_tokens(tokens: &Vec<Token>) -> (copy: Vec<Token>)
    ensures
        views(copy@) == views(tokens@),
{
    let mut copy: Vec<Token> = Vec::new();
    extend_from(&mut copy, tokens);
    assert(views(copy@) =~= views(tokens@));
    copy
}

/// Appends one token to `out`.
pub fn push_token(out: &mut Vec<Token>, token: Token)
    ensures
        views(final(out)@) == views(old(out)@).push(token@),
{
    out.push(token);
    assert(views(out@) =~= views(old(out)@).push(token@));
}

/// What stands in the place of one token once groups without brackets are
/// looked through: what such a group holds, looked through in turn, and
/// every other token itself.
pub open spec fn spliced_token(token: TokenView) -> Seq<TokenView>
    decreases token,
{
    match token {
        TokenView::Group { delimiter: Delimiter::Invisible, tokens, .. } => spliced(tokens),
        _ => seq![token],
    }
}

/// The tokens with every group without brackets replaced by what it
/// holds. Groups in brackets are kept as they are.
pub open spec fn spliced(tokens: Seq<TokenView>) -> Seq<TokenView>
    decreases tokens,
{
    if tokens.len() == 0 {
        Seq::empty()
    } else {
        spliced(tokens.drop_last()) + spliced_token(tokens.last())
    }
}

/// Looks through one token.
pub fn splice_token(token: &Token) -> (flat: Vec<Token>)
    ensures
        views(flat@) == spliced_token(token@),
    decreases token, 0nat,
{
    match token {
        Token::Group { delimiter: Delimiter::Invisible, tokens, .. } => {
            proof {
                group_view(*token);
            }
            splice(tokens)
        },
        _ => {
            let mut flat: Vec<Token> = Vec::new();
            push_token(&mut flat, copy_token(token));
            proof {
                if token is Group {
                    group_view(*token);
                }
                assert(views(flat@) =~= seq![token@]);
            }
            flat
        },
    }
}

/// Replaces every group without brackets by what it holds.
pub fn splice(tokens: &Vec<Token>) -> (flat: Vec<Token>)
    ensures
        views(flat@) == spliced(views(tokens@)),
    decreases tokens, 1nat,
{
    let mut flat: Vec<Token> = Vec::new();
    let mut i: usize = 0;
    assert(views(flat@) =~= Seq::empty());
    assert(views(tokens@).take(0) =~= Seq::empty());
    while i < tokens.len()
        invariant
            i <= tokens.len(),
            views(flat@) == spliced(views(tokens@).take(i as int)),
        decreases tokens.len() - i,
    {
        let piece = splice_token(&tokens[i]);
        extend_from(&mut flat, &piece);
        proof {
            let all = views(tokens@);
            assert(all.take(i + 1).drop_last() =~= all.take(i as int));
            assert(all.take(i + 1).last() == tokens[i as int]@);
        }
        i += 1;
    }
    assert(views(tokens@).take(tokens.len() as int) =~= views(tokens@));
    flat
}

/// Source text of the bracket that opens a group.
pub open spec fn open_text(delimiter: Delimiter) -> Seq<char> {
    match delimiter {
        Delimiter::Parenthesis => seq!['(', ' '],
        Delimiter::Brace => seq!['{', ' '],
        Delimiter::Bracket => seq!['[', ' '],
        Delimiter::Invisible => Seq::empty(),
    }
}

/// Source text of the bracket that closes a group.
pub open spec fn close_text(delimiter: Delimiter) -> Seq<char> {
    match delimiter {
        Delimiter::Parenthesis => seq![')', ' '],
        Delimiter::Brace => seq!['}', ' '],
        Delimiter::Bracket => seq![']', ' '],
        Delimiter::Invisible => Seq::empty(),
    }
}

/// Source text of one token tree. A blank follows every token but a
/// punctuation character glued to its successor.
pub open spec fn token_text(token: TokenView) -> Seq<char>
    decreases token,
{
    match token {
        TokenView::Ident { name, .. } => name.push(' '),
        TokenView::Punct { ch, spacing, .. } => if spacing == Spacing::Joint {
            seq![ch]
        } else {
            seq![ch, ' ']
        },
        TokenView::Literal { text, .. } => text.push(' '),
        TokenView::Group { delimiter, tokens, .. } => open_text(delimiter) + tokens_text(tokens)
            + close_text(delimiter),
    }
}

/// Source text of a sequence of token trees: their texts, one after another.
pub open spec fn tokens_text(tokens: Seq<TokenView>) -> Seq<char>
    decreases tokens,
{
    if tokens.len() == 0 {
        Seq::empty()
    } else {
        tokens_text(tokens.drop_last()) + token_text(tokens.last())
    }
}

/// Writes one token tree out as source text.
pub fn render_token(token: &Token) -> (text: String)
    ensures
        text@ == token_text(token@),
    decreases token, 0nat,
{
    match token {
        Token::Ident { name, .. } => {
            let mut text = name.clone();
            push_char(&mut text, ' ');
            text
        },
        Token::Punct { ch, spacing, .. } => {
            let mut text = String::new();
            push_char(&mut text, *ch);
            if *spacing != Spacing::Joint {
                push_char(&mut text, ' ');
            }
            assert(text@ =~= token_text(token@));
            text
        },
        Token::Literal { text, .. } => {
            let mut text = text.clone();
            push_char(&mut text, ' ');
            text
        },
        Token::Group { delimiter, tokens, .. } => {
            let mut text = String::new();
            match delimiter {
                Delimiter::Parenthesis => {
                    push_char(&mut text, '(');
                    push_char(&mut text, ' ');
                },
                Delimiter::Brace => {
                    push_char(&mut text, '{');
                    push_char(&mut text, ' ');
                },
                Delimiter::Bracket => {
                    push_char(&mut text, '[');
                    push_char(&mut text, ' ');
                },
                Delimiter::Invisible => {},
            }
            assert(text@ =~= open_text(*delimiter));
            let inner = render(tokens);
            text.append(inner.as_str());
            match delimiter {
                Delimiter::Parenthesis => {
                    push_char(&mut text, ')');
                    push_char(&mut text, ' ');
                },
                Delimiter::Brace => {
                    push_char(&mut text, '}');
                    push_char(&mut text, ' ');
                },
                Delimiter::Bracket => {
                    push_char(&mut text, ']');
                    push_char(&mut text, ' ');
                },
                Delimiter::Invisible => {},
            }
            proof {
                group_view(*token);
                assert(text@ =~= open_text(*delimiter) + tokens_text(views(tokens@)) + close_text(
                    *delimiter,
                ));
            }
            text
        },
    }
}

/// Writes a sequence of token trees out as source text.
pub fn render(tokens: &Vec<Token>) -> (text: String)
    ensures
        text@ == tokens_text(views(tokens@)),
    decreases tokens, 1nat,
{
    let mut text = String::new();
    let mut i: usize = 0;
    while i < tokens.len()
        invariant
            i <= tokens.len(),
            text@ == tokens_text(views(tokens@).take(i as int)),
        decreases tokens.len() - i,
    {
        let piece = render_token(&tokens[i]);
        text.append(piece.as_str());
        proof {
            let all = views(tokens@);
            assert(all.take(i + 1).drop_last() =~= all.take(i as int));
            assert(all.take(i + 1).last() == tokens[i as int]@);
        }
        i += 1;
    }
    assert(views(tokens@).take(tokens.len() as int) =~= views(tokens@));
    text
}

} // verus!
