//! The grammar of the attribute's argument, as mathematics: what the
//! tokens `Trait<params> = Type<params>, Type<params>, ...` are read as
//! under given answers of the syntax library, what is wrong with tokens
//! that are not read, and what holds of every argument that is read.

use vstd::prelude::*;
use crate::fragments::{angle_list, mark_token};
use crate::token::{Spacing, Span, TokenView};

verus! {

/// The mathematical value of an identifier.
pub struct IdentView {
    pub name: Seq<char>,
    pub span: Span,
}

/// The mathematical value of a name with type parameters.
pub struct IdentAndGenericsView {
    pub ident: IdentView,
    pub generics: Seq<TokenView>,
}

/// The mathematical value of a parsed argument.
pub struct TraitAndImplsView {
    pub base_trait: IdentAndGenericsView,
    pub structs: Seq<IdentAndGenericsView>,
}

/// What the syntax library answered about the tokens of an argument: for
/// each position, whether the token there was accepted as a name, and
/// whether the angle brackets opened there were accepted as a list of
/// generic parameters. A position without an answer counts as a no.
pub struct AnswersView {
    pub names: Seq<bool>,
    pub generics: Seq<bool>,
}

/// Whether the answer at `i` is a yes.
pub open spec fn yes_at(table: Seq<bool>, i: int) -> bool {
    0 <= i < table.len() && table[i]
}

/// What was wrong with an argument.
#[derive(Clone, Copy, Debug, PartialEq, Eq, Structural)]
pub enum ParseErrorKind {
    /// A name was due and something else, or nothing, was found.
    ExpectedIdentifier,
    /// A `<` after a name has no `>` that closes it.
    UnclosedTypeParameters,
    /// The brackets after a name do not hold a list of type parameters.
    InvalidTypeParameters,
    /// The `=` between the trait and its implementers is missing.
    ExpectedSeparator,
    /// Two implementers are not separated by a comma.
    ExpectedComma,
    /// Nothing follows the `=`.
    NoImplementers,
}

/// A rejected argument: what was wrong, and at which token. The position is
/// the number of tokens when the argument ended too early.
#[derive(Clone, Copy, Debug, PartialEq, Eq, Structural)]
pub struct ParseError {
    pub kind: ParseErrorKind,
    pub position: usize,
}

/// What a rejected argument was missing, in words.
pub open spec fn message_text(kind: ParseErrorKind) -> Seq<char> {
    match kind {
        ParseErrorKind::ExpectedIdentifier => "expected identifier"@,
        ParseErrorKind::UnclosedTypeParameters => "expected `>`"@,
        ParseErrorKind::InvalidTypeParameters => "expected type parameters"@,
        ParseErrorKind::ExpectedSeparator => "expected `=`"@,
        ParseErrorKind::ExpectedComma => "expected `,`"@,
        ParseErrorKind::NoImplementers => "expected an implementer after `=`"@,
    }
}

/// The token of an identifier, at the place where it was written.
pub open spec fn ident_token(ident: IdentView) -> TokenView {
    TokenView::Ident { name: ident.name, span: ident.span }
}

/// Whether the token is the punctuation character `c`, glued or not.
pub open spec fn is_punct(token: TokenView, c: char) -> bool {
    token matches TokenView::Punct { ch, .. } && ch == c
}

/// Whether the token at `i` follows a glued `-`, so that a `>` there is the
/// head of an arrow and no closing bracket.
pub open spec fn follows_glued_minus(tokens: Seq<TokenView>, i: int) -> bool {
    0 < i <= tokens.len() && (tokens[i - 1] matches TokenView::Punct { ch, spacing, .. } && ch
        == '-' && spacing == Spacing::Joint)
}

/// Whether the token at `i` opens an angle bracket.
pub open spec fn opens_angle(tokens: Seq<TokenView>, i: int) -> bool {
    is_punct(tokens[i], '<')
}

/// Whether the token at `i` closes an angle bracket.
pub open spec fn closes_angle(tokens: Seq<TokenView>, i: int) -> bool {
    is_punct(tokens[i], '>') && !follows_glued_minus(tokens, i)
}

/// Position of the `>` that closes the bracket which is `depth` levels deep
/// at `from`: the first place, walking right, where the count of brackets
/// opened and closed falls to zero. Groups count as one token, so brackets
/// inside them are not seen.
pub open spec fn angle_close(tokens: Seq<TokenView>, from: int, depth: nat) -> Option<int>
    decreases tokens.len() - from,
{
    if from < 0 || from >= tokens.len() {
        None
    } else if closes_angle(tokens, from) {
        if depth <= 1 {
            Some(from)
        } else {
            angle_close(tokens, from + 1, (depth - 1) as nat)
        }
    } else if opens_angle(tokens, from) {
        angle_close(tokens, from + 1, depth + 1)
    } else {
        angle_close(tokens, from + 1, depth)
    }
}

/// A closing bracket is found at or after the place where the search began.
pub proof fn angle_close_in_range(tokens: Seq<TokenView>, from: int, depth: nat)
    ensures
        angle_close(tokens, from, depth) matches Some(close) ==> from <= close < tokens.len()
            && closes_angle(tokens, close),
    decreases tokens.len() - from,
{
    if 0 <= from < tokens.len() {
        if closes_angle(tokens, from) {
            if depth > 1 {
                angle_close_in_range(tokens, from + 1, (depth - 1) as nat);
            }
        } else if opens_angle(tokens, from) {
            angle_close_in_range(tokens, from + 1, depth + 1);
        } else {
            angle_close_in_range(tokens, from + 1, depth);
        }
    }
}

/// The error of the given kind at the given token.
pub open spec fn error_at(kind: ParseErrorKind, position: int) -> ParseError {
    ParseError { kind, position: position as usize }
}

/// Reads one name with its type parameters at `pos`, and says where the
/// next token is. `name_ok` says whether the token at `pos` was accepted
/// as a name, `generics_ok` whether the brackets behind it were accepted as
/// a list of generic parameters.
///
/// The name is an identifier token that was accepted. If a `<` follows,
/// the type parameters run to the `>` that closes it, and they must have
/// been accepted.
pub open spec fn spec_named(
    tokens: Seq<TokenView>,
    pos: int,
    name_ok: bool,
    generics_ok: bool,
) -> Result<(IdentAndGenericsView, int), ParseError> {
    if pos < 0 || pos >= tokens.len() || !(tokens[pos] is Ident) || !name_ok {
        Err(error_at(ParseErrorKind::ExpectedIdentifier, pos))
    } else {
        let ident = IdentView { name: tokens[pos]->Ident_name, span: tokens[pos]->Ident_span };
        if pos + 1 < tokens.len() && is_punct(tokens[pos + 1], '<') {
            match angle_close(tokens, pos + 2, 1) {
                None => Err(error_at(ParseErrorKind::UnclosedTypeParameters, pos + 1)),
                Some(close) => if generics_ok {
                    Ok(
                        (
                            IdentAndGenericsView {
                                ident,
                                generics: tokens.subrange(pos + 2, close),
                            },
                            close + 1,
                        ),
                    )
                } else {
                    Err(error_at(ParseErrorKind::InvalidTypeParameters, pos + 1))
                },
            }
        } else {
            Ok((IdentAndGenericsView { ident, generics: Seq::empty() }, pos + 1))
        }
    }
}

/// Reads one name at `pos` with the answers that were given for the name
/// there and for the bracket behind it.
pub open spec fn spec_named_at(tokens: Seq<TokenView>, answers: AnswersView, pos: int) -> Result<
    (IdentAndGenericsView, int),
    ParseError,
> {
    spec_named(tokens, pos, yes_at(answers.names, pos), yes_at(answers.generics, pos + 1))
}

/// Reading a name moves forward, and never past the end.
pub proof fn spec_named_advances(
    tokens: Seq<TokenView>,
    pos: int,
    name_ok: bool,
    generics_ok: bool,
)
    ensures
        spec_named(tokens, pos, name_ok, generics_ok) matches Ok((_, next)) ==> pos < next
            <= tokens.len(),
{
    angle_close_in_range(tokens, pos + 2, 1);
}

/// Reads the implementers from `pos` to the end: names with type
/// parameters, a comma between each two, and at most one comma after the
/// last. A token must stand at `pos`.
pub open spec fn spec_implementers(tokens: Seq<TokenView>, answers: AnswersView, pos: int) -> Result<
    Seq<IdentAndGenericsView>,
    ParseError,
>
    decreases tokens.len() - pos,
{
    match spec_named_at(tokens, answers, pos) {
        Err(e) => Err(e),
        Ok((item, next)) => {
            if next >= tokens.len() {
                Ok(seq![item])
            } else if !is_punct(tokens[next], ',') {
                Err(error_at(ParseErrorKind::ExpectedComma, next))
            } else if next + 1 >= tokens.len() {
                Ok(seq![item])
            } else {
                proof {
                    spec_named_advances(
                        tokens,
                        pos,
                        yes_at(answers.names, pos),
                        yes_at(answers.generics, pos + 1),
                    );
                }
                match spec_implementers(tokens, answers, next + 1) {
                    Err(e) => Err(e),
                    Ok(rest) => Ok(seq![item] + rest),
                }
            }
        },
    }
}

/// Reads a whole argument: the trait, an `=`, and the implementers.
pub open spec fn spec_parse(tokens: Seq<TokenView>, answers: AnswersView) -> Result<
    TraitAndImplsView,
    ParseError,
> {
    match spec_named_at(tokens, answers, 0) {
        Err(e) => Err(e),
        Ok((base_trait, next)) => {
            if next >= tokens.len() || !is_punct(tokens[next], '=') {
                Err(error_at(ParseErrorKind::ExpectedSeparator, next))
            } else if next + 1 >= tokens.len() {
                Err(error_at(ParseErrorKind::NoImplementers, next + 1))
            } else {
                match spec_implementers(tokens, answers, next + 1) {
                    Err(e) => Err(e),
                    Ok(structs) => Ok(TraitAndImplsView { base_trait, structs }),
                }
            }
        },
    }
}

/// Whether a name with type parameters is one that reading can return:
/// the parameters, if there are any, stand between two angle brackets of
/// which the second is the one that closes the first.
pub open spec fn well_formed_named(item: IdentAndGenericsView) -> bool {
    item.generics.len() > 0 ==> angle_close(angle_list(item.generics), 1, 1) == Some(
        item.generics.len() as int + 1,
    )
}

/// Whether an argument is one that reading can return: the trait and every
/// implementer are well formed, and there is at least one implementer.
pub open spec fn well_formed(parsed: TraitAndImplsView) -> bool {
    &&& well_formed_named(parsed.base_trait)
    &&& parsed.structs.len() >= 1
    &&& forall|i: int|
        0 <= i < parsed.structs.len() ==> well_formed_named(#[trigger] parsed.structs[i])
}

/// A name with its type parameters, written out.
pub open spec fn named_tokens(item: IdentAndGenericsView) -> Seq<TokenView> {
    seq![ident_token(item.ident)] + angle_list(item.generics)
}

/// The implementers written out, with a comma between each two.
pub open spec fn implementers_tokens(structs: Seq<IdentAndGenericsView>) -> Seq<TokenView>
    decreases structs.len(),
{
    if structs.len() == 0 {
        Seq::empty()
    } else if structs.len() == 1 {
        named_tokens(structs[0])
    } else {
        named_tokens(structs[0]) + seq![mark_token(',')] + implementers_tokens(
            structs.drop_first(),
        )
    }
}

/// An argument written out: the trait, an `=`, and the implementers.
pub open spec fn argument_tokens(parsed: TraitAndImplsView) -> Seq<TokenView> {
    named_tokens(parsed.base_trait) + seq![mark_token('=')] + implementers_tokens(parsed.structs)
}

/// Whether a search for a closing bracket sees the same in `a` between
/// `from` and `to` as in `b` at `shift` places further on.
pub open spec fn same_brackets(
    a: Seq<TokenView>,
    b: Seq<TokenView>,
    from: int,
    to: int,
    shift: int,
) -> bool {
    forall|j: int|
        from <= j <= to ==> #[trigger] closes_angle(a, j) == closes_angle(b, j + shift)
            && opens_angle(a, j) == opens_angle(b, j + shift)
}

/// Where a closing bracket is found depends only on the tokens up to it.
pub proof fn angle_close_shifts(
    a: Seq<TokenView>,
    b: Seq<TokenView>,
    from: int,
    depth: nat,
    close: int,
    shift: int,
)
    requires
        0 <= from,
        0 <= from + shift,
        angle_close(a, from, depth) == Some(close),
        close + shift < b.len(),
        same_brackets(a, b, from, close, shift),
    ensures
        angle_close(b, from + shift, depth) == Some(close + shift),
    decreases a.len() - from,
{
    angle_close_in_range(a, from, depth);
    if closes_angle(a, from) && depth <= 1 {
    } else {
        let deeper: nat = if closes_angle(a, from) {
            (depth - 1) as nat
        } else if opens_angle(a, from) {
            depth + 1
        } else {
            depth
        };
        assert(same_brackets(a, b, from + 1, close, shift)) by {
            assert forall|j: int| from + 1 <= j <= close implies #[trigger] closes_angle(a, j)
                == closes_angle(b, j + shift) && opens_angle(a, j) == opens_angle(
                b,
                j + shift,
            ) by {
                assert(from <= j <= close);
            }
        }
        angle_close_shifts(a, b, from + 1, deeper, close, shift);
    }
}

/// A name that is read is well formed.
pub proof fn named_is_well_formed(
    tokens: Seq<TokenView>,
    pos: int,
    name_ok: bool,
    generics_ok: bool,
)
    ensures
        spec_named(tokens, pos, name_ok, generics_ok) matches Ok((item, _))
            ==> well_formed_named(item),
{
    if let Ok((item, next)) = spec_named(tokens, pos, name_ok, generics_ok) {
        if pos + 1 < tokens.len() && is_punct(tokens[pos + 1], '<') {
            let close = angle_close(tokens, pos + 2, 1)->Some_0;
            angle_close_in_range(tokens, pos + 2, 1);
            let inner = tokens.subrange(pos + 2, close);
            if inner.len() > 0 {
                let written = angle_list(inner);
                let shift = -(pos + 1);
                assert forall|j: int| pos + 2 <= j <= close implies #[trigger] closes_angle(
                    tokens,
                    j,
                ) == closes_angle(written, j + shift) && opens_angle(tokens, j) == opens_angle(
                    written,
                    j + shift,
                ) by {
                    if j < close {
                        assert(written[j + shift] == tokens[j]);
                    }
                    if j > pos + 2 {
                        assert(written[j + shift - 1] == tokens[j - 1]);
                    }
                }
                angle_close_shifts(tokens, written, pos + 2, 1, close, shift);
            }
        }
    }
}

/// The implementers that are read are well formed, and never none.
pub proof fn implementers_are_well_formed(tokens: Seq<TokenView>, answers: AnswersView, pos: int)
    ensures
        spec_implementers(tokens, answers, pos) matches Ok(structs) ==> structs.len() >= 1
            && forall|i: int|
            0 <= i < structs.len() ==> well_formed_named(#[trigger] structs[i]),
    decreases tokens.len() - pos,
{
    let name_ok = yes_at(answers.names, pos);
    let generics_ok = yes_at(answers.generics, pos + 1);
    named_is_well_formed(tokens, pos, name_ok, generics_ok);
    if let Ok((item, next)) = spec_named_at(tokens, answers, pos) {
        if next < tokens.len() && is_punct(tokens[next], ',') && next + 1 < tokens.len() {
            spec_named_advances(tokens, pos, name_ok, generics_ok);
            implementers_are_well_formed(tokens, answers, next + 1);
        }
    }
}

/// An argument that is read is well formed. In particular it has at least
/// one implementer.
pub proof fn parsed_argument_is_well_formed(tokens: Seq<TokenView>, answers: AnswersView)
    ensures
        spec_parse(tokens, answers) matches Ok(parsed) ==> well_formed(parsed),
{
    named_is_well_formed(tokens, 0, yes_at(answers.names, 0), yes_at(answers.generics, 1));
    if let Ok((base_trait, next)) = spec_named_at(tokens, answers, 0) {
        implementers_are_well_formed(tokens, answers, next + 1);
    }
}

/// The nesting depth after the token at `i`, which stood at depth `depth`.
pub open spec fn depth_after(tokens: Seq<TokenView>, i: int, depth: nat) -> nat {
    if opens_angle(tokens, i) {
        depth + 1
    } else if closes_angle(tokens, i) && depth > 0 {
        (depth - 1) as nat
    } else {
        depth
    }
}

/// The type parameters in `tokens[start..]`, where the one that begins at
/// `start` has been followed up to `i` and is `depth` angle brackets deep
/// there. A comma outside all brackets ends a parameter; nothing is
/// counted after the last comma if nothing is written there.
pub open spec fn params_from(tokens: Seq<TokenView>, start: int, i: int, depth: nat) -> Seq<
    Seq<TokenView>,
>
    decreases tokens.len() - i,
{
    if i < 0 || i >= tokens.len() {
        if 0 <= start < tokens.len() {
            seq![tokens.subrange(start, tokens.len() as int)]
        } else {
            Seq::empty()
        }
    } else if depth == 0 && is_punct(tokens[i], ',') {
        seq![tokens.subrange(start, i)] + params_from(tokens, i + 1, i + 1, 0)
    } else {
        params_from(tokens, start, i + 1, depth_after(tokens, i, depth))
    }
}

/// The type parameters, one by one.
pub open spec fn spec_params(generics: Seq<TokenView>) -> Seq<Seq<TokenView>> {
    params_from(generics, 0, 0, 0)
}

} // verus!
