//! The argument of the attribute: one trait and the types that implement it,
//! written `Trait<params> = Type<params>, Type<params>, ...`.

use vstd::prelude::*;
use vstd::string::*;
use crate::fragments::{
    allow_attr, angle_list, fragment, group, group_token, mark, mark_token, name_fragment,
    push_allow, push_angle_list, unit, unit_token, word, word_token,
};
use crate::grammar::{
    angle_close, argument_tokens, closes_angle, ident_token, implementers_tokens, is_punct,
    message_text, named_is_well_formed, named_tokens, params_from,
    parsed_argument_is_well_formed, spec_implementers, spec_named, spec_named_advances,
    spec_named_at, spec_params, spec_parse, well_formed, well_formed_named, yes_at,
    AnswersView, IdentAndGenericsView, IdentView, ParseError, ParseErrorKind,
    TraitAndImplsView,
};
use crate::guard::{holds_no_literal, no_literal};
use crate::laws::{accepts_all, comma_if, one_more_implementer, written_argument_is_read_back};
use crate::syntax::{is_generics, is_identifier, is_type_param};
use crate::token::{
    copy_range, extend_from, push_token, render, splice, spliced, tokens_text, views, Delimiter,
    Spacing, Span, Token, TokenView,
};

verus! {

/// An identifier and where it was written.
#[derive(Debug, PartialEq, Eq)]
pub struct Ident {
    pub name: String,
    pub span: Span,
}

impl View for Ident {
    type V = IdentView;

    open spec fn view(&self) -> IdentView {
        IdentView { name: self.name@, span: self.span }
    }
}

/// A name followed by its type parameters. The parameters are the tokens
/// between the angle brackets, kept as they were written; they are empty
/// where no brackets followed the name.
#[derive(Debug, PartialEq, Eq)]
pub struct IdentAndGenerics {
    pub ident: Ident,
    pub generics: Vec<Token>,
}

impl View for IdentAndGenerics {
    type V = IdentAndGenericsView;

    open spec fn view(&self) -> IdentAndGenericsView {
        IdentAndGenericsView { ident: self.ident@, generics: views(self.generics@) }
    }
}

/// The values of a sequence of names with type parameters.
pub open spec fn named_views(items: Seq<IdentAndGenerics>) -> Seq<IdentAndGenericsView> {
    Seq::new(items.len(), |i: int| items[i]@)
}

/// The parsed argument of the attribute.
#[derive(Debug, PartialEq, Eq)]
pub struct TraitAndImpls {
    pub base_trait: IdentAndGenerics,
    pub structs: Vec<IdentAndGenerics>,
}

impl View for TraitAndImpls {
    type V = TraitAndImplsView;

    open spec fn view(&self) -> TraitAndImplsView {
        TraitAndImplsView { base_trait: self.base_trait@, structs: named_views(self.structs@) }
    }
}

impl ParseError {
    /// What the argument was missing, in words.
    pub fn message(&self) -> (text: String)
        ensures
            text@ == message_text(self.kind),
    {
        match self.kind {
            ParseErrorKind::ExpectedIdentifier => String::from_str("expected identifier"),
            ParseErrorKind::UnclosedTypeParameters => String::from_str("expected `>`"),
            ParseErrorKind::InvalidTypeParameters => String::from_str("expected type parameters"),
            ParseErrorKind::ExpectedSeparator => String::from_str("expected `=`"),
            ParseErrorKind::ExpectedComma => String::from_str("expected `,`"),
            ParseErrorKind::NoImplementers => String::from_str(
                "expected an implementer after `=`",
            ),
        }
    }
}

/// The value of what reading one name returned.
pub open spec fn named_outcome(result: Result<(IdentAndGenerics, usize), ParseError>) -> Result<
    (IdentAndGenericsView, int),
    ParseError,
> {
    match result {
        Ok((item, next)) => Ok((item@, next as int)),
        Err(e) => Err(e),
    }
}

/// The value of what reading an argument returned.
pub open spec fn parse_outcome(result: Result<TraitAndImpls, ParseError>) -> Result<
    TraitAndImplsView,
    ParseError,
> {
    match result {
        Ok(parsed) => Ok(parsed@),
        Err(e) => Err(e),
    }
}

/// Whether the token is the punctuation character `c`.
pub fn token_is_punct(token: &Token, c: char) -> (yes: bool)
    ensures
        yes == is_punct(token@, c),
{
    match token {
        Token::Punct { ch, .. } => *ch == c,
        _ => false,
    }
}

/// Whether `tokens[i]` closes an angle bracket.
fn token_closes_angle(tokens: &Vec<Token>, i: usize) -> (yes: bool)
    requires
        i < tokens.len(),
    ensures
        yes == closes_angle(views(tokens@), i as int),
{
    if !token_is_punct(&tokens[i], '>') {
        return false;
    }
    if i == 0 {
        return true;
    }
    match &tokens[i - 1] {
        Token::Punct { ch, spacing, .. } => !(*ch == '-' && *spacing == Spacing::Joint),
        _ => true,
    }
}

/// Finds the `>` that closes the angle bracket opened just before `from`.
fn find_angle_close(tokens: &Vec<Token>, from: usize) -> (close: Option<usize>)
    requires
        from >= 1,
    ensures
        match close {
            Some(at) => angle_close(views(tokens@), from as int, 1) == Some(at as int) && from
                <= at < tokens.len(),
            None => angle_close(views(tokens@), from as int, 1) is None,
        },
{
    if from >= tokens.len() {
        return None;
    }
    let mut i: usize = from;
    let mut depth: usize = 1;
    while i < tokens.len()
        invariant
            1 <= from <= i <= tokens.len(),
            1 <= depth <= i - from + 1,
            angle_close(views(tokens@), from as int, 1) == angle_close(
                views(tokens@),
                i as int,
                depth as nat,
            ),
        decreases tokens.len() - i,
    {
        if token_closes_angle(tokens, i) {
            if depth == 1 {
                return Some(i);
            }
            depth -= 1;
        } else if token_is_punct(&tokens[i], '<') {
            depth += 1;
        }
        i += 1;
    }
    None
}

/// What the syntax library answered about the tokens of an argument,
/// position by position: whether the token there was accepted as a name,
/// and whether the angle brackets opened there were accepted as a list of
/// generic parameters.
#[derive(Debug, PartialEq, Eq)]
pub struct Answers {
    pub names: Vec<bool>,
    pub generics: Vec<bool>,
}

impl View for Answers {
    type V = AnswersView;

    open spec fn view(&self) -> AnswersView {
        AnswersView { names: self.names@, generics: self.generics@ }
    }
}

/// Whether the answer at `i` is a yes.
pub fn answer_at(table: &Vec<bool>, i: usize) -> (yes: bool)
    ensures
        yes == yes_at(table@, i as int),
{
    i < table.len() && table[i]
}

/// Whether a yes about a name at `pos` makes sense: an identifier stands
/// there.
pub open spec fn name_question(tokens: Seq<TokenView>, pos: int) -> bool {
    0 <= pos < tokens.len() && tokens[pos] is Ident
}

/// Whether a yes about the angle brackets opened at `open` makes sense: a
/// `<` stands there and it is closed.
pub open spec fn generics_question(tokens: Seq<TokenView>, open: int) -> bool {
    0 <= open < tokens.len() && is_punct(tokens[open], '<') && angle_close(tokens, open + 1, 1)
        is Some
}

/// The text of the brackets opened at `open`, with what they hold, as the
/// syntax library is shown it.
pub open spec fn generics_text(tokens: Seq<TokenView>, open: int) -> Seq<char> {
    tokens_text(
        angle_list(tokens.subrange(open + 1, angle_close(tokens, open + 1, 1)->Some_0)),
    )
}

/// Whether the brackets opened at `open` are accepted unseen: they are
/// closed, but a literal can be made of their text, so that the syntax
/// library is not shown them.
pub open spec fn generics_unseen(tokens: Seq<TokenView>, open: int) -> bool {
    generics_question(tokens, open) && !no_literal(generics_text(tokens, open))
}

/// Whether the answers can be those about the tokens: there is one of each
/// kind for every token; a yes stands only where the question made sense;
/// and a yes stands wherever brackets are accepted unseen.
pub open spec fn sensible(answers: AnswersView, tokens: Seq<TokenView>) -> bool {
    &&& answers.names.len() == tokens.len()
    &&& answers.generics.len() == tokens.len()
    &&& forall|i: int|
        0 <= i < tokens.len() && #[trigger] answers.names[i] ==> name_question(tokens, i)
    &&& forall|i: int|
        0 <= i < tokens.len() ==> (#[trigger] answers.generics[i] ==> generics_question(
            tokens,
            i,
        )) && (generics_unseen(tokens, i) ==> answers.generics[i])
}

/// Asks whether the token at `pos` is a name. What is shown to the syntax
/// library is the text of the identifier there; without one the answer is
/// a no.
pub fn ask_name(tokens: &Vec<Token>, pos: usize) -> (yes: bool)
    ensures
        yes ==> name_question(views(tokens@), pos as int),
{
    if pos >= tokens.len() {
        return false;
    }
    match &tokens[pos] {
        Token::Ident { name, .. } => is_identifier(name.as_str()),
        _ => false,
    }
}

/// Asks whether the angle brackets opened at `open` hold a list of generic
/// parameters. What is shown to the syntax library is the text of the
/// parameters between two angle brackets. Without brackets that are closed
/// the answer is a no. Where a literal can be made of the text, the
/// library is not asked and the answer is a yes: closed brackets are then
/// all that is looked for.
pub fn ask_generics(tokens: &Vec<Token>, open: usize) -> (yes: bool)
    ensures
        yes ==> generics_question(views(tokens@), open as int),
        generics_unseen(views(tokens@), open as int) ==> yes,
{
    if open >= tokens.len() || !token_is_punct(&tokens[open], '<') {
        return false;
    }
    match find_angle_close(tokens, open + 1) {
        None => false,
        Some(close) => {
            let inner = copy_range(tokens, open + 1, close);
            let mut bracketed: Vec<Token> = Vec::new();
            push_angle_list(&mut bracketed, &inner);
            assert(views(bracketed@) =~= angle_list(views(inner@)));
            let text = render(&bracketed);
            if holds_no_literal(text.as_str()) {
                is_generics(text.as_str())
            } else {
                true
            }
        },
    }
}

/// Asks about every token of an argument.
pub fn consult(tokens: &Vec<Token>) -> (answers: Answers)
    ensures
        sensible(answers@, views(tokens@)),
{
    let mut names: Vec<bool> = Vec::new();
    let mut generics: Vec<bool> = Vec::new();
    let mut i: usize = 0;
    while i < tokens.len()
        invariant
            i <= tokens.len(),
            names.len() == i,
            generics.len() == i,
            forall|j: int| 0 <= j < i && #[trigger] names@[j] ==> name_question(views(tokens@), j),
            forall|j: int|
                0 <= j < i ==> (#[trigger] generics@[j] ==> generics_question(views(tokens@), j))
                    && (generics_unseen(views(tokens@), j) ==> generics@[j]),
        decreases tokens.len() - i,
    {
        names.push(ask_name(tokens, i));
        generics.push(ask_generics(tokens, i));
        i += 1;
    }
    Answers { names, generics }
}

impl IdentAndGenerics {
    /// Reads one name with its type parameters at `pos`, given whether the
    /// token there was accepted as a name and whether the brackets behind
    /// it were accepted as a list of generic parameters. On success the
    /// second part of the result is the position of the next token.
    pub fn read(tokens: &Vec<Token>, pos: usize, name_ok: bool, generics_ok: bool) -> (result:
        Result<(IdentAndGenerics, usize), ParseError>)
        ensures
            named_outcome(result) == spec_named(views(tokens@), pos as int, name_ok, generics_ok),
            result matches Ok((item, next)) ==> well_formed_named(item@) && pos < next
                <= tokens.len(),
    {
        proof {
            named_is_well_formed(views(tokens@), pos as int, name_ok, generics_ok);
            spec_named_advances(views(tokens@), pos as int, name_ok, generics_ok);
        }
        if pos >= tokens.len() || !name_ok {
            return Err(ParseError { kind: ParseErrorKind::ExpectedIdentifier, position: pos });
        }
        let ident = match &tokens[pos] {
            Token::Ident { name, span } => Ident { name: name.clone(), span: *span },
            _ => {
                return Err(ParseError { kind: ParseErrorKind::ExpectedIdentifier, position: pos });
            },
        };
        if pos + 1 < tokens.len() && token_is_punct(&tokens[pos + 1], '<') {
            match find_angle_close(tokens, pos + 2) {
                None => Err(
                    ParseError { kind: ParseErrorKind::UnclosedTypeParameters, position: pos + 1 },
                ),
                Some(close) => {
                    if !generics_ok {
                        return Err(
                            ParseError {
                                kind: ParseErrorKind::InvalidTypeParameters,
                                position: pos + 1,
                            },
                        );
                    }
                    let generics = copy_range(tokens, pos + 2, close);
                    Ok((IdentAndGenerics { ident, generics }, close + 1))
                },
            }
        } else {
            let item = IdentAndGenerics { ident, generics: Vec::new() };
            assert(item@.generics =~= Seq::empty());
            Ok((item, pos + 1))
        }
    }

    /// Reads one name with its type parameters at `pos`, after asking the
    /// syntax library about the name and about the brackets behind it.
    /// Whatever it answers, the result is what `read` makes of the answers.
    pub fn parse(tokens: &Vec<Token>, pos: usize) -> (result: Result<
        (IdentAndGenerics, usize),
        ParseError,
    >)
        ensures
            exists|name_ok: bool, generics_ok: bool|
                {
                    &&& named_outcome(result) == #[trigger] spec_named(
                        views(tokens@),
                        pos as int,
                        name_ok,
                        generics_ok,
                    )
                    &&& name_ok ==> name_question(views(tokens@), pos as int)
                    &&& generics_ok ==> generics_question(views(tokens@), pos + 1)
                    &&& generics_unseen(views(tokens@), pos + 1) ==> generics_ok
                },
            result matches Ok((item, next)) ==> well_formed_named(item@) && pos < next
                <= tokens.len(),
    {
        let name_ok = ask_name(tokens, pos);
        let generics_ok = pos < tokens.len() && ask_generics(tokens, pos + 1);
        Self::read(tokens, pos, name_ok, generics_ok)
    }
}

/// The list read so far, followed by what reading the rest returns.
pub open spec fn then_rest(
    done: Seq<IdentAndGenericsView>,
    rest: Result<Seq<IdentAndGenericsView>, ParseError>,
) -> Result<Seq<IdentAndGenericsView>, ParseError> {
    match rest {
        Ok(items) => Ok(done + items),
        Err(e) => Err(e),
    }
}

impl TraitAndImpls {
    /// Reads the argument of the attribute under the given answers. The
    /// tokens are read as they are: a group without brackets is no name.
    ///
    /// Succeeds exactly on `Trait<params> = Type<params>, ...` with at least
    /// one implementer, where every name and every list of parameters was
    /// accepted; the result then holds the names and the type parameters
    /// as written, in order. Otherwise the error names the first token,
    /// from the left, at which the argument goes wrong.
    pub fn parse_with(tokens: &Vec<Token>, answers: &Answers) -> (result: Result<
        TraitAndImpls,
        ParseError,
    >)
        ensures
            parse_outcome(result) == spec_parse(views(tokens@), answers@),
            result matches Ok(parsed) ==> well_formed(parsed@),
    {
        proof {
            parsed_argument_is_well_formed(views(tokens@), answers@);
        }
        let (base_trait, after) = match IdentAndGenerics::read(
            tokens,
            0,
            answer_at(&answers.names, 0),
            answer_at(&answers.generics, 1),
        ) {
            Ok(read) => read,
            Err(e) => {
                return Err(e);
            },
        };
        if after >= tokens.len() || !token_is_punct(&tokens[after], '=') {
            return Err(ParseError { kind: ParseErrorKind::ExpectedSeparator, position: after });
        }
        if after + 1 >= tokens.len() {
            return Err(ParseError { kind: ParseErrorKind::NoImplementers, position: after + 1 });
        }
        let ghost all = views(tokens@);
        let mut structs: Vec<IdentAndGenerics> = Vec::new();
        let mut pos: usize = after + 1;
        loop
            invariant
                all == views(tokens@),
                pos < tokens.len(),
                spec_implementers(all, answers@, after + 1) == then_rest(
                    named_views(structs@),
                    spec_implementers(all, answers@, pos as int),
                ),
                spec_named_at(all, answers@, 0) == Ok::<(IdentAndGenericsView, int), ParseError>(
                    (base_trait@, after as int),
                ),
                after + 1 < tokens.len(),
                is_punct(all[after as int], '='),
            decreases tokens.len() - pos,
        {
            let (item, next) = match IdentAndGenerics::read(
                tokens,
                pos,
                answer_at(&answers.names, pos),
                answer_at(&answers.generics, pos + 1),
            ) {
                Ok(read) => read,
                Err(e) => {
                    return Err(e);
                },
            };
            proof {
                parsed_argument_is_well_formed(all, answers@);
            }
            let ghost done = named_views(structs@);
            structs.push(item);
            assert(named_views(structs@) =~= done + seq![item@]);
            if next >= tokens.len() {
                return Ok(TraitAndImpls { base_trait, structs });
            }
            if !token_is_punct(&tokens[next], ',') {
                return Err(ParseError { kind: ParseErrorKind::ExpectedComma, position: next });
            }
            if next + 1 >= tokens.len() {
                return Ok(TraitAndImpls { base_trait, structs });
            }
            proof {
                let rest = spec_implementers(all, answers@, next + 1);
                if rest is Ok {
                    assert(done + (seq![item@] + rest->Ok_0) =~= (done + seq![item@]) + rest->Ok_0);
                }
            }
            pos = next + 1;
        }
    }

    /// Reads the argument of the attribute. Groups without brackets are
    /// looked through first, and the syntax library is asked about every
    /// token that is then left. Whatever it answers, the result is what
    /// `parse_with` makes of those tokens and the answers; positions count
    /// the tokens that are left.
    pub fn parse(tokens: &Vec<Token>) -> (result: Result<TraitAndImpls, ParseError>)
        ensures
            exists|answers: AnswersView|
                sensible(answers, spliced(views(tokens@))) && parse_outcome(result)
                    == #[trigger] spec_parse(spliced(views(tokens@)), answers),
            result matches Ok(parsed) ==> well_formed(parsed@),
    {
        let flat = splice(tokens);
        let answers = consult(&flat);
        Self::parse_with(&flat, &answers)
    }
}

impl Ident {
    /// The identifier as a token.
    pub fn to_token(&self) -> (token: Token)
        ensures
            token@ == ident_token(self@),
    {
        Token::Ident { name: self.name.clone(), span: self.span }
    }
}

impl IdentAndGenerics {
    /// Appends the name with its type parameters to `out`, as it is
    /// written: the parameters, if there are any, between angle brackets.
    pub fn push_to(&self, out: &mut Vec<Token>)
        ensures
            views(final(out)@) == views(old(out)@) + named_tokens(self@),
    {
        push_token(out, self.ident.to_token());
        push_angle_list(out, &self.generics);
        assert(views(out@) =~= views(old(out)@) + named_tokens(self@));
    }
}

impl TraitAndImpls {
    /// Writes the argument out: the trait, an `=`, and the implementers
    /// with a comma between each two. Reading the result gives the
    /// argument back.
    pub fn to_tokens(&self) -> (tokens: Vec<Token>)
        ensures
            views(tokens@) == argument_tokens(self@),
            well_formed(self@) ==> forall|answers: AnswersView|
                accepts_all(answers, views(tokens@).len()) ==> #[trigger] spec_parse(
                    views(tokens@),
                    answers,
                ) == Ok::<TraitAndImplsView, ParseError>(self@),
    {
        let ghost all = named_views(self.structs@);
        let mut tokens: Vec<Token> = Vec::new();
        self.base_trait.push_to(&mut tokens);
        push_token(&mut tokens, mark('='));
        let ghost head = views(tokens@);
        let mut i: usize = 0;
        assert(all.take(0) =~= Seq::empty());
        assert(head + implementers_tokens(all.take(0)) =~= head);
        while i < self.structs.len()
            invariant
                i <= self.structs.len(),
                all == named_views(self.structs@),
                head == named_tokens(self@.base_trait) + seq![mark_token('=')],
                views(tokens@) == head + implementers_tokens(all.take(i as int)),
            decreases self.structs.len() - i,
        {
            let ghost before = implementers_tokens(all.take(i as int));
            if i > 0 {
                push_token(&mut tokens, mark(','));
            }
            self.structs[i].push_to(&mut tokens);
            proof {
                assert(all.take(i + 1) =~= all.take(i as int).push(self.structs[i as int]@));
                one_more_implementer(all.take(i as int), self.structs[i as int]@);
                if i > 0 {
                    assert(views(tokens@) =~= head + (before + seq![mark_token(',')]
                        + named_tokens(self.structs[i as int]@)));
                } else {
                    assert(views(tokens@) =~= head + named_tokens(self.structs[i as int]@));
                }
            }
            i += 1;
        }
        proof {
            assert(all.take(self.structs.len() as int) =~= all);
            assert(argument_tokens(self@) + comma_if(false) =~= argument_tokens(self@));
            if well_formed(self@) {
                assert forall|answers: AnswersView|
                    accepts_all(answers, views(tokens@).len()) implies #[trigger] spec_parse(
                    views(tokens@),
                    answers,
                ) == Ok::<TraitAndImplsView, ParseError>(self@) by {
                    written_argument_is_read_back(self@, false, answers);
                }
            }
        }
        tokens
    }
}

/// The type parameter that stands for any implementer: `TraitChecker`,
/// bounded by the trait with its type parameters.
pub open spec fn checker_param(base_trait: IdentAndGenericsView) -> Seq<TokenView> {
    seq![word_token("TraitChecker"@), mark_token(':')] + named_tokens(base_trait)
}

/// Whether the bound is accepted unseen: a literal can be made of the text
/// of the type parameter, so that the syntax library is not shown it.
pub open spec fn bound_unseen(base_trait: IdentAndGenericsView) -> bool {
    !no_literal(tokens_text(checker_param(base_trait)))
}

/// The comma that must stand between the trait's type parameters and one
/// more: none where there are no parameters, or where they end in a comma.
pub open spec fn joining_comma(params: Seq<TokenView>) -> Seq<TokenView> {
    if params.len() > 0 && !is_punct(params.last(), ',') {
        seq![mark_token(',')]
    } else {
        Seq::empty()
    }
}

/// The function that only a type with the trait can be put into:
/// `fn check<params, TraitChecker: Trait<params>>(item: TraitChecker) {}`.
pub open spec fn probe(base_trait: IdentAndGenericsView) -> Seq<TokenView> {
    seq![word_token("fn"@), word_token("check"@), mark_token('<')] + base_trait.generics
        + joining_comma(base_trait.generics) + checker_param(base_trait) + seq![
        mark_token('>'),
        group_token(
            Delimiter::Parenthesis,
            seq![word_token("item"@), mark_token(':'), word_token("TraitChecker"@)],
        ),
        group_token(Delimiter::Brace, Seq::empty()),
    ]
}

/// Whether a type parameter is a lifetime: it begins with a `'`.
pub open spec fn is_lifetime_param(param: Seq<TokenView>) -> bool {
    param.len() > 0 && is_punct(param[0], '\'')
}

/// How many of the type parameters are no lifetimes.
pub open spec fn inferred_count(params: Seq<Seq<TokenView>>) -> nat
    decreases params.len(),
{
    if params.len() == 0 {
        0
    } else {
        inferred_count(params.drop_last()) + if is_lifetime_param(params.last()) {
            0nat
        } else {
            1nat
        }
    }
}

/// As many times `_,` as `count` says, at the place `span`.
pub open spec fn placeholders(count: nat, span: Span) -> Seq<TokenView>
    decreases count,
{
    if count == 0 {
        Seq::empty()
    } else {
        placeholders((count - 1) as nat, span) + seq![
            TokenView::Ident { name: "_"@, span },
            TokenView::Punct { ch: ',', spacing: Spacing::Alone, span },
        ]
    }
}

/// The statement `check::<_, Type<params>>;` behind `count` parameters
/// that are left to the compiler: the implementer with its own parameters
/// stands in the place of `TraitChecker`. Every token that is not the
/// implementer's own stands where the implementer was named.
pub open spec fn instantiation_with(count: nat, implementer: IdentAndGenericsView) -> Seq<
    TokenView,
> {
    let span = implementer.ident.span;
    seq![
        TokenView::Ident { name: "check"@, span },
        TokenView::Punct { ch: ':', spacing: Spacing::Joint, span },
        TokenView::Punct { ch: ':', spacing: Spacing::Alone, span },
        TokenView::Punct { ch: '<', spacing: Spacing::Alone, span },
    ] + placeholders(count, span) + named_tokens(implementer) + seq![
        TokenView::Punct { ch: '>', spacing: Spacing::Alone, span },
        TokenView::Punct { ch: ';', spacing: Spacing::Alone, span },
    ]
}

/// The statement that puts one implementer to the probe. The trait's own
/// parameters that are no lifetimes are left to the compiler; its
/// lifetimes are not written at all.
pub open spec fn instantiation(
    base_trait: IdentAndGenericsView,
    implementer: IdentAndGenericsView,
) -> Seq<TokenView> {
    instantiation_with(inferred_count(spec_params(base_trait.generics)), implementer)
}

/// One such statement for each implementer, in their order.
pub open spec fn instantiations(
    base_trait: IdentAndGenericsView,
    structs: Seq<IdentAndGenericsView>,
) -> Seq<TokenView>
    decreases structs.len(),
{
    if structs.len() == 0 {
        Seq::empty()
    } else {
        instantiations(base_trait, structs.drop_last()) + instantiation(
            base_trait,
            structs.last(),
        )
    }
}

/// The name of the function that holds the checks for the test `test`.
pub open spec fn check_name(test: Seq<char>) -> Seq<char> {
    "_"@ + name_fragment(test) + "_ImplCheck"@
}

/// The name of the checking function as a token, at the place where the
/// test was named.
pub open spec fn check_fn_name(fn_ident: IdentView) -> TokenView {
    TokenView::Ident { name: check_name(fn_ident.name), span: fn_ident.span }
}

/// The function that fails to compile unless every implementer has the
/// trait.
pub open spec fn impl_checks(parsed: TraitAndImplsView, fn_ident: IdentView) -> Seq<TokenView> {
    allow_attr("path_statements"@) + allow_attr("non_snake_case"@) + seq![
        word_token("fn"@),
        check_fn_name(fn_ident),
        unit_token(),
        group_token(
            Delimiter::Brace,
            probe(parsed.base_trait) + instantiations(parsed.base_trait, parsed.structs),
        ),
    ]
}

/// Whether the type parameter is a lifetime.
fn param_is_lifetime(param: &Vec<Token>) -> (yes: bool)
    ensures
        yes == is_lifetime_param(views(param@)),
{
    param.len() > 0 && token_is_punct(&param[0], '\'')
}

/// Appends `count` times `_,` to `out`.
fn push_placeholders(out: &mut Vec<Token>, count: usize, span: Span)
    ensures
        views(final(out)@) == views(old(out)@) + placeholders(count as nat, span),
{
    let ghost before = views(out@);
    let mut i: usize = 0;
    assert(before + placeholders(0, span) =~= before);
    while i < count
        invariant
            i <= count,
            views(out@) == before + placeholders(i as nat, span),
        decreases count - i,
    {
        push_token(out, Token::ident("_", span));
        push_token(out, Token::punct(',', Spacing::Alone, span));
        assert(views(out@) =~= before + placeholders((i + 1) as nat, span));
        i += 1;
    }
}

/// Appends the statement that puts one implementer to the probe to `out`.
fn push_instantiation(out: &mut Vec<Token>, count: usize, implementer: &IdentAndGenerics)
    ensures
        views(final(out)@) == views(old(out)@) + instantiation_with(count as nat, implementer@),
{
    let span = implementer.ident.span;
    push_token(out, Token::ident("check", span));
    push_token(out, Token::punct(':', Spacing::Joint, span));
    push_token(out, Token::punct(':', Spacing::Alone, span));
    push_token(out, Token::punct('<', Spacing::Alone, span));
    push_placeholders(out, count, span);
    implementer.push_to(out);
    push_token(out, Token::punct('>', Spacing::Alone, span));
    push_token(out, Token::punct(';', Spacing::Alone, span));
    assert(views(out@) =~= views(old(out)@) + instantiation_with(count as nat, implementer@));
}

impl TraitAndImpls {
    /// The tokens of the type parameter that stands for any implementer:
    /// `TraitChecker: Trait<params>`.
    pub fn checker_param_tokens(base_trait: &IdentAndGenerics) -> (tokens: Vec<Token>)
        ensures
            views(tokens@) == checker_param(base_trait@),
    {
        let mut tokens: Vec<Token> = Vec::new();
        push_token(&mut tokens, word("TraitChecker"));
        push_token(&mut tokens, mark(':'));
        base_trait.push_to(&mut tokens);
        assert(views(tokens@) =~= checker_param(base_trait@));
        tokens
    }

    /// The type parameter `TraitChecker: Trait<params>`, if the syntax
    /// library takes the trait with its parameters for a bound. Whatever
    /// it answers, a parameter that is returned is the one above. Where a
    /// literal can be made of its text, the library is not asked and the
    /// parameter is returned unseen.
    pub fn generate_type_param_for_trait(base_trait: &IdentAndGenerics) -> (param: Option<
        Vec<Token>,
    >)
        ensures
            param matches Some(tokens) ==> views(tokens@) == checker_param(base_trait@),
            bound_unseen(base_trait@) ==> param is Some,
    {
        let tokens = Self::checker_param_tokens(base_trait);
        let text = render(&tokens);
        if !holds_no_literal(text.as_str()) || is_type_param(text.as_str()) {
            Some(tokens)
        } else {
            None
        }
    }

    /// How many type parameters of the trait are no lifetimes.
    pub fn inferred_params(&self) -> (count: usize)
        ensures
            count == inferred_count(spec_params(self@.base_trait.generics)),
    {
        let params = self.base_trait.params();
        let ghost all = nested_views(params@);
        let mut count: usize = 0;
        let mut i: usize = 0;
        assert(all.take(0) =~= Seq::empty());
        while i < params.len()
            invariant
                i <= params.len(),
                all == nested_views(params@),
                count <= i,
                count == inferred_count(all.take(i as int)),
            decreases params.len() - i,
        {
            proof {
                assert(all.take(i + 1).drop_last() =~= all.take(i as int));
                assert(all.take(i + 1).last() == views(params[i as int]@));
            }
            if !param_is_lifetime(&params[i]) {
                count += 1;
            }
            i += 1;
        }
        assert(all.take(params.len() as int) =~= all);
        count
    }

    /// The function that makes the compiler check, once and in one place,
    /// that every implementer has the trait:
    ///
    /// ```text
    /// fn _test_ImplCheck() {
    ///     fn check<'a, T, TraitChecker: Trait<'a, T>>(item: TraitChecker) {}
    ///     check::<_, First<params>>;
    ///     check::<_, Second>;
    /// }
    /// ```
    pub fn output_impl_checks(&self, fn_ident: &Ident) -> (checks: Vec<Token>)
        ensures
            views(checks@) == impl_checks(self@, fn_ident@),
    {
        let extra_generic = Self::checker_param_tokens(&self.base_trait);

        let mut body: Vec<Token> = Vec::new();
        push_token(&mut body, word("fn"));
        push_token(&mut body, word("check"));
        push_token(&mut body, mark('<'));
        extend_from(&mut body, &self.base_trait.generics);
        let params = &self.base_trait.generics;
        if params.len() > 0 && !token_is_punct(&params[params.len() - 1], ',') {
            push_token(&mut body, mark(','));
        }
        extend_from(&mut body, &extra_generic);
        push_token(&mut body, mark('>'));
        let mut argument: Vec<Token> = Vec::new();
        push_token(&mut argument, word("item"));
        push_token(&mut argument, mark(':'));
        push_token(&mut argument, word("TraitChecker"));
        assert(views(argument@) =~= seq![
            word_token("item"@),
            mark_token(':'),
            word_token("TraitChecker"@),
        ]);
        push_token(&mut body, group(Delimiter::Parenthesis, argument));
        let nothing: Vec<Token> = Vec::new();
        assert(views(nothing@) =~= Seq::empty());
        push_token(&mut body, group(Delimiter::Brace, nothing));
        assert(views(body@) =~= probe(self@.base_trait));

        let count = self.inferred_params();
        let ghost all = named_views(self.structs@);
        let ghost base = self@.base_trait;
        let mut i: usize = 0;
        assert(all.take(0) =~= Seq::empty());
        while i < self.structs.len()
            invariant
                i <= self.structs.len(),
                all == named_views(self.structs@),
                base == self@.base_trait,
                count == inferred_count(spec_params(base.generics)),
                views(body@) == probe(base) + instantiations(base, all.take(i as int)),
            decreases self.structs.len() - i,
        {
            push_instantiation(&mut body, count, &self.structs[i]);
            proof {
                assert(all.take(i + 1).drop_last() =~= all.take(i as int));
                assert(all.take(i + 1).last() == self.structs[i as int]@);
            }
            i += 1;
        }
        assert(all.take(self.structs.len() as int) =~= all);

        let mut name = String::from_str("_");
        name.append(fragment(&fn_ident.name).as_str());
        name.append("_ImplCheck");
        let mut checks: Vec<Token> = Vec::new();
        push_allow(&mut checks, "path_statements");
        push_allow(&mut checks, "non_snake_case");
        push_token(&mut checks, word("fn"));
        push_token(&mut checks, Token::Ident { name, span: fn_ident.span });
        push_token(&mut checks, unit());
        push_token(&mut checks, group(Delimiter::Brace, body));
        assert(views(checks@) =~= impl_checks(self@, fn_ident@));
        checks
    }
}

/// The values of a sequence of token sequences.
pub open spec fn nested_views(lists: Seq<Vec<Token>>) -> Seq<Seq<TokenView>> {
    Seq::new(lists.len(), |i: int| views(lists[i]@))
}

impl IdentAndGenerics {
    /// The type parameters, one by one, in the order in which they were
    /// written.
    pub fn params(&self) -> (params: Vec<Vec<Token>>)
        ensures
            nested_views(params@) == spec_params(self@.generics),
    {
        let tokens = &self.generics;
        let ghost all = views(tokens@);
        let mut params: Vec<Vec<Token>> = Vec::new();
        let mut start: usize = 0;
        let mut depth: usize = 0;
        let mut i: usize = 0;
        assert(nested_views(params@) =~= Seq::empty());
        while i < tokens.len()
            invariant
                all == views(tokens@),
                start <= i <= tokens.len(),
                depth <= i,
                spec_params(all) == nested_views(params@) + params_from(
                    all,
                    start as int,
                    i as int,
                    depth as nat,
                ),
            decreases tokens.len() - i,
        {
            if depth == 0 && token_is_punct(&tokens[i], ',') {
                let ghost done = nested_views(params@);
                let param = copy_range(tokens, start, i);
                params.push(param);
                assert(nested_views(params@) =~= done + seq![all.subrange(start as int, i as int)]);
                assert(done + (seq![all.subrange(start as int, i as int)] + params_from(
                    all,
                    i + 1,
                    i + 1,
                    0,
                )) =~= nested_views(params@) + params_from(all, i + 1, i + 1, 0));
                start = i + 1;
            } else if token_is_punct(&tokens[i], '<') {
                depth += 1;
            } else if depth > 0 && token_closes_angle(tokens, i) {
                depth -= 1;
            }
            i += 1;
        }
        if start < tokens.len() {
            let ghost done = nested_views(params@);
            let param = copy_range(tokens, start, tokens.len());
            params.push(param);
            assert(nested_views(params@) =~= done + seq![
                all.subrange(start as int, tokens.len() as int),
            ]);
        } else {
            assert(nested_views(params@) + Seq::<Seq<TokenView>>::empty() =~= nested_views(
                params@,
            ));
        }
        params
    }
}

} // verus!
