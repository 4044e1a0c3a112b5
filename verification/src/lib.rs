//! Verified core of an attribute that runs one test body against several
//! implementations of a trait.
//!
//! The attribute is written `#[test_impl(Trait = First, Second)]` on a
//! function. The function's body is repeated once for each implementer,
//! each time inside a function of its own in which the trait's name stands
//! for that implementer. A second function is put in front, which compiles
//! only if every implementer has the trait.

pub mod fragments;
pub mod grammar;
pub mod guard;
pub mod item_fn;
pub mod laws;
pub mod macro_args;
pub mod syntax;
pub mod token;

use vstd::prelude::*;
use vstd::string::*;
use crate::fragments::{
    fragment, group, group_token, mark, mark_token, name_fragment, unit, unit_token, word,
    word_token,
};
use crate::item_fn::{
    function_question, function_unseen, spec_item_fn, ItemFn, ItemFnView,
};
use crate::grammar::{
    message_text, named_tokens, spec_parse, AnswersView, IdentAndGenericsView, IdentView,
    ParseError, TraitAndImplsView,
};
use crate::macro_args::{
    bound_unseen, consult, impl_checks, named_views, sensible, Answers, IdentAndGenerics,
    TraitAndImpls,
};
use crate::token::{
    extend_from, push_token, splice, spliced, views, Delimiter, Token, TokenView,
};

verus! {

/// The name of the function that holds the body for one implementer.
pub open spec fn inner_name(implementer: Seq<char>) -> Seq<char> {
    "impl_"@ + name_fragment(implementer)
}

/// The name of that function as a token, at the place where the
/// implementer was named.
pub open spec fn inner_fn_name(implementer: IdentView) -> TokenView {
    TokenView::Ident { name: inner_name(implementer.name), span: implementer.span }
}

/// The statement that makes the trait's name stand for the implementer:
/// `type Trait<params> = Type<params>;`.
pub open spec fn alias(
    base_trait: IdentAndGenericsView,
    implementer: IdentAndGenericsView,
) -> Seq<TokenView> {
    seq![word_token("type"@)] + named_tokens(base_trait) + seq![mark_token('=')] + named_tokens(
        implementer,
    ) + seq![mark_token(';')]
}

/// The function that holds the body for one implementer:
/// `fn impl_Type() { type Trait = Type; stmts }`.
pub open spec fn definition(
    base_trait: IdentAndGenericsView,
    implementer: IdentAndGenericsView,
    stmts: Seq<TokenView>,
) -> Seq<TokenView> {
    seq![
        word_token("fn"@),
        inner_fn_name(implementer.ident),
        unit_token(),
        group_token(Delimiter::Brace, alias(base_trait, implementer) + stmts),
    ]
}

/// The call of the function for one implementer: `impl_Type();`.
pub open spec fn invocation(implementer: IdentAndGenericsView) -> Seq<TokenView> {
    seq![inner_fn_name(implementer.ident), unit_token(), mark_token(';')]
}

/// The body for one implementer, defined and then called.
pub open spec fn impl_block(
    base_trait: IdentAndGenericsView,
    implementer: IdentAndGenericsView,
    stmts: Seq<TokenView>,
) -> Seq<TokenView> {
    definition(base_trait, implementer, stmts) + invocation(implementer)
}

/// The bodies for all implementers, in their order.
pub open spec fn impl_blocks(
    base_trait: IdentAndGenericsView,
    structs: Seq<IdentAndGenericsView>,
    stmts: Seq<TokenView>,
) -> Seq<TokenView>
    decreases structs.len(),
{
    if structs.len() == 0 {
        Seq::empty()
    } else {
        impl_blocks(base_trait, structs.drop_last(), stmts) + impl_block(
            base_trait,
            structs.last(),
            stmts,
        )
    }
}

/// The function with its body replaced: its attributes, its visibility
/// and signature, and the bodies for all implementers in braces.
pub open spec fn mapped_function(func: ItemFnView, parsed: TraitAndImplsView) -> Seq<TokenView> {
    func.attrs + func.signature + seq![
        group_token(
            Delimiter::Brace,
            impl_blocks(parsed.base_trait, parsed.structs, func.stmts),
        ),
    ]
}

/// Appends the body for one implementer to `out`.
fn push_impl_block(
    out: &mut Vec<Token>,
    base_trait: &IdentAndGenerics,
    implementer: &IdentAndGenerics,
    stmts: &Vec<Token>,
)
    ensures
        views(final(out)@) == views(old(out)@) + impl_block(
            base_trait@,
            implementer@,
            views(stmts@),
        ),
{
    let part = fragment(&implementer.ident.name);
    let mut fn_name = String::from_str("impl_");
    fn_name.append(part.as_str());
    let span = implementer.ident.span;

    let mut body: Vec<Token> = Vec::new();
    push_token(&mut body, word("type"));
    base_trait.push_to(&mut body);
    push_token(&mut body, mark('='));
    implementer.push_to(&mut body);
    push_token(&mut body, mark(';'));
    assert(views(body@) =~= alias(base_trait@, implementer@));
    extend_from(&mut body, stmts);

    push_token(out, word("fn"));
    push_token(out, Token::Ident { name: fn_name.clone(), span });
    push_token(out, unit());
    push_token(out, group(Delimiter::Brace, body));
    push_token(out, Token::Ident { name: fn_name, span });
    push_token(out, unit());
    push_token(out, mark(';'));
    assert(views(out@) =~= views(old(out)@) + impl_block(
        base_trait@,
        implementer@,
        views(stmts@),
    ));
}

/// Takes the function and repeats its body for each of the implementers.
///
/// ```text
/// #[test]
/// fn do_test() {
///     ExampleTrait::do_thing();
/// }
/// ```
///
/// becomes, for the implementers `ExampleStruct` and `ExampleStruct2`:
///
/// ```text
/// #[test]
/// fn do_test() {
///     fn impl_ExampleStruct() {
///         type ExampleTrait = ExampleStruct;
///         ExampleTrait::do_thing();
///     }
///     impl_ExampleStruct();
///
///     fn impl_ExampleStruct2() {
///         type ExampleTrait = ExampleStruct2;
///         ExampleTrait::do_thing();
///     }
///     impl_ExampleStruct2();
/// }
/// ```
pub fn repeat_function_with_mappings(func: &ItemFn, trait_and_impls: TraitAndImpls) -> (mapped:
    Vec<Token>)
    ensures
        views(mapped@) == mapped_function(func@, trait_and_impls@),
{
    let ghost all = named_views(trait_and_impls.structs@);
    let ghost base = trait_and_impls.base_trait@;
    let ghost stmts = views(func.stmts@);
    let mut impl_blocks: Vec<Token> = Vec::new();
    let mut i: usize = 0;
    assert(all.take(0) =~= Seq::empty());
    assert(views(impl_blocks@) =~= Seq::empty());
    while i < trait_and_impls.structs.len()
        invariant
            i <= trait_and_impls.structs.len(),
            all == named_views(trait_and_impls.structs@),
            base == trait_and_impls.base_trait@,
            stmts == views(func.stmts@),
            views(impl_blocks@) == self::impl_blocks(base, all.take(i as int), stmts),
        decreases trait_and_impls.structs.len() - i,
    {
        push_impl_block(
            &mut impl_blocks,
            &trait_and_impls.base_trait,
            &trait_and_impls.structs[i],
            &func.stmts,
        );
        proof {
            assert(all.take(i + 1).drop_last() =~= all.take(i as int));
            assert(all.take(i + 1).last() == trait_and_impls.structs[i as int]@);
        }
        i += 1;
    }
    assert(all.take(trait_and_impls.structs.len() as int) =~= all);

    let mut mapped: Vec<Token> = Vec::new();
    extend_from(&mut mapped, &func.attrs);
    extend_from(&mut mapped, &func.signature);
    push_token(&mut mapped, group(Delimiter::Brace, impl_blocks));
    assert(views(mapped@) =~= mapped_function(func@, trait_and_impls@));
    mapped
}

/// Why a function was left as it was.
#[derive(Clone, Copy, Debug, PartialEq, Eq, Structural)]
pub enum Diagnostic {
    /// The argument of the attribute could not be read.
    Arguments(ParseError),
    /// The attribute does not stand on a function.
    NotAFunction,
    /// The trait with its type parameters cannot be written as a bound.
    TraitNotABound,
}

/// The reason in words.
pub open spec fn diagnostic_text(diagnostic: Diagnostic) -> Seq<char> {
    match diagnostic {
        Diagnostic::Arguments(e) => "Could not parse macro arguments: "@ + message_text(e.kind),
        Diagnostic::NotAFunction => "You must use this macro with a function"@,
        Diagnostic::TraitNotABound => "The trait with its type parameters is no bound"@,
    }
}

impl Diagnostic {
    /// The reason in words.
    pub fn message(&self) -> (text: String)
        ensures
            text@ == diagnostic_text(*self),
    {
        match self {
            Diagnostic::Arguments(e) => {
                let mut text = String::from_str("Could not parse macro arguments: ");
                text.append(e.message().as_str());
                text
            },
            Diagnostic::NotAFunction => String::from_str(
                "You must use this macro with a function",
            ),
            Diagnostic::TraitNotABound => String::from_str(
                "The trait with its type parameters is no bound",
            ),
        }
    }
}

/// What takes the place of the function: new tokens, or the function as it
/// was together with the reason.
#[derive(Debug, PartialEq, Eq)]
pub struct Expansion {
    pub tokens: Vec<Token>,
    pub diagnostic: Option<Diagnostic>,
}

/// The mathematical value of an expansion.
pub struct ExpansionView {
    pub tokens: Seq<TokenView>,
    pub diagnostic: Option<Diagnostic>,
}

impl View for Expansion {
    type V = ExpansionView;

    open spec fn view(&self) -> ExpansionView {
        ExpansionView { tokens: views(self.tokens@), diagnostic: self.diagnostic }
    }
}

/// The function as it was, with the reason why.
pub open spec fn unchanged(input: Seq<TokenView>, reason: Diagnostic) -> ExpansionView {
    ExpansionView { tokens: input, diagnostic: Some(reason) }
}

/// What the attribute with the argument `args` makes of `input`, given the
/// answers of the syntax library: `answers` about the tokens of the
/// argument, `function_ok` about the signature of `input`, `bound_ok`
/// about the trait as a bound.
///
/// Groups without brackets are looked through in both. The argument is
/// read first, the function second, and the bound is looked at last; the
/// first of them that fails decides the reason.
pub open spec fn spec_test_impl(
    args: Seq<TokenView>,
    input: Seq<TokenView>,
    answers: AnswersView,
    function_ok: bool,
    bound_ok: bool,
) -> ExpansionView {
    match spec_parse(spliced(args), answers) {
        Err(e) => unchanged(input, Diagnostic::Arguments(e)),
        Ok(parsed) => match spec_item_fn(spliced(input), function_ok) {
            None => unchanged(input, Diagnostic::NotAFunction),
            Some(func) => if !bound_ok {
                unchanged(input, Diagnostic::TraitNotABound)
            } else {
                ExpansionView {
                    tokens: impl_checks(parsed, func.ident) + mapped_function(func, parsed),
                    diagnostic: None,
                }
            },
        },
    }
}

/// What the attribute makes of a function under given answers of the
/// syntax library: the function that checks the implementers followed by
/// the function with its body repeated; or, where the argument or the
/// function cannot be read or the trait is no bound, `input` as it was and
/// the reason.
pub fn test_impl_with(
    args: Vec<Token>,
    input: Vec<Token>,
    answers: &Answers,
    function_ok: bool,
    bound_ok: bool,
) -> (expansion: Expansion)
    ensures
        expansion@ == spec_test_impl(
            views(args@),
            views(input@),
            answers@,
            function_ok,
            bound_ok,
        ),
{
    let args = match TraitAndImpls::parse_with(&splice(&args), answers) {
        Ok(a) => a,
        Err(e) => {
            return Expansion { tokens: input, diagnostic: Some(Diagnostic::Arguments(e)) };
        },
    };

    let fn_def = match ItemFn::read(&splice(&input), function_ok) {
        Some(f) => f,
        None => {
            return Expansion { tokens: input, diagnostic: Some(Diagnostic::NotAFunction) };
        },
    };

    if !bound_ok {
        return Expansion { tokens: input, diagnostic: Some(Diagnostic::TraitNotABound) };
    }
    let mut tokens = args.output_impl_checks(&fn_def.ident);
    let mapped = repeat_function_with_mappings(&fn_def, args);
    extend_from(&mut tokens, &mapped);
    Expansion { tokens, diagnostic: None }
}

/// Runs a test once for each implementer of a trait, with the trait's name
/// standing for the implementer.
///
/// `args` is what stands between the parentheses of
/// `#[test_impl(ExampleTrait = ExampleStruct, ExampleStruct2)]`, `input`
/// is the function below it. The syntax library is asked about the tokens
/// of the argument, about the signature of the function and about the
/// trait as a bound. Whatever it answers, the result is what
/// `test_impl_with` makes of the answers.
pub fn test_impl(args: Vec<Token>, input: Vec<Token>) -> (expansion: Expansion)
    ensures
        exists|answers: AnswersView, function_ok: bool, bound_ok: bool|
            {
                &&& expansion@ == #[trigger] spec_test_impl(
                    views(args@),
                    views(input@),
                    answers,
                    function_ok,
                    bound_ok,
                )
                &&& sensible(answers, spliced(views(args@)))
                &&& function_ok ==> function_question(spliced(views(input@)))
                &&& function_unseen(spliced(views(input@))) ==> function_ok
                &&& spec_parse(spliced(views(args@)), answers) matches Ok(parsed) ==> (
                bound_unseen(parsed.base_trait) ==> bound_ok)
            },
{
    let flat = splice(&args);
    let answers = consult(&flat);
    let function_ok = ItemFn::ask(&splice(&input));
    let bound_ok = match TraitAndImpls::parse_with(&flat, &answers) {
        Ok(parsed) => TraitAndImpls::generate_type_param_for_trait(&parsed.base_trait).is_some(),
        Err(_) => false,
    };
    test_impl_with(args, input, &answers, function_ok, bound_ok)
}

} // verus!
