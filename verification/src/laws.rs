//! What holds of every argument and every function, whatever they are.

use vstd::prelude::*;
use crate::fragments::{angle_list, mark_token, name_fragment};
use crate::grammar::{
    angle_close, angle_close_shifts, argument_tokens, closes_angle, error_at, ident_token,
    implementers_tokens, is_punct, named_tokens, opens_angle, spec_implementers, spec_named,
    spec_named_at, spec_params, spec_parse, well_formed, well_formed_named, yes_at, AnswersView,
    IdentAndGenericsView, IdentView, ParseError, ParseErrorKind, TraitAndImplsView,
};
use crate::item_fn::ItemFnView;
use crate::macro_args::{
    check_name, impl_checks, inferred_count, instantiation, instantiation_with, instantiations,
    placeholders, probe,
};
use crate::token::{spliced, tokens_text, Delimiter, TokenView};
use crate::{
    definition, diagnostic_text, impl_block, impl_blocks, inner_name, invocation,
    mapped_function, spec_test_impl, unchanged, Diagnostic,
};

verus! {

/// The bodies for the implementers are seven tokens each, and the body for
/// the implementer at `i` stands at seven times `i`.
pub proof fn impl_blocks_by_position(
    base_trait: IdentAndGenericsView,
    structs: Seq<IdentAndGenericsView>,
    stmts: Seq<TokenView>,
)
    ensures
        impl_blocks(base_trait, structs, stmts).len() == 7 * structs.len(),
        forall|i: int|
            0 <= i < structs.len() ==> #[trigger] impl_blocks(base_trait, structs, stmts).subrange(
                7 * i,
                7 * i + 7,
            ) == impl_block(base_trait, structs[i], stmts),
    decreases structs.len(),
{
    if structs.len() > 0 {
        let front = structs.drop_last();
        impl_blocks_by_position(base_trait, front, stmts);
        let all = impl_blocks(base_trait, structs, stmts);
        let before = impl_blocks(base_trait, front, stmts);
        assert forall|i: int| 0 <= i < structs.len() implies #[trigger] all.subrange(
            7 * i,
            7 * i + 7,
        ) == impl_block(base_trait, structs[i], stmts) by {
            if i < front.len() {
                assert(all.subrange(7 * i, 7 * i + 7) =~= before.subrange(7 * i, 7 * i + 7));
                assert(front[i] == structs[i]);
            } else {
                assert(all.subrange(7 * i, 7 * i + 7) =~= impl_block(
                    base_trait,
                    structs.last(),
                    stmts,
                ));
            }
        }
    }
}

/// The new body of the function holds, for each implementer in the order
/// of the argument, the definition of one inner function and then one call
/// of it, and holds nothing else.
pub proof fn one_definition_and_one_call_per_implementer(
    func: ItemFnView,
    parsed: TraitAndImplsView,
)
    ensures
        mapped_function(func, parsed).last() matches TokenView::Group { delimiter, tokens, .. }
            && delimiter == Delimiter::Brace && tokens.len() == 7 * parsed.structs.len()
            && forall|i: int|
            0 <= i < parsed.structs.len() ==> #[trigger] tokens.subrange(7 * i, 7 * i + 4)
                == definition(parsed.base_trait, parsed.structs[i], func.stmts)
                && tokens.subrange(7 * i + 4, 7 * i + 7) == invocation(parsed.structs[i]),
{
    let tokens = impl_blocks(parsed.base_trait, parsed.structs, func.stmts);
    impl_blocks_by_position(parsed.base_trait, parsed.structs, func.stmts);
    let out = mapped_function(func, parsed);
    assert(out.last() == out[out.len() - 1]);
    assert forall|i: int| 0 <= i < parsed.structs.len() implies #[trigger] tokens.subrange(
        7 * i,
        7 * i + 4,
    ) == definition(parsed.base_trait, parsed.structs[i], func.stmts) && tokens.subrange(
        7 * i + 4,
        7 * i + 7,
    ) == invocation(parsed.structs[i]) by {
        let block = tokens.subrange(7 * i, 7 * i + 7);
        assert(block == impl_block(parsed.base_trait, parsed.structs[i], func.stmts));
        assert(tokens.subrange(7 * i, 7 * i + 4) =~= block.subrange(0, 4));
        assert(tokens.subrange(7 * i + 4, 7 * i + 7) =~= block.subrange(4, 7));
        assert(block.subrange(0, 4) =~= definition(
            parsed.base_trait,
            parsed.structs[i],
            func.stmts,
        ));
        assert(block.subrange(4, 7) =~= invocation(parsed.structs[i]));
    }
}

/// The statements that put the implementers to the probe, one by one.
pub open spec fn probes_of(
    base_trait: IdentAndGenericsView,
    structs: Seq<IdentAndGenericsView>,
) -> Seq<Seq<TokenView>> {
    Seq::new(structs.len(), |i: int| instantiation(base_trait, structs[i]))
}

/// The checks are the statements for the implementers, one after another
/// in the order of the implementers.
pub proof fn instantiations_in_order(
    base_trait: IdentAndGenericsView,
    structs: Seq<IdentAndGenericsView>,
)
    ensures
        instantiations(base_trait, structs) == probes_of(base_trait, structs).flatten(),
    decreases structs.len(),
{
    if structs.len() == 0 {
        assert(probes_of(base_trait, structs).flatten() =~= Seq::empty());
    } else {
        let front = structs.drop_last();
        instantiations_in_order(base_trait, front);
        let last = instantiation(base_trait, structs.last());
        assert(probes_of(base_trait, structs) =~= probes_of(base_trait, front).push(last));
        probes_of(base_trait, front).lemma_flatten_push(last);
    }
}

/// The body of the checking function holds the probe and then, for each
/// implementer in the order of the argument, one statement that puts this
/// implementer, with its own type parameters, in the place of the
/// parameter that is bound by the trait; and it holds nothing else. There
/// are as many statements as implementers.
pub proof fn one_instantiation_per_implementer(parsed: TraitAndImplsView, fn_ident: IdentView)
    ensures
        impl_checks(parsed, fn_ident).last() matches TokenView::Group { delimiter, tokens, .. }
            && delimiter == Delimiter::Brace && tokens == probe(parsed.base_trait) + probes_of(
            parsed.base_trait,
            parsed.structs,
        ).flatten(),
        probes_of(parsed.base_trait, parsed.structs).len() == parsed.structs.len(),
        forall|i: int|
            0 <= i < parsed.structs.len() ==> (#[trigger] probes_of(
                parsed.base_trait,
                parsed.structs,
            )[i]) == instantiation_with(
                inferred_count(spec_params(parsed.base_trait.generics)),
                parsed.structs[i],
            ),
{
    instantiations_in_order(parsed.base_trait, parsed.structs);
    let out = impl_checks(parsed, fn_ident);
    assert(out.last() == out[out.len() - 1]);
}

/// In the statement for an implementer, the implementer with its own type
/// parameters stands behind one `_,` for each parameter of the trait that
/// is no lifetime, and so in the place of the parameter that is bound by
/// the trait.
pub proof fn implementer_stands_in_the_bound_place(count: nat, implementer: IdentAndGenericsView)
    ensures
        placeholders(count, implementer.ident.span).len() == 2 * count,
        instantiation_with(count, implementer).subrange(
            4 + 2 * count as int,
            4 + 2 * count as int + named_tokens(implementer).len() as int,
        ) == named_tokens(implementer),
        instantiation_with(count, implementer).len() == 6 + 2 * count + named_tokens(
            implementer,
        ).len(),
    decreases count,
{
    let span = implementer.ident.span;
    if count > 0 {
        implementer_stands_in_the_bound_place((count - 1) as nat, implementer);
    }
    assert(placeholders(count, span).len() == 2 * count);
    assert(instantiation_with(count, implementer).subrange(
        4 + 2 * count as int,
        4 + 2 * count as int + named_tokens(implementer).len() as int,
    ) =~= named_tokens(implementer));
}

/// The names that the expansion invents keep apart: the checking function
/// is named unlike the test and unlike every inner function, an inner
/// function is named unlike its implementer, and two tests, or two
/// implementers, share an invented name only if their own names are the
/// same but for a raw prefix.
pub proof fn invented_names_keep_apart(
    test: Seq<char>,
    other_test: Seq<char>,
    implementer: Seq<char>,
    other_implementer: Seq<char>,
)
    ensures
        check_name(test) != test,
        check_name(test) != inner_name(implementer),
        inner_name(implementer) != implementer,
        check_name(test) == check_name(other_test) <==> name_fragment(test) == name_fragment(
            other_test,
        ),
        inner_name(implementer) == inner_name(other_implementer) <==> name_fragment(implementer)
            == name_fragment(other_implementer),
{
    reveal_strlit("_");
    reveal_strlit("impl_");
    reveal_strlit("_ImplCheck");
    let check = check_name(test);
    let inner = inner_name(implementer);
    assert(check.len() == name_fragment(test).len() + 11);
    assert(inner.len() == name_fragment(implementer).len() + 5);
    assert(check[0] == '_');
    assert(inner[0] == 'i');
    if check_name(test) == check_name(other_test) {
        let other = check_name(other_test);
        assert(other.len() == name_fragment(other_test).len() + 11);
        assert(name_fragment(test) =~= check.subrange(1, 1 + name_fragment(test).len() as int));
        assert(name_fragment(other_test) =~= other.subrange(
            1,
            1 + name_fragment(other_test).len() as int,
        ));
    }
    if inner_name(implementer) == inner_name(other_implementer) {
        let other = inner_name(other_implementer);
        assert(name_fragment(implementer) =~= inner.subrange(5, inner.len() as int));
        assert(name_fragment(other_implementer) =~= other.subrange(5, other.len() as int));
    }
}

/// Expanding the same argument and the same function twice gives the same
/// tokens, the same reason, and so the same text, where the syntax library
/// answers the same both times.
pub proof fn expansion_is_repeatable(
    args: Seq<TokenView>,
    input: Seq<TokenView>,
    answers: AnswersView,
    function_ok: bool,
    bound_ok: bool,
    args_again: Seq<TokenView>,
    input_again: Seq<TokenView>,
    answers_again: AnswersView,
    function_ok_again: bool,
    bound_ok_again: bool,
)
    requires
        args == args_again,
        input == input_again,
        answers == answers_again,
        function_ok == function_ok_again,
        bound_ok == bound_ok_again,
    ensures
        spec_test_impl(args, input, answers, function_ok, bound_ok) == spec_test_impl(
            args_again,
            input_again,
            answers_again,
            function_ok_again,
            bound_ok_again,
        ),
        tokens_text(spec_test_impl(args, input, answers, function_ok, bound_ok).tokens)
            == tokens_text(
            spec_test_impl(
                args_again,
                input_again,
                answers_again,
                function_ok_again,
                bound_ok_again,
            ).tokens,
        ),
{
}

/// The comma that may stand behind the last implementer.
pub open spec fn comma_if(wanted: bool) -> Seq<TokenView> {
    if wanted {
        seq![mark_token(',')]
    } else {
        Seq::empty()
    }
}

/// Whether the answers are a yes for each of the first `len` positions.
pub open spec fn accepts_all(answers: AnswersView, len: nat) -> bool {
    &&& forall|i: int| 0 <= i < len ==> yes_at(answers.names, i)
    &&& forall|i: int| 0 <= i < len ==> yes_at(answers.generics, i)
}

/// A well-formed name with its type parameters, written out between any
/// tokens of which the next is no `<`, is read back as it was where the
/// name and the parameters are accepted.
pub proof fn written_name_is_read_back(
    before: Seq<TokenView>,
    item: IdentAndGenericsView,
    after: Seq<TokenView>,
)
    requires
        well_formed_named(item),
        after.len() > 0 ==> !is_punct(after[0], '<'),
    ensures
        spec_named(before + named_tokens(item) + after, before.len() as int, true, true) == Ok::<
            (IdentAndGenericsView, int),
            ParseError,
        >((item, (before.len() + named_tokens(item).len()) as int)),
{
    let written = named_tokens(item);
    let all = before + written + after;
    let pos = before.len() as int;
    let params = item.generics;
    assert(all[pos] == written[0]);
    assert(all[pos] == ident_token(item.ident));
    if params.len() == 0 {
        assert(params =~= Seq::empty());
        assert(written.len() == 1);
        if pos + 1 < all.len() {
            assert(all[pos + 1] == after[0]);
        }
    } else {
        let listed = angle_list(params);
        let shift = pos + 1;
        let close = params.len() as int + 1;
        assert(written.len() == params.len() + 3);
        assert forall|k: int| 0 <= k < listed.len() implies all[k + shift] == listed[k] by {
            assert(all[k + shift] == written[k + 1]);
        }
        assert(all[pos + 1] == mark_token('<'));
        assert forall|j: int| 1 <= j <= close implies #[trigger] closes_angle(listed, j)
            == closes_angle(all, j + shift) && opens_angle(listed, j) == opens_angle(
            all,
            j + shift,
        ) by {
            assert(all[j + shift] == listed[j]);
            assert(all[j - 1 + shift] == listed[j - 1]);
        }
        angle_close_shifts(listed, all, 1, 1, close, shift);
        assert(angle_close(all, pos + 2, 1) == Some(close + shift));
        assert(all.subrange(pos + 2, close + shift) =~= params);
    }
}

/// Implementers that are written out take at least one token.
pub proof fn written_implementers_are_not_empty(structs: Seq<IdentAndGenericsView>)
    requires
        structs.len() >= 1,
    ensures
        implementers_tokens(structs).len() >= 1,
{
}

/// One more implementer is written behind the others, after a comma if
/// there are others.
pub proof fn one_more_implementer(structs: Seq<IdentAndGenericsView>, last: IdentAndGenericsView)
    ensures
        implementers_tokens(structs.push(last)) == if structs.len() == 0 {
            named_tokens(last)
        } else {
            implementers_tokens(structs) + seq![mark_token(',')] + named_tokens(last)
        },
    decreases structs.len(),
{
    let longer = structs.push(last);
    if structs.len() == 0 {
        assert(longer[0] == last);
    } else {
        let rest = structs.drop_first();
        assert(longer.drop_first() =~= rest.push(last));
        assert(longer[0] == structs[0]);
        one_more_implementer(rest, last);
        assert(implementers_tokens(longer) =~= implementers_tokens(structs) + seq![
            mark_token(','),
        ] + named_tokens(last));
    }
}

/// Well-formed implementers, written out behind any tokens, with or
/// without a comma at the end, are read back as they were where every name
/// and every list of parameters is accepted.
pub proof fn written_implementers_are_read_back(
    before: Seq<TokenView>,
    structs: Seq<IdentAndGenericsView>,
    comma_at_end: bool,
    answers: AnswersView,
)
    requires
        structs.len() >= 1,
        forall|i: int| 0 <= i < structs.len() ==> well_formed_named(#[trigger] structs[i]),
        accepts_all(
            answers,
            (before + implementers_tokens(structs) + comma_if(comma_at_end)).len(),
        ),
    ensures
        spec_implementers(
            before + implementers_tokens(structs) + comma_if(comma_at_end),
            answers,
            before.len() as int,
        ) == Ok::<Seq<IdentAndGenericsView>, ParseError>(structs),
    decreases structs.len(),
{
    let tail = comma_if(comma_at_end);
    let all = before + implementers_tokens(structs) + tail;
    let first = structs[0];
    let written = named_tokens(first);
    let next = (before.len() + written.len()) as int;
    let pos = before.len() as int;
    written_implementers_are_not_empty(structs);
    assert(yes_at(answers.names, pos));
    if structs.len() == 1 {
        written_name_is_read_back(before, first, tail);
        assert(all =~= before + written + tail);
        if comma_at_end {
            assert(all[next] == tail[0]);
        }
        assert(seq![first] =~= structs);
        if first.generics.len() > 0 {
            assert(yes_at(answers.generics, pos + 1));
        }
        assert(spec_named(all, pos, true, yes_at(answers.generics, pos + 1)) == spec_named(
            all,
            pos,
            true,
            true,
        ));
    } else {
        let rest = structs.drop_first();
        let after = seq![mark_token(',')] + implementers_tokens(rest) + tail;
        written_name_is_read_back(before, first, after);
        assert(all =~= before + written + after);
        assert(all[next] == after[0]);
        written_implementers_are_not_empty(rest);
        assert(yes_at(answers.generics, pos + 1));
        let sooner = before + written + seq![mark_token(',')];
        assert forall|i: int| 0 <= i < rest.len() implies well_formed_named(
            #[trigger] rest[i],
        ) by {
            assert(rest[i] == structs[i + 1]);
        }
        assert(all =~= sooner + implementers_tokens(rest) + tail);
        written_implementers_are_read_back(sooner, rest, comma_at_end, answers);
        assert(seq![first] + rest =~= structs);
    }
}

/// A well-formed argument, written out with or without a comma at the end,
/// is read back as it was where every name and every list of parameters is
/// accepted.
pub proof fn written_argument_is_read_back(
    parsed: TraitAndImplsView,
    comma_at_end: bool,
    answers: AnswersView,
)
    requires
        well_formed(parsed),
        accepts_all(answers, (argument_tokens(parsed) + comma_if(comma_at_end)).len()),
    ensures
        spec_parse(argument_tokens(parsed) + comma_if(comma_at_end), answers) == Ok::<
            TraitAndImplsView,
            ParseError,
        >(parsed),
{
    let tail = comma_if(comma_at_end);
    let all = argument_tokens(parsed) + tail;
    let written = named_tokens(parsed.base_trait);
    let after = seq![mark_token('=')] + implementers_tokens(parsed.structs) + tail;
    let nothing = Seq::<TokenView>::empty();
    written_name_is_read_back(nothing, parsed.base_trait, after);
    assert(all =~= nothing + written + after);
    let next = written.len() as int;
    assert(all[next] == after[0]);
    written_implementers_are_not_empty(parsed.structs);
    assert(yes_at(answers.names, 0));
    assert(yes_at(answers.generics, 1));
    let sooner = written + seq![mark_token('=')];
    assert(all =~= sooner + implementers_tokens(parsed.structs) + tail);
    written_implementers_are_read_back(sooner, parsed.structs, comma_at_end, answers);
}

/// An argument that ends with the `=` is rejected for its missing
/// implementers, and the function is left as it was. The argument is taken
/// to hold no group without brackets, so that its positions are those of
/// its own tokens.
pub proof fn nothing_after_separator_is_rejected(
    tokens: Seq<TokenView>,
    input: Seq<TokenView>,
    answers: AnswersView,
    function_ok: bool,
    bound_ok: bool,
)
    requires
        spliced(tokens) == tokens,
        spec_named_at(tokens, answers, 0) matches Ok((_, next)) && next + 1 == tokens.len()
            && is_punct(tokens[next], '='),
    ensures
        spec_parse(tokens, answers) == Err::<TraitAndImplsView, _>(
            error_at(ParseErrorKind::NoImplementers, tokens.len() as int),
        ),
        spec_test_impl(tokens, input, answers, function_ok, bound_ok) == unchanged(
            input,
            Diagnostic::Arguments(error_at(ParseErrorKind::NoImplementers, tokens.len() as int)),
        ),
{
}

/// An argument without the `=` after the trait is rejected, at the token
/// that stands in its place, with a message that names the `=`, and the
/// function is left as it was.
pub proof fn missing_separator_is_rejected(
    tokens: Seq<TokenView>,
    input: Seq<TokenView>,
    answers: AnswersView,
    function_ok: bool,
    bound_ok: bool,
)
    requires
        spliced(tokens) == tokens,
        spec_named_at(tokens, answers, 0) matches Ok((_, next)) && (next >= tokens.len()
            || !is_punct(tokens[next], '=')),
    ensures
        spec_named_at(tokens, answers, 0) matches Ok((_, next)) && spec_parse(tokens, answers)
            == Err::<TraitAndImplsView, _>(error_at(ParseErrorKind::ExpectedSeparator, next))
            && spec_test_impl(tokens, input, answers, function_ok, bound_ok) == unchanged(
            input,
            Diagnostic::Arguments(error_at(ParseErrorKind::ExpectedSeparator, next)),
        ),
        diagnostic_text(
            Diagnostic::Arguments(error_at(ParseErrorKind::ExpectedSeparator, 0)),
        ) == "Could not parse macro arguments: "@ + "expected `=`"@,
{
}

/// Whatever the syntax library answers, an argument in which no `=`
/// follows the trait, or nothing follows the `=`, is rejected, and the
/// function is left as it was.
pub proof fn no_expansion_without_separator_and_implementer(
    tokens: Seq<TokenView>,
    input: Seq<TokenView>,
    answers: AnswersView,
    function_ok: bool,
    bound_ok: bool,
)
    requires
        spliced(tokens) == tokens,
        spec_named(tokens, 0, true, true) matches Ok((_, next)) ==> next + 1 >= tokens.len()
            || !is_punct(tokens[next], '='),
    ensures
        spec_parse(tokens, answers) is Err,
        spec_test_impl(tokens, input, answers, function_ok, bound_ok).tokens == input,
        spec_test_impl(tokens, input, answers, function_ok, bound_ok).diagnostic is Some,
{
}

} // verus!
