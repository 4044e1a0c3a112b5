use proc_macro2::{TokenStream, TokenTree};
use test_impl::item_fn::ItemFn;
use test_impl::grammar::{ParseError, ParseErrorKind};
use test_impl::macro_args::{Answers, Ident, TraitAndImpls};
use test_impl::token::{copy_token, render, Delimiter, Spacing, Span, Token};
use test_impl::{repeat_function_with_mappings, test_impl, test_impl_with, Diagnostic};

/// Turns a token stream into the library's tokens, numbering them from one
/// in the order in which they are met.
fn convert(stream: TokenStream, next: &mut usize) -> Vec<Token> {
    let mut tokens = Vec::new();
    for tree in stream {
        *next += 1;
        let span = Span { id: *next };
        tokens.push(match tree {
            TokenTree::Ident(ident) => Token::Ident { name: ident.to_string(), span },
            TokenTree::Punct(punct) => Token::Punct {
                ch: punct.as_char(),
                spacing: match punct.spacing() {
                    proc_macro2::Spacing::Alone => Spacing::Alone,
                    proc_macro2::Spacing::Joint => Spacing::Joint,
                },
                span,
            },
            TokenTree::Literal(literal) => Token::Literal { text: literal.to_string(), span },
            TokenTree::Group(group) => Token::Group {
                delimiter: match group.delimiter() {
                    proc_macro2::Delimiter::Parenthesis => Delimiter::Parenthesis,
                    proc_macro2::Delimiter::Brace => Delimiter::Brace,
                    proc_macro2::Delimiter::Bracket => Delimiter::Bracket,
                    proc_macro2::Delimiter::None => Delimiter::Invisible,
                },
                tokens: convert(group.stream(), next),
                span,
            },
        });
    }
    tokens
}

fn lex(text: &str) -> Vec<Token> {
    let stream: TokenStream = text.parse().unwrap();
    convert(stream, &mut 0)
}

/// The tokens as words, brackets included, without places and spacing.
fn words(tokens: &[Token]) -> Vec<String> {
    let mut out = Vec::new();
    for token in tokens {
        match token {
            Token::Ident { name, .. } => out.push(name.clone()),
            Token::Punct { ch, .. } => out.push(ch.to_string()),
            Token::Literal { text, .. } => out.push(text.clone()),
            Token::Group { delimiter, tokens, .. } => {
                let (open, close) = match delimiter {
                    Delimiter::Parenthesis => ("(", ")"),
                    Delimiter::Brace => ("{", "}"),
                    Delimiter::Bracket => ("[", "]"),
                    Delimiter::Invisible => ("", ""),
                };
                out.push(open.to_string());
                out.extend(words(tokens));
                out.push(close.to_string());
            }
        }
    }
    out
}

fn parsed(text: &str) -> TraitAndImpls {
    TraitAndImpls::parse(&lex(text)).unwrap()
}

fn function(text: &str) -> ItemFn {
    ItemFn::parse(&lex(text)).unwrap()
}

fn ident(name: &str, id: usize) -> Ident {
    Ident { name: name.to_string(), span: Span { id } }
}

fn text(tokens: &[Token]) -> String {
    render(&tokens.iter().map(copy_token).collect())
}

fn text_of_body(tokens: &[Token]) -> String {
    text(body_of(tokens))
}

/// The tokens inside the braces that end `tokens`.
fn body_of(tokens: &[Token]) -> &[Token] {
    match tokens.last() {
        Some(Token::Group { delimiter: Delimiter::Brace, tokens, .. }) => tokens,
        other => panic!("no body: {:?}", other),
    }
}

#[test]
fn repeats_the_body_for_each_implementer() {
    let func = function("fn run() { call_thing(); }");
    let mapped = repeat_function_with_mappings(&func, parsed("Trait = A, B"));
    let expected = lex(
        "fn run() {
             fn impl_A() { type Trait = A; call_thing(); }
             impl_A();
             fn impl_B() { type Trait = B; call_thing(); }
             impl_B();
         }",
    );
    assert_eq!(words(&mapped), words(&expected));
    assert_eq!(
        text(body_of(&mapped)),
        "fn impl_A ( ) { type Trait = A ; call_thing ( ) ; } impl_A ( ) ; \
         fn impl_B ( ) { type Trait = B ; call_thing ( ) ; } impl_B ( ) ; "
    );
}

#[test]
fn defines_and_calls_once_per_implementer_in_order() {
    let func = function("fn run() { first(); second() }");
    let mapped = repeat_function_with_mappings(&func, parsed("Trait = C, A, B"));
    let body = body_of(&mapped);
    assert_eq!(body.len(), 21);
    for (i, name) in ["impl_C", "impl_A", "impl_B"].iter().enumerate() {
        let block = &body[7 * i..7 * i + 7];
        assert_eq!(block[0], Token::ident("fn", Span { id: 0 }));
        assert!(matches!(&block[1], Token::Ident { name: n, .. } if n == name));
        assert!(matches!(&block[2], Token::Group { delimiter: Delimiter::Parenthesis, tokens, .. }
            if tokens.is_empty()));
        assert!(matches!(&block[3], Token::Group { delimiter: Delimiter::Brace, .. }));
        assert_eq!(block[4], block[1]);
        assert_eq!(block[5], block[2]);
        assert_eq!(block[6], Token::punct(';', Spacing::Alone, Span { id: 0 }));
    }
    let definitions = words(body).iter().filter(|word| word.as_str() == "fn").count();
    assert_eq!(definitions, 3);
}

#[test]
fn copies_the_statements_as_they_are() {
    let input = lex("fn run() { let x = a += 1; 'label: loop { break 'label; } }");
    let func = ItemFn::parse(&input).unwrap();
    let mapped = repeat_function_with_mappings(&func, parsed("Trait = A, B"));
    let stmts = body_of(&input);
    for i in 0..2 {
        let inner = match &body_of(&mapped)[7 * i + 3] {
            Token::Group { tokens, .. } => tokens,
            other => panic!("no inner body: {:?}", other),
        };
        assert_eq!(text(&inner[..5]), "type Trait = ".to_string() + ["A ; ", "B ; "][i]);
        assert_eq!(&inner[5..], stmts);
    }
}

#[test]
fn one_implementer_gives_one_copy() {
    let func = function("fn run() { call_thing(); }");
    let mapped = repeat_function_with_mappings(&func, parsed("Trait = Only"));
    assert_eq!(body_of(&mapped).len(), 7);
    assert_eq!(
        text(body_of(&mapped)),
        "fn impl_Only ( ) { type Trait = Only ; call_thing ( ) ; } impl_Only ( ) ; "
    );
}

#[test]
fn no_implementer_gives_an_empty_body() {
    let func = function("fn run() { call_thing(); }");
    let nobody = TraitAndImpls { base_trait: parsed("Trait = A").base_trait, structs: Vec::new() };
    let mapped = repeat_function_with_mappings(&func, nobody);
    assert_eq!(render(&mapped), "fn run ( ) { } ");
}

#[test]
fn binds_the_trait_with_its_parameters() {
    let func = function("fn run() {}");
    let mapped = repeat_function_with_mappings(&func, parsed("Trait<'a, T> = S1<'c, D>, S2"));
    assert_eq!(
        text(body_of(&mapped)),
        "fn impl_S1 ( ) { type Trait < 'a , T > = S1 < 'c , D > ; } impl_S1 ( ) ; \
         fn impl_S2 ( ) { type Trait < 'a , T > = S2 ; } impl_S2 ( ) ; "
    );
}

#[test]
fn keeps_attributes_visibility_and_signature() {
    let input = lex(
        "/// Tests it.
         #[test]
         #[should_panic(expected = \"no\")]
         pub(crate) async unsafe fn run<T: Default>(x: T) -> Result<(), ()> where T: Clone {
             work(x)
         }",
    );
    let func = ItemFn::parse(&input).unwrap();
    assert_eq!(func.attrs[..], input[..6]);
    assert_eq!(func.signature[..], input[6..input.len() - 1]);
    assert_eq!(func.ident, ident("run", 22));
    assert_eq!(func.stmts[..], *body_of(&input));

    let mapped = repeat_function_with_mappings(&func, parsed("Trait = A"));
    assert_eq!(mapped[..mapped.len() - 1], input[..input.len() - 1]);
    assert_eq!(mapped.len(), input.len());
}

#[test]
fn names_inner_functions_after_raw_identifiers_without_prefix() {
    let func = function("fn run() {}");
    let mapped = repeat_function_with_mappings(&func, parsed("Trait = r#type"));
    assert_eq!(
        text(body_of(&mapped)),
        "fn impl_type ( ) { type Trait = r#type ; } impl_type ( ) ; "
    );
}

#[test]
fn inner_function_names_stand_where_the_implementer_was_written() {
    let func = function("fn run() {}");
    let args = parsed("Trait = A, B");
    let spans = [args.structs[0].ident.span, args.structs[1].ident.span];
    assert_eq!(spans, [Span { id: 3 }, Span { id: 5 }]);
    let mapped = repeat_function_with_mappings(&func, args);
    let body = body_of(&mapped);
    assert_eq!(body[1], Token::ident("impl_A", Span { id: 3 }));
    assert_eq!(body[4], Token::ident("impl_A", Span { id: 3 }));
    assert_eq!(body[8], Token::ident("impl_B", Span { id: 5 }));
    assert_eq!(body[11], Token::ident("impl_B", Span { id: 5 }));
}

#[test]
fn checks_each_implementer_once() {
    let args = parsed("Trait = C, A, B");
    let checks = args.output_impl_checks(&ident("run", 9));
    let expected = lex(
        "#[allow(path_statements)]
         #[allow(non_snake_case)]
         fn _run_ImplCheck() {
             fn check<TraitChecker: Trait>(item: TraitChecker) {}
             check::<C>;
             check::<A>;
             check::<B>;
         }",
    );
    assert_eq!(words(&checks), words(&expected));
    assert_eq!(checks.len(), 8);
    assert_eq!(checks[5], Token::ident("_run_ImplCheck", Span { id: 9 }));

    let body = body_of(&checks);
    let probe_len = 9;
    assert_eq!(body.len(), probe_len + 7 * 3);
    for (i, (name, id)) in [("C", 3), ("A", 5), ("B", 7)].iter().enumerate() {
        let span = Span { id: *id };
        let check = &body[probe_len + 7 * i..probe_len + 7 * i + 7];
        assert_eq!(
            check,
            [
                Token::ident("check", span),
                Token::punct(':', Spacing::Joint, span),
                Token::punct(':', Spacing::Alone, span),
                Token::punct('<', Spacing::Alone, span),
                Token::ident(name, span),
                Token::punct('>', Spacing::Alone, span),
                Token::punct(';', Spacing::Alone, span),
            ]
        );
        assert_eq!(body.iter().filter(|token| **token == Token::ident(name, span)).count(), 1);
    }
}

#[test]
fn probe_takes_the_parameters_of_the_trait() {
    let checks = parsed("Trait<'a, T> = A<'b, u8>").output_impl_checks(&ident("run", 0));
    assert_eq!(
        text(body_of(&checks)),
        "fn check < 'a , T , TraitChecker : Trait < 'a , T > > ( item : TraitChecker ) { } \
         check :: < _ , A < 'b , u8 > > ; "
    );
    let checks = parsed("Trait<'a, T,> = A").output_impl_checks(&ident("run", 0));
    assert_eq!(
        text(body_of(&checks)),
        "fn check < 'a , T ,TraitChecker : Trait < 'a , T ,> > ( item : TraitChecker ) { } \
         check :: < _ , A > ; "
    );
}

#[test]
fn check_function_is_named_after_the_test() {
    let args = parsed("Trait = A");
    assert_eq!(
        args.output_impl_checks(&ident("my_test", 4))[5],
        Token::ident("_my_test_ImplCheck", Span { id: 4 })
    );
    assert_eq!(
        args.output_impl_checks(&ident("r#try", 0))[5],
        Token::ident("_try_ImplCheck", Span { id: 0 })
    );
}

#[test]
fn writes_the_bound_for_the_probe() {
    let args = parsed("Trait<'a, T> = A");
    let param = TraitAndImpls::generate_type_param_for_trait(&args.base_trait).unwrap();
    assert_eq!(render(&param), "TraitChecker : Trait < 'a , T > ");
    assert_eq!(param[2], Token::ident("Trait", Span { id: 1 }));

    let args = parsed("Trait = A");
    let param = TraitAndImpls::generate_type_param_for_trait(&args.base_trait).unwrap();
    assert_eq!(render(&param), "TraitChecker : Trait ");

    let args = parsed("Trait<const N: usize> = A");
    assert_eq!(TraitAndImpls::generate_type_param_for_trait(&args.base_trait), None);
    assert_eq!(
        render(&TraitAndImpls::checker_param_tokens(&args.base_trait)),
        "TraitChecker : Trait < const N : usize > "
    );
}

#[test]
fn reads_the_parts_of_a_function() {
    let func = function("#[test] fn run() { a; b }");
    assert_eq!(render(&func.attrs), "# [ test ] ");
    assert_eq!(render(&func.signature), "fn run ( ) ");
    assert_eq!(func.ident, ident("run", 5));
    assert_eq!(render(&func.stmts), "a ; b ");

    let func = function("fn empty() {}");
    assert!(func.attrs.is_empty());
    assert!(func.stmts.is_empty());
    assert_eq!(func.ident.name, "empty");
}

#[test]
fn refuses_what_is_no_function() {
    assert_eq!(ItemFn::parse(&lex("struct S;")), None);
    assert_eq!(ItemFn::parse(&lex("struct S {}")), None);
    assert_eq!(ItemFn::parse(&lex("fn declared();")), None);
    assert_eq!(ItemFn::parse(&lex("fn one() {} fn two() {}")), None);
    assert_eq!(ItemFn::parse(&lex("impl S { fn inner() {} }")), None);
    assert_eq!(ItemFn::parse(&Vec::new()), None);
}

#[test]
fn expands_checks_and_then_the_function() {
    let args = lex("Trait = A, B");
    let input = lex("fn run() { call_thing(); }");
    let expansion = test_impl(lex("Trait = A, B"), lex("fn run() { call_thing(); }"));
    assert_eq!(expansion.diagnostic, None);

    let parsed_args = TraitAndImpls::parse(&args).unwrap();
    let func = ItemFn::parse(&input).unwrap();
    let mut expected = parsed_args.output_impl_checks(&func.ident);
    expected.extend(repeat_function_with_mappings(&func, parsed_args));
    assert_eq!(expansion.tokens, expected);
    assert_eq!(
        render(&expansion.tokens),
        "# [ allow ( path_statements ) ] # [ allow ( non_snake_case ) ] \
         fn _run_ImplCheck ( ) { \
         fn check < TraitChecker : Trait > ( item : TraitChecker ) { } \
         check :: < A > ; check :: < B > ; } \
         fn run ( ) { \
         fn impl_A ( ) { type Trait = A ; call_thing ( ) ; } impl_A ( ) ; \
         fn impl_B ( ) { type Trait = B ; call_thing ( ) ; } impl_B ( ) ; } "
    );
}

#[test]
fn expanding_twice_gives_the_same() {
    let first = test_impl(lex("Trait<'a> = A, B<'b>"), lex("#[test] fn run() { go(1, \"x\"); }"));
    let second = test_impl(lex("Trait<'a> = A, B<'b>"), lex("#[test] fn run() { go(1, \"x\"); }"));
    assert_eq!(first, second);
    assert_eq!(render(&first.tokens), render(&second.tokens));
    assert_eq!(render(&first.tokens).into_bytes(), render(&second.tokens).into_bytes());
}

#[test]
fn leaves_the_function_alone_when_the_argument_is_wrong() {
    let input = lex("#[test] fn run() { call_thing(); }");
    let expansion = test_impl(lex("Trait A, B"), lex("#[test] fn run() { call_thing(); }"));
    assert_eq!(expansion.tokens, input);
    let reason = expansion.diagnostic.unwrap();
    assert_eq!(
        reason,
        Diagnostic::Arguments(ParseError { kind: ParseErrorKind::ExpectedSeparator, position: 1 })
    );
    assert_eq!(reason.message(), "Could not parse macro arguments: expected `=`");

    let expansion = test_impl(Vec::new(), lex("#[test] fn run() { call_thing(); }"));
    assert_eq!(expansion.tokens, input);
    assert_eq!(
        expansion.diagnostic,
        Some(Diagnostic::Arguments(
            ParseError { kind: ParseErrorKind::ExpectedIdentifier, position: 0 }
        ))
    );
}

#[test]
fn leaves_the_item_alone_when_it_is_no_function() {
    let input = lex("struct NotAFunction;");
    let expansion = test_impl(lex("Trait = A"), lex("struct NotAFunction;"));
    assert_eq!(expansion.tokens, input);
    assert_eq!(expansion.diagnostic, Some(Diagnostic::NotAFunction));
    assert_eq!(
        expansion.diagnostic.unwrap().message(),
        "You must use this macro with a function"
    );
}

#[test]
fn reports_the_argument_before_the_item() {
    let expansion = test_impl(lex("Trait ="), lex("struct NotAFunction;"));
    assert_eq!(expansion.tokens, lex("struct NotAFunction;"));
    assert_eq!(
        expansion.diagnostic,
        Some(Diagnostic::Arguments(
            ParseError { kind: ParseErrorKind::NoImplementers, position: 2 }
        ))
    );
}

#[test]
fn leaves_the_function_alone_when_the_trait_is_no_bound() {
    let input = lex("fn run() {}");
    let expansion = test_impl(lex("Trait<const N: usize> = A"), lex("fn run() {}"));
    assert_eq!(expansion.tokens, input);
    assert_eq!(expansion.diagnostic, Some(Diagnostic::TraitNotABound));
    assert_eq!(
        expansion.diagnostic.unwrap().message(),
        "The trait with its type parameters is no bound"
    );
}

#[test]
fn puts_the_implementer_with_its_parameters_to_the_probe() {
    let args = parsed("Trait<'a, T, const N: usize> = S1<'c, D>, S2");
    assert_eq!(args.inferred_params(), 2);
    let spans = [args.structs[0].ident.span, args.structs[1].ident.span];
    let checks = args.output_impl_checks(&ident("t", 0));
    let body = body_of(&checks);
    let probe_len = body.len() - (17 + 11);
    assert_eq!(
        text(&body[probe_len..]),
        "check :: < _ , _ , S1 < 'c , D > > ; check :: < _ , _ , S2 > ; "
    );
    let first = &body[probe_len..probe_len + 17];
    assert_eq!(first[0], Token::ident("check", spans[0]));
    assert_eq!(first[4], Token::ident("_", spans[0]));
    assert_eq!(first[5], Token::punct(',', Spacing::Alone, spans[0]));
    assert_eq!(first[8], Token::ident("S1", spans[0]));
    assert_eq!(first[16], Token::punct(';', Spacing::Alone, spans[0]));
    let second = &body[probe_len + 17..];
    assert_eq!(second[8], Token::ident("S2", spans[1]));

    assert_eq!(parsed("Trait = A").inferred_params(), 0);
    assert_eq!(parsed("Trait<'a, 'b> = A").inferred_params(), 0);
    assert_eq!(parsed("Trait<T: Into<(u8, u8)>, U,> = A").inferred_params(), 2);
}

#[test]
fn expands_a_body_that_holds_any_literal() {
    let expansion = test_impl(lex("Trait = A"), lex("fn t() { let s = c\"x\"; let n = 1e5; }"));
    assert_eq!(expansion.diagnostic, None);
    assert_eq!(
        text(body_of(&expansion.tokens)),
        "fn impl_A ( ) { type Trait = A ; let s = c\"x\" ; let n = 1e5 ; } impl_A ( ) ; "
    );
    let expansion = test_impl(
        lex("Trait = A"),
        lex("#[doc = c\"x\"] #[should_panic(expected = \"no\")] fn t() {}"),
    );
    assert_eq!(expansion.diagnostic, None);
}

#[test]
fn accepts_a_signature_unseen_where_a_literal_can_stand() {
    for text in [
        "extern \"C\" fn t() {}",
        "fn t(x: [u8; 4]) {}",
        "fn t(x: [u8; c\"x\"]) {}",
        "fn t<T: A<(/*ERROR*/)>>() {}",
        "fn t<const N: usize = 1e5>() {}",
    ] {
        let input = lex(text);
        assert!(ItemFn::ask(&input), "{}", text);
        assert_eq!(ItemFn::parse(&input).unwrap().ident.name, "t");
        let expansion = test_impl(lex("Trait = A"), lex(text));
        assert_eq!(expansion.diagnostic, None);
        assert_eq!(
            text_of_body(&expansion.tokens),
            "fn impl_A ( ) { type Trait = A ; } impl_A ( ) ; "
        );
    }
    assert!(!ItemFn::ask(&lex("struct S { x: [u8; 4] }")));
    assert!(!ItemFn::ask(&lex("fn t(x: [u8; 4]);")));
    assert!(!ItemFn::ask(&lex("fn t(x: u8 u8) {}")));
}

#[test]
fn accepts_a_bound_unseen_where_a_literal_can_stand() {
    for text in ["Trait<T: Tr<c\"x\">> = A", "Trait<const N: usize = 3> = A", "Trait<(/*ERROR*/)> = A"] {
        let args = parsed(text);
        let param = TraitAndImpls::generate_type_param_for_trait(&args.base_trait).unwrap();
        assert_eq!(param, TraitAndImpls::checker_param_tokens(&args.base_trait));
        let expansion = test_impl(lex(text), lex("fn t() {}"));
        assert_eq!(expansion.diagnostic, None);
    }
}

#[test]
fn reads_a_function_under_a_given_answer() {
    let input = lex("#[test] fn run() { a; b }");
    assert_eq!(ItemFn::read(&input, false), None);
    let func = ItemFn::read(&input, true).unwrap();
    assert_eq!(func.ident, ident("run", 5));
    assert_eq!(render(&func.signature), "fn run ( ) ");
    assert_eq!(ItemFn::read(&lex("struct S {}"), true), None);
    assert_eq!(ItemFn::read(&lex("fn run();"), true), None);
    assert!(ItemFn::ask(&input));
    assert!(!ItemFn::ask(&lex("fn fn() {}")));
}

#[test]
fn expands_under_given_answers() {
    let yes = Answers { names: vec![true; 3], generics: vec![true; 3] };
    let no = Answers { names: vec![false; 3], generics: vec![false; 3] };
    let args = "Trait = A";
    let input = "fn run() { go(); }";

    let expansion = test_impl_with(lex(args), lex(input), &yes, true, true);
    assert_eq!(expansion, test_impl(lex(args), lex(input)));
    assert_eq!(expansion.diagnostic, None);

    let expansion = test_impl_with(lex(args), lex(input), &no, true, true);
    assert_eq!(expansion.tokens, lex(input));
    assert_eq!(
        expansion.diagnostic,
        Some(Diagnostic::Arguments(
            ParseError { kind: ParseErrorKind::ExpectedIdentifier, position: 0 }
        ))
    );
    let expansion = test_impl_with(lex(args), lex(input), &yes, false, true);
    assert_eq!(expansion.tokens, lex(input));
    assert_eq!(expansion.diagnostic, Some(Diagnostic::NotAFunction));
    let expansion = test_impl_with(lex(args), lex(input), &yes, true, false);
    assert_eq!(expansion.tokens, lex(input));
    assert_eq!(expansion.diagnostic, Some(Diagnostic::TraitNotABound));
}

#[test]
fn looks_through_groups_without_brackets() {
    let hidden = |tokens: Vec<Token>| Token::group(Delimiter::Invisible, tokens, Span { id: 90 });
    let mut args = lex("= A");
    args.insert(0, hidden(lex("Trait")));
    let mut input = vec![hidden(lex("#[test] pub")), hidden(vec![hidden(lex("fn run()"))])];
    input.extend(lex("{ go(); }"));

    let parsed_args = TraitAndImpls::parse(&args).unwrap();
    assert_eq!(parsed_args.base_trait.ident.name, "Trait");
    let func = ItemFn::parse(&input).unwrap();
    assert_eq!(func.ident.name, "run");
    assert_eq!(render(&func.attrs), "# [ test ] ");
    assert_eq!(render(&func.signature), "pub fn run ( ) ");

    let expansion = test_impl(args, input);
    assert_eq!(expansion.diagnostic, None);
    assert_eq!(
        text(body_of(&expansion.tokens)),
        "fn impl_A ( ) { type Trait = A ; go ( ) ; } impl_A ( ) ; "
    );
}
