use proc_macro2::{TokenStream, TokenTree};
use std::fmt::Debug;
use test_impl::test_impl;
use test_impl::token::{Delimiter, Spacing, Span, Token};

trait ExampleTrait: Debug {
    fn return_true() -> bool;
}

#[derive(Debug)]
struct ExampleStruct;

impl ExampleTrait for ExampleStruct {
    fn return_true() -> bool {
        true
    }
}

#[derive(Debug)]
struct ExampleStruct2;

impl ExampleTrait for ExampleStruct2 {
    fn return_true() -> bool {
        false
    }
}

/// Turns a token stream into the library's tokens, numbering them from one
/// in the order in which they are met.
fn convert(stream: TokenStream, next: &mut usize) -> Vec<Token> {
    let mut tokens = Vec::new();
    for tree in stream {
        *next += 1;
        let span = Span { id: *next };
        tokens.push(match tree {
            TokenTree::Ident(ident) => Token::Ident { name: ident.to_string(), span },
            TokenTree::Punct(punct) => Token::Punct {
                ch: punct.as_char(),
                spacing: match punct.spacing() {
                    proc_macro2::Spacing::Alone => Spacing::Alone,
                    proc_macro2::Spacing::Joint => Spacing::Joint,
                },
                span,
            },
            TokenTree::Literal(literal) => Token::Literal { text: literal.to_string(), span },
            TokenTree::Group(group) => Token::Group {
                delimiter: match group.delimiter() {
                    proc_macro2::Delimiter::Parenthesis => Delimiter::Parenthesis,
                    proc_macro2::Delimiter::Brace => Delimiter::Brace,
                    proc_macro2::Delimiter::Bracket => Delimiter::Bracket,
                    proc_macro2::Delimiter::None => Delimiter::Invisible,
                },
                tokens: convert(group.stream(), next),
                span,
            },
        });
    }
    tokens
}

fn lex(text: &str) -> Vec<Token> {
    let stream: TokenStream = text.parse().unwrap();
    convert(stream, &mut 0)
}

/// The tokens as words, brackets included, without places and spacing.
fn words(tokens: &[Token]) -> Vec<String> {
    let mut out = Vec::new();
    for token in tokens {
        match token {
            Token::Ident { name, .. } => out.push(name.clone()),
            Token::Punct { ch, .. } => out.push(ch.to_string()),
            Token::Literal { text, .. } => out.push(text.clone()),
            Token::Group { delimiter, tokens, .. } => {
                let (open, close) = match delimiter {
                    Delimiter::Parenthesis => ("(", ")"),
                    Delimiter::Brace => ("{", "}"),
                    Delimiter::Bracket => ("[", "]"),
                    Delimiter::Invisible => ("", ""),
                };
                out.push(open.to_string());
                out.extend(words(tokens));
                out.push(close.to_string());
            }
        }
    }
    out
}

/// What the attribute makes of `example_test`, written out as code.
#[allow(path_statements)]
#[allow(non_snake_case)]
fn _example_test_ImplCheck() {
    fn check<TraitChecker: ExampleTrait>(item: TraitChecker) {}
    check::<ExampleStruct>;
    check::<ExampleStruct2>;
}

fn expanded_example_test() {
    fn impl_ExampleStruct() {
        type ExampleTrait = ExampleStruct;
        println!("woah")
    }
    impl_ExampleStruct();
    fn impl_ExampleStruct2() {
        type ExampleTrait = ExampleStruct2;
        println!("woah")
    }
    impl_ExampleStruct2();
}

#[test]
fn example_test() {
    let expansion = test_impl(
        lex("ExampleTrait = ExampleStruct, ExampleStruct2"),
        lex("#[test] fn example_test() { println!(\"woah\") }"),
    );
    assert_eq!(expansion.diagnostic, None);
    let expected = lex(
        "#[allow(path_statements)]
         #[allow(non_snake_case)]
         fn _example_test_ImplCheck() {
             fn check<TraitChecker: ExampleTrait>(item: TraitChecker) {}
             check::<ExampleStruct>;
             check::<ExampleStruct2>;
         }
         #[test]
         fn example_test() {
             fn impl_ExampleStruct() {
                 type ExampleTrait = ExampleStruct;
                 println!(\"woah\")
             }
             impl_ExampleStruct();
             fn impl_ExampleStruct2() {
                 type ExampleTrait = ExampleStruct2;
                 println!(\"woah\")
             }
             impl_ExampleStruct2();
         }",
    );
    assert_eq!(words(&expansion.tokens), words(&expected));

    _example_test_ImplCheck();
    expanded_example_test();
    assert!(ExampleStruct::return_true());
    assert!(!ExampleStruct2::return_true());
}

#[test]
fn example_test_with_lifetimes() {
    let expansion = test_impl(
        lex("ExampleTrait<'avs, 'bvs> = ExampleStruct, ExampleStruct2"),
        lex(
            "#[test]
             fn example_test_with_lifetimes() {
                 println!(\"Going to test {:?}\", ExampleTrait {});
                 let bool_value = ExampleTrait::return_true();
                 assert_eq!(bool_value, true);
             }",
        ),
    );
    assert_eq!(expansion.diagnostic, None);
    let expected = lex(
        "#[allow(path_statements)]
         #[allow(non_snake_case)]
         fn _example_test_with_lifetimes_ImplCheck() {
             fn check<'avs, 'bvs, TraitChecker: ExampleTrait<'avs, 'bvs>>(item: TraitChecker) {}
             check::<ExampleStruct>;
             check::<ExampleStruct2>;
         }
         #[test]
         fn example_test_with_lifetimes() {
             fn impl_ExampleStruct() {
                 type ExampleTrait<'avs, 'bvs> = ExampleStruct;
                 println!(\"Going to test {:?}\", ExampleTrait {});
                 let bool_value = ExampleTrait::return_true();
                 assert_eq!(bool_value, true);
             }
             impl_ExampleStruct();
             fn impl_ExampleStruct2() {
                 type ExampleTrait<'avs, 'bvs> = ExampleStruct2;
                 println!(\"Going to test {:?}\", ExampleTrait {});
                 let bool_value = ExampleTrait::return_true();
                 assert_eq!(bool_value, true);
             }
             impl_ExampleStruct2();
         }",
    );
    assert_eq!(words(&expansion.tokens), words(&expected));
}
