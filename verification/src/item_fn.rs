//! The function that the attribute stands on, cut into the parts that the
//! expansion puts together again.

use vstd::prelude::*;
use vstd::string::*;
use crate::grammar::{is_punct, IdentView};
use crate::macro_args::{token_is_punct, Ident};
use crate::fragments::{group, group_token};
use crate::guard::{holds_no_literal, no_literal};
use crate::syntax::is_function;
use crate::token::{
    copy_range, copy_tokens, group_view, push_token, render, splice, spliced, tokens_text, views,
    Delimiter, Token, TokenView,
};

verus! {

/// A function: its attributes, its visibility and signature, its name, and
/// the statements of its body.
#[derive(Debug, PartialEq, Eq)]
pub struct ItemFn {
    /// The attributes in front, each a `#` and a bracketed group.
    pub attrs: Vec<Token>,
    /// Everything between the attributes and the body.
    pub signature: Vec<Token>,
    /// The name of the function, at the place where it is written in the
    /// signature.
    pub ident: Ident,
    /// The tokens between the braces of the body.
    pub stmts: Vec<Token>,
}

/// The mathematical value of a function.
pub struct ItemFnView {
    pub attrs: Seq<TokenView>,
    pub signature: Seq<TokenView>,
    pub ident: IdentView,
    pub stmts: Seq<TokenView>,
}

impl View for ItemFn {
    type V = ItemFnView;

    open spec fn view(&self) -> ItemFnView {
        ItemFnView {
            attrs: views(self.attrs@),
            signature: views(self.signature@),
            ident: self.ident@,
            stmts: views(self.stmts@),
        }
    }
}

/// Whether the token is a group in the given brackets.
pub open spec fn is_group(token: TokenView, brackets: Delimiter) -> bool {
    token matches TokenView::Group { delimiter, .. } && delimiter == brackets
}

/// Whether an attribute stands at `i`: a `#` and a bracketed group.
pub open spec fn attr_at(tokens: Seq<TokenView>, i: int) -> bool {
    0 <= i && i + 1 < tokens.len() && is_punct(tokens[i], '#') && is_group(
        tokens[i + 1],
        Delimiter::Bracket,
    )
}

/// Where the attributes that begin at `from` end.
pub open spec fn attrs_end(tokens: Seq<TokenView>, from: int) -> int
    decreases tokens.len() - from,
{
    if attr_at(tokens, from) {
        attrs_end(tokens, from + 2)
    } else {
        from
    }
}

/// The attributes end between where they begin and the last token.
pub proof fn attrs_end_in_range(tokens: Seq<TokenView>, from: int)
    requires
        0 <= from <= tokens.len(),
    ensures
        from <= attrs_end(tokens, from) <= tokens.len(),
    decreases tokens.len() - from,
{
    if attr_at(tokens, from) {
        attrs_end_in_range(tokens, from + 2);
    }
}

/// Whether the token is the keyword `fn`.
pub open spec fn is_fn_keyword(token: TokenView) -> bool {
    token matches TokenView::Ident { name, .. } && name == "fn"@
}

/// Position of the first `fn` keyword at or after `from`.
pub open spec fn fn_keyword(tokens: Seq<TokenView>, from: int) -> Option<int>
    decreases tokens.len() - from,
{
    if from < 0 || from >= tokens.len() {
        None
    } else if is_fn_keyword(tokens[from]) {
        Some(from)
    } else {
        fn_keyword(tokens, from + 1)
    }
}

/// The parts of the function that the tokens spell, if they spell one.
/// `accepted` says whether the syntax library took the signature for that
/// of a function.
///
/// The tokens spell a function when the signature was accepted and they
/// end in a body in braces. The attributes are the pairs of `#` and
/// bracketed group in front; the signature is what stands between them and
/// the body; the name is the identifier after the first `fn` of the
/// signature outside any group; the statements are what the braces hold.
pub open spec fn spec_item_fn(input: Seq<TokenView>, accepted: bool) -> Option<ItemFnView> {
    if !accepted || input.len() == 0 || !is_group(input.last(), Delimiter::Brace) {
        None
    } else {
        let head = input.drop_last();
        let cut = attrs_end(head, 0);
        let signature = head.subrange(cut, head.len() as int);
        match fn_keyword(signature, 0) {
            Some(at) if at + 1 < signature.len() && signature[at + 1] is Ident => Some(
                ItemFnView {
                    attrs: head.subrange(0, cut),
                    signature,
                    ident: IdentView {
                        name: signature[at + 1]->Ident_name,
                        span: signature[at + 1]->Ident_span,
                    },
                    stmts: input.last()->Group_tokens,
                },
            ),
            _ => None,
        }
    }
}

/// Whether a yes about the item makes sense: the tokens have the shape of
/// a function.
pub open spec fn function_question(input: Seq<TokenView>) -> bool {
    spec_item_fn(input, true) is Some
}

/// The text of the signature in front of an empty body, as the syntax
/// library is shown it.
pub open spec fn signature_text(input: Seq<TokenView>) -> Seq<char> {
    tokens_text(
        spec_item_fn(input, true)->Some_0.signature.push(
            group_token(Delimiter::Brace, Seq::empty()),
        ),
    )
}

/// Whether the item is accepted unseen: it has the shape of a function,
/// but a literal can be made of the text of its signature, so that the
/// syntax library is not shown it.
pub open spec fn function_unseen(input: Seq<TokenView>) -> bool {
    function_question(input) && !no_literal(signature_text(input))
}

/// The value of what reading a function returned.
pub open spec fn item_fn_outcome(result: Option<ItemFn>) -> Option<ItemFnView> {
    match result {
        Some(func) => Some(func@),
        None => None,
    }
}

/// Whether the token is a group in the given brackets.
pub fn token_is_group(token: &Token, brackets: Delimiter) -> (yes: bool)
    ensures
        yes == is_group(token@, brackets),
{
    match token {
        Token::Group { delimiter, .. } => {
            proof {
                group_view(*token);
            }
            *delimiter == brackets
        },
        _ => false,
    }
}

/// Whether the token is the keyword `fn`.
fn token_is_fn_keyword(token: &Token) -> (yes: bool)
    ensures
        yes == is_fn_keyword(token@),
{
    match token {
        Token::Ident { name, .. } => {
            let keyword = String::from_str("fn");
            name.eq(&keyword)
        },
        _ => false,
    }
}

impl ItemFn {
    /// Cuts the tokens of a function into its parts, given whether the
    /// syntax library took the signature for that of a function. Returns
    /// `None` where it did not, or where the tokens have not the shape of
    /// a function. The tokens are read as they are.
    pub fn read(input: &Vec<Token>, accepted: bool) -> (result: Option<ItemFn>)
        ensures
            item_fn_outcome(result) == spec_item_fn(views(input@), accepted),
    {
        if !accepted || input.len() == 0 {
            return None;
        }
        let last: usize = input.len() - 1;
        let stmts = match &input[last] {
            Token::Group { delimiter, tokens, .. } => {
                proof {
                    group_view(input[last as int]);
                }
                if *delimiter != Delimiter::Brace {
                    return None;
                }
                copy_tokens(tokens)
            },
            _ => {
                return None;
            },
        };
        let ghost head = views(input@).drop_last();
        let mut cut: usize = 0;
        while cut + 1 < last && token_is_punct(&input[cut], '#') && token_is_group(
            &input[cut + 1],
            Delimiter::Bracket,
        )
            invariant
                cut <= last == input.len() - 1,
                head == views(input@).drop_last(),
                attrs_end(head, 0) == attrs_end(head, cut as int),
            decreases last - cut,
        {
            cut += 2;
        }
        let attrs = copy_range(input, 0, cut);
        let signature = copy_range(input, cut, last);
        assert(views(signature@) =~= head.subrange(cut as int, head.len() as int));
        assert(views(attrs@) =~= head.subrange(0, cut as int));
        let mut at: usize = 0;
        while at < signature.len() && !token_is_fn_keyword(&signature[at])
            invariant
                at <= signature.len(),
                fn_keyword(views(signature@), 0) == fn_keyword(views(signature@), at as int),
            decreases signature.len() - at,
        {
            at += 1;
        }
        if at >= signature.len() || at + 1 >= signature.len() {
            return None;
        }
        match &signature[at + 1] {
            Token::Ident { name, span } => {
                let ident = Ident { name: name.clone(), span: *span };
                Some(ItemFn { attrs, signature, ident, stmts })
            },
            _ => None,
        }
    }

    /// Asks the syntax library whether the signature of the item, put in
    /// front of an empty body, is a function. The attributes and the body
    /// are not shown to it. Without the shape of a function the answer is
    /// a no. Where a literal can be made of the text of the signature, the
    /// library is not asked and the answer is a yes: the shape is then all
    /// that is looked for.
    pub fn ask(input: &Vec<Token>) -> (yes: bool)
        ensures
            yes ==> function_question(views(input@)),
            function_unseen(views(input@)) ==> yes,
    {
        match Self::read(input, true) {
            None => false,
            Some(func) => {
                let mut item = func.signature;
                let nothing: Vec<Token> = Vec::new();
                assert(views(nothing@) =~= Seq::empty());
                push_token(&mut item, group(Delimiter::Brace, nothing));
                let text = render(&item);
                if holds_no_literal(text.as_str()) {
                    is_function(text.as_str())
                } else {
                    true
                }
            },
        }
    }

    /// Cuts the tokens of a function into its parts. Groups without
    /// brackets are looked through first, and the syntax library is asked
    /// about the signature. Whatever it answers, the result is what `read`
    /// makes of the tokens that are left and the answer.
    pub fn parse(input: &Vec<Token>) -> (result: Option<ItemFn>)
        ensures
            exists|accepted: bool|
                {
                    &&& item_fn_outcome(result) == #[trigger] spec_item_fn(
                        spliced(views(input@)),
                        accepted,
                    )
                    &&& accepted ==> function_question(spliced(views(input@)))
                    &&& function_unseen(spliced(views(input@))) ==> accepted
                },
    {
        let flat = splice(input);
        let accepted = Self::ask(&flat);
        Self::read(&flat, accepted)
    }
}

} // verus!
