//! What may be handed to the syntax library: text in which the lexer can
//! make no literal. The library panics on a literal of a kind that it does
//! not know, so it is never shown one.
//!
//! The lexer makes a literal in these places and no others: at a `"`, with
//! or without letters and `#` in front of it; at a `'` that has another
//! `'` one character later, or an escape with `\` behind it, with or
//! without a `b` in front of it; at a digit that begins a token; in the
//! place of a comment that documents; and in the place of the marker that
//! the compiler leaves for an expansion that failed, which holds a
//! comment. A text without `"`, without `\`, without a comment, without a
//! digit that goes on no word and without a `'` that has another one
//! character later has none of these places.

use vstd::prelude::*;
use vstd::string::*;

verus! {

/// Whether the character is an ASCII digit.
pub open spec fn is_digit(c: char) -> bool {
    '0' as u32 <= c as u32 <= '9' as u32
}

/// Whether the character is an ASCII letter, an ASCII digit or `_`.
pub open spec fn is_word(c: char) -> bool {
    ||| 'a' as u32 <= c as u32 <= 'z' as u32
    ||| 'A' as u32 <= c as u32 <= 'Z' as u32
    ||| is_digit(c)
    ||| c == '_'
}

/// Whether no literal can begin or go on at `i`: there is no `"` and no
/// `\` there; a digit there goes on a word; a `'` there is not followed,
/// one character later, by another `'`; a `/` there is not followed by a
/// `/` or a `*`, so that no comment begins.
pub open spec fn no_literal_at(text: Seq<char>, i: int) -> bool {
    &&& text[i] != '"'
    &&& text[i] != '\\'
    &&& is_digit(text[i]) ==> i > 0 && is_word(text[i - 1])
    &&& text[i] == '\'' ==> i + 2 >= text.len() || text[i + 2] != '\''
    &&& text[i] == '/' ==> i + 1 >= text.len() || (text[i + 1] != '/' && text[i + 1] != '*')
}

/// Whether the lexer can make no literal of the text: no character of it
/// is a place where one can begin or go on.
pub open spec fn no_literal(text: Seq<char>) -> bool {
    forall|i: int| 0 <= i < text.len() ==> no_literal_at(text, i)
}

/// Whether the character is an ASCII digit.
pub fn char_is_digit(c: char) -> (yes: bool)
    ensures
        yes == is_digit(c),
{
    let code: u32 = c as u32;
    '0' as u32 <= code && code <= '9' as u32
}

/// Whether the character is an ASCII letter, an ASCII digit or `_`.
pub fn char_is_word(c: char) -> (yes: bool)
    ensures
        yes == is_word(c),
{
    let code: u32 = c as u32;
    ('a' as u32 <= code && code <= 'z' as u32) || ('A' as u32 <= code && code <= 'Z' as u32)
        || char_is_digit(c) || c == '_'
}

/// Whether the lexer can make no literal of the text.
pub fn holds_no_literal(text: &str) -> (yes: bool)
    ensures
        yes == no_literal(text@),
{
    let len: usize = text.unicode_len();
    let mut i: usize = 0;
    while i < len
        invariant
            len == text@.len(),
            i <= len,
            forall|j: int| 0 <= j < i ==> no_literal_at(text@, j),
        decreases len - i,
    {
        let c = text.get_char(i);
        if c == '"' || c == '\\' {
            assert(!no_literal_at(text@, i as int));
            return false;
        }
        if char_is_digit(c) && (i == 0 || !char_is_word(text.get_char(i - 1))) {
            assert(!no_literal_at(text@, i as int));
            return false;
        }
        if c == '\'' && len - i > 2 && text.get_char(i + 2) == '\'' {
            assert(!no_literal_at(text@, i as int));
            return false;
        }
        if c == '/' && len - i > 1 {
            let next = text.get_char(i + 1);
            if next == '/' || next == '*' {
                assert(!no_literal_at(text@, i as int));
                return false;
            }
        }
        i += 1;
    }
    true
}

} // verus!
