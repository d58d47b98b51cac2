//! The names that the RPC derives give to generated items.
use vstd::prelude::*;
use vstd::string::StrSliceExecFns;

use crate::text::{
    ascii_lowercase, is_upper, joined3, is_uppercase, push_char, to_ascii_lowercase,
};

verus! {

/// What the character at position `i` contributes to the snake-case form: an
/// underscore before an upper-case character that is not the first one, then the
/// character with its ASCII letters lowered.
pub open spec fn snake_piece(c: char, i: int) -> Seq<char> {
    if is_upper(c) && i != 0 {
        seq!['_', ascii_lowercase(c)]
    } else {
        seq![ascii_lowercase(c)]
    }
}

/// The snake-case form of a camel-case name, built character by character.
pub open spec fn snake_case(s: Seq<char>) -> Seq<char>
    decreases s.len(),
{
    if s.len() == 0 {
        Seq::empty()
    } else {
        snake_case(s.drop_last()) + snake_piece(s.last(), s.len() - 1)
    }
}

/// The snake-case form of `s`: `MultiplyAll` becomes `multiply_all`.
pub fn to_snake_case(s: &str) -> (snake: String)
    ensures
        snake@ == snake_case(s@),
{
    let mut snake = String::new();
    let n = s.unicode_len();
    let mut i: usize = 0;
    while i < n
        invariant
            n == s@.len(),
            i <= n,
            snake@ == snake_case(s@.take(i as int)),
        decreases n - i,
    {
        let ch = s.get_char(i);
        proof {
            assert(s@.take(i + 1).drop_last() =~= s@.take(i as int));
        }
        if is_uppercase(ch) && i != 0 {
            push_char(&mut snake, '_');
        }
        push_char(&mut snake, to_ascii_lowercase(ch));
        i = i + 1;
    }
    proof {
        assert(s@.take(n as int) =~= s@);
    }
    snake
}

/// The name of the service method that handles the request `variant`.
pub open spec fn handler_name(variant: Seq<char>) -> Seq<char> {
    "handle_"@ + snake_case(variant) + "_request"@
}

/// The name of the service method that takes the response of the client call `variant`.
pub open spec fn response_name(variant: Seq<char>) -> Seq<char> {
    "on_"@ + snake_case(variant) + "_response"@
}

/// `handle_<variant in snake case>_request`.
pub fn handler_method_name(variant: &str) -> (name: String)
    ensures
        name@ == handler_name(variant@),
{
    let snake = to_snake_case(variant);
    joined3("handle_", snake.as_str(), "_request")
}

/// `on_<variant in snake case>_response`.
pub fn response_method_name(variant: &str) -> (name: String)
    ensures
        name@ == response_name(variant@),
{
    let snake = to_snake_case(variant);
    joined3("on_", snake.as_str(), "_response")
}

} // verus!
