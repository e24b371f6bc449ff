//! The two spellings of a member name.

use vstd::prelude::*;
use crate::chain::Chain;
use crate::model::lists::cons;
use crate::model::names::{camel_member, camel_rest, is_upper, lower, snake_member, snake_rest, upper};
use crate::text::Text;

verus! {

/// Whether the rest of a name is spelled in lower case, with single
/// underscores between its words. At the start of a word stands a letter.
pub open spec fn snake_spelled(name: Text, start: bool) -> bool
    decreases name,
{
    match name {
        Chain::Nil => !start,
        Chain::Cons(head, tail) => if *head == '_' {
            !start && snake_spelled(*tail, true)
        } else {
            &&& !is_upper(*head)
            &&& start ==> 'a' <= *head && *head <= 'z'
            &&& snake_spelled(*tail, false)
        },
    }
}

proof fn lemma_case(c: char)
    requires
        'a' <= c && c <= 'z',
    ensures
        is_upper(upper(c)),
        lower(upper(c)) == c,
{
}

proof fn lemma_rest(name: Text, start: bool, first: bool)
    requires
        snake_spelled(name, start),
        first ==> start,
    ensures
        snake_rest(&camel_rest(&name, start), first) == (if start && !first {
            cons('_', name)
        } else {
            name
        }),
    decreases name,
{
    match name {
        Chain::Nil => {},
        Chain::Cons(head, tail) => {
            if *head == '_' {
                lemma_rest(*tail, true, false);
            } else {
                lemma_rest(*tail, false, false);
                if start {
                    lemma_case(*head);
                }
            }
        },
    }
}

/// A member name in snake case survives the way to camel case and back.
pub proof fn law_member_round_trip(name: Text)
    requires
        snake_spelled(name, true),
    ensures
        snake_member(&camel_member(&name)) == name,
{
    lemma_rest(name, true, true);
}

} // verus!
