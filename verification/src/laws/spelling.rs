//! Composite names: how they are put together and taken apart.

use vstd::prelude::*;
use crate::chain::{Chain, chain_of, chain_of_view};
use crate::laws::lists::law_concat;
use crate::model::lists::{after_dot, before_dot, cons};
use crate::model::names::{behind, dotted, has_dot, tuple_core_arity};
use crate::text::Text;

verus! {

/// Whether a name has no dot.
pub open spec fn is_plain(name: Text) -> bool {
    !name@.contains('.')
}

/// A dotted name comes apart into what it was made of.
pub proof fn law_dotted(first: Text, second: Text)
    requires
        is_plain(first),
    ensures
        before_dot(&dotted(&first, &second)) == first,
        after_dot(&dotted(&first, &second)) == Some(&second),
        has_dot(&dotted(&first, &second)),
        dotted(&first, &second)@ == first@ + seq!['.'] + second@,
    decreases first,
{
    law_concat(first, cons('.', second));
    assert(dotted(&first, &second)@ =~= first@ + seq!['.'] + second@);
    if let Chain::Cons(head, tail) = first {
        assert(first@[0] == *head);
        assert(!tail@.contains('.')) by {
            if tail@.contains('.') {
                let i = tail@.index_of('.');
                assert(first@[i + 1] == '.');
            }
        }
        law_dotted(*tail, second);
        assert(dotted(&first, &second) == cons(*head, dotted(&*tail, &second)));
    } else {
        reveal_with_fuel(before_dot, 2);
        reveal_with_fuel(after_dot, 2);
        assert(dotted(&first, &second) == cons('.', second));
    }
}

/// A name without a dot has no part behind one.
pub proof fn law_plain_text(name: &Text)
    ensures
        has_dot(name) <==> !is_plain(*name),
    decreases name,
{
    if let Chain::Cons(head, tail) = name {
        law_plain_text(tail);
        assert(name@[0] == **head);
        if tail@.contains('.') {
            let i = tail@.index_of('.');
            assert(name@[i + 1] == '.');
        }
        if name@.contains('.') && **head != '.' {
            let i = name@.index_of('.');
            assert(tail@[i - 1] == '.');
        }
    }
}

/// What stands behind a first part is the rest of the text, exactly where
/// the text starts with the part.
pub proof fn law_behind(source: &Text, first: &Text)
    ensures
        behind(source, first) matches Some(rest) ==> source@ == first@ + rest@,
        first@.is_prefix_of(source@) ==> behind(source, first) is Some,
    decreases first,
{
    match (source, first) {
        (Chain::Cons(x, xs), Chain::Cons(y, ys)) => {
            law_behind(xs, ys);
            assert(source@[0] == **x && first@[0] == **y);
            if first@.is_prefix_of(source@) {
                assert(first@ =~= source@.subrange(0, first@.len() as int));
                assert(source@.subrange(0, first@.len() as int)[0] == source@[0]);
                assert(ys@ =~= xs@.subrange(0, ys@.len() as int)) by {
                    assert forall|i: int| 0 <= i < ys@.len() implies ys@[i] == xs@[i] by {
                        assert(first@[i + 1] == source@.subrange(0, first@.len() as int)[i + 1]);
                    }
                }
            }
            if let Some(rest) = behind(source, first) {
                assert(source@ =~= first@ + rest@);
            }
        },
        (_, Chain::Nil) => {
            assert(source@ =~= first@ + source@);
        },
        _ => {
            if first@.is_prefix_of(source@) {
                assert(first@.len() <= source@.len());
            }
        },
    }
}

/// A tuple class has between two and sixteen elements, and its name starts
/// with what all tuple classes start with.
pub proof fn law_tuple_arity(name: &Text)
    ensures
        tuple_core_arity(name) matches Some(arity) ==> 2 <= arity <= 16 && "Tuple"@.is_prefix_of(name@),
{
    chain_of_view("Tuple"@);
    law_behind(name, &chain_of("Tuple"@));
    if tuple_core_arity(name) is Some {
        let rest = behind(name, &chain_of("Tuple"@))->0;
        assert("Tuple"@ =~= ("Tuple"@ + rest@).subrange(0, "Tuple"@.len() as int));
    }
}

} // verus!
