//! Operations on chains.
//!
//! The functions here state what the functions of the same name compute.

use vstd::prelude::*;
use crate::chain::Chain;
use crate::context::NameEntry;
use crate::text::Text;

verus! {

/// The element at one position.
pub open spec fn nth<T>(items: &Chain<T>, at: u32) -> Option<&T>
    decreases items,
{
    match items {
        Chain::Nil => None,
        Chain::Cons(head, tail) => {
            if at == 0 {
                Some(&**head)
            } else {
                nth(tail, (at - 1) as u32)
            }
        },
    }
}

/// The number of elements, counted with 32 bits.
pub open spec fn count<T>(items: &Chain<T>) -> u32
    decreases items,
{
    match items {
        Chain::Nil => 0u32,
        Chain::Cons(_, tail) => count(tail).wrapping_add(1),
    }
}

/// Whether two chains have the same number of elements.
pub open spec fn same_len<A, B>(a: &Chain<A>, b: &Chain<B>) -> bool
    decreases a,
{
    match (a, b) {
        (Chain::Nil, Chain::Nil) => true,
        (Chain::Cons(_, xs), Chain::Cons(_, ys)) => same_len(xs, ys),
        _ => false,
    }
}

/// The chain with one more element at the end.
pub open spec fn append<T>(items: Chain<T>, item: T) -> Chain<T>
    decreases items,
{
    match items {
        Chain::Nil => Chain::Cons(Box::new(item), Box::new(Chain::Nil)),
        Chain::Cons(head, tail) => Chain::Cons(head, Box::new(append(*tail, item))),
    }
}

/// The elements of the first chain, then those of the second.
pub open spec fn concat<T>(items: Chain<T>, more: Chain<T>) -> Chain<T>
    decreases items,
{
    match items {
        Chain::Nil => more,
        Chain::Cons(head, tail) => Chain::Cons(head, Box::new(concat(*tail, more))),
    }
}

/// The chain with the element at one position replaced; a position
/// outside the chain changes nothing.
pub open spec fn set_nth<T>(items: Chain<T>, at: u32, item: T) -> Chain<T>
    decreases items,
{
    match items {
        Chain::Nil => Chain::Nil,
        Chain::Cons(head, tail) => {
            if at == 0 {
                Chain::Cons(Box::new(item), tail)
            } else {
                Chain::Cons(head, Box::new(set_nth(*tail, (at - 1) as u32, item)))
            }
        },
    }
}

/// The first elements of a chain, up to a number.
pub open spec fn truncate<T>(items: Chain<T>, keep: u32) -> Chain<T>
    decreases items,
{
    match items {
        Chain::Nil => Chain::Nil,
        Chain::Cons(head, tail) => {
            if keep == 0 {
                Chain::Nil
            } else {
                Chain::Cons(head, Box::new(truncate(*tail, (keep - 1) as u32)))
            }
        },
    }
}

/// The elements of a chain behind a number of first ones.
pub open spec fn skip<T>(items: Chain<T>, drop: u32) -> Chain<T>
    decreases items,
{
    match items {
        Chain::Nil => Chain::Nil,
        Chain::Cons(head, tail) => {
            if drop == 0 {
                Chain::Cons(head, tail)
            } else {
                skip(*tail, (drop - 1) as u32)
            }
        },
    }
}

/// The chain of one element.
pub open spec fn one<T>(item: T) -> Chain<T>
{
    Chain::Cons(Box::new(item), Box::new(Chain::Nil))
}

/// The chain of two elements.
pub open spec fn two<T>(a: T, b: T) -> Chain<T>
{
    Chain::Cons(Box::new(a), Box::new(one(b)))
}

/// The chain of three elements.
pub open spec fn three<T>(a: T, b: T, c: T) -> Chain<T>
{
    Chain::Cons(Box::new(a), Box::new(two(b, c)))
}

/// The chain with one more element at the front.
pub open spec fn cons<T>(item: T, items: Chain<T>) -> Chain<T>
{
    Chain::Cons(Box::new(item), Box::new(items))
}

/// One false marker for each element.
pub open spec fn falses<T>(items: &Chain<T>) -> Chain<bool>
    decreases items,
{
    match items {
        Chain::Nil => Chain::Nil,
        Chain::Cons(_, tail) => Chain::Cons(Box::new(false), Box::new(falses(tail))),
    }
}

/// Whether every marker is set.
pub open spec fn all_set(items: &Chain<bool>) -> bool
    decreases items,
{
    match items {
        Chain::Nil => true,
        Chain::Cons(head, tail) => **head && all_set(tail),
    }
}

/// The position of the first marker that is not set.
pub open spec fn first_unset(items: &Chain<bool>) -> Option<u32>
    decreases items,
{
    match items {
        Chain::Nil => None,
        Chain::Cons(head, tail) => {
            if !**head {
                Some(0u32)
            } else {
                match first_unset(tail) {
                    None => None,
                    Some(at) => Some(at.wrapping_add(1)),
                }
            }
        },
    }
}

/// The position of the first equal text.
pub open spec fn position(names: &Chain<Text>, name: &Text) -> Option<u32>
    decreases names,
{
    match names {
        Chain::Nil => None,
        Chain::Cons(head, tail) => {
            if (**head == *name) {
                Some(0u32)
            } else {
                match position(tail, name) {
                    None => None,
                    Some(at) => Some(at.wrapping_add(1)),
                }
            }
        },
    }
}

/// Whether a list of names holds one name.
pub open spec fn holds_name(names: &Chain<Text>, name: &Text) -> bool
    decreases names,
{
    match names {
        Chain::Nil => false,
        Chain::Cons(head, tail) => (**head == *name) || holds_name(tail, name),
    }
}

/// Whether a list of numbers holds one number.
pub open spec fn holds_id(ids: &Chain<u32>, id: u32) -> bool
    decreases ids,
{
    match ids {
        Chain::Nil => false,
        Chain::Cons(head, tail) => **head == id || holds_id(tail, id),
    }
}

/// The index of one name in a name table.
pub open spec fn find_id(entries: &Chain<NameEntry>, name: &Text) -> Option<u32>
    decreases entries,
{
    match entries {
        Chain::Nil => None,
        Chain::Cons(head, tail) => {
            if (head.name == *name) {
                Some(head.id)
            } else {
                find_id(tail, name)
            }
        },
    }
}

/// The index of one literal name in a name table.
pub open spec fn find_literal(entries: &Chain<NameEntry>, name: &str) -> Option<u32>
    decreases entries,
{
    match entries {
        Chain::Nil => None,
        Chain::Cons(head, tail) => {
            if (head.name@ == name@) {
                Some(head.id)
            } else {
                find_literal(tail, name)
            }
        },
    }
}

/// The first names that a list holds before the separator of a
/// qualified name: the text before the first dot.
pub open spec fn before_dot(name: &Text) -> Text
    decreases name,
{
    match name {
        Chain::Nil => Chain::Nil,
        Chain::Cons(head, tail) => {
            if **head == '.' {
                Chain::Nil
            } else {
                cons(**head, before_dot(tail))
            }
        },
    }
}

/// The text after the first dot, where there is one.
pub open spec fn after_dot(name: &Text) -> Option<&Text>
    decreases name,
{
    match name {
        Chain::Nil => None,
        Chain::Cons(head, tail) => {
            if **head == '.' {
                Some(&**tail)
            } else {
                after_dot(tail)
            }
        },
    }
}

} // verus!
