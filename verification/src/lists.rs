//! Operations on chains.

use vstd::prelude::*;
use crate::chain::Chain;
use crate::context::NameEntry;
use crate::text::{Text, is_text, same_text};
use crate::model;

verus! {

/// The element at one position.
pub fn nth<T>(items: &Chain<T>, at: u32) -> (r: Option<&T>)
    ensures
        r == model::lists::nth(items, at),
        r == (if at < items@.len() { Some(&items@[at as int]) } else { None }),
    decreases items,
{
    proof {
        crate::laws::lists::law_nth(items, at);
    }
    match items {
        Chain::Nil => None,
        Chain::Cons(head, tail) => {
            if at == 0 {
                Some(&**head)
            } else {
                nth(tail, (at - 1) as u32)
            }
        },
    }
}

/// The number of elements, counted with 32 bits.
pub fn count<T>(items: &Chain<T>) -> (r: u32)
    ensures
        r == model::lists::count(items),
        r as int == items@.len() % 0x1_0000_0000,
    decreases items,
{
    proof {
        crate::laws::lists::law_count(items);
    }
    match items {
        Chain::Nil => 0u32,
        Chain::Cons(_, tail) => count(tail).wrapping_add(1),
    }
}

/// Whether two chains have the same number of elements.
pub fn same_len<A, B>(a: &Chain<A>, b: &Chain<B>) -> (r: bool)
    ensures
        r == model::lists::same_len(a, b),
        r == (a@.len() == b@.len()),
    decreases a,
{
    proof {
        crate::laws::lists::law_same_len(a, b);
    }
    match (a, b) {
        (Chain::Nil, Chain::Nil) => true,
        (Chain::Cons(_, xs), Chain::Cons(_, ys)) => same_len(xs, ys),
        _ => false,
    }
}

/// The chain with one more element at the end.
pub fn append<T>(items: Chain<T>, item: T) -> (r: Chain<T>)
    ensures
        r == model::lists::append(items, item),
        r@ == items@.push(item),
    decreases items,
{
    proof {
        crate::laws::lists::law_append(items, item);
    }
    match items {
        Chain::Nil => Chain::Cons(Box::new(item), Box::new(Chain::Nil)),
        Chain::Cons(head, tail) => Chain::Cons(head, Box::new(append(*tail, item))),
    }
}

/// The elements of the first chain, then those of the second.
pub fn concat<T>(items: Chain<T>, more: Chain<T>) -> (r: Chain<T>)
    ensures
        r == model::lists::concat(items, more),
        r@ == items@ + more@,
    decreases items,
{
    proof {
        crate::laws::lists::law_concat(items, more);
    }
    match items {
        Chain::Nil => more,
        Chain::Cons(head, tail) => Chain::Cons(head, Box::new(concat(*tail, more))),
    }
}

/// The chain with the element at one position replaced; a position
/// outside the chain changes nothing.
pub fn set_nth<T>(items: Chain<T>, at: u32, item: T) -> (r: Chain<T>)
    ensures
        r == model::lists::set_nth(items, at, item),
        r@ == (if at < items@.len() { items@.update(at as int, item) } else { items@ }),
    decreases items,
{
    proof {
        crate::laws::lists::law_set_nth(items, at, item);
    }
    match items {
        Chain::Nil => Chain::Nil,
        Chain::Cons(head, tail) => {
            if at == 0 {
                Chain::Cons(Box::new(item), tail)
            } else {
                Chain::Cons(head, Box::new(set_nth(*tail, (at - 1) as u32, item)))
            }
        },
    }
}

/// The first elements of a chain, up to a number.
pub fn truncate<T>(items: Chain<T>, keep: u32) -> (r: Chain<T>)
    ensures
        r == model::lists::truncate(items, keep),
        r@ == (if keep < items@.len() { items@.take(keep as int) } else { items@ }),
    decreases items,
{
    proof {
        crate::laws::lists::law_truncate(items, keep);
    }
    match items {
        Chain::Nil => Chain::Nil,
        Chain::Cons(head, tail) => {
            if keep == 0 {
                Chain::Nil
            } else {
                Chain::Cons(head, Box::new(truncate(*tail, (keep - 1) as u32)))
            }
        },
    }
}

/// The elements of a chain behind a number of first ones.
pub fn skip<T>(items: Chain<T>, drop: u32) -> (r: Chain<T>)
    ensures
        r == model::lists::skip(items, drop),
    decreases items,
{
    match items {
        Chain::Nil => Chain::Nil,
        Chain::Cons(head, tail) => {
            if drop == 0 {
                Chain::Cons(head, tail)
            } else {
                skip(*tail, (drop - 1) as u32)
            }
        },
    }
}

/// The chain of one element.
pub fn one<T>(item: T) -> (r: Chain<T>)
    ensures
        r == model::lists::one(item),
{
    Chain::Cons(Box::new(item), Box::new(Chain::Nil))
}

/// The chain of two elements.
pub fn two<T>(a: T, b: T) -> (r: Chain<T>)
    ensures
        r == model::lists::two(a, b),
{
    Chain::Cons(Box::new(a), Box::new(one(b)))
}

/// The chain of three elements.
pub fn three<T>(a: T, b: T, c: T) -> (r: Chain<T>)
    ensures
        r == model::lists::three(a, b, c),
{
    Chain::Cons(Box::new(a), Box::new(two(b, c)))
}

/// The chain with one more element at the front.
pub fn cons<T>(item: T, items: Chain<T>) -> (r: Chain<T>)
    ensures
        r == model::lists::cons(item, items),
{
    Chain::Cons(Box::new(item), Box::new(items))
}

/// One false marker for each element.
pub fn falses<T>(items: &Chain<T>) -> (r: Chain<bool>)
    ensures
        r == model::lists::falses(items),
    decreases items,
{
    match items {
        Chain::Nil => Chain::Nil,
        Chain::Cons(_, tail) => Chain::Cons(Box::new(false), Box::new(falses(tail))),
    }
}

/// Whether every marker is set.
pub fn all_set(items: &Chain<bool>) -> (r: bool)
    ensures
        r == model::lists::all_set(items),
        r == (forall|i: int| 0 <= i < items@.len() ==> items@[i]),
    decreases items,
{
    proof {
        crate::laws::lists::law_all_set(items);
    }
    match items {
        Chain::Nil => true,
        Chain::Cons(head, tail) => **head && all_set(tail),
    }
}

/// The position of the first marker that is not set.
pub fn first_unset(items: &Chain<bool>) -> (r: Option<u32>)
    ensures
        r == model::lists::first_unset(items),
    decreases items,
{
    match items {
        Chain::Nil => None,
        Chain::Cons(head, tail) => {
            if !**head {
                Some(0u32)
            } else {
                match first_unset(tail) {
                    None => None,
                    Some(at) => Some(at.wrapping_add(1)),
                }
            }
        },
    }
}

/// The position of the first equal text.
pub fn position(names: &Chain<Text>, name: &Text) -> (r: Option<u32>)
    ensures
        r == model::lists::position(names, name),
    decreases names,
{
    match names {
        Chain::Nil => None,
        Chain::Cons(head, tail) => {
            if same_text(&**head, &*name) {
                Some(0u32)
            } else {
                match position(tail, name) {
                    None => None,
                    Some(at) => Some(at.wrapping_add(1)),
                }
            }
        },
    }
}

/// Whether a list of names holds one name.
pub fn holds_name(names: &Chain<Text>, name: &Text) -> (r: bool)
    ensures
        r == model::lists::holds_name(names, name),
        r == names@.contains(*name),
    decreases names,
{
    proof {
        crate::laws::lists::law_holds_name(names, name);
    }
    match names {
        Chain::Nil => false,
        Chain::Cons(head, tail) => same_text(&**head, &*name) || holds_name(tail, name),
    }
}

/// Whether a list of numbers holds one number.
pub fn holds_id(ids: &Chain<u32>, id: u32) -> (r: bool)
    ensures
        r == model::lists::holds_id(ids, id),
        r == ids@.contains(id),
    decreases ids,
{
    proof {
        crate::laws::lists::law_holds_id(ids, id);
    }
    match ids {
        Chain::Nil => false,
        Chain::Cons(head, tail) => **head == id || holds_id(tail, id),
    }
}

/// The index of one name in a name table.
pub fn find_id(entries: &Chain<NameEntry>, name: &Text) -> (r: Option<u32>)
    ensures
        r == model::lists::find_id(entries, name),
    decreases entries,
{
    match entries {
        Chain::Nil => None,
        Chain::Cons(head, tail) => {
            if same_text(&head.name, &*name) {
                Some(head.id)
            } else {
                find_id(tail, name)
            }
        },
    }
}

/// The index of one literal name in a name table.
pub fn find_literal(entries: &Chain<NameEntry>, name: &str) -> (r: Option<u32>)
    ensures
        r == model::lists::find_literal(entries, name),
    decreases entries,
{
    match entries {
        Chain::Nil => None,
        Chain::Cons(head, tail) => {
            if is_text(&head.name, name) {
                Some(head.id)
            } else {
                find_literal(tail, name)
            }
        },
    }
}

/// The first names that a list holds before the separator of a
/// qualified name: the text before the first dot.
pub fn before_dot(name: &Text) -> (r: Text)
    ensures
        r == model::lists::before_dot(name),
    decreases name,
{
    match name {
        Chain::Nil => Chain::Nil,
        Chain::Cons(head, tail) => {
            if **head == '.' {
                Chain::Nil
            } else {
                cons(**head, before_dot(tail))
            }
        },
    }
}

/// The text after the first dot, where there is one.
pub fn after_dot(name: &Text) -> (r: Option<&Text>)
    ensures
        r == model::lists::after_dot(name),
    decreases name,
{
    match name {
        Chain::Nil => None,
        Chain::Cons(head, tail) => {
            if **head == '.' {
                Some(&**tail)
            } else {
                after_dot(tail)
            }
        },
    }
}

} // verus!
