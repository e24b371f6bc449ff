//! Names and other source text, as immutable character lists.

use vstd::prelude::*;
use vstd::string::*;
use crate::chain::{Chain, chain_of};

verus! {

/// One piece of source text.
pub type Text = Chain<char>;

/// The text with the characters of a string.
pub fn text(source: &str) -> (r: Text)
    ensures
        r == chain_of(source@),
{
    let len = source.unicode_len();
    let mut out: Text = Chain::Nil;
    let mut i: usize = len;
    assert(source@.skip(len as int) =~= Seq::empty());
    while i > 0
        invariant
            i <= len,
            len == source@.len(),
            out == chain_of(source@.skip(i as int)),
        decreases i,
    {
        i = i - 1;
        out = Chain::Cons(Box::new(source.get_char(i)), Box::new(out));
        assert(source@.skip(i as int).skip(1) =~= source@.skip(i + 1));
        assert(source@.skip(i as int)[0] == source@[i as int]);
    }
    assert(source@.skip(0) =~= source@);
    out
}

fn is_text_from(name: &Text, literal: &str, from: usize, len: usize) -> (r: bool)
    requires
        from <= len,
        len == literal@.len(),
    ensures
        r == (name@ == literal@.skip(from as int)),
    decreases name,
{
    match name {
        Chain::Nil => {
            let done = from == len;
            if done {
                assert(literal@.skip(from as int) =~= Seq::empty());
            }
            done
        },
        Chain::Cons(head, tail) => {
            let ghost rest = literal@.skip(from as int);
            if from == len {
                assert(rest.len() == 0);
                assert(name@.len() > 0);
                false
            } else if **head != literal.get_char(from) {
                assert(name@[0] != rest[0]);
                false
            } else {
                let more = is_text_from(tail, literal, from + 1, len);
                assert(rest.skip(1) =~= literal@.skip(from + 1));
                assert(rest =~= seq![rest[0]] + rest.skip(1));
                proof {
                    if name@ == rest {
                        assert(name@.skip(1) =~= tail@);
                    }
                }
                more
            }
        },
    }
}

/// Whether a text spells one string.
pub fn is_text(name: &Text, literal: &str) -> (r: bool)
    ensures
        r == (name@ == literal@),
{
    let len = literal.unicode_len();
    assert(literal@.skip(0) =~= literal@);
    is_text_from(name, literal, 0, len)
}

/// Compare two texts. The walk is a loop: long texts need no deep stack.
pub fn same_text(a: &Text, b: &Text) -> (r: bool)
    ensures
        r == (*a == *b),
{
    let mut left = a;
    let mut right = b;
    loop
        invariant
            (*left == *right) == (*a == *b),
        decreases left,
    {
        match (left, right) {
            (Chain::Nil, Chain::Nil) => {
                return true;
            },
            (Chain::Cons(x, xs), Chain::Cons(y, ys)) => {
                if **x != **y {
                    return false;
                }
                left = xs;
                right = ys;
            },
            _ => {
                return false;
            },
        }
    }
}

} // verus!
