//! Immutable lists.
//!
//! A chain is a singly linked list. Types are trees over chains, so two
//! types are equal exactly when they have the same shape.

use vstd::prelude::*;

verus! {

/// One immutable list.
pub enum Chain<T> {
    Nil,
    Cons(Box<T>, Box<Chain<T>>),
}

impl<T> Chain<T> {
    /// The elements in order.
    pub open spec fn items(self) -> Seq<T>
        decreases self,
    {
        match self {
            Chain::Nil => Seq::empty(),
            Chain::Cons(head, tail) => seq![*head] + tail.items(),
        }
    }
}

impl<T> View for Chain<T> {
    type V = Seq<T>;

    open spec fn view(&self) -> Seq<T> {
        self.items()
    }
}

/// The chain with the given elements.
pub open spec fn chain_of<T>(items: Seq<T>) -> Chain<T>
    decreases items.len(),
{
    if items.len() == 0 {
        Chain::Nil
    } else {
        Chain::Cons(Box::new(items[0]), Box::new(chain_of(items.skip(1))))
    }
}

/// Building a chain keeps the elements.
pub proof fn chain_of_view<T>(items: Seq<T>)
    ensures
        chain_of(items)@ == items,
    decreases items.len(),
{
    if items.len() > 0 {
        chain_of_view(items.skip(1));
        assert(seq![items[0]] + items.skip(1) =~= items);
    } else {
        assert(items =~= Seq::empty());
    }
}

/// A chain is determined by its elements.
pub proof fn chain_view_of<T>(chain: Chain<T>)
    ensures
        chain_of(chain@) == chain,
    decreases chain,
{
    match chain {
        Chain::Nil => {},
        Chain::Cons(head, tail) => {
            chain_view_of(*tail);
            assert(chain@.skip(1) =~= tail@);
            assert(chain@[0] == *head);
        },
    }
}

/// Two chains with equal elements are equal.
pub proof fn chain_injective<T>(a: Chain<T>, b: Chain<T>)
    requires
        a@ == b@,
    ensures
        a == b,
{
    chain_view_of(a);
    chain_view_of(b);
}

impl<T> Chain<T> {
    pub open spec fn spec_is_empty(&self) -> bool {
        match self {
            Chain::Nil => true,
            Chain::Cons(_, _) => false,
        }
    }

    /// Whether the chain has no element.
    #[verifier::when_used_as_spec(spec_is_empty)]
    pub fn is_empty(&self) -> (r: bool)
        ensures
            r == self.spec_is_empty(),
    {
        match self {
            Chain::Nil => true,
            Chain::Cons(_, _) => false,
        }
    }
}

/// A chain with the elements of another put in front of it one by one.
pub open spec fn moved_onto<T>(from: Chain<T>, onto: Chain<T>) -> Chain<T>
    decreases from,
{
    match from {
        Chain::Nil => onto,
        Chain::Cons(head, tail) => moved_onto(*tail, Chain::Cons(head, Box::new(onto))),
    }
}

/// Put the elements of a chain in front of another one by one.
pub fn move_onto<T>(from: Chain<T>, onto: Chain<T>) -> (r: Chain<T>)
    ensures
        r == moved_onto(from, onto),
{
    let mut rest = from;
    let mut out = onto;
    loop
        invariant
            moved_onto(rest, out) == moved_onto(from, onto),
        decreases rest,
    {
        match rest {
            Chain::Nil => {
                return out;
            },
            Chain::Cons(head, tail) => {
                out = Chain::Cons(head, Box::new(out));
                rest = *tail;
            },
        }
    }
}

/// Copy a chain of plain values. The walk is a loop: a long text needs no
/// deep stack.
pub fn copy_chain<T: Copy>(chain: &Chain<T>) -> (r: Chain<T>)
    ensures
        r == *chain,
{
    let mut rest = chain;
    let mut back: Chain<T> = Chain::Nil;
    loop
        invariant
            moved_onto(back, *rest) == *chain,
        decreases rest,
    {
        match rest {
            Chain::Nil => {
                return move_onto(back, Chain::Nil);
            },
            Chain::Cons(head, tail) => {
                back = Chain::Cons(Box::new(**head), Box::new(back));
                rest = tail;
            },
        }
    }
}

} // verus!
