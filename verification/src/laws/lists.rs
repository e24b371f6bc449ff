//! List operations, in terms of sequences.

use vstd::prelude::*;
use crate::chain::Chain;
use crate::context::NameEntry;
use crate::model::lists::{all_set, append, concat, count, falses, find_id, find_literal, first_unset, holds_id, holds_name, nth, position, same_len, set_nth, truncate};
use crate::text::Text;

verus! {

/// Reading a position gives the element there, and nothing behind the end.
pub proof fn law_nth<T>(items: &Chain<T>, at: u32)
    ensures
        nth(items, at) == (if at < items@.len() {
            Some(&items@[at as int])
        } else {
            None
        }),
    decreases items,
{
    match items {
        Chain::Nil => {},
        Chain::Cons(head, tail) => {
            if at > 0 {
                law_nth(tail, (at - 1) as u32);
                if at < items@.len() {
                    assert(items@[at as int] == tail@[at - 1]);
                }
            }
        },
    }
}

/// Counting gives the length, up to the width of a count.
pub proof fn law_count<T>(items: &Chain<T>)
    ensures
        count(items) as int == items@.len() % 0x1_0000_0000,
    decreases items,
{
    match items {
        Chain::Nil => {},
        Chain::Cons(_, tail) => law_count(tail),
    }
}

/// Two lists compare as their lengths do.
pub proof fn law_same_len<A, B>(a: &Chain<A>, b: &Chain<B>)
    ensures
        same_len(a, b) == (a@.len() == b@.len()),
    decreases a,
{
    match (a, b) {
        (Chain::Cons(_, xs), Chain::Cons(_, ys)) => law_same_len(xs, ys),
        _ => {},
    }
}

/// Appending pushes one element.
pub proof fn law_append<T>(items: Chain<T>, item: T)
    ensures
        append(items, item)@ == items@.push(item),
    decreases items,
{
    match items {
        Chain::Nil => {
            reveal_with_fuel(Chain::items, 3);
            assert(append(items, item)@ =~= items@.push(item));
        },
        Chain::Cons(_, tail) => {
            law_append(*tail, item);
            assert(append(items, item)@ =~= items@.push(item));
        },
    }
}

/// Joining two lists joins their elements.
pub proof fn law_concat<T>(items: Chain<T>, more: Chain<T>)
    ensures
        concat(items, more)@ == items@ + more@,
    decreases items,
{
    match items {
        Chain::Nil => {
            assert(items@ + more@ =~= more@);
        },
        Chain::Cons(_, tail) => {
            law_concat(*tail, more);
            assert(concat(items, more)@ =~= items@ + more@);
        },
    }
}

/// Replacing a position changes that element and no other.
pub proof fn law_set_nth<T>(items: Chain<T>, at: u32, item: T)
    ensures
        set_nth(items, at, item)@ == (if at < items@.len() {
            items@.update(at as int, item)
        } else {
            items@
        }),
    decreases items,
{
    match items {
        Chain::Nil => {},
        Chain::Cons(_, tail) => {
            if at > 0 {
                law_set_nth(*tail, (at - 1) as u32, item);
            }
            assert(set_nth(items, at, item)@ =~= if at < items@.len() {
                items@.update(at as int, item)
            } else {
                items@
            });
        },
    }
}

/// Truncating keeps the first elements.
pub proof fn law_truncate<T>(items: Chain<T>, keep: u32)
    ensures
        truncate(items, keep)@ == (if keep < items@.len() {
            items@.take(keep as int)
        } else {
            items@
        }),
    decreases items,
{
    match items {
        Chain::Nil => {},
        Chain::Cons(_, tail) => {
            if keep > 0 {
                law_truncate(*tail, (keep - 1) as u32);
            }
            assert(truncate(items, keep)@ =~= if keep < items@.len() {
                items@.take(keep as int)
            } else {
                items@
            });
        },
    }
}

/// There is one cleared marker for each element.
pub proof fn law_falses<T>(items: &Chain<T>)
    ensures
        falses(items)@ == Seq::new(items@.len(), |i: int| false),
    decreases items,
{
    match items {
        Chain::Nil => {
            assert(falses(items)@ =~= Seq::new(items@.len(), |i: int| false));
        },
        Chain::Cons(_, tail) => {
            law_falses(tail);
            assert(falses(items)@ =~= Seq::new(items@.len(), |i: int| false));
        },
    }
}

/// All markers are set exactly when each one is.
pub proof fn law_all_set(items: &Chain<bool>)
    ensures
        all_set(items) == (forall|i: int| 0 <= i < items@.len() ==> items@[i]),
    decreases items,
{
    match items {
        Chain::Nil => {},
        Chain::Cons(head, tail) => {
            law_all_set(tail);
            assert(items@[0] == **head);
            assert(forall|i: int| 0 <= i < tail@.len() ==> tail@[i] == #[trigger] items@[i + 1]);
            if all_set(items) {
                assert forall|i: int| 0 <= i < items@.len() implies items@[i] by {
                    if i > 0 {
                        assert(items@[i] == tail@[i - 1]);
                    }
                }
            } else if **head {
                let i = choose|i: int| 0 <= i < tail@.len() && !tail@[i];
                assert(!items@[i + 1]);
            }
        },
    }
}

/// A cleared marker is found exactly when not all markers are set, and
/// it is the first one.
pub proof fn law_first_unset(items: &Chain<bool>)
    requires
        items@.len() <= u32::MAX,
    ensures
        first_unset(items) is None <==> all_set(items),
        first_unset(items) matches Some(at) ==> at < items@.len() && !items@[at as int]
            && (forall|i: int| 0 <= i < at ==> items@[i]),
    decreases items,
{
    match items {
        Chain::Nil => {},
        Chain::Cons(head, tail) => {
            assert(items@[0] == **head);
            assert(forall|i: int| 0 <= i < tail@.len() ==> items@[i + 1] == tail@[i]);
            law_first_unset(tail);
            if **head && first_unset(tail) is Some {
                let at = first_unset(tail)->0;
                assert(first_unset(items) == Some((at + 1) as u32));
                assert(items@[at + 1] == tail@[at as int]);
                assert forall|i: int| 0 <= i < at + 1 implies items@[i] by {
                    if i > 0 {
                        assert(items@[(i - 1) + 1] == tail@[i - 1]);
                    }
                }
            }
        },
    }
}

/// A name is held exactly when it is an element.
pub proof fn law_holds_name(names: &Chain<Text>, name: &Text)
    ensures
        holds_name(names, name) == names@.contains(*name),
    decreases names,
{
    match names {
        Chain::Nil => {},
        Chain::Cons(head, tail) => {
            law_holds_name(tail, name);
            assert(names@[0] == **head);
            if tail@.contains(*name) {
                let i = tail@.index_of(*name);
                assert(names@[i + 1] == *name);
            }
            if names@.contains(*name) && **head != *name {
                let i = names@.index_of(*name);
                assert(tail@[i - 1] == *name);
            }
        },
    }
}

/// A number is held exactly when it is an element.
pub proof fn law_holds_id(ids: &Chain<u32>, id: u32)
    ensures
        holds_id(ids, id) == ids@.contains(id),
    decreases ids,
{
    match ids {
        Chain::Nil => {},
        Chain::Cons(head, tail) => {
            law_holds_id(tail, id);
            assert(ids@[0] == **head);
            if tail@.contains(id) {
                let i = tail@.index_of(id);
                assert(ids@[i + 1] == id);
            }
            if ids@.contains(id) && **head != id {
                let i = ids@.index_of(id);
                assert(tail@[i - 1] == id);
            }
        },
    }
}

/// A name has a position exactly when it is an element; a position that
/// fits its width holds the name, and no earlier one does.
pub proof fn law_position(names: &Chain<Text>, name: &Text)
    ensures
        position(names, name) is Some <==> names@.contains(*name),
        names@.len() <= u32::MAX ==> (position(names, name) matches Some(at) ==> {
            &&& at < names@.len()
            &&& names@[at as int] == *name
            &&& forall|i: int| 0 <= i < at ==> names@[i] != *name
        }),
    decreases names,
{
    match names {
        Chain::Nil => {},
        Chain::Cons(head, tail) => {
            law_position(tail, name);
            assert(names@[0] == **head);
            if tail@.contains(*name) {
                let i = tail@.index_of(*name);
                assert(names@[i + 1] == *name);
            }
            if names@.contains(*name) && **head != *name {
                let i = names@.index_of(*name);
                assert(tail@[i - 1] == *name);
            }
            assert(forall|i: int| 0 < i < names@.len() ==> #[trigger] names@[i] == tail@[i - 1]);
        },
    }
}

/// Whether a table position is the first of its name.
pub open spec fn first_named(entries: Seq<NameEntry>, at: int, name: Text) -> bool {
    &&& 0 <= at < entries.len()
    &&& entries[at].name == name
    &&& forall|i: int| 0 <= i < at ==> entries[i].name != name
}

/// Searching a name table gives the number of the first entry of a name.
pub proof fn law_find_id(entries: &Chain<NameEntry>, name: &Text)
    ensures
        find_id(entries, name) is None <==> (forall|i: int| 0 <= i < entries@.len() ==> entries@[i].name != *name),
        forall|at: int| #[trigger] first_named(entries@, at, *name) ==> find_id(entries, name) == Some(entries@[at].id),
    decreases entries,
{
    match entries {
        Chain::Nil => {},
        Chain::Cons(head, tail) => {
            law_find_id(tail, name);
            assert(entries@[0] == **head);
            assert(forall|i: int| 0 <= i < tail@.len() ==> tail@[i] == #[trigger] entries@[i + 1]);
            assert forall|at: int| #[trigger] first_named(entries@, at, *name) implies find_id(entries, name) == Some(entries@[at].id) by {
                if at > 0 {
                    assert(entries@[0].name != *name);
                    assert forall|i: int| 0 <= i < at - 1 implies tail@[i].name != *name by {
                        assert(entries@[i + 1].name != *name);
                    }
                    assert(tail@[at - 1] == entries@[at]);
                    assert(first_named(tail@, at - 1, *name));
                }
            }
            if find_id(entries, name) is None {
                assert forall|i: int| 0 <= i < entries@.len() implies entries@[i].name != *name by {
                    if i > 0 {
                        assert(entries@[i] == tail@[i - 1]);
                    }
                }
            } else if head.name != *name {
                let i = choose|i: int| 0 <= i < tail@.len() && tail@[i].name == *name;
                assert(entries@[i + 1].name == *name);
            }
        },
    }
}

/// A literal is found where the same text is.
pub proof fn law_find_literal(entries: &Chain<NameEntry>, name: &str, spelled: &Text)
    requires
        spelled@ == name@,
    ensures
        find_literal(entries, name) == find_id(entries, spelled),
    decreases entries,
{
    match entries {
        Chain::Nil => {},
        Chain::Cons(head, tail) => {
            law_find_literal(tail, name, spelled);
            if head.name@ == name@ {
                crate::chain::chain_injective(head.name, *spelled);
            }
        },
    }
}

} // verus!
