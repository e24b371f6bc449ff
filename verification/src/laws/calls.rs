//! Call arguments and map keys.

use vstd::prelude::*;
use crate::ast::{Expr, ExprKind};
use crate::chain::Chain;
use crate::laws::lists::{law_nth, law_position, law_set_nth};
use crate::model::infer::{arrange_args, empty_slots, fill_slots, has_label, map_key_use, slot_filled, slot_order, written_order};
use crate::model::lists::{nth, position, set_nth};
use crate::text::Text;

verus! {

/// The label of an argument.
pub open spec fn label_of(arg: Expr) -> Option<Text> {
    match *arg.kind {
        ExprKind::Labeled { label, value: _ } => Some(label),
        _ => None,
    }
}

/// Where an argument belongs: at the parameter of its label, or at its own
/// position.
pub open spec fn target(arg: Expr, at: int, names: Chain<Text>) -> int {
    match label_of(arg) {
        Some(label) => match position(&names, &label) {
            Some(param) => param as int,
            None => -1,
        },
        None => at,
    }
}

/// The number of filled places.
pub open spec fn filled(slots: Chain<Option<u32>>) -> nat
    decreases slots,
{
    match slots {
        Chain::Nil => 0,
        Chain::Cons(head, tail) => filled(*tail) + (if *head is Some {
            1nat
        } else {
            0nat
        }),
    }
}

proof fn lemma_filled_bound(slots: Chain<Option<u32>>)
    ensures
        filled(slots) <= slots@.len(),
    decreases slots,
{
    match slots {
        Chain::Nil => {},
        Chain::Cons(_, tail) => lemma_filled_bound(*tail),
    }
}

proof fn lemma_filled_all(slots: Chain<Option<u32>>, at: int)
    requires
        filled(slots) == slots@.len(),
        0 <= at < slots@.len(),
    ensures
        slots@[at] is Some,
    decreases slots,
{
    match slots {
        Chain::Nil => {},
        Chain::Cons(head, tail) => {
            lemma_filled_bound(*tail);
            if at > 0 {
                lemma_filled_all(*tail, at - 1);
                assert(slots@[at] == tail@[at - 1]);
            } else {
                assert(slots@[0] == *head);
            }
        },
    }
}

proof fn lemma_filled_set(slots: Chain<Option<u32>>, at: u32, value: u32)
    requires
        at < slots@.len(),
        slots@[at as int] is None,
    ensures
        filled(set_nth(slots, at, Some(value))) == filled(slots) + 1,
    decreases slots,
{
    match slots {
        Chain::Nil => {},
        Chain::Cons(head, tail) => {
            if at > 0 {
                assert(slots@[at as int] == tail@[at - 1]);
                lemma_filled_set(*tail, (at - 1) as u32, value);
            } else {
                assert(slots@[0] == *head);
            }
        },
    }
}

proof fn lemma_empty_slots(args: &Chain<Expr>)
    ensures
        empty_slots(args)@.len() == args@.len(),
        filled(empty_slots(args)) == 0,
        forall|i: int| 0 <= i < args@.len() ==> (#[trigger] empty_slots(args)@[i]) is None,
    decreases args,
{
    match args {
        Chain::Nil => {},
        Chain::Cons(_, tail) => {
            lemma_empty_slots(tail);
            assert forall|i: int| 0 <= i < args@.len() implies (#[trigger] empty_slots(args)@[i]) is None by {
                if i > 0 {
                    assert(empty_slots(args)@[i] == empty_slots(tail)@[i - 1]);
                }
            }
        },
    }
}

proof fn lemma_slot_order(slots: Chain<Option<u32>>)
    ensures
        slot_order(&slots)@.len() == slots@.len(),
        forall|i: int| 0 <= i < slots@.len() ==> (slots@[i] matches Some(at) ==> #[trigger] slot_order(&slots)@[i] == at),
    decreases slots,
{
    match slots {
        Chain::Nil => {},
        Chain::Cons(head, tail) => {
            lemma_slot_order(*tail);
            assert forall|i: int| 0 <= i < slots@.len() implies (slots@[i] matches Some(at) ==> #[trigger] slot_order(&slots)@[i] == at) by {
                if i > 0 {
                    assert(slots@[i] == tail@[i - 1]);
                    assert(slot_order(&slots)@[i] == slot_order(&*tail)@[i - 1]);
                } else {
                    assert(slots@[0] == *head);
                }
            }
        },
    }
}

/// What the places hold while the arguments are placed one by one.
pub open spec fn placing(slots: Chain<Option<u32>>, at: u32, positional: u32, in_labels: bool) -> bool {
    &&& filled(slots) == at
    &&& positional <= at
    &&& !in_labels ==> positional == at && forall|i: int| at <= i < slots@.len() ==> (#[trigger] slots@[i]) is None
    &&& forall|i: int| 0 <= i < slots@.len() ==> ((#[trigger] slots@[i]) matches Some(k) ==> k < at)
    &&& forall|i: int, j: int| 0 <= i < j < slots@.len() && slots@[i] is Some ==> #[trigger] slots@[i] != #[trigger] slots@[j]
}

proof fn lemma_fill_slots(args: &Chain<Expr>, names: &Chain<Text>, at: u32, positional: u32, in_labels: bool, slots: Chain<Option<u32>>)
    requires
        placing(slots, at, positional, in_labels),
        at + args@.len() == slots@.len(),
        slots@.len() <= u32::MAX,
        names@.len() <= slots@.len(),
    ensures
        fill_slots(args, names, at, positional, in_labels, slots) matches Ok(done) ==> {
            &&& done@.len() == slots@.len()
            &&& filled(done) == done@.len()
            &&& forall|i: int| 0 <= i < done@.len() ==> ((#[trigger] done@[i]) matches Some(k) ==> k < done@.len())
            &&& forall|i: int, j: int| 0 <= i < j < done@.len() && done@[i] is Some ==> #[trigger] done@[i] != #[trigger] done@[j]
            &&& forall|i: int| 0 <= i < slots@.len() && (#[trigger] slots@[i]) is Some ==> done@[i] == slots@[i]
            &&& forall|k: int| 0 <= k < args@.len() ==> {
                let t = target(#[trigger] args@[k], at + k, *names);
                0 <= t < done@.len() && done@[t] == Some((at + k) as u32)
            }
        },
    decreases args,
{
    match args {
        Chain::Nil => {},
        Chain::Cons(head, tail) => {
            assert(args@[0] == **head);
            assert(forall|k: int| 0 <= k < tail@.len() ==> #[trigger] tail@[k] == args@[k + 1]);
            let done = fill_slots(args, names, at, positional, in_labels, slots);
            match &*head.kind {
                ExprKind::Labeled { label, value: _ } => {
                    law_position(names, label);
                    if let Some(param) = position(names, label) {
                        law_nth(&slots, param);
                        if param >= positional && !slot_filled(&slots, param) {
                            lemma_step(args, names, at, positional, true, slots, param);
                        }
                    }
                },
                _ => {
                    if !in_labels {
                        lemma_step(args, names, at, (positional + 1) as u32, false, slots, positional);
                    }
                },
            }
        },
    }
}

proof fn lemma_step(args: &Chain<Expr>, names: &Chain<Text>, at: u32, positional: u32, in_labels: bool, slots: Chain<Option<u32>>, place: u32)
    requires
        args is Cons,
        at + args@.len() == slots@.len(),
        slots@.len() <= u32::MAX,
        names@.len() <= slots@.len(),
        place < slots@.len(),
        slots@[place as int] is None,
        filled(slots) == at,
        positional <= at + 1,
        !in_labels ==> positional == at + 1 && place == at && forall|i: int| at <= i < slots@.len() ==> (#[trigger] slots@[i]) is None,
        forall|i: int| 0 <= i < slots@.len() ==> ((#[trigger] slots@[i]) matches Some(k) ==> k < at),
        forall|i: int, j: int| 0 <= i < j < slots@.len() && slots@[i] is Some ==> #[trigger] slots@[i] != #[trigger] slots@[j],
        target(args@[0], at as int, *names) == place,
    ensures
        ({
            let tail = *args->Cons_1;
            fill_slots(&tail, names, (at + 1) as u32, positional, in_labels, set_nth(slots, place, Some(at))) matches Ok(done) ==> {
                &&& done@.len() == slots@.len()
                &&& filled(done) == done@.len()
                &&& forall|i: int| 0 <= i < done@.len() ==> ((#[trigger] done@[i]) matches Some(k) ==> k < done@.len())
                &&& forall|i: int, j: int| 0 <= i < j < done@.len() && done@[i] is Some ==> #[trigger] done@[i] != #[trigger] done@[j]
                &&& forall|i: int| 0 <= i < slots@.len() && (#[trigger] slots@[i]) is Some ==> done@[i] == slots@[i]
                &&& forall|k: int| 0 <= k < args@.len() ==> {
                    let t = target(#[trigger] args@[k], at + k, *names);
                    0 <= t < done@.len() && done@[t] == Some((at + k) as u32)
                }
            }
        }),
    decreases args, 0int,
{
    let tail = *args->Cons_1;
    let next = set_nth(slots, place, Some(at));
    law_set_nth(slots, place, Some(at));
    lemma_filled_set(slots, place, at);
    assert(next@[place as int] == Some(at));
    assert(placing(next, (at + 1) as u32, positional, in_labels));
    lemma_fill_slots(&tail, names, (at + 1) as u32, positional, in_labels, next);
    if let Ok(done) = fill_slots(&tail, names, (at + 1) as u32, positional, in_labels, next) {
        assert(done@[place as int] == Some(at));
        assert forall|k: int| 0 <= k < args@.len() implies {
            let t = target(#[trigger] args@[k], at + k, *names);
            0 <= t < done@.len() && done@[t] == Some((at + k) as u32)
        } by {
            if k > 0 {
                assert(args@[k] == tail@[k - 1]);
            }
        }
        assert forall|i: int| 0 <= i < slots@.len() && (#[trigger] slots@[i]) is Some implies done@[i] == slots@[i] by {
            assert(next@[i] == slots@[i]);
        }
    }
}

proof fn lemma_written_order(args: &Chain<Expr>, from: u32)
    requires
        from + args@.len() <= u32::MAX,
    ensures
        written_order(args, from)@.len() == args@.len(),
        forall|i: int| 0 <= i < args@.len() ==> #[trigger] written_order(args, from)@[i] == from + i,
    decreases args,
{
    match args {
        Chain::Nil => {},
        Chain::Cons(_, tail) => {
            lemma_written_order(tail, (from + 1) as u32);
            assert forall|i: int| 0 <= i < args@.len() implies #[trigger] written_order(args, from)@[i] == from + i by {
                if i > 0 {
                    assert(written_order(args, from)@[i] == written_order(tail, (from + 1) as u32)@[i - 1]);
                }
            }
        },
    }
}

proof fn lemma_no_label(args: &Chain<Expr>, at: int)
    requires
        !has_label(args),
        0 <= at < args@.len(),
    ensures
        label_of(args@[at]) is None,
    decreases args,
{
    match args {
        Chain::Nil => {},
        Chain::Cons(head, tail) => {
            if at > 0 {
                lemma_no_label(tail, at - 1);
                assert(args@[at] == tail@[at - 1]);
            } else {
                assert(args@[0] == **head);
            }
        },
    }
}

/// Arranged arguments are a permutation of the written ones: each argument
/// stands once, a labeled one at the parameter of its label, and another
/// one at its own position. The caller has checked the argument count.
pub proof fn law_arrange_args(args: &Chain<Expr>, names: &Chain<Text>)
    requires
        args@.len() < u32::MAX,
        names@.len() <= args@.len(),
    ensures
        arrange_args(args, names) matches Ok(order) ==> {
            &&& order@.len() == args@.len()
            &&& forall|i: int| 0 <= i < order@.len() ==> (#[trigger] order@[i]) < args@.len()
            &&& forall|i: int, j: int| 0 <= i < j < order@.len() ==> #[trigger] order@[i] != #[trigger] order@[j]
            &&& forall|k: int| 0 <= k < args@.len() ==> {
                let t = target(#[trigger] args@[k], k, *names);
                0 <= t < order@.len() && order@[t] == k
            }
        },
{
    if has_label(args) {
        lemma_empty_slots(args);
        lemma_fill_slots(args, names, 0, 0, false, empty_slots(args));
        if let Ok(done) = fill_slots(args, names, 0, 0, false, empty_slots(args)) {
            lemma_slot_order(done);
            let order = slot_order(&done);
            assert forall|i: int| 0 <= i < order@.len() implies done@[i] is Some by {
                lemma_filled_all(done, i);
            }
            assert forall|i: int| 0 <= i < order@.len() implies (#[trigger] order@[i]) < args@.len() by {
                assert(done@[i] is Some);
            }
            assert forall|i: int, j: int| 0 <= i < j < order@.len() implies #[trigger] order@[i] != #[trigger] order@[j] by {
                assert(done@[i] is Some && done@[j] is Some);
                assert(done@[i] != done@[j]);
            }
        }
    } else {
        lemma_written_order(args, 0);
        assert forall|k: int| 0 <= k < args@.len() implies {
            let t = target(#[trigger] args@[k], k, *names);
            0 <= t < written_order(args, 0)@.len() && written_order(args, 0)@[t] == k
        } by {
            lemma_no_label(args, k);
        }
    }
}

/// The map methods that take a key are the five keyed ones.
pub proof fn law_map_key_use(name: &Text)
    ensures
        map_key_use(name) is Some <==> (name@ == "has"@ || name@ == "at"@ || name@ == "get"@ || name@ == "put"@ || name@ == "remove"@),
{
}

} // verus!
