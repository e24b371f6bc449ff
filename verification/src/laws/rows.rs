//! Effect rows as sets of elements.

use vstd::prelude::*;
use crate::chain::Chain;
use crate::laws::lists::law_nth;
use crate::model::lists::nth;
use crate::model::rows::{add_all, add_elem, canonical_row, is_before, row_has_var, substitute_row};
use crate::types::{Row, RowElem};

verus! {

/// The set of elements that a row stands for.
pub open spec fn elements(row: Row) -> Set<RowElem> {
    Set::new(|e: RowElem| row@.contains(e))
}

/// Whether a row lists each element once, in ascending order.
pub open spec fn canonical(row: Row) -> bool {
    forall|i: int, j: int| 0 <= i < j < row@.len() ==> is_before(#[trigger] row@[i], #[trigger] row@[j])
}

proof fn lemma_cons(head: RowElem, tail: Row)
    ensures
        elements(Chain::Cons(Box::new(head), Box::new(tail))) == elements(tail).insert(head),
        canonical(Chain::Cons(Box::new(head), Box::new(tail))) <==> (canonical(tail) && forall|i: int|
            0 <= i < tail@.len() ==> is_before(head, #[trigger] tail@[i])),
{
    let row = Chain::Cons(Box::new(head), Box::new(tail));
    assert(row@ == seq![head] + tail@);
    assert(elements(row) =~= elements(tail).insert(head)) by {
        assert forall|e: RowElem| elements(row).contains(e) == elements(tail).insert(head).contains(e) by {
            if elements(row).contains(e) {
                let i = choose|i: int| 0 <= i < row@.len() && row@[i] == e;
                if i > 0 {
                    assert(tail@[i - 1] == e);
                }
            }
            if elements(tail).contains(e) {
                let i = choose|i: int| 0 <= i < tail@.len() && tail@[i] == e;
                assert(row@[i + 1] == e);
            }
            if e == head {
                assert(row@[0] == e);
            }
        }
    }
    if canonical(row) {
        assert forall|i: int, j: int| 0 <= i < j < tail@.len() implies is_before(#[trigger] tail@[i], #[trigger] tail@[j]) by {
            assert(row@[i + 1] == tail@[i]);
            assert(row@[j + 1] == tail@[j]);
        }
        assert forall|i: int| 0 <= i < tail@.len() implies is_before(head, #[trigger] tail@[i]) by {
            assert(row@[0] == head);
            assert(row@[i + 1] == tail@[i]);
        }
    }
    if canonical(tail) && (forall|i: int| 0 <= i < tail@.len() ==> is_before(head, #[trigger] tail@[i])) {
        assert forall|i: int, j: int| 0 <= i < j < row@.len() implies is_before(#[trigger] row@[i], #[trigger] row@[j]) by {
            if i > 0 {
                assert(row@[i] == tail@[i - 1]);
            }
            assert(row@[j] == tail@[j - 1]);
        }
    }
}

/// Adding an element adds exactly that element and keeps the order.
pub proof fn law_add_elem(row: Row, e: RowElem)
    ensures
        elements(add_elem(row, e)) == elements(row).insert(e),
        canonical(row) ==> canonical(add_elem(row, e)),
    decreases row,
{
    match row {
        Chain::Nil => {
            lemma_cons(e, Chain::Nil);
        },
        Chain::Cons(head, tail) => {
            lemma_cons(*head, *tail);
            if *head == e {
                assert(elements(row).insert(e) =~= elements(row));
            } else if is_before(e, *head) {
                lemma_cons(e, row);
                if canonical(row) {
                    assert forall|i: int| 0 <= i < row@.len() implies is_before(e, #[trigger] row@[i]) by {
                        assert(row@[0] == *head);
                    }
                }
            } else {
                law_add_elem(*tail, e);
                let rest = add_elem(*tail, e);
                lemma_cons(*head, rest);
                assert(elements(add_elem(row, e)) =~= elements(row).insert(e));
                if canonical(row) {
                    assert forall|i: int| 0 <= i < rest@.len() implies is_before(*head, #[trigger] rest@[i]) by {
                        assert(elements(rest).contains(rest@[i]));
                        if rest@[i] != e {
                            assert(elements(*tail).contains(rest@[i]));
                        }
                    }
                }
            }
        },
    }
}

/// Adding a row adds exactly its elements and keeps the order.
pub proof fn law_add_all(row: Row, more: Row)
    ensures
        elements(add_all(row, &more)) == elements(row).union(elements(more)),
        canonical(row) ==> canonical(add_all(row, &more)),
    decreases more,
{
    match more {
        Chain::Nil => {
            assert(elements(row).union(elements(more)) =~= elements(row));
        },
        Chain::Cons(head, tail) => {
            law_add_elem(row, *head);
            law_add_all(add_elem(row, *head), *tail);
            lemma_cons(*head, *tail);
            assert(elements(row).insert(*head).union(elements(*tail)) =~= elements(row).union(
                elements(more),
            ));
        },
    }
}

/// The canonical form lists the same elements in ascending order.
pub proof fn law_canonical_row(row: Row)
    ensures
        canonical(canonical_row(&row)),
        elements(canonical_row(&row)) == elements(row),
{
    law_add_all(Chain::Nil, row);
    assert(elements(Chain::Nil).union(elements(row)) =~= elements(row));
}

/// Two canonical rows with the same elements are the same row.
pub proof fn law_canonical_unique(a: Row, b: Row)
    requires
        canonical(a),
        canonical(b),
        elements(a) == elements(b),
    ensures
        a == b,
    decreases a,
{
    match (a, b) {
        (Chain::Nil, Chain::Nil) => {},
        (Chain::Nil, Chain::Cons(y, _)) => {
            assert(b@[0] == *y);
            assert(elements(b).contains(*y));
            assert(false);
        },
        (Chain::Cons(x, _), Chain::Nil) => {
            assert(a@[0] == *x);
            assert(elements(a).contains(*x));
            assert(false);
        },
        (Chain::Cons(x, xs), Chain::Cons(y, ys)) => {
            lemma_cons(*x, *xs);
            lemma_cons(*y, *ys);
            assert(elements(b).contains(*x));
            assert(elements(a).contains(*y));
            if *x != *y {
                assert(elements(*ys).contains(*x));
                assert(elements(*xs).contains(*y));
                assert(is_before(*y, *x));
                assert(is_before(*x, *y));
                assert(false);
            }
            assert(!elements(*xs).contains(*x));
            assert(!elements(*ys).contains(*x));
            assert(elements(*xs) =~= elements(*ys)) by {
                assert(elements(*xs) =~= elements(a).remove(*x));
                assert(elements(*ys) =~= elements(b).remove(*x));
            }
            law_canonical_unique(*xs, *ys);
        },
    }
}

/// The canonical form of a canonical row is the row.
pub proof fn law_canonical_row_again(row: Row)
    requires
        canonical(row),
    ensures
        canonical_row(&row) == row,
{
    law_canonical_row(row);
    law_canonical_unique(canonical_row(&row), row);
}

/// The order of the elements of a row is irrelevant.
pub proof fn law_canonical_row_order(a: Row, b: Row)
    requires
        elements(a) == elements(b),
    ensures
        canonical_row(&a) == canonical_row(&b),
{
    law_canonical_row(a);
    law_canonical_row(b);
    law_canonical_unique(canonical_row(&a), canonical_row(&b));
}

/// What one element becomes under effect arguments.
pub open spec fn replaced(e: RowElem, rows: Seq<Row>) -> Set<RowElem> {
    match e {
        RowElem::Var(i) => if i < rows.len() {
            elements(rows[i as int])
        } else {
            Set::empty().insert(e)
        },
        RowElem::Op(_) => Set::empty().insert(e),
    }
}

/// What the elements of a row become under effect arguments.
pub open spec fn all_replaced(row: Row, rows: Seq<Row>) -> Set<RowElem>
    decreases row,
{
    match row {
        Chain::Nil => Set::empty(),
        Chain::Cons(head, tail) => all_replaced(*tail, rows).union(replaced(*head, rows)),
    }
}

/// Substitution replaces each effect variable by the elements of its
/// argument, keeps every other element, and gives a canonical row.
pub proof fn law_substitute_row(row: Row, rows: Chain<Row>)
    ensures
        canonical(substitute_row(&row, &rows)),
        elements(substitute_row(&row, &rows)) == all_replaced(row, rows@),
    decreases row,
{
    match row {
        Chain::Nil => {
            assert(elements(row) =~= Set::empty());
        },
        Chain::Cons(head, tail) => {
            law_substitute_row(*tail, rows);
            let rest = substitute_row(&*tail, &rows);
            match *head {
                RowElem::Var(i) => {
                    law_nth(&rows, i);
                    match nth(&rows, i) {
                        Some(argument) => law_add_all(rest, *argument),
                        None => law_add_elem(rest, *head),
                    }
                },
                RowElem::Op(_) => law_add_elem(rest, *head),
            }
            assert(elements(substitute_row(&row, &rows)) =~= all_replaced(row, rows@));
        },
    }
}

/// A row names an effect variable exactly when one of its elements is one.
pub proof fn law_row_has_var(row: Row)
    ensures
        row_has_var(&row) == (exists|i: int| 0 <= i < row@.len() && #[trigger] row@[i] is Var),
    decreases row,
{
    match row {
        Chain::Nil => {},
        Chain::Cons(head, tail) => {
            law_row_has_var(*tail);
            assert(row@[0] == *head);
            assert(forall|i: int| 0 <= i < tail@.len() ==> #[trigger] tail@[i] == row@[i + 1]);
            if exists|i: int| 0 <= i < row@.len() && #[trigger] row@[i] is Var {
                let i = choose|i: int| 0 <= i < row@.len() && #[trigger] row@[i] is Var;
                if i > 0 {
                    assert(tail@[i - 1] is Var);
                }
            }
        },
    }
}

/// Substitution leaves a canonical row without effect variables as it is.
pub proof fn law_closed_row(row: Row, rows: Chain<Row>)
    requires
        canonical(row),
        !row_has_var(&row),
    ensures
        substitute_row(&row, &rows) == row,
    decreases row,
{
    match row {
        Chain::Nil => {},
        Chain::Cons(head, tail) => {
            lemma_cons(*head, *tail);
            law_closed_row(*tail, rows);
            match *tail {
                Chain::Nil => {},
                Chain::Cons(next, _) => {
                    assert(tail@[0] == *next);
                },
            }
        },
    }
}

} // verus!
