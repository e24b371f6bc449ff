//! Effect rows: the canonical form, union and substitution.
//!
//! A row stands for a set of elements. The canonical form lists each
//! element once, in ascending order, so equal sets have equal rows.

use vstd::prelude::*;
use crate::chain::Chain;
use crate::lists::{cons, nth};
use crate::types::{Row, RowElem};
use crate::laws::rows::{all_replaced, canonical, elements};
use crate::model;

verus! {

/// The strict order of row elements: operations before variables, each
/// by number.
pub fn is_before(a: RowElem, b: RowElem) -> (r: bool)
    ensures
        r == model::rows::is_before(a, b),
{
    match (a, b) {
        (RowElem::Op(x), RowElem::Op(y)) => x < y,
        (RowElem::Op(_), RowElem::Var(_)) => true,
        (RowElem::Var(_), RowElem::Op(_)) => false,
        (RowElem::Var(x), RowElem::Var(y)) => x < y,
    }
}

/// A canonical row with one more element.
pub fn add_elem(row: Row, e: RowElem) -> (r: Row)
    ensures
        r == model::rows::add_elem(row, e),
        elements(r) == elements(row).insert(e),
        canonical(row) ==> canonical(r),
    decreases row,
{
    proof {
        crate::laws::rows::law_add_elem(row, e);
    }
    match row {
        Chain::Nil => Chain::Cons(Box::new(e), Box::new(Chain::Nil)),
        Chain::Cons(head, tail) => {
            if *head == e {
                Chain::Cons(head, tail)
            } else if is_before(e, *head) {
                Chain::Cons(Box::new(e), Box::new(Chain::Cons(head, tail)))
            } else {
                Chain::Cons(head, Box::new(add_elem(*tail, e)))
            }
        },
    }
}

/// A canonical row with all elements of a second row.
pub fn add_all(row: Row, more: &Row) -> (r: Row)
    ensures
        r == model::rows::add_all(row, more),
        elements(r) == elements(row).union(elements(*more)),
        canonical(row) ==> canonical(r),
    decreases more,
{
    proof {
        crate::laws::rows::law_add_all(row, *more);
    }
    match more {
        Chain::Nil => row,
        Chain::Cons(head, tail) => add_all(add_elem(row, **head), tail),
    }
}

/// The canonical form of one list of row elements.
pub fn canonical_row(row: &Row) -> (r: Row)
    ensures
        r == model::rows::canonical_row(row),
        canonical(r),
        elements(r) == elements(*row),
{
    proof {
        crate::laws::rows::law_canonical_row(*row);
    }
    add_all(Chain::Nil, row)
}

/// The row that replaces each effect variable by its argument. A
/// variable without an argument stays.
pub fn substitute_row(row: &Row, rows: &Chain<Row>) -> (r: Row)
    ensures
        r == model::rows::substitute_row(row, rows),
        canonical(r),
        elements(r) == all_replaced(*row, rows@),
    decreases row,
{
    proof {
        crate::laws::rows::law_substitute_row(*row, *rows);
    }
    match row {
        Chain::Nil => Chain::Nil,
        Chain::Cons(head, tail) => {
            let rest = substitute_row(tail, rows);
            match **head {
                RowElem::Var(i) => {
                    match nth(rows, i) {
                        Some(argument) => add_all(rest, argument),
                        None => add_elem(rest, RowElem::Var(i)),
                    }
                },
                RowElem::Op(i) => add_elem(rest, RowElem::Op(i)),
            }
        },
    }
}

/// Whether a row names an effect variable.
pub fn row_has_var(row: &Row) -> (r: bool)
    ensures
        r == model::rows::row_has_var(row),
    decreases row,
{
    match row {
        Chain::Nil => false,
        Chain::Cons(head, tail) => {
            match **head {
                RowElem::Var(_) => true,
                RowElem::Op(_) => row_has_var(tail),
            }
        },
    }
}

/// Replace the effect variables of each row.
pub fn substitute_rows(items: &Chain<Row>, rows: &Chain<Row>) -> (r: Chain<Row>)
    ensures
        r == model::rows::substitute_rows(items, rows),
    decreases items,
{
    match items {
        Chain::Nil => Chain::Nil,
        Chain::Cons(head, tail) => cons(substitute_row(head, rows), substitute_rows(tail, rows)),
    }
}

/// Compare two rows.
pub fn same_row(a: &Row, b: &Row) -> (r: bool)
    ensures
        r == (*a == *b),
    decreases a,
{
    match (a, b) {
        (Chain::Nil, Chain::Nil) => true,
        (Chain::Cons(x, xs), Chain::Cons(y, ys)) => **x == **y && same_row(xs, ys),
        _ => false,
    }
}

} // verus!
