//! Effect rows: the canonical form, union and substitution.
//!
//! A row stands for a set of elements. The canonical form lists each
//! element once, in ascending order, so equal sets have equal rows.
//!
//! The functions here state what the functions of the same name compute.

use vstd::prelude::*;
use crate::chain::Chain;
use crate::model::lists::{cons, nth};
use crate::types::{Row, RowElem};

verus! {

/// The strict order of row elements: operations before variables, each
/// by number.
pub open spec fn is_before(a: RowElem, b: RowElem) -> bool
{
    match (a, b) {
        (RowElem::Op(x), RowElem::Op(y)) => x < y,
        (RowElem::Op(_), RowElem::Var(_)) => true,
        (RowElem::Var(_), RowElem::Op(_)) => false,
        (RowElem::Var(x), RowElem::Var(y)) => x < y,
    }
}

/// A canonical row with one more element.
pub open spec fn add_elem(row: Row, e: RowElem) -> Row
    decreases row,
{
    match row {
        Chain::Nil => Chain::Cons(Box::new(e), Box::new(Chain::Nil)),
        Chain::Cons(head, tail) => {
            if *head == e {
                Chain::Cons(head, tail)
            } else if is_before(e, *head) {
                Chain::Cons(Box::new(e), Box::new(Chain::Cons(head, tail)))
            } else {
                Chain::Cons(head, Box::new(add_elem(*tail, e)))
            }
        },
    }
}

/// A canonical row with all elements of a second row.
pub open spec fn add_all(row: Row, more: &Row) -> Row
    decreases more,
{
    match more {
        Chain::Nil => row,
        Chain::Cons(head, tail) => add_all(add_elem(row, **head), tail),
    }
}

/// The canonical form of one list of row elements.
pub open spec fn canonical_row(row: &Row) -> Row
{
    add_all(Chain::Nil, row)
}

/// The row that replaces each effect variable by its argument. A
/// variable without an argument stays.
pub open spec fn substitute_row(row: &Row, rows: &Chain<Row>) -> Row
    decreases row,
{
    match row {
        Chain::Nil => Chain::Nil,
        Chain::Cons(head, tail) => {
            let rest = substitute_row(tail, rows);
            match **head {
                RowElem::Var(i) => {
                    match nth(rows, i) {
                        Some(argument) => add_all(rest, argument),
                        None => add_elem(rest, RowElem::Var(i)),
                    }
                },
                RowElem::Op(i) => add_elem(rest, RowElem::Op(i)),
            }
        },
    }
}

/// Whether a row names an effect variable.
pub open spec fn row_has_var(row: &Row) -> bool
    decreases row,
{
    match row {
        Chain::Nil => false,
        Chain::Cons(head, tail) => {
            match **head {
                RowElem::Var(_) => true,
                RowElem::Op(_) => row_has_var(tail),
            }
        },
    }
}

/// Replace the effect variables of each row.
pub open spec fn substitute_rows(items: &Chain<Row>, rows: &Chain<Row>) -> Chain<Row>
    decreases items,
{
    match items {
        Chain::Nil => Chain::Nil,
        Chain::Cons(head, tail) => cons(substitute_row(head, rows), substitute_rows(tail, rows)),
    }
}

} // verus!
