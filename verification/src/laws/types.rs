//! Substitution in types.

use vstd::prelude::*;
use crate::chain::Chain;
use crate::laws::lists::law_nth;
use crate::laws::rows::{canonical, law_closed_row, law_substitute_row};
use crate::model::lists::{append, nth};
use crate::model::rows::{add_elem, row_has_var, substitute_row};
use crate::model::subst::{contains_effect_var, contains_effect_var_in, contains_var, contains_var_in, first_variables, substitute, substitute_all};
use crate::types::{Row, RowElem, Ty};

verus! {

/// Whether every row of a type is canonical.
pub open spec fn rows_canonical(ty: Ty) -> bool
    decreases ty,
{
    match ty {
        Ty::Projection(base, _, _) => rows_canonical(*base),
        Ty::Inst(_, items) => rows_canonical_in(items),
        Ty::Tuple(items) => rows_canonical_in(items),
        Ty::Fn(params, _, ret, row) => rows_canonical_in(params) && rows_canonical(*ret) && canonical(row),
        Ty::Callback(params, _, ret, row) => rows_canonical_in(params) && rows_canonical(*ret) && canonical(row),
        Ty::Op(_, item) => rows_canonical(*item),
        Ty::Vm(item) => rows_canonical(*item),
        Ty::Run(item) => rows_canonical(*item),
        Ty::Wait(item) => rows_canonical(*item),
        Ty::Snapshot(item) => rows_canonical(*item),
        Ty::RunSnapshot(item) => rows_canonical(*item),
        Ty::ListOf(item) => rows_canonical(*item),
        Ty::MapOf(first, second) => rows_canonical(*first) && rows_canonical(*second),
        Ty::PendingCall(first, second) => rows_canonical(*first) && rows_canonical(*second),
        Ty::Handle(first, second) => rows_canonical(*first) && rows_canonical(*second),
        _ => true,
    }
}

/// Whether every row of every type of a list is canonical.
pub open spec fn rows_canonical_in(items: Chain<Ty>) -> bool
    decreases items,
{
    match items {
        Chain::Nil => true,
        Chain::Cons(head, tail) => rows_canonical(*head) && rows_canonical_in(*tail),
    }
}

/// Whether every type variable of a type is below a number.
pub open spec fn vars_below(ty: Ty, total: int) -> bool
    decreases ty,
{
    match ty {
        Ty::Var(i) => i < total,
        Ty::Projection(base, _, _) => vars_below(*base, total),
        Ty::Inst(_, items) => vars_below_in(items, total),
        Ty::Tuple(items) => vars_below_in(items, total),
        Ty::Fn(params, _, ret, _) => vars_below_in(params, total) && vars_below(*ret, total),
        Ty::Callback(params, _, ret, _) => vars_below_in(params, total) && vars_below(*ret, total),
        Ty::Op(_, item) => vars_below(*item, total),
        Ty::Vm(item) => vars_below(*item, total),
        Ty::Run(item) => vars_below(*item, total),
        Ty::Wait(item) => vars_below(*item, total),
        Ty::Snapshot(item) => vars_below(*item, total),
        Ty::RunSnapshot(item) => vars_below(*item, total),
        Ty::ListOf(item) => vars_below(*item, total),
        Ty::MapOf(first, second) => vars_below(*first, total) && vars_below(*second, total),
        Ty::PendingCall(first, second) => vars_below(*first, total) && vars_below(*second, total),
        Ty::Handle(first, second) => vars_below(*first, total) && vars_below(*second, total),
        _ => true,
    }
}

/// Whether every type variable of a list of types is below a number.
pub open spec fn vars_below_in(items: Chain<Ty>, total: int) -> bool
    decreases items,
{
    match items {
        Chain::Nil => true,
        Chain::Cons(head, tail) => vars_below(*head, total) && vars_below_in(*tail, total),
    }
}

/// A type without type and effect variables is the same under any
/// arguments.
pub proof fn law_closed_type(ty: Ty, types: Chain<Ty>, rows: Chain<Row>)
    requires
        !contains_var(&ty),
        !contains_effect_var(&ty),
        rows_canonical(ty),
    ensures
        substitute(&ty, &types, &rows) == ty,
    decreases ty,
{
    match ty {
        Ty::Var(i) => {
            
        },
        Ty::Projection(base, _, _) => law_closed_type(*base, types, rows),
        Ty::Inst(_, items) => law_closed_type_in(items, types, rows),
        Ty::Tuple(items) => law_closed_type_in(items, types, rows),
        Ty::Fn(params, _, ret, row) => {
            law_closed_type_in(params, types, rows);
            law_closed_type(*ret, types, rows);
            law_closed_row(row, rows);
        },
        Ty::Callback(params, _, ret, row) => {
            law_closed_type_in(params, types, rows);
            law_closed_type(*ret, types, rows);
            law_closed_row(row, rows);
        },
        Ty::Op(_, item) => law_closed_type(*item, types, rows),
        Ty::Vm(item) => law_closed_type(*item, types, rows),
        Ty::Run(item) => law_closed_type(*item, types, rows),
        Ty::Wait(item) => law_closed_type(*item, types, rows),
        Ty::Snapshot(item) => law_closed_type(*item, types, rows),
        Ty::RunSnapshot(item) => law_closed_type(*item, types, rows),
        Ty::ListOf(item) => law_closed_type(*item, types, rows),
        Ty::MapOf(first, second) => {
            law_closed_type(*first, types, rows);
            law_closed_type(*second, types, rows);
        },
        Ty::PendingCall(first, second) => {
            law_closed_type(*first, types, rows);
            law_closed_type(*second, types, rows);
        },
        Ty::Handle(first, second) => {
            law_closed_type(*first, types, rows);
            law_closed_type(*second, types, rows);
        },
        _ => {},
    }
}

/// Types without variables are the same under any arguments.
pub proof fn law_closed_type_in(items: Chain<Ty>, types: Chain<Ty>, rows: Chain<Row>)
    requires
        !contains_var_in(&items),
        !contains_effect_var_in(&items),
        rows_canonical_in(items),
    ensures
        substitute_all(&items, &types, &rows) == items,
    decreases items,
{
    match items {
        Chain::Nil => {},
        Chain::Cons(head, tail) => {
            law_closed_type(*head, types, rows);
            law_closed_type_in(*tail, types, rows);
        },
    }
}

/// Without arguments, a canonical row stays as it is.
pub proof fn law_row_without_arguments(row: Row)
    requires
        canonical(row),
    ensures
        substitute_row(&row, &Chain::Nil) == row,
    decreases row,
{
    match row {
        Chain::Nil => {},
        Chain::Cons(head, tail) => {
            assert(canonical(*tail)) by {
                assert forall|i: int, j: int| 0 <= i < j < tail@.len() implies crate::model::rows::is_before(#[trigger] tail@[i], #[trigger] tail@[j]) by {
                    assert(row@[i + 1] == tail@[i]);
                    assert(row@[j + 1] == tail@[j]);
                }
            }
            law_row_without_arguments(*tail);
            match *tail {
                Chain::Nil => {},
                Chain::Cons(next, _) => {
                    assert(tail@[0] == *next);
                    assert(row@[0] == *head);
                    assert(row@[1] == *next);
                },
            }
        },
    }
}

proof fn lemma_first_variables(total: u32, at: u32)
    ensures
        first_variables(total)@.len() == total,
        at < total ==> first_variables(total)@[at as int] == Ty::Var(at),
    decreases total,
{
    if total > 0 {
        let less = (total - 1) as u32;
        lemma_first_variables(less, at);
        crate::laws::lists::law_append(first_variables(less), Ty::Var(less));
    }
}

/// A type is the same when each of its variables stands for itself.
pub proof fn law_identity(ty: Ty, total: u32)
    requires
        rows_canonical(ty),
    ensures
        substitute(&ty, &first_variables(total), &Chain::Nil) == ty,
    decreases ty,
{
    match ty {
        Ty::Var(i) => {
            lemma_first_variables(total, i);
            law_nth(&first_variables(total), i);
        },
        Ty::Projection(base, _, _) => law_identity(*base, total),
        Ty::Inst(_, items) => law_identity_in(items, total),
        Ty::Tuple(items) => law_identity_in(items, total),
        Ty::Fn(params, _, ret, row) => {
            law_identity_in(params, total);
            law_identity(*ret, total);
            law_row_without_arguments(row);
        },
        Ty::Callback(params, _, ret, row) => {
            law_identity_in(params, total);
            law_identity(*ret, total);
            law_row_without_arguments(row);
        },
        Ty::Op(_, item) => law_identity(*item, total),
        Ty::Vm(item) => law_identity(*item, total),
        Ty::Run(item) => law_identity(*item, total),
        Ty::Wait(item) => law_identity(*item, total),
        Ty::Snapshot(item) => law_identity(*item, total),
        Ty::RunSnapshot(item) => law_identity(*item, total),
        Ty::ListOf(item) => law_identity(*item, total),
        Ty::MapOf(first, second) => {
            law_identity(*first, total);
            law_identity(*second, total);
        },
        Ty::PendingCall(first, second) => {
            law_identity(*first, total);
            law_identity(*second, total);
        },
        Ty::Handle(first, second) => {
            law_identity(*first, total);
            law_identity(*second, total);
        },
        _ => {},
    }
}

/// Types are the same when each of their variables stands for itself.
pub proof fn law_identity_in(items: Chain<Ty>, total: u32)
    requires
        rows_canonical_in(items),
    ensures
        substitute_all(&items, &first_variables(total), &Chain::Nil) == items,
    decreases items,
{
    match items {
        Chain::Nil => {},
        Chain::Cons(head, tail) => {
            law_identity(*head, total);
            law_identity_in(*tail, total);
        },
    }
}

proof fn lemma_substitute_all_at(items: Chain<Ty>, types: Chain<Ty>, at: u32)
    ensures
        substitute_all(&items, &types, &Chain::Nil)@.len() == items@.len(),
        at < items@.len() ==> substitute_all(&items, &types, &Chain::Nil)@[at as int] == substitute(&items@[at as int], &types, &Chain::Nil),
    decreases items,
{
    match items {
        Chain::Nil => {},
        Chain::Cons(head, tail) => {
            lemma_substitute_all_at(*tail, types, if at > 0 {
                (at - 1) as u32
            } else {
                0
            });
            if at > 0 && at < items@.len() {
                assert(items@[at as int] == tail@[at - 1]);
            }
        },
    }
}

/// Substituting twice is substituting once by the substituted arguments,
/// where each variable has an argument.
pub proof fn law_compose(ty: Ty, first_types: Chain<Ty>, then_types: Chain<Ty>)
    requires
        vars_below(ty, first_types@.len() as int),
    ensures
        substitute(&substitute(&ty, &first_types, &Chain::Nil), &then_types, &Chain::Nil) == substitute(
            &ty,
            &substitute_all(&first_types, &then_types, &Chain::Nil),
            &Chain::Nil,
        ),
    decreases ty,
{
    match ty {
        Ty::Var(i) => {
            law_nth(&first_types, i);
            lemma_substitute_all_at(first_types, then_types, i);
            law_nth(&substitute_all(&first_types, &then_types, &Chain::Nil), i);
        },
        Ty::Projection(base, _, _) => law_compose(*base, first_types, then_types),
        Ty::Inst(_, items) => law_compose_in(items, first_types, then_types),
        Ty::Tuple(items) => law_compose_in(items, first_types, then_types),
        Ty::Fn(params, _, ret, row) => {
            law_compose_in(params, first_types, then_types);
            law_compose(*ret, first_types, then_types);
            law_substitute_row(row, Chain::Nil);
            law_row_without_arguments(substitute_row(&row, &Chain::Nil));
        },
        Ty::Callback(params, _, ret, row) => {
            law_compose_in(params, first_types, then_types);
            law_compose(*ret, first_types, then_types);
            law_substitute_row(row, Chain::Nil);
            law_row_without_arguments(substitute_row(&row, &Chain::Nil));
        },
        Ty::Op(_, item) => law_compose(*item, first_types, then_types),
        Ty::Vm(item) => law_compose(*item, first_types, then_types),
        Ty::Run(item) => law_compose(*item, first_types, then_types),
        Ty::Wait(item) => law_compose(*item, first_types, then_types),
        Ty::Snapshot(item) => law_compose(*item, first_types, then_types),
        Ty::RunSnapshot(item) => law_compose(*item, first_types, then_types),
        Ty::ListOf(item) => law_compose(*item, first_types, then_types),
        Ty::MapOf(first, second) => {
            law_compose(*first, first_types, then_types);
            law_compose(*second, first_types, then_types);
        },
        Ty::PendingCall(first, second) => {
            law_compose(*first, first_types, then_types);
            law_compose(*second, first_types, then_types);
        },
        Ty::Handle(first, second) => {
            law_compose(*first, first_types, then_types);
            law_compose(*second, first_types, then_types);
        },
        _ => {},
    }
}

/// Substituting twice in a list of types.
pub proof fn law_compose_in(items: Chain<Ty>, first_types: Chain<Ty>, then_types: Chain<Ty>)
    requires
        vars_below_in(items, first_types@.len() as int),
    ensures
        substitute_all(&substitute_all(&items, &first_types, &Chain::Nil), &then_types, &Chain::Nil) == substitute_all(
            &items,
            &substitute_all(&first_types, &then_types, &Chain::Nil),
            &Chain::Nil,
        ),
    decreases items,
{
    match items {
        Chain::Nil => {},
        Chain::Cons(head, tail) => {
            law_compose(*head, first_types, then_types);
            law_compose_in(*tail, first_types, then_types);
        },
    }
}

} // verus!
