//! Walks over types: substitution and the variables that a type names.

use vstd::prelude::*;
use crate::chain::{Chain, copy_chain};
use crate::context::InterfaceUse;
use crate::lists::{append, cons, nth, one};
use crate::rows::{row_has_var, substitute_row, substitute_rows};
use crate::types::{Row, RowElem, Ty};
use crate::model;

verus! {

/// The type that replaces each type variable by its argument and each
/// effect variable by its row argument. A variable without an argument
/// stays.
pub fn substitute(ty: &Ty, types: &Chain<Ty>, rows: &Chain<Row>) -> (r: Ty)
    ensures
        r == model::subst::substitute(ty, types, rows),
    decreases ty,
{
    match ty {
        Ty::Var(i) => {
            match nth(types, *i) {
                Some(argument) => (*argument).clone(),
                None => Ty::Var(*i),
            }
        },
        Ty::Projection(base, interface, assoc) => Ty::Projection(Box::new(substitute(base, types, rows)), *interface, *assoc),
        Ty::Inst(class, targs) => Ty::Inst(*class, substitute_all(targs, types, rows)),
        Ty::Tuple(items) => Ty::Tuple(substitute_all(items, types, rows)),
        Ty::Fn(params, muts, ret, row) => Ty::Fn(substitute_all(params, types, rows), copy_chain(&*muts), Box::new(substitute(ret, types, rows)), substitute_row(row, rows)),
        Ty::Callback(params, muts, ret, row) => Ty::Callback(substitute_all(params, types, rows), copy_chain(&*muts), Box::new(substitute(ret, types, rows)), substitute_row(row, rows)),
        Ty::Op(op, callable) => Ty::Op(*op, Box::new(substitute(callable, types, rows))),
        Ty::Vm(item) => Ty::Vm(Box::new(substitute(item, types, rows))),
        Ty::Run(item) => Ty::Run(Box::new(substitute(item, types, rows))),
        Ty::Wait(item) => Ty::Wait(Box::new(substitute(item, types, rows))),
        Ty::Snapshot(item) => Ty::Snapshot(Box::new(substitute(item, types, rows))),
        Ty::RunSnapshot(item) => Ty::RunSnapshot(Box::new(substitute(item, types, rows))),
        Ty::ListOf(item) => Ty::ListOf(Box::new(substitute(item, types, rows))),
        Ty::MapOf(first, second) => Ty::MapOf(Box::new(substitute(first, types, rows)), Box::new(substitute(second, types, rows))),
        Ty::PendingCall(first, second) => Ty::PendingCall(Box::new(substitute(first, types, rows)), Box::new(substitute(second, types, rows))),
        Ty::Handle(first, second) => Ty::Handle(Box::new(substitute(first, types, rows)), Box::new(substitute(second, types, rows))),
        _ => (*ty).clone(),
    }
}

/// Substitute in each type.
pub fn substitute_all(items: &Chain<Ty>, types: &Chain<Ty>, rows: &Chain<Row>) -> (r: Chain<Ty>)
    ensures
        r == model::subst::substitute_all(items, types, rows),
    decreases items,
{
    match items {
        Chain::Nil => Chain::Nil,
        Chain::Cons(head, tail) => cons(substitute(head, types, rows), substitute_all(tail, types, rows)),
    }
}

/// Replace the variables of one interface application.
pub fn substitute_interface_use(application: &InterfaceUse, types: &Chain<Ty>, rows: &Chain<Row>) -> (r: InterfaceUse)
    ensures
        r == model::subst::substitute_interface_use(application, types, rows),
{
    InterfaceUse {
        interface: application.interface,
        type_args: substitute_all(&application.type_args, types, rows),
        row_args: substitute_rows(&application.row_args, rows),
    }
}

/// Replace the variables of each interface application.
pub fn substitute_uses(items: &Chain<InterfaceUse>, types: &Chain<Ty>, rows: &Chain<Row>) -> (r: Chain<InterfaceUse>)
    ensures
        r == model::subst::substitute_uses(items, types, rows),
    decreases items,
{
    match items {
        Chain::Nil => Chain::Nil,
        Chain::Cons(head, tail) => cons(substitute_interface_use(head, types, rows), substitute_uses(tail, types, rows)),
    }
}

/// Replace the variables of each bound list.
pub fn substitute_bounds(
    items: &Chain<Chain<InterfaceUse>>,
    types: &Chain<Ty>,
    rows: &Chain<Row>,
) -> (r: Chain<Chain<InterfaceUse>>)
    ensures
        r == model::subst::substitute_bounds(items, types, rows),
    decreases items,
{
    match items {
        Chain::Nil => Chain::Nil,
        Chain::Cons(head, tail) => cons(substitute_uses(head, types, rows), substitute_bounds(tail, types, rows)),
    }
}

/// Whether a type names a type variable.
pub fn contains_var(ty: &Ty) -> (r: bool)
    ensures
        r == model::subst::contains_var(ty),
    decreases ty,
{
    match ty {
        Ty::Var(_) => true,
        Ty::Projection(base, _, _) => contains_var(base),
        Ty::Inst(_, items) => contains_var_in(items),
        Ty::Tuple(items) => contains_var_in(items),
        Ty::Fn(params, _, ret, _) => contains_var_in(params) || contains_var(ret),
        Ty::Callback(params, _, ret, _) => contains_var_in(params) || contains_var(ret),
        Ty::Op(_, callable) => contains_var(callable),
        Ty::Vm(item) => contains_var(item),
        Ty::Run(item) => contains_var(item),
        Ty::Wait(item) => contains_var(item),
        Ty::Snapshot(item) => contains_var(item),
        Ty::RunSnapshot(item) => contains_var(item),
        Ty::ListOf(item) => contains_var(item),
        Ty::MapOf(first, second) => contains_var(first) || contains_var(second),
        Ty::PendingCall(first, second) => contains_var(first) || contains_var(second),
        Ty::Handle(first, second) => contains_var(first) || contains_var(second),
        _ => false,
    }
}

/// Whether a type of a list names a variable.
pub fn contains_var_in(items: &Chain<Ty>) -> (r: bool)
    ensures
        r == model::subst::contains_var_in(items),
    decreases items,
{
    match items {
        Chain::Nil => false,
        Chain::Cons(head, tail) => contains_var(head) || contains_var_in(tail),
    }
}

/// Whether a type names an effect variable.
pub fn contains_effect_var(ty: &Ty) -> (r: bool)
    ensures
        r == model::subst::contains_effect_var(ty),
    decreases ty,
{
    match ty {
        Ty::Projection(base, _, _) => contains_effect_var(base),
        Ty::Inst(_, items) => contains_effect_var_in(items),
        Ty::Tuple(items) => contains_effect_var_in(items),
        Ty::Fn(params, _, ret, row) => contains_effect_var_in(params) || contains_effect_var(ret) || row_has_var(row),
        Ty::Callback(params, _, ret, row) => contains_effect_var_in(params) || contains_effect_var(ret) || row_has_var(row),
        Ty::Op(_, callable) => contains_effect_var(callable),
        Ty::Vm(item) => contains_effect_var(item),
        Ty::Run(item) => contains_effect_var(item),
        Ty::Wait(item) => contains_effect_var(item),
        Ty::Snapshot(item) => contains_effect_var(item),
        Ty::RunSnapshot(item) => contains_effect_var(item),
        Ty::ListOf(item) => contains_effect_var(item),
        Ty::MapOf(first, second) => contains_effect_var(first) || contains_effect_var(second),
        Ty::PendingCall(first, second) => contains_effect_var(first) || contains_effect_var(second),
        Ty::Handle(first, second) => contains_effect_var(first) || contains_effect_var(second),
        _ => false,
    }
}

/// Whether a type of a list names an effect variable.
pub fn contains_effect_var_in(items: &Chain<Ty>) -> (r: bool)
    ensures
        r == model::subst::contains_effect_var_in(items),
    decreases items,
{
    match items {
        Chain::Nil => false,
        Chain::Cons(head, tail) => contains_effect_var(head) || contains_effect_var_in(tail),
    }
}

/// Whether a type holds a function that may not escape.
pub fn contains_callback(ty: &Ty) -> (r: bool)
    ensures
        r == model::subst::contains_callback(ty),
    decreases ty,
{
    match ty {
        Ty::Callback(_, _, _, _) => true,
        Ty::Projection(base, _, _) => contains_callback(base),
        Ty::Inst(_, items) => contains_callback_in(items),
        Ty::Tuple(items) => contains_callback_in(items),
        Ty::Fn(params, _, ret, _) => contains_callback_in(params) || contains_callback(ret),
        Ty::Op(_, callable) => contains_callback(callable),
        Ty::Vm(item) => contains_callback(item),
        Ty::Run(item) => contains_callback(item),
        Ty::Wait(item) => contains_callback(item),
        Ty::Snapshot(item) => contains_callback(item),
        Ty::RunSnapshot(item) => contains_callback(item),
        Ty::ListOf(item) => contains_callback(item),
        Ty::MapOf(first, second) => contains_callback(first) || contains_callback(second),
        Ty::PendingCall(first, second) => contains_callback(first) || contains_callback(second),
        Ty::Handle(first, second) => contains_callback(first) || contains_callback(second),
        _ => false,
    }
}

/// Whether a type of a list holds a callback.
pub fn contains_callback_in(items: &Chain<Ty>) -> (r: bool)
    ensures
        r == model::subst::contains_callback_in(items),
    decreases items,
{
    match items {
        Chain::Nil => false,
        Chain::Cons(head, tail) => contains_callback(head) || contains_callback_in(tail),
    }
}

/// Whether a type names an associated type.
pub fn has_projection(ty: &Ty) -> (r: bool)
    ensures
        r == model::subst::has_projection(ty),
    decreases ty,
{
    match ty {
        Ty::Projection(_, _, _) => true,
        Ty::Inst(_, items) => has_projection_in(items),
        Ty::Tuple(items) => has_projection_in(items),
        Ty::Fn(params, _, ret, _) => has_projection_in(params) || has_projection(ret),
        Ty::Callback(params, _, ret, _) => has_projection_in(params) || has_projection(ret),
        Ty::Op(_, callable) => has_projection(callable),
        Ty::Vm(item) => has_projection(item),
        Ty::Run(item) => has_projection(item),
        Ty::Wait(item) => has_projection(item),
        Ty::Snapshot(item) => has_projection(item),
        Ty::RunSnapshot(item) => has_projection(item),
        Ty::ListOf(item) => has_projection(item),
        Ty::MapOf(first, second) => has_projection(first) || has_projection(second),
        Ty::PendingCall(first, second) => has_projection(first) || has_projection(second),
        Ty::Handle(first, second) => has_projection(first) || has_projection(second),
        _ => false,
    }
}

/// Whether a type of a list holds a projection.
pub fn has_projection_in(items: &Chain<Ty>) -> (r: bool)
    ensures
        r == model::subst::has_projection_in(items),
    decreases items,
{
    match items {
        Chain::Nil => false,
        Chain::Cons(head, tail) => has_projection(head) || has_projection_in(tail),
    }
}

/// Whether a type of an interface contract names `Self` directly. An
/// associated type of `Self` does not count.
pub fn type_uses_interface_self(ty: &Ty) -> (r: bool)
    ensures
        r == model::subst::type_uses_interface_self(ty),
    decreases ty,
{
    match ty {
        Ty::Var(i) => *i == 0,
        Ty::Projection(_, _, _) => false,
        Ty::Inst(_, items) => type_uses_interface_self_in(items),
        Ty::Tuple(items) => type_uses_interface_self_in(items),
        Ty::Fn(params, _, ret, _) => type_uses_interface_self_in(params) || type_uses_interface_self(ret),
        Ty::Callback(params, _, ret, _) => type_uses_interface_self_in(params) || type_uses_interface_self(ret),
        Ty::Op(_, callable) => type_uses_interface_self(callable),
        Ty::Run(item) => type_uses_interface_self(item),
        Ty::Wait(item) => type_uses_interface_self(item),
        Ty::RunSnapshot(item) => type_uses_interface_self(item),
        Ty::ListOf(item) => type_uses_interface_self(item),
        Ty::MapOf(first, second) => type_uses_interface_self(first) || type_uses_interface_self(second),
        Ty::PendingCall(first, second) => type_uses_interface_self(first) || type_uses_interface_self(second),
        Ty::Handle(first, second) => type_uses_interface_self(first) || type_uses_interface_self(second),
        _ => false,
    }
}

/// Whether a type of a list names the `Self` of an interface.
pub fn type_uses_interface_self_in(items: &Chain<Ty>) -> (r: bool)
    ensures
        r == model::subst::type_uses_interface_self_in(items),
    decreases items,
{
    match items {
        Chain::Nil => false,
        Chain::Cons(head, tail) => type_uses_interface_self(head) || type_uses_interface_self_in(tail),
    }
}

/// The type variables from a first number on, one for each element.
pub fn variables<T>(items: &Chain<T>, first: u32) -> (r: Chain<Ty>)
    ensures
        r == model::subst::variables(items, first),
    decreases items,
{
    match items {
        Chain::Nil => Chain::Nil,
        Chain::Cons(_, tail) => cons(Ty::Var(first), variables(tail, first.wrapping_add(1))),
    }
}

/// The type variables of the given number, from zero on.
pub fn first_variables(total: u32) -> (r: Chain<Ty>)
    ensures
        r == model::subst::first_variables(total),
    decreases total,
{
    if total == 0 {
        Chain::Nil
    } else {
        append(first_variables((total - 1) as u32), Ty::Var((total - 1) as u32))
    }
}

/// The effect variables from a first number on, one row for each element.
pub fn row_variables<T>(items: &Chain<T>, first: u32) -> (r: Chain<Row>)
    ensures
        r == model::subst::row_variables(items, first),
    decreases items,
{
    match items {
        Chain::Nil => Chain::Nil,
        Chain::Cons(_, tail) => cons(one(RowElem::Var(first)), row_variables(tail, first.wrapping_add(1))),
    }
}

} // verus!
