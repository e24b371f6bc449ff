//! Capabilities: a read-only reference is never written through.

use vstd::prelude::*;
use crate::ast::{Expr, ExprKind, Span, TypeExpr};
use crate::chain::Chain;
use crate::context::{BoundMethod, Ctx, MethodFound};
use crate::hir::{HExpr, HKind, HStmt, NativeOp};
use crate::laws::calls::target;
use crate::laws::lists::{law_append, law_count, law_nth};
use crate::laws::operators::{checking, comes_from, lemma_two, synthesis};
use crate::laws::scopes::law_bind_name;
use crate::model::answers::is_heap;
use crate::model::blocks::{check_assign_field, check_ctor_field, check_declare, check_initial, check_rebind};
use crate::model::calls::{check_declared_method, check_interface_method, resolve_now};
use crate::model::conform::lookup_method;
use crate::model::exprs::{check_super_method, ctor_receiver, field_ty_at, synth_index, synth_is, tuple_element, value_field};
use crate::model::infer::map_key_parameter;
use crate::model::lists::{count, nth, position};
use crate::model::lookup::{class_at, class_extends, class_of, find_field, interface_at};
use crate::model::scope::{add_local, bind_name, local_ty, lookup_slot, name_expr, resolve_value, synth_self};
use crate::model::subst::substitute;
use crate::problem::Stop;
use crate::state::{CapSource, Checker, LocalVar, MapKeyUse, NameRes};
use crate::text::Text;
use crate::types::Ty;

verus! {

/// Outside an initializer, a field is written through a mutable reference
/// alone, and the written field is the one that the class has under the
/// name.
pub proof fn law_assign_field(cx: &Ctx, st: Checker, recv: &Expr, field: &Text, field_span: Span, value: &Expr)
    requires
        ctor_receiver(&st, recv) is None,
    ensures
        check_assign_field(cx, st, recv, field, field_span, value).1 matches Ok(stmt) ==> {
            &&& stmt matches HStmt::AssignField { recv: target, field: at, .. }
            &&& target.mutable
            &&& synthesis(cx, st, recv).1 == Ok::<HExpr, Stop>(target)
            &&& class_of(cx, &target.ty) matches Some(nominal)
            &&& find_field(cx, nominal.class, field) == Some(at)
        },
        synthesis(cx, st, recv).1 matches Ok(target) && !target.mutable ==> check_assign_field(cx, st, recv, field, field_span, value).1 is Err,
{
    reveal(synthesis);
}

/// Inside an initializer, `self` is written alone: its own slot, and a
/// field of its class.
pub proof fn law_assign_ctor_field(cx: &Ctx, st: Checker, class: u32, field: &Text, field_span: Span, value: &Expr)
    ensures
        check_ctor_field(cx, st, class, field, field_span, value).1 matches Ok(stmt) ==> {
            &&& stmt matches HStmt::AssignField { recv: target, field: at, .. }
            &&& *target.kind == HKind::Local(0)
            &&& find_field(cx, class, field) == Some(at)
        },
{
}

/// A field that is read has the capability of its receiver: what a
/// read-only reference reaches is read-only.
pub proof fn law_value_field(cx: &Ctx, recv: HExpr, name: &Text, recv_span: Span, name_span: Span)
    ensures
        value_field(cx, recv, name, recv_span, name_span) matches Ok(found) ==> {
            &&& found.mutable == recv.mutable
            &&& *found.kind matches HKind::FieldGet { recv: kept, field }
            &&& kept == recv
            &&& class_of(cx, &recv.ty) matches Some(nominal)
            &&& find_field(cx, nominal.class, name) == Some(field)
            &&& found.ty == substitute(&field_ty_at(cx, nominal.class, field), &nominal.args, &Chain::Nil)
        },
{
}

/// An element of a tuple has the capability of the tuple, and its own type.
pub proof fn law_tuple_element(recv: HExpr, items: Chain<Ty>, index: &Expr)
    ensures
        tuple_element(recv, items, index) matches Ok(found) ==> {
            &&& found.mutable == recv.mutable
            &&& *index.kind matches ExprKind::Int(position)
            &&& 0 <= position < items@.len()
            &&& *found.kind == (HKind::TupleGet { tuple: recv, index: position as u32 })
            &&& found.ty == items@[position as int]
        },
{
    if let ExprKind::Int(position) = *index.kind {
        if 0 <= position <= 0xffff_ffff {
            law_nth(&items, position as u32);
        }
    }
}

/// An element of a collection has the capability of the collection and the
/// type of its elements, and the operands keep their order.
pub proof fn law_index(cx: &Ctx, st: Checker, recv: &Expr, index: &Expr)
    ensures
        synth_index(cx, st, recv, index).1 matches Ok(found) ==> (synthesis(cx, st, recv).1 matches Ok(source) && found.mutable == source.mutable
            && (match source.ty {
            Ty::ListOf(item) => found.ty == *item && (*found.kind matches HKind::Native { op, args } && op == NativeOp::ListAt && args@.len() == 2
                && args@[0] == source && comes_from(cx, *index, args@[1])),
            Ty::MapOf(_, value) => found.ty == *value && (*found.kind matches HKind::Native { op, args } && op == NativeOp::MapAt && args@.len()
                == 2 && args@[0] == source && comes_from(cx, *index, args@[1])),
            Ty::Tuple(items) => tuple_element(source, items, index) == Ok::<HExpr, Stop>(found),
            _ => false,
        })),
{
    reveal(synthesis);
    reveal(checking);
    let (next, first) = synthesis(cx, st, recv);
    if synth_index(cx, st, recv, index).1 is Ok {
        let source = first->Ok_0;
        match source.ty {
            Ty::ListOf(_) => {
                let at = checking(cx, next, index, &Ty::Int).1->Ok_0;
                lemma_two(source, at);
                assert(comes_from(cx, *index, at));
            },
            Ty::MapOf(key, _) => {
                let param = map_key_parameter(cx, &*key, MapKeyUse::Lookup)->Ok_0;
                let at = checking(cx, next, index, &param.ty).1->Ok_0;
                lemma_two(source, at);
                assert(comes_from(cx, *index, at));
            },
            Ty::Tuple(items) => law_tuple_element(source, items, index),
            _ => {},
        }
    }
}

/// A name stands for its slot or capture, with its type and capability.
pub proof fn law_name(found: NameRes)
    ensures
        name_expr(found).ty == found.ty,
        name_expr(found).mutable == found.mutable,
        *name_expr(found).kind == (match found.source {
            CapSource::Local(slot) => HKind::Local(slot),
            CapSource::Capture(at) => HKind::Capture(at),
        }),
{
}

/// A local name reads the slot that its scope gives it, with what that
/// slot holds.
pub proof fn law_local_name(st: Checker, name: &Text)
    requires
        lookup_slot(&st, name) is Some,
    ensures
        resolve_value(st, name).0 == st,
        resolve_value(st, name).1 matches Ok(Some(found)) && found.source == CapSource::Local(lookup_slot(&st, name)->Some_0) && (
        lookup_slot(&st, name)->Some_0 < st.locals@.len() ==> found.ty == st.locals@[lookup_slot(&st, name)->Some_0 as int].ty && found.mutable
            == st.locals@[lookup_slot(&st, name)->Some_0 as int].mutable),
{
    law_nth(&st.locals, lookup_slot(&st, name)->Some_0);
}

/// A method that takes `mut self` is called on a mutable receiver alone.
pub proof fn law_declared_method(
    cx: &Ctx,
    st: Checker,
    recv: HExpr,
    class: u32,
    class_args: &Chain<Ty>,
    found: MethodFound,
    name: &Text,
    name_span: Span,
    type_args: &Chain<TypeExpr>,
    args: &Chain<Expr>,
    expected: Option<&Ty>,
    span: Span,
)
    ensures
        check_declared_method(cx, st, recv, class, class_args, found, name, name_span, type_args, args, expected, span).1 matches Ok(call) ==> {
            &&& found.sig.mut_self ==> recv.mutable
            &&& found.sig.name@ != "init"@
            &&& match *call.kind {
                HKind::Call { func, args: handed, .. } => class_at(cx, class).is_final && func == found.sig.func && handed@.len() > 0 && handed@[0]
                    == recv,
                HKind::MethodCall { recv: kept, selector, .. } => !class_at(cx, class).is_final && kept == recv && selector == *name,
                _ => false,
            }
        },
{
}

/// A requirement that takes `mut self` is called on a mutable receiver
/// alone.
pub proof fn law_interface_method(
    cx: &Ctx,
    st: Checker,
    recv: HExpr,
    bound: BoundMethod,
    name: &Text,
    name_span: Span,
    type_args: &Chain<TypeExpr>,
    args: &Chain<Expr>,
    expected: Option<&Ty>,
    span: Span,
)
    ensures
        check_interface_method(cx, st, recv, bound, name, name_span, type_args, args, expected, span).1 matches Ok(call) ==> {
            &&& nth(&interface_at(cx, bound.interface).methods, bound.method) matches Some(requirement)
            &&& requirement.mut_self ==> recv.mutable
            &&& *call.kind matches HKind::InterfaceCall { recv: kept, interface, method, selector, .. }
            &&& kept == recv
            &&& interface == bound.interface
            &&& method == bound.method
            &&& selector == *name
        },
{
}

/// A method of the superclass that takes `mut self` is called on a mutable
/// `self` alone, and directly: not the override of the class itself.
pub proof fn law_super_method(
    cx: &Ctx,
    st: Checker,
    class: u32,
    parent: u32,
    parent_args: &Chain<Ty>,
    name: &Text,
    name_span: Span,
    args: &Chain<Expr>,
    span: Span,
)
    ensures
        check_super_method(cx, st, class, parent, parent_args, name, name_span, args, span).1 matches Ok(call) ==> {
            &&& lookup_method(cx, parent, *parent_args, count(&class_at(cx, class).type_params), name) matches Some(found)
            &&& *call.kind matches HKind::Call { func, args: handed, .. }
            &&& func == found.sig.func
            &&& handed@.len() > 0
            &&& found.sig.mut_self ==> handed@[0].mutable
            &&& Ok::<HExpr, Stop>(handed@[0]) == synth_self(st, span).1
        },
{
}

/// A mutable local of a heap type takes a mutable value alone.
pub proof fn law_rebind(
    cx: &Ctx,
    st: Checker,
    slot: u32,
    mutable: bool,
    name: &Text,
    name_span: Span,
    ty: &Option<TypeExpr>,
    value: &Expr,
)
    ensures
        check_rebind(cx, st, slot, mutable, name, name_span, ty, value).1 matches Ok(stmt) ==> {
            &&& *ty is None
            &&& stmt matches HStmt::Assign { slot: kept, value: found }
            &&& kept == slot
            &&& checking(cx, st, value, &local_ty(&st, slot)).1 == Ok::<HExpr, Stop>(found)
            &&& mutable && !found.mutable ==> is_heap(cx, &local_ty(&st, slot)) == Ok::<bool, Stop>(false)
        },
{
    reveal(checking);
}

/// What checking the value of a new local gives.
#[verifier::opaque]
spec fn initial(cx: &Ctx, st: Checker, ty: Option<TypeExpr>, value: Expr) -> (Checker, Result<(Ty, HExpr), Stop>) {
    check_initial(cx, st, &ty, &value)
}

proof fn lemma_initial(cx: &Ctx, st: Checker, ty: &Option<TypeExpr>, value: &Expr)
    ensures
        initial(cx, st, *ty, *value).1 matches Ok(found) ==> comes_from(cx, *value, found.1) && (*ty is None ==> found.0 == found.1.ty),
{
    reveal(checking);
    reveal(synthesis);
    reveal(initial);
    if let Ok(found) = initial(cx, st, *ty, *value).1 {
        match *ty {
            Some(annotation) => {
                let want = resolve_now(cx, &st.env, &annotation)->Ok_0;
                assert(checking(cx, st, value, &want).1 == Ok::<HExpr, Stop>(found.1));
            },
            None => {
                assert(synthesis(cx, st, value).1 == Ok::<HExpr, Stop>(found.1));
            },
        }
    }
}

proof fn lemma_declared(cx: &Ctx, st: Checker, name: &Text, name_span: Span, ty: &Option<TypeExpr>, value: &Expr)
    ensures
        check_declare(cx, st, name, name_span, ty, value).1 matches Ok(stmt) ==> {
            let (next, first) = initial(cx, st, *ty, *value);
            let slot = count(&next.locals);
            &&& first is Ok
            &&& check_declare(cx, st, name, name_span, ty, value).0 == bind_name(add_local(next, first->Ok_0.0, first->Ok_0.1.mutable), name, slot)
            &&& stmt == (HStmt::Assign { slot, value: first->Ok_0.1 })
        },
{
    reveal(initial);
}

/// Whether a state is one in which a new local holds a value.
pub open spec fn holds_new(done: Checker, name: Text, slot: u32, found: HExpr, inferred: bool) -> bool {
    &&& done.locals@.len() > 0
    &&& done.locals@.last().mutable == found.mutable
    &&& inferred ==> done.locals@.last().ty == found.ty
    &&& done.locals@.len() <= u32::MAX ==> slot == done.locals@.len() - 1
    &&& lookup_slot(&done, &name) == Some(slot)
}

proof fn lemma_holds_new(next: Checker, name: Text, ty: Ty, found: HExpr)
    ensures
        holds_new(bind_name(add_local(next, ty, found.mutable), &name, count(&next.locals)), name, count(&next.locals), found, ty == found.ty),
{
    law_append(next.locals, LocalVar { ty, mutable: found.mutable });
    law_count(&next.locals);
    law_bind_name(add_local(next, ty, found.mutable), &name, count(&next.locals), &name);
}

/// A new local has the type that is declared or found, and the capability
/// of its value, and the name stands for it from there on.
pub proof fn law_declare(cx: &Ctx, st: Checker, name: &Text, name_span: Span, ty: &Option<TypeExpr>, value: &Expr)
    ensures
        check_declare(cx, st, name, name_span, ty, value).1 matches Ok(stmt) ==> (stmt matches HStmt::Assign { slot, value: found } && comes_from(
            cx,
            *value,
            found,
        ) && holds_new(check_declare(cx, st, name, name_span, ty, value).0, *name, slot, found, *ty is None)),
{
    lemma_initial(cx, st, ty, value);
    lemma_declared(cx, st, name, name_span, ty, value);
    let (next, first) = initial(cx, st, *ty, *value);
    if let Ok(found) = first {
        lemma_holds_new(next, *name, found.0, found.1);
    }
}

/// A cast keeps the capability of its value; a test gives a truth value.
/// Both need a class that the value can have.
pub proof fn law_is(cx: &Ctx, st: Checker, value: &Expr, ty: &TypeExpr, is_cast: bool, span: Span)
    ensures
        synth_is(cx, st, value, ty, is_cast, span).1 matches Ok(found) ==> (synthesis(cx, st, value).1 matches Ok(source) && (exists|target: Ty|
            #![trigger class_of(cx, &target)]
            {
                &&& class_of(cx, &source.ty) matches Some(from)
                &&& class_of(cx, &target) matches Some(to)
                &&& class_extends(cx, to.class, from.class) || class_extends(cx, from.class, to.class)
                &&& from.args == to.args
                &&& if is_cast {
                    found.mutable == source.mutable && found.ty == target && *found.kind == (HKind::CastType { value: source, ty: target })
                } else {
                    found.ty == Ty::Bool && *found.kind == (HKind::IsType { value: source, ty: target })
                }
            })),
{
    reveal(synthesis);
    if synth_is(cx, st, value, ty, is_cast, span).1 is Ok {
        let next = synthesis(cx, st, value).0;
        let target = resolve_now(cx, &next.env, ty)->Ok_0;
        assert(class_of(cx, &target) is Some);
    }
}

} // verus!
