//! Callable bodies and closures: what a recorded function has.

use vstd::prelude::*;
use crate::ast::{Expr, FuncDef, MethodDef, Param, RowItem, Span, Stmt, TypeExpr, nowhere};
use crate::chain::{Chain, chain_of, chain_of_view};
use crate::context::{ClassInfo, Ctx, FnSig, InterfaceMethodSig, MethodSig, Params, TyEnv};
use crate::hir::{HExpr, HKind, HirFunc};
use crate::laws::fitting::law_check_fits;
use crate::laws::lists::{law_all_set, law_append, law_concat, law_count, law_first_unset, law_holds_name};
use crate::laws::scopes::law_bind_name;
use crate::model::blocks::check_block;
use crate::model::bodies::{bind_parameters, check_callable, check_default, check_entry, check_entry_func, check_exit, check_function, check_interface_default, check_method, check_signature, ctor_start, default_name, default_scope, entry_collect, entry_span, entry_type, finished_func, full_signature, param_spans, same_span, signature_scope, top_level};
use crate::model::branches::last_span;
use crate::model::calls::resolve_now;
use crate::model::classes::source_span;
use crate::model::conform::empty_env;
use crate::model::endings::body_diverges;
use crate::model::exprs::{capture_types, capture_values, check_closure, closure_kind, closure_mode, closure_params, closure_result, closure_ret, enter_closure, field_ty_at, leave_closure, local_types, param_locals};
use crate::model::fits::fits;
use crate::model::lists::{cons, count};
use crate::model::lookup::{class_at, sig_at};
use crate::model::names::dotted;
use crate::model::resolve::resolve_row;
use crate::model::scope::{add_capture, bind_name, capture_lookup, ctor_complete, generated_name, hidden_local, local_mutable, local_ty, lookup_slot, push_func, resolve_value, synth_self};
use crate::problem::Stop;
use crate::state::{CapSource, CaptureRec, CheckedBody, Checker, CtorCtx, LocalVar, MadeFunc, NameRes, Output, RetKind};
use crate::text::Text;
use crate::types::{Row, Ty};

verus! {

/// What a callable binds for one parameter.
pub open spec fn parameter_local(ty: Ty, mutable: bool) -> LocalVar {
    LocalVar { ty: ty, mutable: mutable }
}

/// Whether the locals of a callable are extended by its parameters, in
/// order, each with its type and its right.
pub open spec fn binds_all(before: Seq<LocalVar>, tys: Seq<Ty>, muts: Seq<bool>, after: Seq<LocalVar>) -> bool {
    &&& after.len() == before.len() + tys.len()
    &&& forall|i: int| 0 <= i < before.len() ==> after[i] == before[i]
    &&& forall|i: int| 0 <= i < tys.len() ==> #[trigger] after[before.len() + i] == parameter_local(tys[i], muts[i])
}

/// The parameters of a callable are its first locals; where names are to be
/// distinct, each one that is there already is refused.
pub proof fn law_bind_parameters(st: Checker, unique: bool, names: &Chain<Text>, tys: &Chain<Ty>, muts: &Chain<bool>, spans: &Chain<Span>)
    requires
        tys@.len() == names@.len(),
        muts@.len() == names@.len(),
        spans@.len() == names@.len(),
        bind_parameters(st, unique, names, tys, muts, spans).1 is Ok,
    ensures
        binds_all(st.locals@, tys@, muts@, bind_parameters(st, unique, names, tys, muts, spans).0.locals@),
        unique ==> forall|i: int| 0 <= i < names@.len() ==> lookup_slot(&st, #[trigger] &names@[i]) is None,
        bind_parameters(st, unique, names, tys, muts, spans).0.declared_row == st.declared_row,
        bind_parameters(st, unique, names, tys, muts, spans).0.out == st.out,
    decreases names,
{
    match (names, tys, muts, spans) {
        (Chain::Cons(name, names_rest), Chain::Cons(ty, tys_rest), Chain::Cons(mutable, muts_rest), Chain::Cons(_, spans_rest)) => {
            let local = LocalVar { ty: **ty, mutable: **mutable };
            law_append(st.locals, local);
            let (more, slot) = hidden_local(st, **ty, **mutable);
            let next = bind_name(more, &**name, slot);
            law_bind_parameters(next, unique, names_rest, tys_rest, muts_rest, spans_rest);
            let done = bind_parameters(st, unique, names, tys, muts, spans).0;
            assert forall|i: int| 0 <= i < st.locals@.len() implies done.locals@[i] == st.locals@[i] by {
                assert(next.locals@[i] == st.locals@[i]);
            }
            assert forall|i: int| 0 <= i < tys@.len() implies #[trigger] done.locals@[st.locals@.len() + i] == parameter_local(tys@[i], muts@[i]) by {
                if i > 0 {
                    assert(done.locals@[next.locals@.len() + (i - 1)] == parameter_local(tys_rest@[i - 1], muts_rest@[i - 1]));
                } else {
                    assert(done.locals@[st.locals@.len() as int] == next.locals@[st.locals@.len() as int]);
                }
            }
            if unique {
                assert forall|i: int| 0 <= i < names@.len() implies lookup_slot(&st, #[trigger] &names@[i]) is None by {
                    if i > 0 {
                        assert(names@[i] == names_rest@[i - 1]);
                        assert(lookup_slot(&next, &names_rest@[i - 1]) is None);
                        law_bind_name(more, &**name, slot, &names@[i]);
                    }
                }
            }
        },
        _ => {},
    }
}

/// A checked body gives its declared type, completes or not as its
/// statements do, and where it never completes a `return` gives the value.
pub proof fn law_check_callable(cx: &Ctx, st: Checker, stmts: &Chain<Stmt>, ret: &Ty, span: Span)
    requires
        check_callable(cx, st, stmts, ret, span).1 is Ok,
    ensures
        check_callable(cx, st, stmts, ret, span).1->Ok_0.ty == *ret,
        check_callable(cx, st, stmts, ret, span).1->Ok_0.diverges == body_diverges(&check_callable(cx, st, stmts, ret, span).1->Ok_0.body),
        *ret != Ty::Unit && *ret != Ty::Never && check_callable(cx, st, stmts, ret, span).1->Ok_0.diverges ==> check_callable(cx, st, stmts, ret, span).0.saw_return,
        check_callable(cx, st, stmts, ret, span).1->Ok_0.locals@.len() == check_callable(cx, st, stmts, ret, span).0.locals@.len(),
{
    law_local_types(&check_callable(cx, st, stmts, ret, span).0.locals);
}

/// A function has one local type for each local, that of the local.
pub proof fn law_local_types(locals: &Chain<LocalVar>)
    ensures
        local_types(locals)@.len() == locals@.len(),
        forall|i: int| 0 <= i < locals@.len() ==> local_types(locals)@[i] == (#[trigger] locals@[i]).ty,
    decreases locals,
{
    if let Chain::Cons(_, tail) = locals {
        law_local_types(tail);
        assert forall|i: int| 0 <= i < locals@.len() implies local_types(locals)@[i] == (#[trigger] locals@[i]).ty by {
            if i > 0 {
                assert(locals@[i] == tail@[i - 1]);
                assert(local_types(locals)@[i] == local_types(tail)@[i - 1]);
            }
        }
    }
}

/// Whether a function has the interface of a signature.
pub open spec fn has_interface(func: HirFunc, sig: FnSig) -> bool {
    &&& func.params == sig.params
    &&& func.param_muts == sig.param_muts
    &&& func.param_names == sig.param_names
    &&& func.ret == sig.ret
    &&& func.row == sig.row
    &&& func.type_bounds == sig.type_bounds
    &&& func.type_params == count(&sig.type_params)
    &&& func.effect_params == count(&sig.effect_params)
    &&& func.captures@.len() == 0
    &&& !func.imported
}

/// Whether the last recorded function stands at an index.
pub open spec fn recorded_last(out: Output, index: u32) -> bool {
    out.made@.len() > 0 && out.made@.last().index == index
}

/// A top-level function is recorded last, at its index, under its name and
/// with the interface of its signature.
pub proof fn law_function(cx: &Ctx, st: Output, func: &FuncDef, index: u32, is_core: bool)
    requires
        check_function(cx, st, func, index, is_core).1 is Ok,
    ensures
        recorded_last(check_function(cx, st, func, index, is_core).0, index),
        has_interface(check_function(cx, st, func, index, is_core).0.made@.last().func, *sig_at(cx, index)),
        check_function(cx, st, func, index, is_core).0.made@.last().func.name == func.name,
        check_function(cx, st, func, index, is_core).0.made@.last().func.core == is_core,
{
    let sig = *sig_at(cx, index);
    let checker = top_level(RetKind::Known(sig.ret), signature_scope(&sig, is_core), sig.row, st);
    let (done, body) = check_signature(cx, checker, true, &sig, &param_spans(&func.params), &func.body, func.span);
    law_append(done.out.made, MadeFunc { index: index, func: finished_func(sig, func.name, body->Ok_0, func.span, is_core) });
}

/// A method takes its receiver first, which it can change where it says so
/// or where it is an initializer, and keeps its parameters behind it.
pub proof fn law_full_signature(info: &ClassInfo, sig: &MethodSig, is_init: bool)
    ensures
        full_signature(info, sig, is_init).params@ == seq![info.self_ty] + sig.params@,
        full_signature(info, sig, is_init).param_muts@ == seq![is_init || sig.mut_self] + sig.param_muts@,
        full_signature(info, sig, is_init).param_names@.len() == sig.param_names@.len() + 1,
        full_signature(info, sig, is_init).param_names@[0]@ == "self"@,
        full_signature(info, sig, is_init).param_names@.skip(1) == sig.param_names@,
        full_signature(info, sig, is_init).ret == sig.ret,
        full_signature(info, sig, is_init).row == sig.row,
        full_signature(info, sig, is_init).type_params@ == info.type_params@ + sig.own_type_params@,
        full_signature(info, sig, is_init).type_bounds@ == sig.class_type_bounds@ + sig.own_type_bounds@,
{
    law_concat(info.type_params, sig.own_type_params);
    law_concat(sig.class_type_bounds, sig.own_type_bounds);
    chain_of_view("self"@);
    let full = full_signature(info, sig, is_init);
    assert(full.params@ =~= seq![info.self_ty] + sig.params@);
    assert(full.param_muts@ =~= seq![is_init || sig.mut_self] + sig.param_muts@);
    assert(full.param_names@.skip(1) =~= sig.param_names@);
}

/// An initializer starts with the defaults of its fields and without the
/// call of the parent initializer, which it needs where the parent has one.
pub proof fn law_ctor_start(cx: &Ctx, class: u32, info: &ClassInfo, is_init: bool)
    ensures
        !is_init ==> ctor_start(cx, class, info, is_init) is None,
        is_init ==> (ctor_start(cx, class, info, is_init) matches Some(c) && c.class == class && c.state.inited == info.has_default && !c.state.super_done
            && (c.needs_super <==> (info.parent matches Some(parent) && class_at(cx, parent).init is Some))),
{
}

/// What checking the body of a method gives.
#[verifier::opaque]
pub open spec fn method_end(cx: &Ctx, st: Output, class: u32, sig: MethodSig, method: MethodDef, is_core: bool) -> (Checker, Result<CheckedBody, Stop>) {
    let info = class_at(cx, class);
    let is_init = method.name@ == "init"@;
    let full = full_signature(info, &sig, is_init);
    let env = TyEnv { self_ty: Some(info.self_ty), ..signature_scope(&full, is_core) };
    let start = Checker { self_class: Some(class), ctor: ctor_start(cx, class, info, is_init), ..top_level(RetKind::Known(full.ret), env, full.row, st) };
    check_signature(cx, start, false, &full, &same_span(&full.param_names, method.span), &method.body, method.span)
}

/// A method is recorded last, at the function of its signature, with its
/// interface; an initializer has set every field where its body ends, or
/// does not end.
pub proof fn law_method(cx: &Ctx, st: Output, class: u32, sig: &MethodSig, method: &MethodDef, is_core: bool)
    requires
        check_method(cx, st, class, sig, method, is_core).1 is Ok,
    ensures
        recorded_last(check_method(cx, st, class, sig, method, is_core).0, sig.func),
        has_interface(check_method(cx, st, class, sig, method, is_core).0.made@.last().func, full_signature(class_at(cx, class), sig, method.name@ == "init"@)),
        check_method(cx, st, class, sig, method, is_core).0.made@.last().func.name == dotted(&class_at(cx, class).name, &method.name),
        method_end(cx, st, class, *sig, *method, is_core).1 is Ok,
        method_end(cx, st, class, *sig, *method, is_core).0.ctor matches Some(c) ==> method_end(cx, st, class, *sig, *method, is_core).1->Ok_0.diverges || (forall|i: int|
            0 <= i < c.state.inited@.len() && c.state.inited@.len() <= u32::MAX ==> #[trigger] c.state.inited@[i]) && (c.needs_super ==> c.state.super_done),
{
    reveal(method_end);
    let info = class_at(cx, class);
    let full = full_signature(info, sig, method.name@ == "init"@);
    let (done, body) = method_end(cx, st, class, *sig, *method, is_core);
    law_append(done.out.made, MadeFunc { index: sig.func, func: finished_func(full, dotted(&info.name, &method.name), body->Ok_0, method.span, is_core) });
    law_check_exit(cx, &done.ctor, body->Ok_0.diverges, method.span);
}

/// An initializer that ends has set every field and run the parent
/// initializer that it needs.
pub proof fn law_check_exit(cx: &Ctx, ctor: &Option<CtorCtx>, ends: bool, span: Span)
    requires
        check_exit(cx, ctor, ends, span) is Ok,
    ensures
        *ctor matches Some(c) ==> ends || (forall|i: int| 0 <= i < c.state.inited@.len() && c.state.inited@.len() <= u32::MAX ==> #[trigger] c.state.inited@[i]) && (c.needs_super
            ==> c.state.super_done),
{
    if let Some(c) = *ctor {
        if c.state.inited@.len() <= u32::MAX {
            law_first_unset(&c.state.inited);
            law_all_set(&c.state.inited);
        }
    }
}

/// An interface default is recorded last, at its function, with the
/// interface of its signature.
pub proof fn law_interface_default(cx: &Ctx, st: Output, interface: u32, requirement: &InterfaceMethodSig, func: u32, stmts: &Chain<Stmt>, span: Span, is_core: bool)
    requires
        check_interface_default(cx, st, interface, requirement, func, stmts, span, is_core).1 is Ok,
    ensures
        recorded_last(check_interface_default(cx, st, interface, requirement, func, stmts, span, is_core).0, func),
        has_interface(check_interface_default(cx, st, interface, requirement, func, stmts, span, is_core).0.made@.last().func, *sig_at(cx, func)),
{
    let sig = *sig_at(cx, func);
    let env = TyEnv { extra_bounds: requirement.premises, self_interface: Some(interface), self_ty: Some(Ty::Var(0)), ..signature_scope(&sig, is_core) };
    let checker = top_level(RetKind::Known(sig.ret), env, sig.row, st);
    let (done, body) = check_signature(cx, checker, true, &sig, &same_span(&sig.param_names, span), stmts, span);
    law_append(done.out.made, MadeFunc { index: func, func: finished_func(sig, default_name(requirement), body->Ok_0, span, is_core) });
}

/// The entry is recorded last, at its index; it takes nothing, and never
/// gives the type without values.
pub proof fn law_entry_func(cx: &Ctx, st: Output, stmts: &Chain<Stmt>, index: u32)
    requires
        check_entry_func(cx, st, stmts, index).1 is Ok,
    ensures
        recorded_last(check_entry_func(cx, st, stmts, index).0, index),
        check_entry_func(cx, st, stmts, index).0.made@.last().func.params@.len() == 0,
        check_entry_func(cx, st, stmts, index).0.made@.last().func.captures@.len() == 0,
        check_entry_func(cx, st, stmts, index).0.made@.last().func.ret != Ty::Never,
        check_entry_func(cx, st, stmts, index).0.made@.last().func.row == check_entry(cx, entry_collect(empty_env(), st), stmts, last_span(stmts, nowhere())).0.declared_row,
{
    let (done, body) = check_entry(cx, entry_collect(empty_env(), st), stmts, last_span(stmts, nowhere()));
    let func = HirFunc {
        imported: false,
        core: false,
        source_span: entry_span(stmts),
        name: chain_of("<entry>"@),
        type_params: 0,
        type_bounds: Chain::Nil,
        effect_params: 0,
        params: Chain::Nil,
        param_muts: Chain::Nil,
        param_names: Chain::Nil,
        ret: entry_type(body->Ok_0.ty),
        row: done.declared_row,
        captures: Chain::Nil,
        locals: body->Ok_0.locals,
        body: body->Ok_0.body,
    };
    law_append(done.out.made, MadeFunc { index: index, func: func });
}

/// A field default fits the type of its field; a field without one has
/// none.
pub proof fn law_default(cx: &Ctx, st: Output, class: u32, field: u32, value: &Option<Expr>, is_core: bool)
    requires
        check_default(cx, st, class, field, value, is_core).1 is Ok,
    ensures
        *value is None <==> check_default(cx, st, class, field, value, is_core).1->Ok_0.value is None,
        check_default(cx, st, class, field, value, is_core).1->Ok_0.value matches Some(found) ==> fits(cx, field_ty_at(cx, class, field), found.ty),
{
    if let Some(expr) = value {
        let checker = top_level(RetKind::Entry, default_scope(class_at(cx, class), is_core), Chain::Nil, st);
        law_check_fits(cx, checker, expr, &field_ty_at(cx, class, field));
    }
}

/// The values that a closure captures are read where it is made: each from
/// its place, with its type and its right.
pub proof fn law_capture_values(captures: &Chain<CaptureRec>)
    ensures
        capture_values(captures)@.len() == captures@.len(),
        capture_types(captures)@.len() == captures@.len(),
        forall|i: int| 0 <= i < captures@.len() ==> is_capture(#[trigger] captures@[i], capture_values(captures)@[i], capture_types(captures)@[i]),
    decreases captures,
{
    if let Chain::Cons(_, tail) = captures {
        law_capture_values(tail);
        assert forall|i: int| 0 <= i < captures@.len() implies is_capture(#[trigger] captures@[i], capture_values(captures)@[i], capture_types(captures)@[i]) by {
            if i > 0 {
                assert(captures@[i] == tail@[i - 1]);
                assert(capture_values(captures)@[i] == capture_values(tail)@[i - 1]);
                assert(capture_types(captures)@[i] == capture_types(tail)@[i - 1]);
            }
        }
    }
}

/// Whether a value and a type are those of a capture.
pub open spec fn is_capture(capture: CaptureRec, value: HExpr, ty: Ty) -> bool {
    &&& value.ty == capture.ty
    &&& ty == capture.ty
    &&& value.mutable == capture.mutable
    &&& *value.kind == (match capture.source {
        CapSource::Local(slot) => HKind::Local(slot),
        CapSource::Capture(at) => HKind::Capture(at),
    })
}

/// A name stands for the innermost local of that name before anything
/// outside the callable, and reading it changes nothing.
pub proof fn law_resolve_value(st: Checker, name: &Text)
    ensures
        lookup_slot(&st, name) matches Some(slot) ==> resolve_value(st, name) == (st, Ok::<Option<NameRes>, Stop>(
            Some(NameRes { source: CapSource::Local(slot), ty: local_ty(&st, slot), mutable: local_mutable(&st, slot) }),
        )),
        lookup_slot(&st, name) is None && !st.is_closure ==> resolve_value(st, name) == (st, Ok::<Option<NameRes>, Stop>(None)),
        resolve_value(st, name).0.locals == st.locals,
        resolve_value(st, name).0.scopes == st.scopes,
        resolve_value(st, name).0.declared_row == st.declared_row,
        resolve_value(st, name).0.out == st.out,
        resolve_value(st, name).0.ctor == st.ctor,
{
}

/// A captured name keeps the type and the right of what it captures, and
/// stands behind the captures that are there.
pub proof fn law_add_capture(st: Checker, name: &Text, found: NameRes)
    requires
        st.captures@.len() <= u32::MAX,
    ensures
        add_capture(st, name, found).1 == (NameRes { source: CapSource::Capture(st.captures@.len() as u32), ty: found.ty, mutable: found.mutable }),
        add_capture(st, name, found).0.captures@ == st.captures@.push(CaptureRec { name: *name, ty: found.ty, mutable: found.mutable, source: found.source }),
{
    law_count(&st.captures);
    law_append(st.captures, CaptureRec { name: *name, ty: found.ty, mutable: found.mutable, source: found.source });
}

/// `self` does not escape an initializer that has not set every field, by
/// itself or in a closure.
pub proof fn law_self_escape(st: Checker, span: Span)
    ensures
        synth_self(st, span).1 is Ok ==> (synth_self(st, span).0.ctor matches Some(c) ==> ctor_complete(&c)),
        st.ctor matches Some(c) ==> (!ctor_complete(&c) ==> synth_self(st, span).1 is Err),
{
    law_resolve_value(st, &chain_of("self"@));
}

/// A closure cannot capture `self` of an initializer that has not set every
/// field.
pub proof fn law_capture_self(st: Checker, name: &Text)
    requires
        name@ == "self"@,
        st.ctor is Some,
        !ctor_complete(&st.ctor->0),
        lookup_slot(&st, name) is Some,
    ensures
        capture_lookup(st, name).1 is Err,
{
}

/// A closure begins with its parameters as its locals, and performs its own
/// row alone: no effect of the callable around it counts as declared.
pub proof fn law_enter_closure(st: Checker, params: &Params, ret: RetKind, row: &Row)
    ensures
        enter_closure(st, params, ret, row).declared_row == *row,
        !enter_closure(st, params, ret, row).collect_row,
        enter_closure(st, params, ret, row).is_closure,
        enter_closure(st, params, ret, row).ret == ret,
        enter_closure(st, params, ret, row).loops@.len() == 0,
        enter_closure(st, params, ret, row).captures@.len() == 0,
        enter_closure(st, params, ret, row).ctor is None,
        enter_closure(st, params, ret, row).env == st.env,
        enter_closure(st, params, ret, row).locals == param_locals(&params.types, &params.muts),
        leave_closure(enter_closure(st, params, ret, row)) == st,
{
}

/// The locals of parameters have their types and rights, in order.
pub proof fn law_param_locals(types: &Chain<Ty>, muts: &Chain<bool>)
    requires
        types@.len() == muts@.len(),
    ensures
        param_locals(types, muts)@.len() == types@.len(),
        forall|i: int| 0 <= i < types@.len() ==> #[trigger] param_locals(types, muts)@[i] == parameter_local(types@[i], muts@[i]),
    decreases types,
{
    if let (Chain::Cons(_, types_rest), Chain::Cons(_, muts_rest)) = (types, muts) {
        law_param_locals(types_rest, muts_rest);
        assert forall|i: int| 0 <= i < types@.len() implies #[trigger] param_locals(types, muts)@[i] == parameter_local(types@[i], muts@[i]) by {
            if i > 0 {
                assert(param_locals(types, muts)@[i] == param_locals(types_rest, muts_rest)@[i - 1]);
            }
        }
    }
}

/// Whether a closure value is of the function type that its function has.
pub open spec fn is_closure_value(found: HExpr, out: Output) -> bool {
    &&& out.made@.len() > 0
    &&& *found.kind matches HKind::MakeClosure { func, captures } && func == out.made@.last().index && captures@.len() == out.made@.last().func.captures@.len()
    &&& found.ty matches Ty::Fn(params, muts, ret, row) && params == out.made@.last().func.params && muts == out.made@.last().func.param_muts && *ret == out.made@.last().func.ret
        && row == out.made@.last().func.row
}

/// A closure is recorded last; its type has the parameters, the result and
/// the row of its function, and the row is the written one.
pub proof fn law_closure(cx: &Ctx, st: Checker, params: &Chain<Param>, ret: &Option<TypeExpr>, row: &Chain<RowItem>, expected: Option<Ty>, body: &Chain<Stmt>, span: Span)
    requires
        check_closure(cx, st, params, ret, row, expected, body, span).1 is Ok,
    ensures
        is_closure_value(check_closure(cx, st, params, ret, row, expected, body, span).1->Ok_0, check_closure(cx, st, params, ret, row, expected, body, span).0.out),
        resolve_row(cx, &st.env, row) == Ok::<Row, Stop>(check_closure(cx, st, params, ret, row, expected, body, span).0.out.made@.last().func.row),
        closure_params(cx, &st.env, params, Chain::Nil) matches Ok(declared) && declared.types == check_closure(cx, st, params, ret, row, expected, body, span).0.out.made@.last().func.params
            && declared.muts == check_closure(cx, st, params, ret, row, expected, body, span).0.out.made@.last().func.param_muts
            && declared.names == check_closure(cx, st, params, ret, row, expected, body, span).0.out.made@.last().func.param_names,
        *ret matches Some(written) ==> resolve_now(cx, &st.env, &written) == Ok::<Ty, Stop>(check_closure(cx, st, params, ret, row, expected, body, span).0.out.made@.last().func.ret),
{
    let declared = closure_params(cx, &st.env, params, Chain::Nil)->Ok_0;
    let ret_ty = closure_ret(cx, &st.env, ret, expected)->Ok_0;
    let effects = resolve_row(cx, &st.env, row)->Ok_0;
    let inside = enter_closure(st, &declared, closure_kind(&ret_ty), &effects);
    let (done, result) = check_block(cx, inside, body, &closure_mode(&ret_ty), span);
    let block = result->Ok_0;
    law_capture_values(&done.captures);
    let around = leave_closure(done);
    let ty = closure_result(ret_ty, &block.ty);
    let func = HirFunc {
        imported: false,
        core: around.env.core_scope,
        source_span: source_span(span, around.env.core_scope),
        name: generated_name("<closure ", around.out.next_func),
        type_params: count(&around.env.type_names),
        type_bounds: around.env.type_bounds,
        effect_params: count(&around.env.effect_names),
        params: declared.types,
        param_muts: declared.muts,
        param_names: declared.names,
        ret: ty,
        row: effects,
        captures: capture_types(&done.captures),
        locals: local_types(&done.locals),
        body: block.body,
    };
    law_push_func(around, func);
    assert(check_closure(cx, st, params, ret, row, expected, body, span).0 == push_func(around, func).0);
}

/// A function that is made on the way is recorded last, under the next
/// number.
pub proof fn law_push_func(st: Checker, func: HirFunc)
    ensures
        push_func(st, func).1 == st.out.next_func,
        push_func(st, func).0.out.made@ == st.out.made@.push(MadeFunc { index: st.out.next_func, func: func }),
        st.out.next_func < u32::MAX ==> push_func(st, func).0.out.next_func == st.out.next_func + 1,
{
    law_append(st.out.made, MadeFunc { index: st.out.next_func, func: func });
}

/// Whether the parameters of a closure are those that are written.
pub open spec fn closure_keeps(written: Chain<Param>, found: Params) -> bool {
    &&& found.types@.len() == written@.len()
    &&& found.muts@.len() == written@.len()
    &&& found.names@.len() == written@.len()
    &&& found.names@.no_duplicates()
    &&& forall|i: int| 0 <= i < written@.len() ==> found.names@[i] == (#[trigger] written@[i]).name && found.muts@[i] == written@[i].mutable
}

/// The parameters of a closure are those that are written, each name once.
pub proof fn law_closure_params(cx: &Ctx, env: &TyEnv, params: &Chain<Param>, seen: Chain<Text>)
    requires
        closure_params(cx, env, params, seen) is Ok,
    ensures
        closure_keeps(*params, closure_params(cx, env, params, seen)->Ok_0),
        forall|i: int| 0 <= i < params@.len() ==> !seen@.contains((#[trigger] params@[i]).name),
    decreases params,
{
    if let Chain::Cons(head, tail) = params {
        let found = closure_params(cx, env, params, seen)->Ok_0;
        law_holds_name(&seen, &head.name);
        let more = cons(head.name, seen);
        law_closure_params(cx, env, tail, more);
        let rest = closure_params(cx, env, tail, more)->Ok_0;
        assert(more@ =~= seq![head.name] + seen@);
        assert(params@ =~= seq![**head] + tail@);
        assert(found.names@ =~= seq![head.name] + rest.names@);
        assert(found.muts@ =~= seq![head.mutable] + rest.muts@);
        assert forall|i: int| 0 <= i < params@.len() implies found.names@[i] == (#[trigger] params@[i]).name && found.muts@[i] == params@[i].mutable by {
            if i > 0 {
                assert(params@[i] == tail@[i - 1]);
            }
        }
        assert forall|i: int| 0 <= i < params@.len() implies !seen@.contains((#[trigger] params@[i]).name) by {
            if i > 0 {
                assert(params@[i] == tail@[i - 1]);
                if seen@.contains(params@[i].name) {
                    let j = seen@.index_of(params@[i].name);
                    assert(more@[j + 1] == params@[i].name);
                }
            }
        }
        assert forall|i: int, j: int| 0 <= i < j < found.names@.len() implies found.names@[i] != found.names@[j] by {
            assert(found.names@[j] == params@[j].name);
            if i == 0 {
                assert(params@[j] == tail@[j - 1]);
                assert(more@[0] == head.name);
                assert(!more@.contains(tail@[j - 1].name));
            } else {
                assert(rest.names@[i - 1] != rest.names@[j - 1]);
            }
        }
    }
}

} // verus!
