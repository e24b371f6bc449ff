//! Callable bodies: functions, methods, interface defaults and field
//! defaults.

use vstd::prelude::*;
use crate::ast::{ArmDef, ArmField, ClassDef, EnumDef, Expr, FieldDef, FuncDef, InterfaceDef, InterfaceMethod, MethodDef, Module, Param, Span, Stmt, joined, nowhere};
use crate::blocks::check_block;
use crate::branches::last_span;
use crate::chain::{Chain, copy_chain};
use crate::classes::source_span;
use crate::conform::empty_env;
use crate::context::{ClassInfo, Ctx, FnSig, InterfaceMethodSig, MethodSig, TyEnv, clone_interface_use_lists, clone_texts, clone_type_premises};
use crate::endings::body_diverges;
use crate::exprs::{body_mode, check_expr, field_ty_at, local_types};
use crate::fulfil::{declared_class, declared_interface};
use crate::hir::HirFunc;
use crate::lists::{append, concat, cons, count, nth, one, set_nth};
use crate::lookup::{class_at, interface_at, sig_at};
use crate::names::dotted;
use crate::problem::{Problem, Stop};
use crate::program::FieldDefault;
use crate::resolve::{named, unnamed};
use crate::scope::{bind_name, hidden_local, lookup_slot, require_complete};
use crate::state::{BlockMode, CheckedBody, Checker, CtorCtx, CtorState, MadeFunc, Output, RetKind};
use crate::text::{Text, is_text, text};
use crate::types::{Row, Ty, clone_tys, same_ty};
use crate::model::sound::{bare_ok, body_ok, default_ok, made_ok, ready, room, scopes_ok, step, widens};
use crate::model::keeps::kept;
use crate::model;

verus! {

broadcast use {crate::model::keeps::group_kept, crate::model::sound::group_sound};

/// A checker for one callable.
pub fn top_level(ret: RetKind, env: TyEnv, row: Row, out: Output) -> (r: Checker)
    ensures
        r == model::bodies::top_level(ret, env, row, out),
{
    Checker {
        outer: None,
        locals: Chain::Nil,
        scopes: one(Chain::Nil),
        captures: Chain::Nil,
        is_closure: false,
        loops: Chain::Nil,
        saw_return: false,
        ret: ret,
        self_class: None,
        ctor: None,
        env: env,
        declared_row: row,
        collect_row: false,
        binds: Chain::Nil,
        out: out,
    }
}

/// A checker for the entry statements. It collects the row instead of
/// comparing it.
pub fn entry_collect(env: TyEnv, out: Output) -> (r: Checker)
    ensures
        r == model::bodies::entry_collect(env, out),
{
    Checker { collect_row: true, ..top_level(RetKind::Entry, env, Chain::Nil, out) }
}

/// Check a full callable body and package the result. A body that never
/// completes and holds no `return` gives no value of its declared type.
pub fn check_callable(cx: &Ctx, st: Checker, stmts: &Chain<Stmt>, ret: &Ty, span: Span) -> (r: (Checker, Result<CheckedBody, Stop>))
    ensures
        r == model::bodies::check_callable(cx, st, stmts, ret, span),
        kept(st, r.0),
        step(cx, st, r.0, true, (r.1 matches Ok(found) ==> body_ok(room(cx, r.0), found))),
{
    proof {
        reveal(ready);
        reveal(room);
        reveal(widens);
    }
    let (st, out) = check_block(cx, st, stmts, &body_mode(ret), span);
    let block = match out {
        Ok(found) => found,
        Err(stop) => {
            return (st, Err(stop));
        },
    };
    let ends = body_diverges(&block.body);
    if ends && !st.saw_return && !same_ty(&*ret, &Ty::Unit) && !same_ty(&*ret, &Ty::Never) {
        (st, Err(unnamed(Problem::NeverReturns { declared: (*ret).clone() }, span)))
    } else {
        let locals = local_types(&st.locals);
        (st, Ok(CheckedBody { body: block.body, locals: locals, diverges: ends, ty: (*ret).clone() }))
    }
}

/// Check the module entry and synthesize its type.
pub fn check_entry(cx: &Ctx, st: Checker, stmts: &Chain<Stmt>, span: Span) -> (r: (Checker, Result<CheckedBody, Stop>))
    ensures
        r == model::bodies::check_entry(cx, st, stmts, span),
        kept(st, r.0),
        step(cx, st, r.0, true, (r.1 matches Ok(found) ==> body_ok(room(cx, r.0), found))),
{
    proof {
        reveal(ready);
        reveal(room);
        reveal(widens);
    }
    let (st, out) = check_block(cx, st, stmts, &BlockMode::Synth, span);
    let block = match out {
        Ok(found) => found,
        Err(stop) => {
            return (st, Err(stop));
        },
    };
    let locals = local_types(&st.locals);
    let ends = body_diverges(&block.body);
    (st, Ok(CheckedBody { body: block.body, locals: locals, diverges: ends, ty: block.ty }))
}

/// Bind the parameters of a callable to its first slots. With `unique`, a
/// repeated name is a problem.
pub fn bind_parameters(
    st: Checker,
    unique: bool,
    names: &Chain<Text>,
    tys: &Chain<Ty>,
    muts: &Chain<bool>,
    spans: &Chain<Span>,
) -> (r: (Checker, Result<(), Stop>))
    ensures
        r == model::bodies::bind_parameters(st, unique, names, tys, muts, spans),
        kept(st, r.0),
        st.locals@.len() <= r.0.locals@.len(),
        r.1 is Ok && *names is Cons && *tys is Cons && *muts is Cons && *spans is Cons ==> r.0.locals@.len() > 0,
    decreases names,
{
    match (names, tys, muts, spans) {
        (Chain::Cons(name, names_rest), Chain::Cons(ty, tys_rest), Chain::Cons(mutable, muts_rest), Chain::Cons(span, spans_rest)) => {
            if unique && lookup_slot(&st, name).is_some() {
                (st, Err(named(Problem::DuplicateParameter, name, **span)))
            } else {
                let (st, slot) = hidden_local(st, (**ty).clone(), **mutable);
                bind_parameters(bind_name(st, name, slot), unique, names_rest, tys_rest, muts_rest, spans_rest)
            }
        },
        _ => (st, Ok(())),
    }
}

/// The places of parameters.
pub fn param_spans(params: &Chain<Param>) -> (r: Chain<Span>)
    ensures
        r == model::bodies::param_spans(params),
    decreases params,
{
    match params {
        Chain::Nil => Chain::Nil,
        Chain::Cons(head, tail) => cons(head.span, param_spans(tail)),
    }
}

/// One place for each name.
pub fn same_span(names: &Chain<Text>, span: Span) -> (r: Chain<Span>)
    ensures
        r == model::bodies::same_span(names, span),
    decreases names,
{
    match names {
        Chain::Nil => Chain::Nil,
        Chain::Cons(_, tail) => cons(span, same_span(tail, span)),
    }
}

/// The scope of a signature.
pub fn signature_scope(sig: &FnSig, is_core: bool) -> (r: TyEnv)
    ensures
        r == model::bodies::signature_scope(sig, is_core),
{
    TyEnv {
        type_names: clone_texts(&sig.type_params),
        type_bounds: clone_interface_use_lists(&sig.type_bounds),
        extra_bounds: Chain::Nil,
        effect_names: clone_texts(&sig.effect_params),
        type_offset: 0,
        self_interface: None,
        self_ty: None,
        core_scope: is_core,
    }
}

/// The function that a signature and a checked body make.
pub fn finished_func(sig: FnSig, name: Text, body: CheckedBody, span: Span, is_core: bool) -> (r: HirFunc)
    ensures
        r == model::bodies::finished_func(sig, name, body, span, is_core),
{
    HirFunc {
        imported: false,
        core: is_core,
        source_span: source_span(span, is_core),
        name: name,
        type_params: count(&sig.type_params),
        type_bounds: sig.type_bounds,
        effect_params: count(&sig.effect_params),
        params: sig.params,
        param_muts: sig.param_muts,
        param_names: sig.param_names,
        ret: sig.ret,
        row: sig.row,
        captures: Chain::Nil,
        locals: body.locals,
        body: body.body,
    }
}

/// Check the parameters and the body of one callable.
pub fn check_signature(
    cx: &Ctx,
    st: Checker,
    unique: bool,
    sig: &FnSig,
    spans: &Chain<Span>,
    stmts: &Chain<Stmt>,
    span: Span,
) -> (r: (Checker, Result<CheckedBody, Stop>))
    ensures
        r == model::bodies::check_signature(cx, st, unique, sig, spans, stmts, span),
        kept(st, r.0),
        bare_ok(cx, st) && (st.self_class is Some || st.ctor is Some ==> sig.param_names is Cons && sig.params is Cons && sig.param_muts is Cons && *spans is Cons) ==> made_ok(cx, r.0.out.made) && (r.1 matches Ok(found) ==> body_ok(room(cx, r.0), found)),
{
    proof {
        reveal(ready);
    }
    let (st, out) = bind_parameters(st, unique, &sig.param_names, &sig.params, &sig.param_muts, spans);
    let _bound = match out {
        Ok(found) => found,
        Err(stop) => {
            return (st, Err(stop));
        },
    };
    check_callable(cx, st, stmts, &sig.ret, span)
}

/// Record a checked function at its reserved index.
pub fn record_func(out: Output, index: u32, func: HirFunc) -> (r: Output)
    ensures
        r == model::bodies::record_func(out, index, func),
{
    Output { next_func: out.next_func, made: append(out.made, MadeFunc { index: index, func: func }) }
}

/// Check one top-level function.
pub fn check_function(cx: &Ctx, st: Output, func: &FuncDef, index: u32, is_core: bool) -> (r: (Output, Result<(), Stop>))
    ensures
        r == model::bodies::check_function(cx, st, func, index, is_core),
        made_ok(cx, st.made) ==> made_ok(cx, r.0.made),
{
    proof {
        reveal_with_fuel(scopes_ok, 2);
    }
    let sig = (*sig_at(cx, index)).clone();
    let checker = top_level(RetKind::Known(sig.ret.clone()), signature_scope(&sig, is_core), copy_chain(&sig.row), st);
    match check_signature(cx, checker, true, &sig, &param_spans(&func.params), &func.body, func.span) {
        (done, Err(stop)) => (done.out, Err(stop)),
        (done, Ok(body)) => (record_func(done.out, index, finished_func(sig, copy_chain(&func.name), body, func.span, is_core)), Ok(())),
    }
}

/// Check the top-level functions of one source module.
pub fn check_functions(cx: &Ctx, st: Output, funcs: &Chain<FuncDef>, at: u32, is_core: bool) -> (r: (Output, Result<(), Stop>))
    ensures
        r == model::bodies::check_functions(cx, st, funcs, at, is_core),
        made_ok(cx, st.made) ==> made_ok(cx, r.0.made),
    decreases funcs,
{
    match funcs {
        Chain::Nil => (st, Ok(())),
        Chain::Cons(head, tail) => {
            let (st, out) = check_function(cx, st, head, at, is_core);
            let _checked = match out {
                Ok(found) => found,
                Err(stop) => {
                    return (st, Err(stop));
                },
            };
            check_functions(cx, st, tail, at.wrapping_add(1), is_core)
        },
    }
}

/// The signature of a method with `self` as its first parameter and the
/// class parameters before its own.
pub fn full_signature(info: &ClassInfo, sig: &MethodSig, is_init: bool) -> (r: FnSig)
    ensures
        r == model::bodies::full_signature(info, sig, is_init),
{
    FnSig {
        type_params: concat(clone_texts(&info.type_params), clone_texts(&sig.own_type_params)),
        type_bounds: concat(clone_interface_use_lists(&sig.class_type_bounds), clone_interface_use_lists(&sig.own_type_bounds)),
        effect_params: clone_texts(&sig.own_effect_params),
        params: cons(info.self_ty.clone(), clone_tys(&sig.params)),
        param_muts: cons(is_init || sig.mut_self, copy_chain(&sig.param_muts)),
        param_names: cons(text("self"), clone_texts(&sig.param_names)),
        ret: sig.ret.clone(),
        row: copy_chain(&sig.row),
    }
}

/// Whether the parent of a class has an initializer.
pub fn needs_super(cx: &Ctx, info: &ClassInfo) -> (r: bool)
    ensures
        r == model::bodies::needs_super(cx, info),
{
    match info.parent {
        Some(parent) => class_at(cx, parent).init.is_some(),
        None => false,
    }
}

/// What an initializer starts from: fields with a default hold a value.
pub fn ctor_start(cx: &Ctx, class: u32, info: &ClassInfo, is_init: bool) -> (r: Option<CtorCtx>)
    ensures
        r == model::bodies::ctor_start(cx, class, info, is_init),
{
    if is_init {
        Some(CtorCtx { class: class, needs_super: needs_super(cx, info), state: CtorState { inited: copy_chain(&info.has_default), super_done: false } })
    } else {
        None
    }
}

/// Require an initializer to be complete on its normal exit.
pub fn check_exit(cx: &Ctx, ctor: &Option<CtorCtx>, ends: bool, span: Span) -> (r: Result<(), Stop>)
    ensures
        r == model::bodies::check_exit(cx, ctor, ends, span),
{
    match ctor {
        Some(c) => {
            if ends {
                Ok(())
            } else {
                require_complete(cx, c.class, c, span)
            }
        },
        None => Ok(()),
    }
}

/// Check one method body, with constructor tracking for `init`.
pub fn check_method(
    cx: &Ctx,
    st: Output,
    class: u32,
    sig: &MethodSig,
    method: &MethodDef,
    is_core: bool,
) -> (r: (Output, Result<(), Stop>))
    ensures
        r == model::bodies::check_method(cx, st, class, sig, method, is_core),
        made_ok(cx, st.made) ==> made_ok(cx, r.0.made),
{
    proof {
        reveal_with_fuel(scopes_ok, 2);
    }
    let info = class_at(cx, class);
    let is_init = is_text(&method.name, "init");
    let full = full_signature(info, sig, is_init);
    let env = TyEnv { self_ty: Some(info.self_ty.clone()), ..signature_scope(&full, is_core) };
    let plain_checker = top_level(RetKind::Known(full.ret.clone()), env, copy_chain(&full.row), st);
    let checker = Checker { self_class: Some(class), ctor: ctor_start(cx, class, info, is_init), ..plain_checker };
    match check_signature(cx, checker, false, &full, &same_span(&full.param_names, method.span), &method.body, method.span) {
        (done, Err(stop)) => (done.out, Err(stop)),
        (done, Ok(body)) => {
            match check_exit(cx, &done.ctor, body.diverges, method.span) {
                Err(stop) => (done.out, Err(stop)),
                Ok(_) => {
                    let name = dotted(&info.name, &method.name);
                    (record_func(done.out, sig.func, finished_func(full, name, body, method.span, is_core)), Ok(()))
                },
            }
        },
    }
}

/// Check the methods of one class, in declaration order. `init` stands
/// beside the ordinary methods.
pub fn check_class_methods(
    cx: &Ctx,
    st: Output,
    class: u32,
    methods: &Chain<MethodDef>,
    at: u32,
    is_core: bool,
) -> (r: (Output, Result<(), Stop>))
    ensures
        r == model::bodies::check_class_methods(cx, st, class, methods, at, is_core),
        made_ok(cx, st.made) ==> made_ok(cx, r.0.made),
    decreases methods,
{
    match methods {
        Chain::Nil => (st, Ok(())),
        Chain::Cons(head, tail) => {
            if is_text(&head.name, "init") {
                match &class_at(cx, class).init {
                    None => check_class_methods(cx, st, class, tail, at, is_core),
                    Some(sig) => {
                        let (st, out) = check_method(cx, st, class, sig, head, is_core);
                        let _checked = match out {
                            Ok(found) => found,
                            Err(stop) => {
                                return (st, Err(stop));
                            },
                        };
                        check_class_methods(cx, st, class, tail, at, is_core)
                    },
                }
            } else {
                match nth(&class_at(cx, class).methods, at) {
                    None => check_class_methods(cx, st, class, tail, at, is_core),
                    Some(sig) => {
                        let (st, out) = check_method(cx, st, class, sig, head, is_core);
                        let _checked = match out {
                            Ok(found) => found,
                            Err(stop) => {
                                return (st, Err(stop));
                            },
                        };
                        check_class_methods(cx, st, class, tail, at.wrapping_add(1), is_core)
                    },
                }
            }
        },
    }
}

/// Check the methods of one enum, in declaration order.
pub fn check_enum_methods(
    cx: &Ctx,
    st: Output,
    class: u32,
    methods: &Chain<MethodDef>,
    at: u32,
    is_core: bool,
) -> (r: (Output, Result<(), Stop>))
    ensures
        r == model::bodies::check_enum_methods(cx, st, class, methods, at, is_core),
        made_ok(cx, st.made) ==> made_ok(cx, r.0.made),
    decreases methods,
{
    match methods {
        Chain::Nil => (st, Ok(())),
        Chain::Cons(head, tail) => {
            match nth(&class_at(cx, class).methods, at) {
                None => (st, Ok(())),
                Some(sig) => {
                    let (st, out) = check_method(cx, st, class, sig, head, is_core);
                    let _checked = match out {
                        Ok(found) => found,
                        Err(stop) => {
                            return (st, Err(stop));
                        },
                    };
                    check_enum_methods(cx, st, class, tail, at.wrapping_add(1), is_core)
                },
            }
        },
    }
}

/// Check the methods of each class.
pub fn check_methods_of_classes(cx: &Ctx, st: Output, classes: &Chain<ClassDef>, is_core: bool) -> (r: (Output, Result<(), Stop>))
    ensures
        r == model::bodies::check_methods_of_classes(cx, st, classes, is_core),
        made_ok(cx, st.made) ==> made_ok(cx, r.0.made),
    decreases classes,
{
    match classes {
        Chain::Nil => (st, Ok(())),
        Chain::Cons(head, tail) => {
            let (st, out) = check_class_methods(cx, st, declared_class(cx, &head.name, is_core), &head.methods, 0u32, is_core);
            let _checked = match out {
                Ok(found) => found,
                Err(stop) => {
                    return (st, Err(stop));
                },
            };
            check_methods_of_classes(cx, st, tail, is_core)
        },
    }
}

/// Check the methods of each enum.
pub fn check_methods_of_enums(cx: &Ctx, st: Output, enums: &Chain<EnumDef>, is_core: bool) -> (r: (Output, Result<(), Stop>))
    ensures
        r == model::bodies::check_methods_of_enums(cx, st, enums, is_core),
        made_ok(cx, st.made) ==> made_ok(cx, r.0.made),
    decreases enums,
{
    match enums {
        Chain::Nil => (st, Ok(())),
        Chain::Cons(head, tail) => {
            let (st, out) = check_enum_methods(cx, st, declared_class(cx, &head.name, is_core), &head.methods, 0u32, is_core);
            let _checked = match out {
                Ok(found) => found,
                Err(stop) => {
                    return (st, Err(stop));
                },
            };
            check_methods_of_enums(cx, st, tail, is_core)
        },
    }
}

/// Check every method body of one source module.
pub fn check_all_methods(cx: &Ctx, st: Output, module: &Module, is_core: bool) -> (r: (Output, Result<(), Stop>))
    ensures
        r == model::bodies::check_all_methods(cx, st, module, is_core),
        made_ok(cx, st.made) ==> made_ok(cx, r.0.made),
{
    let (st, out) = check_methods_of_classes(cx, st, &module.classes, is_core);
    let _classes = match out {
        Ok(found) => found,
        Err(stop) => {
            return (st, Err(stop));
        },
    };
    check_methods_of_enums(cx, st, &module.enums, is_core)
}

/// The name of an interface default.
pub fn default_name(requirement: &InterfaceMethodSig) -> (r: Text)
    ensures
        r == model::bodies::default_name(requirement),
{
    match &requirement.default_binding {
        Some(name) => copy_chain(&*name),
        None => Chain::Nil,
    }
}

/// Check one interface default as an interface-owned function.
pub fn check_interface_default(
    cx: &Ctx,
    st: Output,
    interface: u32,
    requirement: &InterfaceMethodSig,
    func: u32,
    stmts: &Chain<Stmt>,
    span: Span,
    is_core: bool,
) -> (r: (Output, Result<(), Stop>))
    ensures
        r == model::bodies::check_interface_default(cx, st, interface, requirement, func, stmts, span, is_core),
        made_ok(cx, st.made) ==> made_ok(cx, r.0.made),
{
    proof {
        reveal_with_fuel(scopes_ok, 2);
    }
    let sig = (*sig_at(cx, func)).clone();
    let env = TyEnv { extra_bounds: clone_type_premises(&requirement.premises), self_interface: Some(interface), self_ty: Some(Ty::Var(0)), ..signature_scope(&sig, is_core) };
    let checker = top_level(RetKind::Known(sig.ret.clone()), env, copy_chain(&sig.row), st);
    match check_signature(cx, checker, true, &sig, &same_span(&sig.param_names, span), stmts, span) {
        (done, Err(stop)) => (done.out, Err(stop)),
        (done, Ok(body)) => (record_func(done.out, func, finished_func(sig, default_name(requirement), body, span, is_core)), Ok(())),
    }
}

/// Check the defaults of one interface.
pub fn check_defaults_of(
    cx: &Ctx,
    st: Output,
    interface: u32,
    methods: &Chain<InterfaceMethod>,
    at: u32,
    is_core: bool,
) -> (r: (Output, Result<(), Stop>))
    ensures
        r == model::bodies::check_defaults_of(cx, st, interface, methods, at, is_core),
        made_ok(cx, st.made) ==> made_ok(cx, r.0.made),
    decreases methods,
{
    match methods {
        Chain::Nil => (st, Ok(())),
        Chain::Cons(head, tail) => {
            match (&head.body, nth(&interface_at(cx, interface).methods, at)) {
                (Some(stmts), Some(requirement)) => {
                    match requirement.default_func {
                        None => check_defaults_of(cx, st, interface, tail, at.wrapping_add(1), is_core),
                        Some(func) => {
                            let (st, out) = check_interface_default(cx, st, interface, requirement, func, stmts, head.span, is_core);
                            let _checked = match out {
                                Ok(found) => found,
                                Err(stop) => {
                                    return (st, Err(stop));
                                },
                            };
                            check_defaults_of(cx, st, interface, tail, at.wrapping_add(1), is_core)
                        },
                    }
                },
                _ => check_defaults_of(cx, st, interface, tail, at.wrapping_add(1), is_core),
            }
        },
    }
}

/// Check each interface default of one source module.
pub fn check_interface_defaults(cx: &Ctx, st: Output, interfaces: &Chain<InterfaceDef>, is_core: bool) -> (r: (Output, Result<(), Stop>))
    ensures
        r == model::bodies::check_interface_defaults(cx, st, interfaces, is_core),
        made_ok(cx, st.made) ==> made_ok(cx, r.0.made),
    decreases interfaces,
{
    match interfaces {
        Chain::Nil => (st, Ok(())),
        Chain::Cons(head, tail) => {
            let (st, out) = check_defaults_of(cx, st, declared_interface(cx, &head.name, is_core), &head.methods, 0u32, is_core);
            let _checked = match out {
                Ok(found) => found,
                Err(stop) => {
                    return (st, Err(stop));
                },
            };
            check_interface_defaults(cx, st, tail, is_core)
        },
    }
}

/// A field without a default.
pub fn no_default() -> (r: FieldDefault)
    ensures
        r == model::bodies::no_default(),
{
    FieldDefault { value: None, locals: Chain::Nil }
}

/// One field without a default for each declared field of an arm.
pub fn arm_defaults(fields: &Chain<ArmField>) -> (r: Chain<FieldDefault>)
    ensures
        r == model::bodies::arm_defaults(fields),
    decreases fields,
{
    match fields {
        Chain::Nil => Chain::Nil,
        Chain::Cons(_, tail) => cons(no_default(), arm_defaults(tail)),
    }
}

/// The scope of a field default.
pub fn default_scope(info: &ClassInfo, is_core: bool) -> (r: TyEnv)
    ensures
        r == model::bodies::default_scope(info, is_core),
{
    TyEnv {
        type_names: clone_texts(&info.type_params),
        type_bounds: clone_interface_use_lists(&info.type_bounds),
        extra_bounds: Chain::Nil,
        effect_names: Chain::Nil,
        type_offset: 0,
        self_interface: None,
        self_ty: Some(info.self_ty.clone()),
        core_scope: is_core,
    }
}

/// Check one field default against the type of its field.
pub fn check_default(
    cx: &Ctx,
    st: Output,
    class: u32,
    field: u32,
    value: &Option<Expr>,
    is_core: bool,
) -> (r: (Output, Result<FieldDefault, Stop>))
    ensures
        r == model::bodies::check_default(cx, st, class, field, value, is_core),
        made_ok(cx, st.made) ==> made_ok(cx, r.0.made),
        made_ok(cx, st.made) ==> (r.1 matches Ok(found) ==> default_ok(cx, found)),
{
    proof {
        reveal(ready);
        reveal(room);
        reveal(widens);
        reveal_with_fuel(scopes_ok, 2);
    }
    match value {
        None => (st, Ok(no_default())),
        Some(expr) => {
            let checker = top_level(RetKind::Entry, default_scope(class_at(cx, class), is_core), Chain::Nil, st);
            match check_expr(cx, checker, expr, &field_ty_at(cx, class, field)) {
                (done, Err(stop)) => (done.out, Err(stop)),
                (done, Ok(found)) => {
                    let locals = local_types(&done.locals);
                    (done.out, Ok(FieldDefault { value: Some(found), locals: locals }))
                },
            }
        },
    }
}

/// Check the field defaults of one class.
pub fn check_field_defaults(
    cx: &Ctx,
    st: Output,
    class: u32,
    fields: &Chain<FieldDef>,
    at: u32,
    is_core: bool,
) -> (r: (Output, Result<Chain<FieldDefault>, Stop>))
    ensures
        r == model::bodies::check_field_defaults(cx, st, class, fields, at, is_core),
        made_ok(cx, st.made) ==> made_ok(cx, r.0.made),
    decreases fields,
{
    match fields {
        Chain::Nil => (st, Ok(Chain::Nil)),
        Chain::Cons(head, tail) => {
            let (st, out) = check_default(cx, st, class, at, &head.default, is_core);
            let first = match out {
                Ok(found) => found,
                Err(stop) => {
                    return (st, Err(stop));
                },
            };
            let (st, out) = check_field_defaults(cx, st, class, tail, at.wrapping_add(1), is_core);
            let rest = match out {
                Ok(found) => found,
                Err(stop) => {
                    return (st, Err(stop));
                },
            };
            (st, Ok(cons(first, rest)))
        },
    }
}

/// Check the field defaults of each class into the table.
pub fn check_class_defaults(
    cx: &Ctx,
    st: Output,
    classes: &Chain<ClassDef>,
    is_core: bool,
    table: Chain<Chain<FieldDefault>>,
) -> (r: (Output, Result<Chain<Chain<FieldDefault>>, Stop>))
    ensures
        r == model::bodies::check_class_defaults(cx, st, classes, is_core, table),
        made_ok(cx, st.made) ==> made_ok(cx, r.0.made),
    decreases classes,
{
    match classes {
        Chain::Nil => (st, Ok(table)),
        Chain::Cons(head, tail) => {
            let class = declared_class(cx, &head.name, is_core);
            let (st, out) = check_field_defaults(cx, st, class, &head.fields, class_at(cx, class).own_start, is_core);
            let found = match out {
                Ok(found) => found,
                Err(stop) => {
                    return (st, Err(stop));
                },
            };
            check_class_defaults(cx, st, tail, is_core, set_nth(table, class, found))
        },
    }
}

/// The defaults of enum arms: each field of an arm is required.
pub fn set_arm_defaults(arms: &Chain<ArmDef>, class: u32, table: Chain<Chain<FieldDefault>>) -> (r: Chain<Chain<FieldDefault>>)
    ensures
        r == model::bodies::set_arm_defaults(arms, class, table),
    decreases arms,
{
    match arms {
        Chain::Nil => table,
        Chain::Cons(head, tail) => set_arm_defaults(tail, class.wrapping_add(1), set_nth(table, class, arm_defaults(&head.fields))),
    }
}

/// Enter the arms of each enum into the default table.
pub fn set_enum_defaults(
    cx: &Ctx,
    enums: &Chain<EnumDef>,
    is_core: bool,
    table: Chain<Chain<FieldDefault>>,
) -> (r: Chain<Chain<FieldDefault>>)
    ensures
        r == model::bodies::set_enum_defaults(cx, enums, is_core, table),
    decreases enums,
{
    match enums {
        Chain::Nil => table,
        Chain::Cons(head, tail) => {
            let class = declared_class(cx, &head.name, is_core);
            set_enum_defaults(cx, tail, is_core, set_arm_defaults(&head.arms, class.wrapping_add(1), table))
        },
    }
}

/// Check the field default expressions of one source module.
pub fn check_defaults(
    cx: &Ctx,
    st: Output,
    module: &Module,
    is_core: bool,
    table: Chain<Chain<FieldDefault>>,
) -> (r: (Output, Result<Chain<Chain<FieldDefault>>, Stop>))
    ensures
        r == model::bodies::check_defaults(cx, st, module, is_core, table),
        made_ok(cx, st.made) ==> made_ok(cx, r.0.made),
{
    let (st, out) = check_class_defaults(cx, st, &module.classes, is_core, table);
    let found = match out {
        Ok(found) => found,
        Err(stop) => {
            return (st, Err(stop));
        },
    };
    (st, Ok(set_enum_defaults(cx, &module.enums, is_core, found)))
}

/// The type that an entry gives: one that never completes gives the unit
/// value.
pub fn entry_type(ty: Ty) -> (r: Ty)
    ensures
        r == model::bodies::entry_type(ty),
{
    if same_ty(&ty, &Ty::Never) {
        Ty::Unit
    } else {
        ty
    }
}

/// The place of the first entry statement.
pub fn first_span(stmts: &Chain<Stmt>) -> (r: Option<Span>)
    ensures
        r == model::bodies::first_span(stmts),
{
    match stmts {
        Chain::Nil => None,
        Chain::Cons(head, _) => Some(head.span),
    }
}

/// The place of the entry statements.
pub fn entry_span(stmts: &Chain<Stmt>) -> (r: Option<Span>)
    ensures
        r == model::bodies::entry_span(stmts),
{
    match first_span(stmts) {
        None => None,
        Some(first) => Some(joined(first, last_span(stmts, first))),
    }
}

/// Check the entry statements and record the entry function.
pub fn check_entry_func(cx: &Ctx, st: Output, stmts: &Chain<Stmt>, index: u32) -> (r: (Output, Result<(), Stop>))
    ensures
        r == model::bodies::check_entry_func(cx, st, stmts, index),
        made_ok(cx, st.made) ==> made_ok(cx, r.0.made),
{
    proof {
        reveal(ready);
        reveal(room);
        reveal(widens);
        reveal_with_fuel(scopes_ok, 2);
    }
    match check_entry(cx, entry_collect(empty_env(), st), stmts, last_span(stmts, nowhere())) {
        (done, Err(stop)) => (done.out, Err(stop)),
        (done, Ok(body)) => {
            let func = HirFunc {
                imported: false,
                core: false,
                source_span: entry_span(stmts),
                name: text("<entry>"),
                type_params: 0,
                type_bounds: Chain::Nil,
                effect_params: 0,
                params: Chain::Nil,
                param_muts: Chain::Nil,
                param_names: Chain::Nil,
                ret: entry_type(body.ty),
                row: done.declared_row,
                captures: Chain::Nil,
                locals: body.locals,
                body: body.body,
            };
            (record_func(done.out, index, func), Ok(()))
        },
    }
}

} // verus!
