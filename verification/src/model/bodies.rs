//! Callable bodies: functions, methods, interface defaults and field
//! defaults.
//!
//! The functions here state what the functions of the same name compute.

use vstd::prelude::*;
use crate::ast::{ArmDef, ArmField, ClassDef, EnumDef, Expr, FieldDef, FuncDef, InterfaceDef, InterfaceMethod, MethodDef, Module, Param, Span, Stmt, joined, nowhere};
use crate::chain::{Chain, chain_of};
use crate::context::{ClassInfo, Ctx, FnSig, InterfaceMethodSig, MethodSig, TyEnv};
use crate::hir::HirFunc;
use crate::model::blocks::check_block;
use crate::model::branches::last_span;
use crate::model::classes::source_span;
use crate::model::conform::empty_env;
use crate::model::endings::body_diverges;
use crate::model::exprs::{body_mode, check_expr, field_ty_at, local_types};
use crate::model::fulfil::{declared_class, declared_interface};
use crate::model::lists::{append, concat, cons, count, nth, one, set_nth};
use crate::model::lookup::{class_at, interface_at, sig_at};
use crate::model::names::dotted;
use crate::model::resolve::{named, unnamed};
use crate::model::scope::{bind_name, hidden_local, lookup_slot, require_complete};
use crate::problem::{Problem, Stop};
use crate::program::FieldDefault;
use crate::state::{BlockMode, CheckedBody, Checker, CtorCtx, CtorState, MadeFunc, Output, RetKind};
use crate::text::Text;
use crate::types::{Row, Ty};

verus! {

/// A checker for one callable.
pub open spec fn top_level(ret: RetKind, env: TyEnv, row: Row, out: Output) -> Checker
{
    Checker {
        outer: None,
        locals: Chain::Nil,
        scopes: one(Chain::Nil),
        captures: Chain::Nil,
        is_closure: false,
        loops: Chain::Nil,
        saw_return: false,
        ret: ret,
        self_class: None,
        ctor: None,
        env: env,
        declared_row: row,
        collect_row: false,
        binds: Chain::Nil,
        out: out,
    }
}

/// A checker for the entry statements. It collects the row instead of
/// comparing it.
pub open spec fn entry_collect(env: TyEnv, out: Output) -> Checker
{
    Checker { collect_row: true, ..top_level(RetKind::Entry, env, Chain::Nil, out) }
}

/// Check a full callable body and package the result. A body that never
/// completes and holds no `return` gives no value of its declared type.
pub open spec fn check_callable(cx: &Ctx, st: Checker, stmts: &Chain<Stmt>, ret: &Ty, span: Span) -> (Checker, Result<CheckedBody, Stop>)
{
    match check_block(cx, st, stmts, &body_mode(ret), span) {
        (st, Err(stop)) => (st, Err(stop)),
        (st, Ok(block)) => {
            let ends = body_diverges(&block.body);
            if ends && !st.saw_return && !(*ret == Ty::Unit) && !(*ret == Ty::Never) {
                (st, Err(unnamed(Problem::NeverReturns { declared: *ret }, span)))
            } else {
                let locals = local_types(&st.locals);
                (st, Ok(CheckedBody { body: block.body, locals: locals, diverges: ends, ty: *ret }))
            }
        },
    }
}

/// Check the module entry and synthesize its type.
pub open spec fn check_entry(cx: &Ctx, st: Checker, stmts: &Chain<Stmt>, span: Span) -> (Checker, Result<CheckedBody, Stop>)
{
    match check_block(cx, st, stmts, &BlockMode::Synth, span) {
        (st, Err(stop)) => (st, Err(stop)),
        (st, Ok(block)) => {
            let locals = local_types(&st.locals);
            let ends = body_diverges(&block.body);
            (st, Ok(CheckedBody { body: block.body, locals: locals, diverges: ends, ty: block.ty }))
        },
    }
}

/// Bind the parameters of a callable to its first slots. With `unique`, a
/// repeated name is a problem.
pub open spec fn bind_parameters(
    st: Checker,
    unique: bool,
    names: &Chain<Text>,
    tys: &Chain<Ty>,
    muts: &Chain<bool>,
    spans: &Chain<Span>,
) -> (Checker, Result<(), Stop>)
    decreases names,
{
    match (names, tys, muts, spans) {
        (Chain::Cons(name, names_rest), Chain::Cons(ty, tys_rest), Chain::Cons(mutable, muts_rest), Chain::Cons(span, spans_rest)) => {
            if unique && lookup_slot(&st, name).is_some() {
                (st, Err(named(Problem::DuplicateParameter, name, **span)))
            } else {
                let (st, slot) = hidden_local(st, **ty, **mutable);
                bind_parameters(bind_name(st, name, slot), unique, names_rest, tys_rest, muts_rest, spans_rest)
            }
        },
        _ => (st, Ok(())),
    }
}

/// The places of parameters.
pub open spec fn param_spans(params: &Chain<Param>) -> Chain<Span>
    decreases params,
{
    match params {
        Chain::Nil => Chain::Nil,
        Chain::Cons(head, tail) => cons(head.span, param_spans(tail)),
    }
}

/// One place for each name.
pub open spec fn same_span(names: &Chain<Text>, span: Span) -> Chain<Span>
    decreases names,
{
    match names {
        Chain::Nil => Chain::Nil,
        Chain::Cons(_, tail) => cons(span, same_span(tail, span)),
    }
}

/// The scope of a signature.
pub open spec fn signature_scope(sig: &FnSig, is_core: bool) -> TyEnv
{
    TyEnv {
        type_names: sig.type_params,
        type_bounds: sig.type_bounds,
        extra_bounds: Chain::Nil,
        effect_names: sig.effect_params,
        type_offset: 0,
        self_interface: None,
        self_ty: None,
        core_scope: is_core,
    }
}

/// The function that a signature and a checked body make.
pub open spec fn finished_func(sig: FnSig, name: Text, body: CheckedBody, span: Span, is_core: bool) -> HirFunc
{
    HirFunc {
        imported: false,
        core: is_core,
        source_span: source_span(span, is_core),
        name: name,
        type_params: count(&sig.type_params),
        type_bounds: sig.type_bounds,
        effect_params: count(&sig.effect_params),
        params: sig.params,
        param_muts: sig.param_muts,
        param_names: sig.param_names,
        ret: sig.ret,
        row: sig.row,
        captures: Chain::Nil,
        locals: body.locals,
        body: body.body,
    }
}

/// Check the parameters and the body of one callable.
pub open spec fn check_signature(
    cx: &Ctx,
    st: Checker,
    unique: bool,
    sig: &FnSig,
    spans: &Chain<Span>,
    stmts: &Chain<Stmt>,
    span: Span,
) -> (Checker, Result<CheckedBody, Stop>)
{
    match bind_parameters(st, unique, &sig.param_names, &sig.params, &sig.param_muts, spans) {
        (st, Err(stop)) => (st, Err(stop)),
        (st, Ok(_bound)) => {
            check_callable(cx, st, stmts, &sig.ret, span)
        },
    }
}

/// Record a checked function at its reserved index.
pub open spec fn record_func(out: Output, index: u32, func: HirFunc) -> Output
{
    Output { next_func: out.next_func, made: append(out.made, MadeFunc { index: index, func: func }) }
}

/// Check one top-level function.
pub open spec fn check_function(cx: &Ctx, st: Output, func: &FuncDef, index: u32, is_core: bool) -> (Output, Result<(), Stop>)
{
    let sig = *sig_at(cx, index);
    let checker = top_level(RetKind::Known(sig.ret), signature_scope(&sig, is_core), sig.row, st);
    match check_signature(cx, checker, true, &sig, &param_spans(&func.params), &func.body, func.span) {
        (done, Err(stop)) => (done.out, Err(stop)),
        (done, Ok(body)) => (record_func(done.out, index, finished_func(sig, func.name, body, func.span, is_core)), Ok(())),
    }
}

/// Check the top-level functions of one source module.
pub open spec fn check_functions(cx: &Ctx, st: Output, funcs: &Chain<FuncDef>, at: u32, is_core: bool) -> (Output, Result<(), Stop>)
    decreases funcs,
{
    match funcs {
        Chain::Nil => (st, Ok(())),
        Chain::Cons(head, tail) => {
            match check_function(cx, st, head, at, is_core) {
                (st, Err(stop)) => (st, Err(stop)),
                (st, Ok(_checked)) => {
                    check_functions(cx, st, tail, at.wrapping_add(1), is_core)
                },
            }
        },
    }
}

/// The signature of a method with `self` as its first parameter and the
/// class parameters before its own.
pub open spec fn full_signature(info: &ClassInfo, sig: &MethodSig, is_init: bool) -> FnSig
{
    FnSig {
        type_params: concat(info.type_params, sig.own_type_params),
        type_bounds: concat(sig.class_type_bounds, sig.own_type_bounds),
        effect_params: sig.own_effect_params,
        params: cons(info.self_ty, sig.params),
        param_muts: cons(is_init || sig.mut_self, sig.param_muts),
        param_names: cons(chain_of("self"@), sig.param_names),
        ret: sig.ret,
        row: sig.row,
    }
}

/// Whether the parent of a class has an initializer.
pub open spec fn needs_super(cx: &Ctx, info: &ClassInfo) -> bool
{
    match info.parent {
        Some(parent) => class_at(cx, parent).init.is_some(),
        None => false,
    }
}

/// What an initializer starts from: fields with a default hold a value.
pub open spec fn ctor_start(cx: &Ctx, class: u32, info: &ClassInfo, is_init: bool) -> Option<CtorCtx>
{
    if is_init {
        Some(CtorCtx { class: class, needs_super: needs_super(cx, info), state: CtorState { inited: info.has_default, super_done: false } })
    } else {
        None
    }
}

/// Require an initializer to be complete on its normal exit.
pub open spec fn check_exit(cx: &Ctx, ctor: &Option<CtorCtx>, ends: bool, span: Span) -> Result<(), Stop>
{
    match ctor {
        Some(c) => {
            if ends {
                Ok(())
            } else {
                require_complete(cx, c.class, c, span)
            }
        },
        None => Ok(()),
    }
}

/// Check one method body, with constructor tracking for `init`.
pub open spec fn check_method(
    cx: &Ctx,
    st: Output,
    class: u32,
    sig: &MethodSig,
    method: &MethodDef,
    is_core: bool,
) -> (Output, Result<(), Stop>)
{
    let info = class_at(cx, class);
    let is_init = (method.name@ == "init"@);
    let full = full_signature(info, sig, is_init);
    let env = TyEnv { self_ty: Some(info.self_ty), ..signature_scope(&full, is_core) };
    let plain_checker = top_level(RetKind::Known(full.ret), env, full.row, st);
    let checker = Checker { self_class: Some(class), ctor: ctor_start(cx, class, info, is_init), ..plain_checker };
    match check_signature(cx, checker, false, &full, &same_span(&full.param_names, method.span), &method.body, method.span) {
        (done, Err(stop)) => (done.out, Err(stop)),
        (done, Ok(body)) => {
            match check_exit(cx, &done.ctor, body.diverges, method.span) {
                Err(stop) => (done.out, Err(stop)),
                Ok(_) => {
                    let name = dotted(&info.name, &method.name);
                    (record_func(done.out, sig.func, finished_func(full, name, body, method.span, is_core)), Ok(()))
                },
            }
        },
    }
}

/// Check the methods of one class, in declaration order. `init` stands
/// beside the ordinary methods.
pub open spec fn check_class_methods(
    cx: &Ctx,
    st: Output,
    class: u32,
    methods: &Chain<MethodDef>,
    at: u32,
    is_core: bool,
) -> (Output, Result<(), Stop>)
    decreases methods,
{
    match methods {
        Chain::Nil => (st, Ok(())),
        Chain::Cons(head, tail) => {
            if (head.name@ == "init"@) {
                match &class_at(cx, class).init {
                    None => check_class_methods(cx, st, class, tail, at, is_core),
                    Some(sig) => {
                        match check_method(cx, st, class, sig, head, is_core) {
                            (st, Err(stop)) => (st, Err(stop)),
                            (st, Ok(_checked)) => {
                                check_class_methods(cx, st, class, tail, at, is_core)
                            },
                        }
                    },
                }
            } else {
                match nth(&class_at(cx, class).methods, at) {
                    None => check_class_methods(cx, st, class, tail, at, is_core),
                    Some(sig) => {
                        match check_method(cx, st, class, sig, head, is_core) {
                            (st, Err(stop)) => (st, Err(stop)),
                            (st, Ok(_checked)) => {
                                check_class_methods(cx, st, class, tail, at.wrapping_add(1), is_core)
                            },
                        }
                    },
                }
            }
        },
    }
}

/// Check the methods of one enum, in declaration order.
pub open spec fn check_enum_methods(
    cx: &Ctx,
    st: Output,
    class: u32,
    methods: &Chain<MethodDef>,
    at: u32,
    is_core: bool,
) -> (Output, Result<(), Stop>)
    decreases methods,
{
    match methods {
        Chain::Nil => (st, Ok(())),
        Chain::Cons(head, tail) => {
            match nth(&class_at(cx, class).methods, at) {
                None => (st, Ok(())),
                Some(sig) => {
                    match check_method(cx, st, class, sig, head, is_core) {
                        (st, Err(stop)) => (st, Err(stop)),
                        (st, Ok(_checked)) => {
                            check_enum_methods(cx, st, class, tail, at.wrapping_add(1), is_core)
                        },
                    }
                },
            }
        },
    }
}

/// Check the methods of each class.
pub open spec fn check_methods_of_classes(cx: &Ctx, st: Output, classes: &Chain<ClassDef>, is_core: bool) -> (Output, Result<(), Stop>)
    decreases classes,
{
    match classes {
        Chain::Nil => (st, Ok(())),
        Chain::Cons(head, tail) => {
            match check_class_methods(cx, st, declared_class(cx, &head.name, is_core), &head.methods, 0u32, is_core) {
                (st, Err(stop)) => (st, Err(stop)),
                (st, Ok(_checked)) => {
                    check_methods_of_classes(cx, st, tail, is_core)
                },
            }
        },
    }
}

/// Check the methods of each enum.
pub open spec fn check_methods_of_enums(cx: &Ctx, st: Output, enums: &Chain<EnumDef>, is_core: bool) -> (Output, Result<(), Stop>)
    decreases enums,
{
    match enums {
        Chain::Nil => (st, Ok(())),
        Chain::Cons(head, tail) => {
            match check_enum_methods(cx, st, declared_class(cx, &head.name, is_core), &head.methods, 0u32, is_core) {
                (st, Err(stop)) => (st, Err(stop)),
                (st, Ok(_checked)) => {
                    check_methods_of_enums(cx, st, tail, is_core)
                },
            }
        },
    }
}

/// Check every method body of one source module.
pub open spec fn check_all_methods(cx: &Ctx, st: Output, module: &Module, is_core: bool) -> (Output, Result<(), Stop>)
{
    match check_methods_of_classes(cx, st, &module.classes, is_core) {
        (st, Err(stop)) => (st, Err(stop)),
        (st, Ok(_classes)) => {
            check_methods_of_enums(cx, st, &module.enums, is_core)
        },
    }
}

/// The name of an interface default.
pub open spec fn default_name(requirement: &InterfaceMethodSig) -> Text
{
    match &requirement.default_binding {
        Some(name) => *name,
        None => Chain::Nil,
    }
}

/// Check one interface default as an interface-owned function.
pub open spec fn check_interface_default(
    cx: &Ctx,
    st: Output,
    interface: u32,
    requirement: &InterfaceMethodSig,
    func: u32,
    stmts: &Chain<Stmt>,
    span: Span,
    is_core: bool,
) -> (Output, Result<(), Stop>)
{
    let sig = *sig_at(cx, func);
    let env = TyEnv { extra_bounds: requirement.premises, self_interface: Some(interface), self_ty: Some(Ty::Var(0)), ..signature_scope(&sig, is_core) };
    let checker = top_level(RetKind::Known(sig.ret), env, sig.row, st);
    match check_signature(cx, checker, true, &sig, &same_span(&sig.param_names, span), stmts, span) {
        (done, Err(stop)) => (done.out, Err(stop)),
        (done, Ok(body)) => (record_func(done.out, func, finished_func(sig, default_name(requirement), body, span, is_core)), Ok(())),
    }
}

/// Check the defaults of one interface.
pub open spec fn check_defaults_of(
    cx: &Ctx,
    st: Output,
    interface: u32,
    methods: &Chain<InterfaceMethod>,
    at: u32,
    is_core: bool,
) -> (Output, Result<(), Stop>)
    decreases methods,
{
    match methods {
        Chain::Nil => (st, Ok(())),
        Chain::Cons(head, tail) => {
            match (&head.body, nth(&interface_at(cx, interface).methods, at)) {
                (Some(stmts), Some(requirement)) => {
                    match requirement.default_func {
                        None => check_defaults_of(cx, st, interface, tail, at.wrapping_add(1), is_core),
                        Some(func) => {
                            match check_interface_default(cx, st, interface, requirement, func, stmts, head.span, is_core) {
                                (st, Err(stop)) => (st, Err(stop)),
                                (st, Ok(_checked)) => {
                                    check_defaults_of(cx, st, interface, tail, at.wrapping_add(1), is_core)
                                },
                            }
                        },
                    }
                },
                _ => check_defaults_of(cx, st, interface, tail, at.wrapping_add(1), is_core),
            }
        },
    }
}

/// Check each interface default of one source module.
pub open spec fn check_interface_defaults(cx: &Ctx, st: Output, interfaces: &Chain<InterfaceDef>, is_core: bool) -> (Output, Result<(), Stop>)
    decreases interfaces,
{
    match interfaces {
        Chain::Nil => (st, Ok(())),
        Chain::Cons(head, tail) => {
            match check_defaults_of(cx, st, declared_interface(cx, &head.name, is_core), &head.methods, 0u32, is_core) {
                (st, Err(stop)) => (st, Err(stop)),
                (st, Ok(_checked)) => {
                    check_interface_defaults(cx, st, tail, is_core)
                },
            }
        },
    }
}

/// A field without a default.
pub open spec fn no_default() -> FieldDefault
{
    FieldDefault { value: None, locals: Chain::Nil }
}

/// One field without a default for each declared field of an arm.
pub open spec fn arm_defaults(fields: &Chain<ArmField>) -> Chain<FieldDefault>
    decreases fields,
{
    match fields {
        Chain::Nil => Chain::Nil,
        Chain::Cons(_, tail) => cons(no_default(), arm_defaults(tail)),
    }
}

/// The scope of a field default.
pub open spec fn default_scope(info: &ClassInfo, is_core: bool) -> TyEnv
{
    TyEnv {
        type_names: info.type_params,
        type_bounds: info.type_bounds,
        extra_bounds: Chain::Nil,
        effect_names: Chain::Nil,
        type_offset: 0,
        self_interface: None,
        self_ty: Some(info.self_ty),
        core_scope: is_core,
    }
}

/// Check one field default against the type of its field.
pub open spec fn check_default(
    cx: &Ctx,
    st: Output,
    class: u32,
    field: u32,
    value: &Option<Expr>,
    is_core: bool,
) -> (Output, Result<FieldDefault, Stop>)
{
    match value {
        None => (st, Ok(no_default())),
        Some(expr) => {
            let checker = top_level(RetKind::Entry, default_scope(class_at(cx, class), is_core), Chain::Nil, st);
            match check_expr(cx, checker, expr, &field_ty_at(cx, class, field)) {
                (done, Err(stop)) => (done.out, Err(stop)),
                (done, Ok(found)) => {
                    let locals = local_types(&done.locals);
                    (done.out, Ok(FieldDefault { value: Some(found), locals: locals }))
                },
            }
        },
    }
}

/// Check the field defaults of one class.
pub open spec fn check_field_defaults(
    cx: &Ctx,
    st: Output,
    class: u32,
    fields: &Chain<FieldDef>,
    at: u32,
    is_core: bool,
) -> (Output, Result<Chain<FieldDefault>, Stop>)
    decreases fields,
{
    match fields {
        Chain::Nil => (st, Ok(Chain::Nil)),
        Chain::Cons(head, tail) => {
            match check_default(cx, st, class, at, &head.default, is_core) {
                (st, Err(stop)) => (st, Err(stop)),
                (st, Ok(first)) => {
                    match check_field_defaults(cx, st, class, tail, at.wrapping_add(1), is_core) {
                        (st, Err(stop)) => (st, Err(stop)),
                        (st, Ok(rest)) => {
                            (st, Ok(cons(first, rest)))
                        },
                    }
                },
            }
        },
    }
}

/// Check the field defaults of each class into the table.
pub open spec fn check_class_defaults(
    cx: &Ctx,
    st: Output,
    classes: &Chain<ClassDef>,
    is_core: bool,
    table: Chain<Chain<FieldDefault>>,
) -> (Output, Result<Chain<Chain<FieldDefault>>, Stop>)
    decreases classes,
{
    match classes {
        Chain::Nil => (st, Ok(table)),
        Chain::Cons(head, tail) => {
            let class = declared_class(cx, &head.name, is_core);
            match check_field_defaults(cx, st, class, &head.fields, class_at(cx, class).own_start, is_core) {
                (st, Err(stop)) => (st, Err(stop)),
                (st, Ok(found)) => {
                    check_class_defaults(cx, st, tail, is_core, set_nth(table, class, found))
                },
            }
        },
    }
}

/// The defaults of enum arms: each field of an arm is required.
pub open spec fn set_arm_defaults(arms: &Chain<ArmDef>, class: u32, table: Chain<Chain<FieldDefault>>) -> Chain<Chain<FieldDefault>>
    decreases arms,
{
    match arms {
        Chain::Nil => table,
        Chain::Cons(head, tail) => set_arm_defaults(tail, class.wrapping_add(1), set_nth(table, class, arm_defaults(&head.fields))),
    }
}

/// Enter the arms of each enum into the default table.
pub open spec fn set_enum_defaults(
    cx: &Ctx,
    enums: &Chain<EnumDef>,
    is_core: bool,
    table: Chain<Chain<FieldDefault>>,
) -> Chain<Chain<FieldDefault>>
    decreases enums,
{
    match enums {
        Chain::Nil => table,
        Chain::Cons(head, tail) => {
            let class = declared_class(cx, &head.name, is_core);
            set_enum_defaults(cx, tail, is_core, set_arm_defaults(&head.arms, class.wrapping_add(1), table))
        },
    }
}

/// Check the field default expressions of one source module.
pub open spec fn check_defaults(
    cx: &Ctx,
    st: Output,
    module: &Module,
    is_core: bool,
    table: Chain<Chain<FieldDefault>>,
) -> (Output, Result<Chain<Chain<FieldDefault>>, Stop>)
{
    match check_class_defaults(cx, st, &module.classes, is_core, table) {
        (st, Err(stop)) => (st, Err(stop)),
        (st, Ok(found)) => {
            (st, Ok(set_enum_defaults(cx, &module.enums, is_core, found)))
        },
    }
}

/// The type that an entry gives: one that never completes gives the unit
/// value.
pub open spec fn entry_type(ty: Ty) -> Ty
{
    if (ty == Ty::Never) {
        Ty::Unit
    } else {
        ty
    }
}

/// The place of the first entry statement.
pub open spec fn first_span(stmts: &Chain<Stmt>) -> Option<Span>
{
    match stmts {
        Chain::Nil => None,
        Chain::Cons(head, _) => Some(head.span),
    }
}

/// The place of the entry statements.
pub open spec fn entry_span(stmts: &Chain<Stmt>) -> Option<Span>
{
    match first_span(stmts) {
        None => None,
        Some(first) => Some(joined(first, last_span(stmts, first))),
    }
}

/// Check the entry statements and record the entry function.
pub open spec fn check_entry_func(cx: &Ctx, st: Output, stmts: &Chain<Stmt>, index: u32) -> (Output, Result<(), Stop>)
{
    match check_entry(cx, entry_collect(empty_env(), st), stmts, last_span(stmts, nowhere())) {
        (done, Err(stop)) => (done.out, Err(stop)),
        (done, Ok(body)) => {
            let func = HirFunc {
                imported: false,
                core: false,
                source_span: entry_span(stmts),
                name: chain_of("<entry>"@),
                type_params: 0,
                type_bounds: Chain::Nil,
                effect_params: 0,
                params: Chain::Nil,
                param_muts: Chain::Nil,
                param_names: Chain::Nil,
                ret: entry_type(body.ty),
                row: done.declared_row,
                captures: Chain::Nil,
                locals: body.locals,
                body: body.body,
            };
            (record_func(done.out, index, func), Ok(()))
        },
    }
}

} // verus!
