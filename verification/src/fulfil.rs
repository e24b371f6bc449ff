//! Whether a class fulfils the interfaces that it declares.

use vstd::prelude::*;
use crate::answers::{compatible, row_included};
use crate::ast::{ClassDef, EnumDef, FieldDef, Module, Span};
use crate::chain::{Chain, copy_chain};
use crate::conform::{find_method_owner, interface_arguments_meet_bounds, normalize_associated, project, type_conforms};
use crate::context::{AssociatedInfo, ClassInfo, ClassKind, ConformanceInfo, Ctx, InterfaceInfo, InterfaceMethodSig, InterfaceUse, MethodSig, NativeRepr, Picked, TyEnv, TypePremise, clone_conformance_premises, clone_interface_use_lists, clone_rows, clone_texts};
use crate::lists::{append, concat, cons, count, find_id, holds_id, nth, same_len, set_nth};
use crate::lookup::{associated_position, class_at, core_interface, interface_at, type_always_frozen};
use crate::premises::{add_premises, bounds_imply, holds_uses, merge_at};
use crate::problem::{Diag, Problem, Stop};
use crate::resolve::{named, unnamed};
use crate::rows::substitute_row;
use crate::subst::{row_variables, substitute, substitute_interface_use, substitute_uses, type_uses_interface_self, type_uses_interface_self_in, variables};
use crate::text::{Text, same_text, text};
use crate::types::{Row, Ty, clone_tys, same_flags, same_ty};
use crate::model::layout::shapes_kept;
use crate::model;

verus! {

/// Add the premises of an interface method to the scope of a method that
/// overrides it.
pub fn add_requirement_premises(
    cx: &Ctx,
    env: TyEnv,
    premises: &Chain<TypePremise>,
    types: &Chain<Ty>,
    rows: &Chain<Row>,
) -> (r: TyEnv)
    ensures
        r == model::fulfil::add_requirement_premises(cx, env, premises, types, rows),
    decreases premises,
{
    match premises {
        Chain::Nil => env,
        Chain::Cons(head, tail) => {
            let subject = normalize_associated(cx, &env, &substitute(&head.subject, types, rows));
            let bounds = substitute_uses(&head.bounds, types, rows);
            let index = bound_index(&env, &subject);
            match index {
                Some(at) => add_requirement_premises(cx, TyEnv { type_bounds: merge_at(env.type_bounds, at, &bounds), ..env }, tail, types, rows),
                None => add_requirement_premises(cx, TyEnv { extra_bounds: append(env.extra_bounds, TypePremise { subject: subject, bounds: bounds }), ..env }, tail, types, rows),
            }
        },
    }
}

/// The bound-table position of a type variable of this scope.
pub fn bound_index(env: &TyEnv, ty: &Ty) -> (r: Option<u32>)
    ensures
        r == model::fulfil::bound_index(env, ty),
{
    match ty {
        Ty::Var(index) => {
            if *index >= env.type_offset {
                Some((*index - env.type_offset) as u32)
            } else {
                None
            }
        },
        _ => None,
    }
}

/// The substituted types of a requirement, without projections.
pub fn required_types(
    cx: &Ctx,
    env: &TyEnv,
    items: &Chain<Ty>,
    types: &Chain<Ty>,
    rows: &Chain<Row>,
) -> (r: Chain<Ty>)
    ensures
        r == model::fulfil::required_types(cx, env, items, types, rows),
    decreases items,
{
    match items {
        Chain::Nil => Chain::Nil,
        Chain::Cons(head, tail) => cons(normalize_associated(cx, env, &substitute(head, types, rows)), required_types(cx, env, tail, types, rows)),
    }
}

/// Whether the parameters of a method accept those of a requirement: the
/// same type for a `mut` parameter, a compatible one for any other.
pub fn parameters_accept(
    cx: &Ctx,
    params: &Chain<Ty>,
    required: &Chain<Ty>,
    muts: &Chain<bool>,
) -> (r: Result<bool, Stop>)
    ensures
        r == model::fulfil::parameters_accept(cx, params, required, muts),
    decreases params,
{
    match (params, required, muts) {
        (Chain::Cons(actual, params_rest), Chain::Cons(wanted, required_rest), Chain::Cons(mutable, muts_rest)) => {
            let fits = match accepts(cx, actual, wanted, **mutable) {
                Ok(found) => found,
                Err(stop) => {
                    return Err(stop);
                },
            };
            if fits {
                parameters_accept(cx, params_rest, required_rest, muts_rest)
            } else {
                Ok(false)
            }
        },
        _ => Ok(true),
    }
}

/// Whether a wanted type meets an actual one, exactly or by compatibility.
pub fn accepts(cx: &Ctx, actual: &Ty, wanted: &Ty, exact: bool) -> (r: Result<bool, Stop>)
    ensures
        r == model::fulfil::accepts(cx, actual, wanted, exact),
{
    if exact {
        Ok(same_ty(&*actual, &*wanted))
    } else {
        compatible(cx, actual, wanted)
    }
}

/// Whether the own bounds of a method are those of a requirement.
pub fn same_own_bounds(
    actual: &Chain<Chain<InterfaceUse>>,
    required: &Chain<Chain<InterfaceUse>>,
    types: &Chain<Ty>,
    rows: &Chain<Row>,
) -> (r: bool)
    ensures
        r == model::fulfil::same_own_bounds(actual, required, types, rows),
    decreases actual,
{
    match (actual, required) {
        (Chain::Nil, Chain::Nil) => true,
        (Chain::Cons(head, rest), Chain::Cons(wanted, more)) => same_len(head, wanted) && holds_uses(head, &substitute_uses(wanted, types, rows)) && same_own_bounds(rest, more, types, rows),
        _ => false,
    }
}

/// The reason that one class method cannot override one requirement.
/// `types` and `rows` are the arguments of the interface: the self type
/// first, then those of its application.
pub fn interface_override_error(
    cx: &Ctx,
    env: &TyEnv,
    class: u32,
    method: &MethodSig,
    requirement: &InterfaceMethodSig,
    interface: u32,
    types: &Chain<Ty>,
    rows: &Chain<Row>,
) -> (r: Result<Option<Problem>, Stop>)
    ensures
        r == model::fulfil::interface_override_error(cx, env, class, method, requirement, interface, types, rows),
{
    if !same_len(&method.own_type_params, &requirement.own_type_params) || !same_len(&method.own_effect_params, &requirement.own_effect_params) {
        return Ok(Some(Problem::OverrideGenerics { interface: interface }));
    }
    let class_count = count(&class_at(cx, class).type_params);
    let all_types = concat(clone_tys(&*types), variables(&requirement.own_type_params, class_count));
    let all_rows = concat(clone_rows(&*rows), row_variables(&requirement.own_effect_params, 0u32));
    let inner = add_requirement_premises(cx, (*env).clone(), &requirement.premises, &all_types, &all_rows);
    if !bounds_imply(&inner.type_bounds, &method.class_type_bounds) {
        return Ok(Some(Problem::OverridePremise { interface: interface }));
    }
    if method.mut_self != requirement.mut_self {
        return Ok(Some(Problem::OverrideSelf { interface: interface, mutable: requirement.mut_self }));
    }
    let params = required_types(cx, &inner, &requirement.params, &all_types, &all_rows);
    if !same_len(&method.params, &params) || !same_flags(&method.param_muts, &requirement.param_muts) {
        return Ok(Some(Problem::OverrideTypes { interface: interface }));
    }
    let parameters = match parameters_accept(cx, &method.params, &params, &requirement.param_muts) {
        Ok(found) => found,
        Err(stop) => {
            return Err(stop);
        },
    };
    if !parameters || !same_own_bounds(&method.own_type_bounds, &requirement.own_type_bounds, &all_types, &all_rows) {
        return Ok(Some(Problem::OverrideTypes { interface: interface }));
    }
    let ret = normalize_associated(cx, &inner, &substitute(&requirement.ret, &all_types, &all_rows));
    let result = match compatible(cx, &ret, &method.ret) {
        Ok(found) => found,
        Err(stop) => {
            return Err(stop);
        },
    };
    if !result {
        return Ok(Some(Problem::OverrideTypes { interface: interface }));
    }
    let narrow = match row_included(cx, &method.row, &substitute_row(&requirement.row, &all_rows)) {
        Ok(found) => found,
        Err(stop) => {
            return Err(stop);
        },
    };
    if narrow {
        Ok(None)
    } else {
        Ok(Some(Problem::OverrideEffects { interface: interface }))
    }
}

/// Require the value of one associated type to meet its bounds.
pub fn check_associated_bounds(
    cx: &Ctx,
    env: &TyEnv,
    actual: &Ty,
    name: &Text,
    bounds: &Chain<InterfaceUse>,
    types: &Chain<Ty>,
    rows: &Chain<Row>,
    span: Span,
) -> (r: Result<(), Stop>)
    ensures
        r == model::fulfil::check_associated_bounds(cx, env, actual, name, bounds, types, rows, span),
    decreases bounds,
{
    match bounds {
        Chain::Nil => Ok(()),
        Chain::Cons(head, tail) => {
            let required = substitute_interface_use(head, types, rows);
            if type_conforms(cx, env, actual, &required) {
                check_associated_bounds(cx, env, actual, name, tail, types, rows, span)
            } else {
                Err(named(Problem::AssociatedConformance { interface: required.interface }, name, span))
            }
        },
    }
}

/// Require every associated type of a conformance to meet its bounds.
pub fn check_associated_types(
    cx: &Ctx,
    env: &TyEnv,
    values: &Chain<Ty>,
    items: &Chain<AssociatedInfo>,
    types: &Chain<Ty>,
    rows: &Chain<Row>,
    span: Span,
) -> (r: Result<(), Stop>)
    ensures
        r == model::fulfil::check_associated_types(cx, env, values, items, types, rows, span),
    decreases items,
{
    match (items, values) {
        (Chain::Cons(item, items_rest), Chain::Cons(value, values_rest)) => {
            let _met = match check_associated_bounds(cx, env, value, &item.name, &item.bounds, types, rows, span) {
                Ok(found) => found,
                Err(stop) => {
                    return Err(stop);
                },
            };
            check_associated_types(cx, env, values_rest, items_rest, types, rows, span)
        },
        _ => Ok(()),
    }
}

/// The position of an associated type that a core interface declares.
pub fn core_associated(cx: &Ctx, interface: u32, name: &str, span: Span) -> (r: Result<u32, Stop>)
    ensures
        r == model::fulfil::core_associated(cx, interface, name, span),
{
    match associated_position(&interface_at(cx, interface).associated, &text(name)) {
        Some(at) => Ok(at),
        None => Err(Stop::Fail(Diag { problem: Problem::CoreMissing, subject: text(name), span: span })),
    }
}

/// Require the item of an iterable to be the item of its iterator.
pub fn check_iterable_item(cx: &Ctx, conformance: &ConformanceInfo, span: Span) -> (r: Result<(), Stop>)
    ensures
        r == model::fulfil::check_iterable_item(cx, conformance, span),
{
    let iterable = match core_interface(cx, "Iterable", span) {
        Ok(found) => found,
        Err(stop) => {
            return Err(stop);
        },
    };
    if conformance.application.interface != iterable {
        return Ok(());
    }
    let iterator = match core_interface(cx, "Iterator", span) {
        Ok(found) => found,
        Err(stop) => {
            return Err(stop);
        },
    };
    let item_at = match core_associated(cx, iterable, "Item", span) {
        Ok(found) => found,
        Err(stop) => {
            return Err(stop);
        },
    };
    let iter_at = match core_associated(cx, iterable, "Iter", span) {
        Ok(found) => found,
        Err(stop) => {
            return Err(stop);
        },
    };
    let next_item = match core_associated(cx, iterator, "Item", span) {
        Ok(found) => found,
        Err(stop) => {
            return Err(stop);
        },
    };
    match (nth(&conformance.associated, item_at), nth(&conformance.associated, iter_at)) {
        (Some(item), Some(iter)) => {
            if same_ty(&project(cx, (*iter).clone(), iterator, next_item), &*item) {
                Ok(())
            } else {
                Err(unnamed(Problem::IterableItem, span))
            }
        },
        _ => Err(unnamed(Problem::IterableItem, span)),
    }
}

/// The default already taken for a name.
pub fn find_picked<'a>(picked: &'a Chain<Picked>, name: &Text) -> (r: Option<&'a Picked>)
    ensures
        r == model::fulfil::find_picked(picked, name),
    decreases picked,
{
    match picked {
        Chain::Nil => None,
        Chain::Cons(head, tail) => {
            if same_text(&head.name, &*name) {
                Some(&**head)
            } else {
                find_picked(tail, name)
            }
        },
    }
}

/// Whether the class answers one requirement itself: the reason where
/// its method does not fit.
pub fn fulfils(
    cx: &Ctx,
    env: &TyEnv,
    class: u32,
    requirement: &InterfaceMethodSig,
    interface: u32,
    types: &Chain<Ty>,
    rows: &Chain<Row>,
) -> (r: Result<Option<Problem>, Stop>)
    ensures
        r == model::fulfil::fulfils(cx, env, class, requirement, interface, types, rows),
{
    match find_method_owner(cx, class, &requirement.name) {
        None => Ok(Some(Problem::MethodMissing { interface: interface })),
        Some(found) => interface_override_error(cx, env, class, &found.sig, requirement, interface, types, rows),
    }
}

/// Select the default of one requirement. Two conformances of a class
/// may not give one method name two defaults.
pub fn pick_default(
    picked: Chain<Picked>,
    requirement: &InterfaceMethodSig,
    interface: u32,
    reason: Problem,
    span: Span,
) -> (r: Result<Chain<Picked>, Stop>)
    ensures
        r == model::fulfil::pick_default(picked, requirement, interface, reason, span),
{
    match &requirement.default_binding {
        None => Err(named(reason, &requirement.name, span)),
        Some(binding) => {
            match find_picked(&picked, &requirement.name) {
                None => Ok(append(picked, Picked { name: copy_chain(&requirement.name), binding: copy_chain(&*binding), interface: interface })),
                Some(seen) => {
                    if same_text(&seen.binding, &*binding) {
                        Ok(picked)
                    } else {
                        Err(named(Problem::AmbiguousDefault { first: seen.interface, second: interface }, &requirement.name, span))
                    }
                },
            }
        },
    }
}

/// Check each method requirement of one conformance: a marker for each
/// method, set where the class overrides it.
pub fn check_requirements(
    cx: &Ctx,
    env: &TyEnv,
    st: Chain<Picked>,
    class: u32,
    methods: &Chain<InterfaceMethodSig>,
    interface: u32,
    types: &Chain<Ty>,
    rows: &Chain<Row>,
    span: Span,
) -> (r: (Chain<Picked>, Result<Chain<bool>, Stop>))
    ensures
        r == model::fulfil::check_requirements(cx, env, st, class, methods, interface, types, rows, span),
    decreases methods,
{
    match methods {
        Chain::Nil => (st, Ok(Chain::Nil)),
        Chain::Cons(head, tail) => {
            let mismatch = match fulfils(cx, env, class, head, interface, types, rows) {
                Ok(found) => found,
                Err(stop) => {
                    return (st, Err(stop));
                },
            };
            match mismatch {
                None => {
                    let (st, out) = check_requirements(cx, env, st, class, tail, interface, types, rows, span);
                    let rest = match out {
                        Ok(found) => found,
                        Err(stop) => {
                            return (st, Err(stop));
                        },
                    };
                    (st, Ok(cons(true, rest)))
                },
                Some(reason) => {
                    match pick_default(st, head, interface, reason, span) {
                        Err(stop) => (Chain::Nil, Err(stop)),
                        Ok(picked) => {
                            let st = picked;
                            let (st, out) = check_requirements(cx, env, st, class, tail, interface, types, rows, span);
                            let rest = match out {
                                Ok(found) => found,
                                Err(stop) => {
                                    return (st, Err(stop));
                                },
                            };
                            (st, Ok(cons(false, rest)))
                        },
                    }
                },
            }
        },
    }
}

/// Whether a conformance needs a class that no subclass can extend.
pub fn self_dependent(
    cx: &Ctx,
    info: &ClassInfo,
    interface: u32,
    dependencies: &Chain<bool>,
) -> (r: bool)
    ensures
        r == model::fulfil::self_dependent(cx, info, interface, dependencies),
{
    info.kind == ClassKind::Normal && !info.is_final && info.native_repr != Some(NativeRepr::Text)
    && match nth(dependencies, interface) {
        Some(depends) => *depends,
        None => false,
    }
}

/// Check one conformance of a class.
pub fn check_conformance(
    cx: &Ctx,
    env: &TyEnv,
    st: Chain<Picked>,
    class: u32,
    conformance: &ConformanceInfo,
    dependencies: &Chain<bool>,
    span: Span,
) -> (r: (Chain<Picked>, Result<Chain<bool>, Stop>))
    ensures
        r == model::fulfil::check_conformance(cx, env, st, class, conformance, dependencies, span),
{
    let info = class_at(cx, class);
    let application = &conformance.application;
    let contract = interface_at(cx, application.interface);
    if self_dependent(cx, info, application.interface, dependencies) {
        return (st, Err(unnamed(Problem::SelfDependent { interface: application.interface }, span)));
    }
    let types = cons(info.self_ty.clone(), clone_tys(&application.type_args));
    if !interface_arguments_meet_bounds(cx, env, &info.self_ty, application) {
        return (st, Err(unnamed(Problem::ConformanceArguments { interface: application.interface }, span)));
    }
    let _associated = match check_associated_types(cx, env, &conformance.associated, &contract.associated, &types, &application.row_args, span) {
        Ok(found) => found,
        Err(stop) => {
            return (st, Err(stop));
        },
    };
    let _item = match check_iterable_item(cx, conformance, span) {
        Ok(found) => found,
        Err(stop) => {
            return (st, Err(stop));
        },
    };
    check_requirements(cx, env, st, class, &contract.methods, application.interface, &types, &application.row_args, span)
}

/// Check each conformance of one class.
pub fn check_conformances_of(
    cx: &Ctx,
    env: &TyEnv,
    st: Chain<Picked>,
    class: u32,
    items: &Chain<ConformanceInfo>,
    dependencies: &Chain<bool>,
    span: Span,
) -> (r: (Chain<Picked>, Result<Chain<ConformanceInfo>, Stop>))
    ensures
        r == model::fulfil::check_conformances_of(cx, env, st, class, items, dependencies, span),
    decreases items,
{
    match items {
        Chain::Nil => (st, Ok(Chain::Nil)),
        Chain::Cons(head, tail) => {
            let inner = add_premises((*env).clone(), &head.premises);
            let (st, out) = check_conformance(cx, &inner, st, class, head, dependencies, span);
            let overrides = match out {
                Ok(found) => found,
                Err(stop) => {
                    return (st, Err(stop));
                },
            };
            let (st, out) = check_conformances_of(cx, env, st, class, tail, dependencies, span);
            let rest = match out {
                Ok(found) => found,
                Err(stop) => {
                    return (st, Err(stop));
                },
            };
            let info = ConformanceInfo {
                application: head.application.clone(),
                premises: clone_conformance_premises(&head.premises),
                associated: clone_tys(&head.associated),
                method_overrides: overrides,
            };
            (st, Ok(cons(info, rest)))
        },
    }
}

/// Check every method and associated bound of the conformances of one
/// class. The conformances come back with a marker for each method that
/// the class overrides.
pub fn check_class_conformances(
    cx: &Ctx,
    class: u32,
    is_core: bool,
    dependencies: &Chain<bool>,
    span: Span,
) -> (r: Result<Chain<ConformanceInfo>, Stop>)
    ensures
        r == model::fulfil::check_class_conformances(cx, class, is_core, dependencies, span),
{
    let info = class_at(cx, class);
    let env = TyEnv {
        type_names: clone_texts(&info.type_params),
        type_bounds: clone_interface_use_lists(&info.type_bounds),
        extra_bounds: Chain::Nil,
        effect_names: Chain::Nil,
        type_offset: 0,
        self_interface: None,
        self_ty: Some(info.self_ty.clone()),
        core_scope: is_core,
    };
    match check_conformances_of(cx, &env, Chain::Nil, class, &info.conformances, dependencies, span) {
        (_, Ok(items)) => Ok(items),
        (_, Err(stop)) => Err(stop),
    }
}

/// The index of a class that a module itself declares.
pub fn declared_class(cx: &Ctx, name: &Text, is_core: bool) -> (r: u32)
    ensures
        r == model::fulfil::declared_class(cx, name, is_core),
{
    let found = if is_core { find_id(&cx.core_types, name) } else { find_id(&cx.user_types, name) };
    match found {
        Some(class) => class,
        None => 0xffff_ffffu32,
    }
}

/// The index of an interface that a module itself declares.
pub fn declared_interface(cx: &Ctx, name: &Text, is_core: bool) -> (r: u32)
    ensures
        r == model::fulfil::declared_interface(cx, name, is_core),
{
    let found = if is_core { find_id(&cx.core_interfaces, name) } else { find_id(&cx.user_interfaces, name) };
    match found {
        Some(interface) => interface,
        None => 0xffff_ffffu32,
    }
}

/// The tables with one class replaced.
pub fn with_class(cx: Ctx, class: u32, info: ClassInfo) -> (r: Ctx)
    ensures
        r == model::fulfil::with_class(cx, class, info),
        r.classes@ == (if class < cx.classes@.len() { cx.classes@.update(class as int, info) } else { cx.classes@ }),
{
    Ctx { classes: set_nth(cx.classes, class, info), ..cx }
}

/// Check the conformances of one class, and enter them.
pub fn checked_class(
    cx: Ctx,
    class: u32,
    is_core: bool,
    dependencies: &Chain<bool>,
    span: Span,
) -> (r: Result<Ctx, Stop>)
    ensures
        r == model::fulfil::checked_class(cx, class, is_core, dependencies, span),
        r matches Ok(next) ==> shapes_kept(cx, next),
{
    let items = match check_class_conformances(&cx, class, is_core, dependencies, span) {
        Ok(found) => found,
        Err(stop) => {
            return Err(stop);
        },
    };
    proof {
        crate::laws::lists::law_nth(&cx.classes, class);
    }
    let info = ClassInfo { conformances: items, ..(*class_at(&cx, class)).clone() };
    Ok(with_class(cx, class, info))
}

/// Check the conformances of each class.
pub fn check_classes_conform(
    cx: Ctx,
    classes: &Chain<ClassDef>,
    is_core: bool,
    dependencies: &Chain<bool>,
) -> (r: Result<Ctx, Stop>)
    ensures
        r == model::fulfil::check_classes_conform(cx, classes, is_core, dependencies),
        r matches Ok(next) ==> shapes_kept(cx, next),
    decreases classes,
{
    match classes {
        Chain::Nil => Ok(cx),
        Chain::Cons(head, tail) => {
            let class = declared_class(&cx, &head.name, is_core);
            let next = match checked_class(cx, class, is_core, dependencies, head.name_span) {
                Ok(found) => found,
                Err(stop) => {
                    return Err(stop);
                },
            };
            check_classes_conform(next, tail, is_core, dependencies)
        },
    }
}

/// Check the conformances of each enum.
pub fn check_enums_conform(
    cx: Ctx,
    enums: &Chain<EnumDef>,
    is_core: bool,
    dependencies: &Chain<bool>,
) -> (r: Result<Ctx, Stop>)
    ensures
        r == model::fulfil::check_enums_conform(cx, enums, is_core, dependencies),
        r matches Ok(next) ==> shapes_kept(cx, next),
    decreases enums,
{
    match enums {
        Chain::Nil => Ok(cx),
        Chain::Cons(head, tail) => {
            let class = declared_class(&cx, &head.name, is_core);
            let next = match checked_class(cx, class, is_core, dependencies, head.name_span) {
                Ok(found) => found,
                Err(stop) => {
                    return Err(stop);
                },
            };
            check_enums_conform(next, tail, is_core, dependencies)
        },
    }
}

/// Check all class conformances after every class signature resolves.
pub fn check_all_conformances(cx: Ctx, module: &Module, is_core: bool, dependencies: &Chain<bool>) -> (r: Result<Ctx, Stop>)
    ensures
        r == model::fulfil::check_all_conformances(cx, module, is_core, dependencies),
        r matches Ok(next) ==> shapes_kept(cx, next),
{
    let classes = match check_classes_conform(cx, &module.classes, is_core, dependencies) {
        Ok(found) => found,
        Err(stop) => {
            return Err(stop);
        },
    };
    check_enums_conform(classes, &module.enums, is_core, dependencies)
}

/// Require each field of a frozen class to be always frozen.
pub fn check_frozen_fields(cx: &Ctx, info: &ClassInfo, fields: &Chain<FieldDef>, at: u32) -> (r: Result<(), Stop>)
    ensures
        r == model::fulfil::check_frozen_fields(cx, info, fields, at),
    decreases fields,
{
    match fields {
        Chain::Nil => Ok(()),
        Chain::Cons(head, tail) => {
            let frozen = match nth(&info.field_tys, at) {
                Some(ty) => type_always_frozen(cx, ty, true),
                None => false,
            };
            if frozen {
                check_frozen_fields(cx, info, tail, at.wrapping_add(1))
            } else {
                Err(named(Problem::FrozenField, &head.name, head.span))
            }
        },
    }
}

/// Validate the static storage rules of local frozen classes.
pub fn check_frozen_classes(cx: &Ctx, classes: &Chain<ClassDef>, is_core: bool) -> (r: Result<(), Stop>)
    ensures
        r == model::fulfil::check_frozen_classes(cx, classes, is_core),
    decreases classes,
{
    match classes {
        Chain::Nil => Ok(()),
        Chain::Cons(head, tail) => {
            if !head.is_frozen {
                check_frozen_classes(cx, tail, is_core)
            } else {
                match &head.parent {
                    Some(parent) => Err(unnamed(Problem::FrozenParent, parent.span)),
                    None => {
                        let info = class_at(cx, declared_class(cx, &head.name, is_core));
                        let _fields = match check_frozen_fields(cx, info, &head.fields, info.own_start) {
                            Ok(found) => found,
                            Err(stop) => {
                                return Err(stop);
                            },
                        };
                        check_frozen_classes(cx, tail, is_core)
                    },
                }
            }
        },
    }
}

/// Whether a method of a list depends on `Self`.
pub fn any_uses_self(methods: &Chain<InterfaceMethodSig>) -> (r: bool)
    ensures
        r == model::fulfil::any_uses_self(methods),
    decreases methods,
{
    match methods {
        Chain::Nil => false,
        Chain::Cons(head, tail) => type_uses_interface_self_in(&head.params) || type_uses_interface_self(&head.ret) || any_uses_self(tail),
    }
}

/// Whether a parent depends on `Self`.
pub fn parents_use_self(cx: &Ctx, st: Chain<u32>, parents: &Chain<InterfaceUse>, steps: u32) -> (r: (Chain<u32>, bool))
    ensures
        r == model::fulfil::parents_use_self(cx, st, parents, steps),
    decreases steps, parents,
{
    match parents {
        Chain::Nil => (st, false),
        Chain::Cons(head, tail) => {
            if steps == 0 {
                (st, false)
            } else {
                let (st, found) = interface_uses_self(cx, st, head.interface, (steps - 1) as u32);
                if found {
                    (st, true)
                } else {
                    parents_use_self(cx, st, tail, steps)
                }
            }
        },
    }
}

/// Whether an interface or one of its parents names `Self` in a method.
/// `st` holds the interfaces already visited.
pub fn interface_uses_self(cx: &Ctx, st: Chain<u32>, interface: u32, steps: u32) -> (r: (Chain<u32>, bool))
    ensures
        r == model::fulfil::interface_uses_self(cx, st, interface, steps),
    decreases steps, Chain::<u32>::Nil,
{
    if holds_id(&st, interface) {
        return (st, false);
    }
    let st = cons(interface, st);
    let info = interface_at(cx, interface);
    if any_uses_self(&info.methods) {
        return (st, true);
    }
    if steps == 0 {
        (st, false)
    } else {
        parents_use_self(cx, st, &info.parents, (steps - 1) as u32)
    }
}

/// The dependency of each interface on `Self`.
pub fn dependencies_from(cx: &Ctx, interfaces: &Chain<InterfaceInfo>, at: u32) -> (r: Chain<bool>)
    ensures
        r == model::fulfil::dependencies_from(cx, interfaces, at),
    decreases interfaces,
{
    match interfaces {
        Chain::Nil => Chain::Nil,
        Chain::Cons(_, tail) => {
            let depends = match interface_uses_self(cx, Chain::Nil, at, 0xffff_ffffu32) {
                (_, found) => found,
            };
            cons(depends, dependencies_from(cx, tail, at.wrapping_add(1)))
        },
    }
}

/// A marker for each interface, set where it depends on `Self`.
pub fn interface_self_dependencies(cx: &Ctx) -> (r: Chain<bool>)
    ensures
        r == model::fulfil::interface_self_dependencies(cx),
{
    dependencies_from(cx, &cx.interfaces, 0u32)
}

} // verus!
