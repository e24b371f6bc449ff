//! Interface declarations.

use vstd::prelude::*;
use crate::ast::{AssociatedType, GenericParam, InterfaceDef, InterfaceMethod, InterfaceRef, Param, PremiseDef, Span};
use crate::chain::{Chain, copy_chain};
use crate::conform::{empty_bounds, find_bound, project};
use crate::context::{AssociatedInfo, Ctx, Decl, DefaultEntry, Generics, InterfaceInfo, InterfaceMethodSig, InterfaceUse, NameEntry, Params, TyEnv, TypePremise, clone_associated_infos, clone_interface_use_lists, clone_texts};
use crate::fulfil::declared_interface;
use crate::lists::{append, concat, cons, count, find_id, holds_id, holds_name, set_nth, truncate};
use crate::lookup::{associated_position, find_method, interface_at};
use crate::names::interface_default_binding;
use crate::problem::{Problem, Stop};
use crate::resolve::{expand_interface_application, expand_interface_bounds, generic_bounds_from, named, resolve_generic_bounds, resolve_interface_bounds, resolve_interface_use, resolve_param_type, resolve_ret, resolve_row, resolve_type, split_generics, unnamed};
use crate::subst::{row_variables, variables};
use crate::text::Text;
use crate::types::Ty;
use crate::model::layout::tables_kept;
use crate::model::keeps::kept_decl;
use crate::model;

verus! {

broadcast use crate::model::keeps::group_kept;

/// Which generic parameters are effects.
pub fn effect_kinds(generics: &Chain<GenericParam>) -> (r: Chain<bool>)
    ensures
        r == model::interfaces::effect_kinds(generics),
    decreases generics,
{
    match generics {
        Chain::Nil => Chain::Nil,
        Chain::Cons(head, tail) => cons(head.is_effect, effect_kinds(tail)),
    }
}

/// An interface entry that has a name and nothing resolved.
pub fn unresolved_interface(declaration: &InterfaceDef) -> (r: InterfaceInfo)
    ensures
        r == model::interfaces::unresolved_interface(declaration),
{
    let generics = split_generics(&declaration.generics);
    InterfaceInfo {
        origin: None,
        name: copy_chain(&declaration.name),
        type_params: generics.types,
        effect_params: generics.effects,
        generic_is_effect: effect_kinds(&declaration.generics),
        parents: Chain::Nil,
        type_bounds: Chain::Nil,
        associated: Chain::Nil,
        methods: Chain::Nil,
    }
}

/// Register all interface names of one source module.
pub fn register_interface_names(cx: Ctx, interfaces: &Chain<InterfaceDef>, is_core: bool) -> (r: Result<Ctx, Stop>)
    ensures
        r == model::interfaces::register_interface_names(cx, interfaces, is_core),
    decreases interfaces,
{
    match interfaces {
        Chain::Nil => Ok(cx),
        Chain::Cons(head, tail) => {
            let id = count(&cx.interfaces);
            let taken = if is_core { find_id(&cx.core_interfaces, &head.name) } else { find_id(&cx.user_interfaces, &head.name) };
            if id > cx.max_interface_index {
                Err(unnamed(Problem::TooManyInterfaces, head.name_span))
            } else if taken.is_some() {
                Err(named(Problem::DuplicateDefinition, &head.name, head.name_span))
            } else {
                let entry = NameEntry { name: copy_chain(&head.name), id: id };
                let table = append(cx.interfaces, unresolved_interface(head));
                if is_core {
                    register_interface_names(Ctx { interfaces: table, core_interfaces: append(cx.core_interfaces, entry), ..cx }, tail, is_core)
                } else {
                    register_interface_names(Ctx { interfaces: table, user_interfaces: append(cx.user_interfaces, entry), ..cx }, tail, is_core)
                }
            }
        },
    }
}

/// The tables with one interface replaced.
pub fn with_interface(cx: Ctx, interface: u32, info: InterfaceInfo) -> (r: Ctx)
    ensures
        r == model::interfaces::with_interface(cx, interface, info),
{
    Ctx { interfaces: set_nth(cx.interfaces, interface, info), ..cx }
}

/// The scope of an interface contract: `Self` is the first type variable.
pub fn interface_scope(
    generics: &Generics,
    bounds: Chain<Chain<InterfaceUse>>,
    interface: u32,
    is_core: bool,
) -> (r: TyEnv)
    ensures
        r == model::interfaces::interface_scope(generics, bounds, interface, is_core),
{
    TyEnv {
        type_names: clone_texts(&generics.types),
        type_bounds: bounds,
        extra_bounds: Chain::Nil,
        effect_names: clone_texts(&generics.effects),
        type_offset: 1,
        self_interface: Some(interface),
        self_ty: Some(Ty::Var(0)),
        core_scope: is_core,
    }
}

/// Resolve the parents of an interface.
pub fn resolve_parents(cx: &Ctx, env: &TyEnv, st: Decl, parents: &Chain<InterfaceRef>) -> (r: (Decl, Result<Chain<InterfaceUse>, Stop>))
    ensures
        r == model::interfaces::resolve_parents(cx, env, st, parents),
        kept_decl(st, r.0),
    decreases parents,
{
    match parents {
        Chain::Nil => (st, Ok(Chain::Nil)),
        Chain::Cons(head, tail) => {
            let (st, out) = resolve_interface_use(cx, env, st, head);
            let first = match out {
                Ok(found) => found,
                Err(stop) => {
                    return (st, Err(stop));
                },
            };
            let (st, out) = resolve_parents(cx, env, st, tail);
            let rest = match out {
                Ok(found) => found,
                Err(stop) => {
                    return (st, Err(stop));
                },
            };
            (st, Ok(cons(first, rest)))
        },
    }
}

/// The first parent that occurs twice.
pub fn repeated_parent(parents: &Chain<InterfaceUse>, seen: Chain<u32>) -> (r: Option<u32>)
    ensures
        r == model::interfaces::repeated_parent(parents, seen),
    decreases parents,
{
    match parents {
        Chain::Nil => None,
        Chain::Cons(head, tail) => {
            if holds_id(&seen, head.interface) {
                Some(head.interface)
            } else {
                repeated_parent(tail, cons(head.interface, seen))
            }
        },
    }
}

/// Require parents to be distinct and not the interface itself.
pub fn check_parents(parents: &Chain<InterfaceUse>, interface: u32, span: Span) -> (r: Result<(), Stop>)
    ensures
        r == model::interfaces::check_parents(parents, interface, span),
{
    if find_bound(parents, interface).is_some() {
        return Err(unnamed(Problem::ExtendsItself, span));
    }
    match repeated_parent(parents, Chain::Nil) {
        Some(parent) => Err(unnamed(Problem::DuplicateParentInterface { interface: parent }, span)),
        None => Ok(()),
    }
}

/// The associated type names of an interface, without their bounds.
pub fn associated_names(items: &Chain<AssociatedType>, found: Chain<AssociatedInfo>) -> (r: Result<Chain<AssociatedInfo>, Stop>)
    ensures
        r == model::interfaces::associated_names(items, found),
    decreases items,
{
    match items {
        Chain::Nil => Ok(found),
        Chain::Cons(head, tail) => {
            if associated_position(&found, &head.name).is_some() {
                Err(named(Problem::DuplicateAssociated, &head.name, head.name_span))
            } else {
                associated_names(tail, append(found, AssociatedInfo { name: copy_chain(&head.name), bounds: Chain::Nil }))
            }
        },
    }
}

/// Associated types with the bounds of one replaced.
pub fn set_bounds_at(items: Chain<AssociatedInfo>, at: u32, bounds: Chain<InterfaceUse>) -> (r: Chain<AssociatedInfo>)
    ensures
        r == model::interfaces::set_bounds_at(items, at, bounds),
    decreases items,
{
    match items {
        Chain::Nil => Chain::Nil,
        Chain::Cons(head, tail) => {
            if at == 0 {
                cons(AssociatedInfo { name: head.name, bounds: bounds }, *tail)
            } else {
                Chain::Cons(head, Box::new(set_bounds_at(*tail, (at - 1) as u32, bounds)))
            }
        },
    }
}

/// The tables with the bounds of one associated type set.
pub fn with_associated_bounds(cx: Ctx, interface: u32, at: u32, bounds: Chain<InterfaceUse>) -> (r: Ctx)
    ensures
        r == model::interfaces::with_associated_bounds(cx, interface, at, bounds),
{
    let info = (*interface_at(&cx, interface)).clone();
    with_interface(cx, interface, InterfaceInfo { associated: set_bounds_at(info.associated, at, bounds), ..info })
}

/// Resolve the associated types of an interface.
pub fn resolve_associated(
    cx: Ctx,
    env: &TyEnv,
    st: Decl,
    items: &Chain<AssociatedType>,
    interface: u32,
    at: u32,
) -> (r: (Decl, Result<Ctx, Stop>))
    ensures
        r == model::interfaces::resolve_associated(cx, env, st, items, interface, at),
        kept_decl(st, r.0),
        r.1 matches Ok(next) ==> tables_kept(cx, next),
    decreases items,
{
    match items {
        Chain::Nil => (st, Ok(cx)),
        Chain::Cons(head, tail) => {
            let (st, out) = resolve_interface_bounds(&cx, env, st, &head.bounds);
            let direct = match out {
                Ok(found) => found,
                Err(stop) => {
                    return (st, Err(stop));
                },
            };
            let base = project(&cx, Ty::Var(0), interface, at);
            let bounds = match expand_interface_bounds(&cx, &base, direct, head.span) {
                Ok(found) => found,
                Err(stop) => {
                    return (st, Err(stop));
                },
            };
            resolve_associated(with_associated_bounds(cx, interface, at, bounds), env, st, tail, interface, at.wrapping_add(1))
        },
    }
}

/// Resolve the premises of a method.
pub fn resolve_type_premises(cx: &Ctx, env: &TyEnv, st: Decl, premises: &Chain<PremiseDef>) -> (r: (Decl, Result<Chain<TypePremise>, Stop>))
    ensures
        r == model::interfaces::resolve_type_premises(cx, env, st, premises),
        kept_decl(st, r.0),
    decreases premises,
{
    match premises {
        Chain::Nil => (st, Ok(Chain::Nil)),
        Chain::Cons(head, tail) => {
            let (st, out) = resolve_type(cx, env, st, &head.subject);
            let subject = match out {
                Ok(found) => found,
                Err(stop) => {
                    return (st, Err(stop));
                },
            };
            let (st, out) = resolve_interface_bounds(cx, env, st, &head.bounds);
            let direct = match out {
                Ok(found) => found,
                Err(stop) => {
                    return (st, Err(stop));
                },
            };
            let bounds = match expand_interface_bounds(cx, &subject, direct, head.span) {
                Ok(found) => found,
                Err(stop) => {
                    return (st, Err(stop));
                },
            };
            let (st, out) = resolve_type_premises(cx, env, st, tail);
            let rest = match out {
                Ok(found) => found,
                Err(stop) => {
                    return (st, Err(stop));
                },
            };
            (st, Ok(cons(TypePremise { subject: subject, bounds: bounds }, rest)))
        },
    }
}

/// Resolve the parameters of a requirement.
pub fn resolve_requirement_params(cx: &Ctx, env: &TyEnv, st: Decl, params: &Chain<Param>) -> (r: (Decl, Result<Params, Stop>))
    ensures
        r == model::interfaces::resolve_requirement_params(cx, env, st, params),
        kept_decl(st, r.0),
    decreases params,
{
    match params {
        Chain::Nil => (st, Ok(Params { types: Chain::Nil, muts: Chain::Nil, names: Chain::Nil })),
        Chain::Cons(head, tail) => {
            let (st, out) = resolve_param_type(cx, env, st, head);
            let ty = match out {
                Ok(found) => found,
                Err(stop) => {
                    return (st, Err(stop));
                },
            };
            let (st, out) = resolve_requirement_params(cx, env, st, tail);
            let rest = match out {
                Ok(found) => found,
                Err(stop) => {
                    return (st, Err(stop));
                },
            };
            (st, Ok(Params { types: cons(ty, rest.types), muts: cons(head.mutable, rest.muts), names: cons(copy_chain(&head.name), rest.names) }))
        },
    }
}

/// The first own parameter name that the interface already declares.
pub fn taken_generic<'a>(own: &'a Generics, env: &TyEnv) -> (r: Option<&'a Text>)
    ensures
        r == model::interfaces::taken_generic(own, env),
{
    match first_taken(&own.types, env) {
        Some(name) => Some(name),
        None => first_taken(&own.effects, env),
    }
}

/// The first name that is already taken.
pub fn first_taken<'a>(names: &'a Chain<Text>, env: &TyEnv) -> (r: Option<&'a Text>)
    ensures
        r == model::interfaces::first_taken(names, env),
    decreases names,
{
    match names {
        Chain::Nil => None,
        Chain::Cons(head, tail) => {
            if holds_name(&env.type_names, head) || holds_name(&env.effect_names, head) {
                Some(&**head)
            } else {
                first_taken(tail, env)
            }
        },
    }
}

/// Resolve one method requirement of an interface.
pub fn resolve_requirement(
    cx: &Ctx,
    env: &TyEnv,
    st: Decl,
    method: &InterfaceMethod,
    interface_name: &Text,
) -> (r: (Decl, Result<InterfaceMethodSig, Stop>))
    ensures
        r == model::interfaces::resolve_requirement(cx, env, st, method, interface_name),
        kept_decl(st, r.0),
{
    let own = split_generics(&method.generics);
    match taken_generic(&own, env) {
        Some(name) => (st, Err(named(Problem::DuplicateGeneric, name, method.name_span))),
        None => resolve_new_requirement(cx, env, st, method, own, interface_name),
    }
}

/// Resolve one interface method.
pub fn resolve_new_requirement(
    cx: &Ctx,
    env: &TyEnv,
    st: Decl,
    method: &InterfaceMethod,
    own: Generics,
    interface_name: &Text,
) -> (r: (Decl, Result<InterfaceMethodSig, Stop>))
    ensures
        r == model::interfaces::resolve_new_requirement(cx, env, st, method, own, interface_name),
        kept_decl(st, r.0),
{
    let outer = count(&env.type_names);
    let inner = TyEnv {
        type_names: concat(clone_texts(&env.type_names), clone_texts(&own.types)),
        type_bounds: concat(clone_interface_use_lists(&env.type_bounds), empty_bounds(&own.types)),
        effect_names: concat(clone_texts(&env.effect_names), clone_texts(&own.effects)),
        ..(*env).clone()
    };
    let (st, out) = generic_bounds_from(cx, &inner, st, &method.generics, outer.wrapping_add(1));
    let own_bounds = match out {
        Ok(found) => found,
        Err(stop) => {
            return (st, Err(stop));
        },
    };
    let inner = TyEnv { type_bounds: concat(truncate(inner.type_bounds, outer), clone_interface_use_lists(&own_bounds)), ..inner };
    let (st, out) = resolve_type_premises(cx, &inner, st, &method.premises);
    let premises = match out {
        Ok(found) => found,
        Err(stop) => {
            return (st, Err(stop));
        },
    };
    let (st, out) = resolve_requirement_params(cx, &inner, st, &method.params);
    let params = match out {
        Ok(found) => found,
        Err(stop) => {
            return (st, Err(stop));
        },
    };
    let (st, out) = resolve_ret(cx, &inner, st, &method.ret);
    let ret = match out {
        Ok(found) => found,
        Err(stop) => {
            return (st, Err(stop));
        },
    };
    let row = match resolve_row(cx, &inner, &method.row) {
        Ok(found) => found,
        Err(stop) => {
            return (st, Err(stop));
        },
    };
    (st, Ok(InterfaceMethodSig {
        name: copy_chain(&method.name),
        mut_self: method.mut_self,
        own_type_params: own.types,
        own_type_bounds: own_bounds,
        own_effect_params: own.effects,
        premises: premises,
        params: params.types,
        param_muts: params.muts,
        param_names: params.names,
        ret: ret,
        row: row,
        default_func: None,
        default_binding: match &method.body {
            Some(_) => Some(interface_default_binding(interface_name, &method.name)),
            None => None,
        },
    }))
}

/// Resolve the methods of an interface.
pub fn resolve_requirements(
    cx: &Ctx,
    env: &TyEnv,
    st: Decl,
    methods: &Chain<InterfaceMethod>,
    interface_name: &Text,
    found: Chain<InterfaceMethodSig>,
) -> (r: (Decl, Result<Chain<InterfaceMethodSig>, Stop>))
    ensures
        r == model::interfaces::resolve_requirements(cx, env, st, methods, interface_name, found),
        kept_decl(st, r.0),
    decreases methods,
{
    match methods {
        Chain::Nil => (st, Ok(found)),
        Chain::Cons(head, tail) => {
            if find_method(&found, &head.name).is_some() {
                (st, Err(named(Problem::DuplicateInterfaceMethod, &head.name, head.name_span)))
            } else {
                let (st, out) = resolve_requirement(cx, env, st, head, interface_name);
                let sig = match out {
                    Ok(found) => found,
                    Err(stop) => {
                        return (st, Err(stop));
                    },
                };
                resolve_requirements(cx, env, st, tail, interface_name, append(found, sig))
            }
        },
    }
}

/// Resolve one interface contract: bounds, parents, associated types and
/// methods.
pub fn resolve_interface(cx: Ctx, st: Decl, declaration: &InterfaceDef, is_core: bool) -> (r: (Decl, Result<Ctx, Stop>))
    ensures
        r == model::interfaces::resolve_interface(cx, st, declaration, is_core),
        kept_decl(st, r.0),
        r.1 matches Ok(next) ==> tables_kept(cx, next),
{
    let interface = declared_interface(&cx, &declaration.name, is_core);
    let generics = split_generics(&declaration.generics);
    if count(&declaration.methods) > cx.max_interface_index && count(&declaration.methods) - cx.max_interface_index > 1 {
        return (st, Err(unnamed(Problem::TooManyMethods, declaration.name_span)));
    }
    let outer = interface_scope(&generics, empty_bounds(&generics.types), interface, is_core);
    let (st, out) = resolve_generic_bounds(&cx, &outer, st, &declaration.generics);
    let bounds = match out {
        Ok(found) => found,
        Err(stop) => {
            return (st, Err(stop));
        },
    };
    let env = interface_scope(&generics, clone_interface_use_lists(&bounds), interface, is_core);
    let (st, out) = resolve_parents(&cx, &env, st, &declaration.parents);
    let parents = match out {
        Ok(found) => found,
        Err(stop) => {
            return (st, Err(stop));
        },
    };
    let _parents = match check_parents(&parents, interface, declaration.name_span) {
        Ok(found) => found,
        Err(stop) => {
            return (st, Err(stop));
        },
    };
    let info = (*interface_at(&cx, interface)).clone();
    let cx = with_interface(cx, interface, InterfaceInfo { parents: parents, ..info });
    let associated = match associated_names(&declaration.associated, Chain::Nil) {
        Ok(found) => found,
        Err(stop) => {
            return (st, Err(stop));
        },
    };
    let info = (*interface_at(&cx, interface)).clone();
    let cx = with_interface(cx, interface, InterfaceInfo { associated: associated, ..info });
    let (st, out) = resolve_associated(cx, &env, st, &declaration.associated, interface, 0u32);
    let cx = match out {
        Ok(found) => found,
        Err(stop) => {
            return (st, Err(stop));
        },
    };
    let (st, out) = resolve_requirements(&cx, &env, st, &declaration.methods, &declaration.name, Chain::Nil);
    let methods = match out {
        Ok(found) => found,
        Err(stop) => {
            return (st, Err(stop));
        },
    };
    let info = (*interface_at(&cx, interface)).clone();
    (st, Ok(with_interface(cx, interface, InterfaceInfo { type_params: generics.types, effect_params: generics.effects, type_bounds: bounds, methods: methods, ..info })))
}

/// Resolve each interface.
pub fn resolve_each_interface(cx: Ctx, st: Decl, interfaces: &Chain<InterfaceDef>, is_core: bool) -> (r: (Decl, Result<Ctx, Stop>))
    ensures
        r == model::interfaces::resolve_each_interface(cx, st, interfaces, is_core),
        kept_decl(st, r.0),
        r.1 matches Ok(next) ==> tables_kept(cx, next),
    decreases interfaces,
{
    match interfaces {
        Chain::Nil => (st, Ok(cx)),
        Chain::Cons(head, tail) => {
            let (st, out) = resolve_interface(cx, st, head, is_core);
            let next = match out {
                Ok(found) => found,
                Err(stop) => {
                    return (st, Err(stop));
                },
            };
            resolve_each_interface(next, st, tail, is_core)
        },
    }
}

/// The first associated type whose name a list holds.
pub fn first_associated_in<'a>(items: &'a Chain<AssociatedInfo>, names: &Chain<Text>) -> (r: Option<&'a Text>)
    ensures
        r == model::interfaces::first_associated_in(items, names),
    decreases items,
{
    match items {
        Chain::Nil => None,
        Chain::Cons(head, tail) => {
            if holds_name(names, &head.name) {
                Some(&head.name)
            } else {
                first_associated_in(tail, names)
            }
        },
    }
}

/// The names of associated types.
pub fn names_of_associated(items: &Chain<AssociatedInfo>) -> (r: Chain<Text>)
    ensures
        r == model::interfaces::names_of_associated(items),
    decreases items,
{
    match items {
        Chain::Nil => Chain::Nil,
        Chain::Cons(head, tail) => cons(copy_chain(&head.name), names_of_associated(tail)),
    }
}

/// Require the associated type names of an interface and its ancestors
/// to be distinct.
pub fn check_inherited_names(
    cx: &Ctx,
    closure: &Chain<InterfaceUse>,
    seen: Chain<Text>,
    span: Span,
) -> (r: Result<(), Stop>)
    ensures
        r == model::interfaces::check_inherited_names(cx, closure, seen, span),
    decreases closure,
{
    match closure {
        Chain::Nil => Ok(()),
        Chain::Cons(head, tail) => {
            let items = &interface_at(cx, head.interface).associated;
            match first_associated_in(items, &seen) {
                Some(name) => Err(named(Problem::InheritedAmbiguous, name, span)),
                None => check_inherited_names(cx, tail, concat(seen, names_of_associated(items)), span),
            }
        },
    }
}

/// Expand each list of bounds.
pub fn expand_bound_table(cx: &Ctx, table: Chain<Chain<InterfaceUse>>, at: u32, span: Span) -> (r: Result<Chain<Chain<InterfaceUse>>, Stop>)
    ensures
        r == model::interfaces::expand_bound_table(cx, table, at, span),
    decreases table,
{
    match table {
        Chain::Nil => Ok(Chain::Nil),
        Chain::Cons(head, tail) => {
            let first = match expand_interface_bounds(cx, &Ty::Var(at), *head, span) {
                Ok(found) => found,
                Err(stop) => {
                    return Err(stop);
                },
            };
            let rest = match expand_bound_table(cx, *tail, at.wrapping_add(1), span) {
                Ok(found) => found,
                Err(stop) => {
                    return Err(stop);
                },
            };
            Ok(cons(first, rest))
        },
    }
}

/// Expand the bounds of associated types.
pub fn expand_associated(
    cx: Ctx,
    items: Chain<AssociatedInfo>,
    interface: u32,
    at: u32,
    span: Span,
) -> (r: Result<Ctx, Stop>)
    ensures
        r == model::interfaces::expand_associated(cx, items, interface, at, span),
        r matches Ok(next) ==> tables_kept(cx, next),
    decreases items,
{
    match items {
        Chain::Nil => Ok(cx),
        Chain::Cons(head, tail) => {
            let base = project(&cx, Ty::Var(0), interface, at);
            let bounds = match expand_interface_bounds(&cx, &base, head.bounds, span) {
                Ok(found) => found,
                Err(stop) => {
                    return Err(stop);
                },
            };
            expand_associated(with_associated_bounds(cx, interface, at, bounds), *tail, interface, at.wrapping_add(1), span)
        },
    }
}

/// Close one interface over its ancestors once every contract of the
/// module is known.
pub fn close_interface(cx: Ctx, declaration: &InterfaceDef, is_core: bool) -> (r: Result<Ctx, Stop>)
    ensures
        r == model::interfaces::close_interface(cx, declaration, is_core),
        r matches Ok(next) ==> tables_kept(cx, next),
{
    let interface = declared_interface(&cx, &declaration.name, is_core);
    let info = (*interface_at(&cx, interface)).clone();
    let application = InterfaceUse {
        interface: interface,
        type_args: variables(&info.type_params, 1u32),
        row_args: row_variables(&info.effect_params, 0u32),
    };
    let closure = match expand_interface_application(&cx, &Ty::Var(0), application, declaration.span, &Chain::Nil, 0u32, Chain::Nil) {
        Ok(found) => found,
        Err(stop) => {
            return Err(stop);
        },
    };
    let _names = match check_inherited_names(&cx, &closure, Chain::Nil, declaration.span) {
        Ok(found) => found,
        Err(stop) => {
            return Err(stop);
        },
    };
    let bounds = match expand_bound_table(&cx, clone_interface_use_lists(&info.type_bounds), 1u32, declaration.span) {
        Ok(found) => found,
        Err(stop) => {
            return Err(stop);
        },
    };
    let associated = clone_associated_infos(&info.associated);
    let cx = with_interface(cx, interface, InterfaceInfo { type_bounds: bounds, ..info });
    expand_associated(cx, associated, interface, 0u32, declaration.span)
}

/// Close each interface under its parents.
pub fn close_interfaces(cx: Ctx, interfaces: &Chain<InterfaceDef>, is_core: bool) -> (r: Result<Ctx, Stop>)
    ensures
        r == model::interfaces::close_interfaces(cx, interfaces, is_core),
        r matches Ok(next) ==> tables_kept(cx, next),
    decreases interfaces,
{
    match interfaces {
        Chain::Nil => Ok(cx),
        Chain::Cons(head, tail) => {
            let next = match close_interface(cx, head, is_core) {
                Ok(found) => found,
                Err(stop) => {
                    return Err(stop);
                },
            };
            close_interfaces(next, tail, is_core)
        },
    }
}

/// Resolve all interface contracts of one source module.
pub fn resolve_all_interfaces(cx: Ctx, st: Decl, interfaces: &Chain<InterfaceDef>, is_core: bool) -> (r: (Decl, Result<Ctx, Stop>))
    ensures
        r == model::interfaces::resolve_all_interfaces(cx, st, interfaces, is_core),
        kept_decl(st, r.0),
        r.1 matches Ok(next) ==> tables_kept(cx, next),
{
    let (st, out) = resolve_each_interface(cx, st, interfaces, is_core);
    let resolved = match out {
        Ok(found) => found,
        Err(stop) => {
            return (st, Err(stop));
        },
    };
    let closed = match close_interfaces(resolved, interfaces, is_core) {
        Ok(found) => found,
        Err(stop) => {
            return (st, Err(stop));
        },
    };
    (st, Ok(closed))
}

/// The defaults of one interface.
pub fn defaults_of(methods: &Chain<InterfaceMethodSig>, interface: u32, at: u32) -> (r: Chain<DefaultEntry>)
    ensures
        r == model::interfaces::defaults_of(methods, interface, at),
    decreases methods,
{
    match methods {
        Chain::Nil => Chain::Nil,
        Chain::Cons(head, tail) => {
            let rest = defaults_of(tail, interface, at.wrapping_add(1));
            if head.default_binding.is_some() {
                cons(DefaultEntry { name: copy_chain(&head.name), interface: interface, method: at }, rest)
            } else {
                rest
            }
        },
    }
}

/// The defaults of all interfaces, in table order.
pub fn interface_defaults_from(interfaces: &Chain<InterfaceInfo>, at: u32) -> (r: Chain<DefaultEntry>)
    ensures
        r == model::interfaces::interface_defaults_from(interfaces, at),
    decreases interfaces,
{
    match interfaces {
        Chain::Nil => Chain::Nil,
        Chain::Cons(head, tail) => concat(defaults_of(&head.methods, at, 0u32), interface_defaults_from(tail, at.wrapping_add(1))),
    }
}

/// Index each interface default after all interfaces resolve.
pub fn index_interface_defaults(cx: Ctx) -> (r: Ctx)
    ensures
        r == model::interfaces::index_interface_defaults(cx),
{
    Ctx { interface_defaults: interface_defaults_from(&cx.interfaces, 0u32), ..cx }
}

} // verus!
