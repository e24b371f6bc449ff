//! Interface declarations.
//!
//! The functions here state what the functions of the same name compute.

use vstd::prelude::*;
use crate::ast::{AssociatedType, GenericParam, InterfaceDef, InterfaceMethod, InterfaceRef, Param, PremiseDef, Span};
use crate::chain::Chain;
use crate::context::{AssociatedInfo, Ctx, Decl, DefaultEntry, Generics, InterfaceInfo, InterfaceMethodSig, InterfaceUse, NameEntry, Params, TyEnv, TypePremise};
use crate::model::conform::{empty_bounds, find_bound, project};
use crate::model::fulfil::declared_interface;
use crate::model::lists::{append, concat, cons, count, find_id, holds_id, holds_name, set_nth, truncate};
use crate::model::lookup::{associated_position, find_method, interface_at};
use crate::model::names::interface_default_binding;
use crate::model::resolve::{expand_interface_application, expand_interface_bounds, generic_bounds_from, named, resolve_generic_bounds, resolve_interface_bounds, resolve_interface_use, resolve_param_type, resolve_ret, resolve_row, resolve_type, split_generics, unnamed};
use crate::model::subst::{row_variables, variables};
use crate::problem::{Problem, Stop};
use crate::text::Text;
use crate::types::Ty;

verus! {

/// Which generic parameters are effects.
pub open spec fn effect_kinds(generics: &Chain<GenericParam>) -> Chain<bool>
    decreases generics,
{
    match generics {
        Chain::Nil => Chain::Nil,
        Chain::Cons(head, tail) => cons(head.is_effect, effect_kinds(tail)),
    }
}

/// An interface entry that has a name and nothing resolved.
pub open spec fn unresolved_interface(declaration: &InterfaceDef) -> InterfaceInfo
{
    let generics = split_generics(&declaration.generics);
    InterfaceInfo {
        origin: None,
        name: declaration.name,
        type_params: generics.types,
        effect_params: generics.effects,
        generic_is_effect: effect_kinds(&declaration.generics),
        parents: Chain::Nil,
        type_bounds: Chain::Nil,
        associated: Chain::Nil,
        methods: Chain::Nil,
    }
}

/// Register all interface names of one source module.
pub open spec fn register_interface_names(cx: Ctx, interfaces: &Chain<InterfaceDef>, is_core: bool) -> Result<Ctx, Stop>
    decreases interfaces,
{
    match interfaces {
        Chain::Nil => Ok(cx),
        Chain::Cons(head, tail) => {
            let id = count(&cx.interfaces);
            let taken = if is_core { find_id(&cx.core_interfaces, &head.name) } else { find_id(&cx.user_interfaces, &head.name) };
            if id > cx.max_interface_index {
                Err(unnamed(Problem::TooManyInterfaces, head.name_span))
            } else if taken.is_some() {
                Err(named(Problem::DuplicateDefinition, &head.name, head.name_span))
            } else {
                let entry = NameEntry { name: head.name, id: id };
                let table = append(cx.interfaces, unresolved_interface(head));
                if is_core {
                    register_interface_names(Ctx { interfaces: table, core_interfaces: append(cx.core_interfaces, entry), ..cx }, tail, is_core)
                } else {
                    register_interface_names(Ctx { interfaces: table, user_interfaces: append(cx.user_interfaces, entry), ..cx }, tail, is_core)
                }
            }
        },
    }
}

/// The tables with one interface replaced.
pub open spec fn with_interface(cx: Ctx, interface: u32, info: InterfaceInfo) -> Ctx
{
    Ctx { interfaces: set_nth(cx.interfaces, interface, info), ..cx }
}

/// The scope of an interface contract: `Self` is the first type variable.
pub open spec fn interface_scope(
    generics: &Generics,
    bounds: Chain<Chain<InterfaceUse>>,
    interface: u32,
    is_core: bool,
) -> TyEnv
{
    TyEnv {
        type_names: generics.types,
        type_bounds: bounds,
        extra_bounds: Chain::Nil,
        effect_names: generics.effects,
        type_offset: 1,
        self_interface: Some(interface),
        self_ty: Some(Ty::Var(0)),
        core_scope: is_core,
    }
}

/// Resolve the parents of an interface.
pub open spec fn resolve_parents(cx: &Ctx, env: &TyEnv, st: Decl, parents: &Chain<InterfaceRef>) -> (Decl, Result<Chain<InterfaceUse>, Stop>)
    decreases parents,
{
    match parents {
        Chain::Nil => (st, Ok(Chain::Nil)),
        Chain::Cons(head, tail) => {
            match resolve_interface_use(cx, env, st, head) {
                (st, Err(stop)) => (st, Err(stop)),
                (st, Ok(first)) => {
                    match resolve_parents(cx, env, st, tail) {
                        (st, Err(stop)) => (st, Err(stop)),
                        (st, Ok(rest)) => {
                            (st, Ok(cons(first, rest)))
                        },
                    }
                },
            }
        },
    }
}

/// The first parent that occurs twice.
pub open spec fn repeated_parent(parents: &Chain<InterfaceUse>, seen: Chain<u32>) -> Option<u32>
    decreases parents,
{
    match parents {
        Chain::Nil => None,
        Chain::Cons(head, tail) => {
            if holds_id(&seen, head.interface) {
                Some(head.interface)
            } else {
                repeated_parent(tail, cons(head.interface, seen))
            }
        },
    }
}

/// Require parents to be distinct and not the interface itself.
pub open spec fn check_parents(parents: &Chain<InterfaceUse>, interface: u32, span: Span) -> Result<(), Stop>
{
    if find_bound(parents, interface).is_some() {
        Err(unnamed(Problem::ExtendsItself, span))
    } else {
        match repeated_parent(parents, Chain::Nil) {
            Some(parent) => Err(unnamed(Problem::DuplicateParentInterface { interface: parent }, span)),
            None => Ok(()),
        }
    }
}

/// The associated type names of an interface, without their bounds.
pub open spec fn associated_names(items: &Chain<AssociatedType>, found: Chain<AssociatedInfo>) -> Result<Chain<AssociatedInfo>, Stop>
    decreases items,
{
    match items {
        Chain::Nil => Ok(found),
        Chain::Cons(head, tail) => {
            if associated_position(&found, &head.name).is_some() {
                Err(named(Problem::DuplicateAssociated, &head.name, head.name_span))
            } else {
                associated_names(tail, append(found, AssociatedInfo { name: head.name, bounds: Chain::Nil }))
            }
        },
    }
}

/// Associated types with the bounds of one replaced.
pub open spec fn set_bounds_at(items: Chain<AssociatedInfo>, at: u32, bounds: Chain<InterfaceUse>) -> Chain<AssociatedInfo>
    decreases items,
{
    match items {
        Chain::Nil => Chain::Nil,
        Chain::Cons(head, tail) => {
            if at == 0 {
                cons(AssociatedInfo { name: head.name, bounds: bounds }, *tail)
            } else {
                Chain::Cons(head, Box::new(set_bounds_at(*tail, (at - 1) as u32, bounds)))
            }
        },
    }
}

/// The tables with the bounds of one associated type set.
pub open spec fn with_associated_bounds(cx: Ctx, interface: u32, at: u32, bounds: Chain<InterfaceUse>) -> Ctx
{
    let info = *interface_at(&cx, interface);
    with_interface(cx, interface, InterfaceInfo { associated: set_bounds_at(info.associated, at, bounds), ..info })
}

/// Resolve the associated types of an interface.
pub open spec fn resolve_associated(
    cx: Ctx,
    env: &TyEnv,
    st: Decl,
    items: &Chain<AssociatedType>,
    interface: u32,
    at: u32,
) -> (Decl, Result<Ctx, Stop>)
    decreases items,
{
    match items {
        Chain::Nil => (st, Ok(cx)),
        Chain::Cons(head, tail) => {
            match resolve_interface_bounds(&cx, env, st, &head.bounds) {
                (st, Err(stop)) => (st, Err(stop)),
                (st, Ok(direct)) => {
                    let base = project(&cx, Ty::Var(0), interface, at);
                    match expand_interface_bounds(&cx, &base, direct, head.span) {
                        Err(stop) => (st, Err(stop)),
                        Ok(bounds) => {
                            resolve_associated(with_associated_bounds(cx, interface, at, bounds), env, st, tail, interface, at.wrapping_add(1))
                        },
                    }
                },
            }
        },
    }
}

/// Resolve the premises of a method.
pub open spec fn resolve_type_premises(cx: &Ctx, env: &TyEnv, st: Decl, premises: &Chain<PremiseDef>) -> (Decl, Result<Chain<TypePremise>, Stop>)
    decreases premises,
{
    match premises {
        Chain::Nil => (st, Ok(Chain::Nil)),
        Chain::Cons(head, tail) => {
            match resolve_type(cx, env, st, &head.subject) {
                (st, Err(stop)) => (st, Err(stop)),
                (st, Ok(subject)) => {
                    match resolve_interface_bounds(cx, env, st, &head.bounds) {
                        (st, Err(stop)) => (st, Err(stop)),
                        (st, Ok(direct)) => {
                            match expand_interface_bounds(cx, &subject, direct, head.span) {
                                Err(stop) => (st, Err(stop)),
                                Ok(bounds) => {
                                    match resolve_type_premises(cx, env, st, tail) {
                                        (st, Err(stop)) => (st, Err(stop)),
                                        (st, Ok(rest)) => {
                                            (st, Ok(cons(TypePremise { subject: subject, bounds: bounds }, rest)))
                                        },
                                    }
                                },
                            }
                        },
                    }
                },
            }
        },
    }
}

/// Resolve the parameters of a requirement.
pub open spec fn resolve_requirement_params(cx: &Ctx, env: &TyEnv, st: Decl, params: &Chain<Param>) -> (Decl, Result<Params, Stop>)
    decreases params,
{
    match params {
        Chain::Nil => (st, Ok(Params { types: Chain::Nil, muts: Chain::Nil, names: Chain::Nil })),
        Chain::Cons(head, tail) => {
            match resolve_param_type(cx, env, st, head) {
                (st, Err(stop)) => (st, Err(stop)),
                (st, Ok(ty)) => {
                    match resolve_requirement_params(cx, env, st, tail) {
                        (st, Err(stop)) => (st, Err(stop)),
                        (st, Ok(rest)) => {
                            (st, Ok(Params { types: cons(ty, rest.types), muts: cons(head.mutable, rest.muts), names: cons(head.name, rest.names) }))
                        },
                    }
                },
            }
        },
    }
}

/// The first own parameter name that the interface already declares.
pub open spec fn taken_generic<'a>(own: &'a Generics, env: &TyEnv) -> Option<&'a Text>
{
    match first_taken(&own.types, env) {
        Some(name) => Some(name),
        None => first_taken(&own.effects, env),
    }
}

/// The first name that is already taken.
pub open spec fn first_taken<'a>(names: &'a Chain<Text>, env: &TyEnv) -> Option<&'a Text>
    decreases names,
{
    match names {
        Chain::Nil => None,
        Chain::Cons(head, tail) => {
            if holds_name(&env.type_names, head) || holds_name(&env.effect_names, head) {
                Some(&**head)
            } else {
                first_taken(tail, env)
            }
        },
    }
}

/// Resolve one method requirement of an interface.
pub open spec fn resolve_requirement(
    cx: &Ctx,
    env: &TyEnv,
    st: Decl,
    method: &InterfaceMethod,
    interface_name: &Text,
) -> (Decl, Result<InterfaceMethodSig, Stop>)
{
    let own = split_generics(&method.generics);
    match taken_generic(&own, env) {
        Some(name) => (st, Err(named(Problem::DuplicateGeneric, name, method.name_span))),
        None => resolve_new_requirement(cx, env, st, method, own, interface_name),
    }
}

/// Resolve one interface method.
pub open spec fn resolve_new_requirement(
    cx: &Ctx,
    env: &TyEnv,
    st: Decl,
    method: &InterfaceMethod,
    own: Generics,
    interface_name: &Text,
) -> (Decl, Result<InterfaceMethodSig, Stop>)
{
    let outer = count(&env.type_names);
    let inner = TyEnv {
        type_names: concat(env.type_names, own.types),
        type_bounds: concat(env.type_bounds, empty_bounds(&own.types)),
        effect_names: concat(env.effect_names, own.effects),
        ..*env
    };
    match generic_bounds_from(cx, &inner, st, &method.generics, outer.wrapping_add(1)) {
        (st, Err(stop)) => (st, Err(stop)),
        (st, Ok(own_bounds)) => {
            let inner = TyEnv { type_bounds: concat(truncate(inner.type_bounds, outer), own_bounds), ..inner };
            match resolve_type_premises(cx, &inner, st, &method.premises) {
                (st, Err(stop)) => (st, Err(stop)),
                (st, Ok(premises)) => {
                    match resolve_requirement_params(cx, &inner, st, &method.params) {
                        (st, Err(stop)) => (st, Err(stop)),
                        (st, Ok(params)) => {
                            match resolve_ret(cx, &inner, st, &method.ret) {
                                (st, Err(stop)) => (st, Err(stop)),
                                (st, Ok(ret)) => {
                                    match resolve_row(cx, &inner, &method.row) {
                                        Err(stop) => (st, Err(stop)),
                                        Ok(row) => {
                                            (st, Ok(InterfaceMethodSig {
                                                name: method.name,
                                                mut_self: method.mut_self,
                                                own_type_params: own.types,
                                                own_type_bounds: own_bounds,
                                                own_effect_params: own.effects,
                                                premises: premises,
                                                params: params.types,
                                                param_muts: params.muts,
                                                param_names: params.names,
                                                ret: ret,
                                                row: row,
                                                default_func: None,
                                                default_binding: match &method.body {
                                                    Some(_) => Some(interface_default_binding(interface_name, &method.name)),
                                                    None => None,
                                                },
                                            }))
                                        },
                                    }
                                },
                            }
                        },
                    }
                },
            }
        },
    }
}

/// Resolve the methods of an interface.
pub open spec fn resolve_requirements(
    cx: &Ctx,
    env: &TyEnv,
    st: Decl,
    methods: &Chain<InterfaceMethod>,
    interface_name: &Text,
    found: Chain<InterfaceMethodSig>,
) -> (Decl, Result<Chain<InterfaceMethodSig>, Stop>)
    decreases methods,
{
    match methods {
        Chain::Nil => (st, Ok(found)),
        Chain::Cons(head, tail) => {
            if find_method(&found, &head.name).is_some() {
                (st, Err(named(Problem::DuplicateInterfaceMethod, &head.name, head.name_span)))
            } else {
                match resolve_requirement(cx, env, st, head, interface_name) {
                    (st, Err(stop)) => (st, Err(stop)),
                    (st, Ok(sig)) => {
                        resolve_requirements(cx, env, st, tail, interface_name, append(found, sig))
                    },
                }
            }
        },
    }
}

/// Resolve one interface contract: bounds, parents, associated types and
/// methods.
pub open spec fn resolve_interface(cx: Ctx, st: Decl, declaration: &InterfaceDef, is_core: bool) -> (Decl, Result<Ctx, Stop>)
{
    let interface = declared_interface(&cx, &declaration.name, is_core);
    let generics = split_generics(&declaration.generics);
    if count(&declaration.methods) > cx.max_interface_index && count(&declaration.methods) - cx.max_interface_index > 1 {
        (st, Err(unnamed(Problem::TooManyMethods, declaration.name_span)))
    } else {
        let outer = interface_scope(&generics, empty_bounds(&generics.types), interface, is_core);
        match resolve_generic_bounds(&cx, &outer, st, &declaration.generics) {
            (st, Err(stop)) => (st, Err(stop)),
            (st, Ok(bounds)) => {
                let env = interface_scope(&generics, bounds, interface, is_core);
                match resolve_parents(&cx, &env, st, &declaration.parents) {
                    (st, Err(stop)) => (st, Err(stop)),
                    (st, Ok(parents)) => {
                        match check_parents(&parents, interface, declaration.name_span) {
                            Err(stop) => (st, Err(stop)),
                            Ok(_parents) => {
                                let info = *interface_at(&cx, interface);
                                let cx = with_interface(cx, interface, InterfaceInfo { parents: parents, ..info });
                                match associated_names(&declaration.associated, Chain::Nil) {
                                    Err(stop) => (st, Err(stop)),
                                    Ok(associated) => {
                                        let info = *interface_at(&cx, interface);
                                        let cx = with_interface(cx, interface, InterfaceInfo { associated: associated, ..info });
                                        match resolve_associated(cx, &env, st, &declaration.associated, interface, 0u32) {
                                            (st, Err(stop)) => (st, Err(stop)),
                                            (st, Ok(cx)) => {
                                                match resolve_requirements(&cx, &env, st, &declaration.methods, &declaration.name, Chain::Nil) {
                                                    (st, Err(stop)) => (st, Err(stop)),
                                                    (st, Ok(methods)) => {
                                                        let info = *interface_at(&cx, interface);
                                                        (st, Ok(with_interface(cx, interface, InterfaceInfo { type_params: generics.types, effect_params: generics.effects, type_bounds: bounds, methods: methods, ..info })))
                                                    },
                                                }
                                            },
                                        }
                                    },
                                }
                            },
                        }
                    },
                }
            },
        }
    }
}

/// Resolve each interface.
pub open spec fn resolve_each_interface(cx: Ctx, st: Decl, interfaces: &Chain<InterfaceDef>, is_core: bool) -> (Decl, Result<Ctx, Stop>)
    decreases interfaces,
{
    match interfaces {
        Chain::Nil => (st, Ok(cx)),
        Chain::Cons(head, tail) => {
            match resolve_interface(cx, st, head, is_core) {
                (st, Err(stop)) => (st, Err(stop)),
                (st, Ok(next)) => {
                    resolve_each_interface(next, st, tail, is_core)
                },
            }
        },
    }
}

/// The first associated type whose name a list holds.
pub open spec fn first_associated_in<'a>(items: &'a Chain<AssociatedInfo>, names: &Chain<Text>) -> Option<&'a Text>
    decreases items,
{
    match items {
        Chain::Nil => None,
        Chain::Cons(head, tail) => {
            if holds_name(names, &head.name) {
                Some(&head.name)
            } else {
                first_associated_in(tail, names)
            }
        },
    }
}

/// The names of associated types.
pub open spec fn names_of_associated(items: &Chain<AssociatedInfo>) -> Chain<Text>
    decreases items,
{
    match items {
        Chain::Nil => Chain::Nil,
        Chain::Cons(head, tail) => cons(head.name, names_of_associated(tail)),
    }
}

/// Require the associated type names of an interface and its ancestors
/// to be distinct.
pub open spec fn check_inherited_names(
    cx: &Ctx,
    closure: &Chain<InterfaceUse>,
    seen: Chain<Text>,
    span: Span,
) -> Result<(), Stop>
    decreases closure,
{
    match closure {
        Chain::Nil => Ok(()),
        Chain::Cons(head, tail) => {
            let items = &interface_at(cx, head.interface).associated;
            match first_associated_in(items, &seen) {
                Some(name) => Err(named(Problem::InheritedAmbiguous, name, span)),
                None => check_inherited_names(cx, tail, concat(seen, names_of_associated(items)), span),
            }
        },
    }
}

/// Expand each list of bounds.
pub open spec fn expand_bound_table(cx: &Ctx, table: Chain<Chain<InterfaceUse>>, at: u32, span: Span) -> Result<Chain<Chain<InterfaceUse>>, Stop>
    decreases table,
{
    match table {
        Chain::Nil => Ok(Chain::Nil),
        Chain::Cons(head, tail) => {
            match expand_interface_bounds(cx, &Ty::Var(at), *head, span) {
                Err(stop) => Err(stop),
                Ok(first) => {
                    match expand_bound_table(cx, *tail, at.wrapping_add(1), span) {
                        Err(stop) => Err(stop),
                        Ok(rest) => {
                            Ok(cons(first, rest))
                        },
                    }
                },
            }
        },
    }
}

/// Expand the bounds of associated types.
pub open spec fn expand_associated(
    cx: Ctx,
    items: Chain<AssociatedInfo>,
    interface: u32,
    at: u32,
    span: Span,
) -> Result<Ctx, Stop>
    decreases items,
{
    match items {
        Chain::Nil => Ok(cx),
        Chain::Cons(head, tail) => {
            let base = project(&cx, Ty::Var(0), interface, at);
            match expand_interface_bounds(&cx, &base, head.bounds, span) {
                Err(stop) => Err(stop),
                Ok(bounds) => {
                    expand_associated(with_associated_bounds(cx, interface, at, bounds), *tail, interface, at.wrapping_add(1), span)
                },
            }
        },
    }
}

/// Close one interface over its ancestors once every contract of the
/// module is known.
pub open spec fn close_interface(cx: Ctx, declaration: &InterfaceDef, is_core: bool) -> Result<Ctx, Stop>
{
    let interface = declared_interface(&cx, &declaration.name, is_core);
    let info = *interface_at(&cx, interface);
    let application = InterfaceUse {
        interface: interface,
        type_args: variables(&info.type_params, 1u32),
        row_args: row_variables(&info.effect_params, 0u32),
    };
    match expand_interface_application(&cx, &Ty::Var(0), application, declaration.span, &Chain::Nil, 0u32, Chain::Nil) {
        Err(stop) => Err(stop),
        Ok(closure) => {
            match check_inherited_names(&cx, &closure, Chain::Nil, declaration.span) {
                Err(stop) => Err(stop),
                Ok(_names) => {
                    match expand_bound_table(&cx, info.type_bounds, 1u32, declaration.span) {
                        Err(stop) => Err(stop),
                        Ok(bounds) => {
                            let associated = info.associated;
                            let cx = with_interface(cx, interface, InterfaceInfo { type_bounds: bounds, ..info });
                            expand_associated(cx, associated, interface, 0u32, declaration.span)
                        },
                    }
                },
            }
        },
    }
}

/// Close each interface under its parents.
pub open spec fn close_interfaces(cx: Ctx, interfaces: &Chain<InterfaceDef>, is_core: bool) -> Result<Ctx, Stop>
    decreases interfaces,
{
    match interfaces {
        Chain::Nil => Ok(cx),
        Chain::Cons(head, tail) => {
            match close_interface(cx, head, is_core) {
                Err(stop) => Err(stop),
                Ok(next) => {
                    close_interfaces(next, tail, is_core)
                },
            }
        },
    }
}

/// Resolve all interface contracts of one source module.
pub open spec fn resolve_all_interfaces(cx: Ctx, st: Decl, interfaces: &Chain<InterfaceDef>, is_core: bool) -> (Decl, Result<Ctx, Stop>)
{
    match resolve_each_interface(cx, st, interfaces, is_core) {
        (st, Err(stop)) => (st, Err(stop)),
        (st, Ok(resolved)) => {
            match close_interfaces(resolved, interfaces, is_core) {
                Err(stop) => (st, Err(stop)),
                Ok(closed) => {
                    (st, Ok(closed))
                },
            }
        },
    }
}

/// The defaults of one interface.
pub open spec fn defaults_of(methods: &Chain<InterfaceMethodSig>, interface: u32, at: u32) -> Chain<DefaultEntry>
    decreases methods,
{
    match methods {
        Chain::Nil => Chain::Nil,
        Chain::Cons(head, tail) => {
            let rest = defaults_of(tail, interface, at.wrapping_add(1));
            if head.default_binding.is_some() {
                cons(DefaultEntry { name: head.name, interface: interface, method: at }, rest)
            } else {
                rest
            }
        },
    }
}

/// The defaults of all interfaces, in table order.
pub open spec fn interface_defaults_from(interfaces: &Chain<InterfaceInfo>, at: u32) -> Chain<DefaultEntry>
    decreases interfaces,
{
    match interfaces {
        Chain::Nil => Chain::Nil,
        Chain::Cons(head, tail) => concat(defaults_of(&head.methods, at, 0u32), interface_defaults_from(tail, at.wrapping_add(1))),
    }
}

/// Index each interface default after all interfaces resolve.
pub open spec fn index_interface_defaults(cx: Ctx) -> Ctx
{
    Ctx { interface_defaults: interface_defaults_from(&cx.interfaces, 0u32), ..cx }
}

} // verus!
