//! Reading the tables: classes, interfaces, names and native types.

use vstd::prelude::*;
use crate::answers::is_holder_local;
use crate::ast::Span;
use crate::chain::Chain;
use crate::context::{AssocSlot, AssociatedInfo, ClassInfo, ClassKind, ClassMeta, Ctx, FnSig, InterfaceInfo, InterfaceMethodSig, InterfaceUse, MethodSig, NameEntry, NativeRepr, Nominal, TupleClass, TyEnv};
use crate::lists::{append, cons, count, find_id, find_literal, holds_id, nth, one, position, two};
use crate::names::{is_prelude_ctor, is_prelude_type};
use crate::problem::{Diag, Problem, Stop};
use crate::subst::{first_variables, substitute_all};
use crate::text::{Text, same_text, text};
use crate::types::{Ty, clone_tys};
use crate::model;

verus! {

/// The class at one index.
pub fn class_at<'a>(cx: &'a Ctx, class: u32) -> (r: &'a ClassInfo)
    ensures
        r == model::lookup::class_at(cx, class),
{
    match nth(&cx.classes, class) {
        Some(info) => info,
        None => &cx.absent.class,
    }
}

/// What predeclaration knows of the class at one index.
pub fn meta_at<'a>(cx: &'a Ctx, class: u32) -> (r: &'a ClassMeta)
    ensures
        r == model::lookup::meta_at(cx, class),
{
    match nth(&cx.metas, class) {
        Some(meta) => meta,
        None => &cx.absent.meta,
    }
}

/// The interface at one index.
pub fn interface_at<'a>(cx: &'a Ctx, interface: u32) -> (r: &'a InterfaceInfo)
    ensures
        r == model::lookup::interface_at(cx, interface),
{
    match nth(&cx.interfaces, interface) {
        Some(info) => info,
        None => &cx.absent.interface,
    }
}

/// The signature of the function at one index.
pub fn sig_at<'a>(cx: &'a Ctx, func: u32) -> (r: &'a FnSig)
    ensures
        r == model::lookup::sig_at(cx, func),
{
    match nth(&cx.sigs, func) {
        Some(sig) => sig,
        None => &cx.absent.sig,
    }
}

/// The index of a core class that a rule needs.
pub fn core_id(cx: &Ctx, name: &str, span: Span) -> (r: Result<u32, Stop>)
    ensures
        r == model::lookup::core_id(cx, name, span),
{
    match find_literal(&cx.core_types, name) {
        Some(class) => Ok(class),
        None => Err(Stop::Fail(Diag { problem: Problem::CoreMissing, subject: text(name), span: span })),
    }
}

/// The index of a core interface that a rule needs.
pub fn core_interface(cx: &Ctx, name: &str, span: Span) -> (r: Result<u32, Stop>)
    ensures
        r == model::lookup::core_interface(cx, name, span),
{
    match find_literal(&cx.core_interfaces, name) {
        Some(interface) => Ok(interface),
        None => Err(Stop::Fail(Diag { problem: Problem::CoreMissing, subject: text(name), span: span })),
    }
}

/// The type of a core class without type parameters.
pub fn core_class(cx: &Ctx, name: &str, span: Span) -> (r: Result<Ty, Stop>)
    ensures
        r == model::lookup::core_class(cx, name, span),
{
    let class = match core_id(cx, name, span) {
        Ok(found) => found,
        Err(stop) => {
            return Err(stop);
        },
    };
    Ok(Ty::Class(class))
}

/// The type of a generic core class with its arguments.
pub fn core_inst(cx: &Ctx, name: &str, args: Chain<Ty>, span: Span) -> (r: Result<Ty, Stop>)
    ensures
        r == model::lookup::core_inst(cx, name, args, span),
{
    let class = match core_id(cx, name, span) {
        Ok(found) => found,
        Err(stop) => {
            return Err(stop);
        },
    };
    Ok(Ty::Inst(class, args))
}

/// Whether an optional index is one index.
pub fn is_id(id: Option<u32>, class: u32) -> (r: bool)
    ensures
        r == model::lookup::is_id(id, class),
{
    match id {
        Some(found) => found == class,
        None => false,
    }
}

/// A class without arguments, where the index is known.
pub fn plain(id: Option<u32>) -> (r: Option<Nominal>)
    ensures
        r == model::lookup::plain(id),
{
    match id {
        Some(class) => Some(Nominal { class: class, args: Chain::Nil }),
        None => None,
    }
}

/// The core class of one tuple arity.
pub fn tuple_class(entries: &Chain<TupleClass>, arity: u32) -> (r: Option<u32>)
    ensures
        r == model::lookup::tuple_class(entries, arity),
    decreases entries,
{
    match entries {
        Chain::Nil => None,
        Chain::Cons(head, tail) => {
            if head.arity as u32 == arity {
                Some(head.class)
            } else {
                tuple_class(tail, arity)
            }
        },
    }
}

/// The arity of a tuple core class.
pub fn tuple_arity(entries: &Chain<TupleClass>, class: u32) -> (r: Option<u32>)
    ensures
        r == model::lookup::tuple_arity(entries, class),
    decreases entries,
{
    match entries {
        Chain::Nil => None,
        Chain::Cons(head, tail) => {
            if head.class == class {
                Some(head.arity as u32)
            } else {
                tuple_arity(tail, class)
            }
        },
    }
}

/// The class behind a type, with its type arguments.
pub fn nominal_class(cx: &Ctx, ty: &Ty) -> (r: Option<Nominal>)
    ensures
        r == model::lookup::nominal_class(cx, ty),
{
    match ty {
        Ty::Unit => plain(cx.natives.unit),
        Ty::Int => plain(cx.natives.int),
        Ty::Float => plain(cx.natives.float),
        Ty::Bool => plain(cx.natives.boolean),
        Ty::Str => plain(cx.natives.string),
        Ty::Bytes => plain(cx.natives.bytes),
        Ty::FileHandle => plain(cx.natives.file),
        Ty::ListOf(item) => {
            match cx.natives.list {
                Some(class) => Some(Nominal { class: class, args: one((**item).clone()) }),
                None => None,
            }
        },
        Ty::MapOf(key, value) => {
            match cx.natives.map {
                Some(class) => Some(Nominal { class: class, args: two((**key).clone(), (**value).clone()) }),
                None => None,
            }
        },
        Ty::Tuple(items) => {
            match tuple_class(&cx.natives.tuples, count(items)) {
                Some(class) => Some(Nominal { class: class, args: clone_tys(&*items) }),
                None => None,
            }
        },
        Ty::Class(class) => Some(Nominal { class: *class, args: Chain::Nil }),
        Ty::Inst(class, args) => Some(Nominal { class: *class, args: clone_tys(&*args) }),
        _ => None,
    }
}

/// The type of a class with its type arguments: the built-in type for a
/// native core class, an application for any other.
pub fn type_for_nominal(cx: &Ctx, class: u32, args: Chain<Ty>) -> (r: Ty)
    ensures
        r == model::lookup::type_for_nominal(cx, class, args),
{
    if is_id(cx.natives.unit, class) {
        return Ty::Unit;
    }
    if is_id(cx.natives.int, class) {
        return Ty::Int;
    }
    if is_id(cx.natives.float, class) {
        return Ty::Float;
    }
    if is_id(cx.natives.boolean, class) {
        return Ty::Bool;
    }
    if is_id(cx.natives.string, class) {
        return Ty::Str;
    }
    if is_id(cx.natives.bytes, class) {
        return Ty::Bytes;
    }
    if is_id(cx.natives.file, class) {
        return Ty::FileHandle;
    }
    match args {
        Chain::Nil => Ty::Class(class),
        Chain::Cons(first, rest) => {
            if is_id(cx.natives.list, class) {
                Ty::ListOf(first)
            } else if is_id(cx.natives.map, class) {
                match *rest {
                    Chain::Nil => Ty::Inst(class, one(*first)),
                    Chain::Cons(second, _) => Ty::MapOf(first, second),
                }
            } else {
                match tuple_arity(&cx.natives.tuples, class) {
                    Some(_) => Ty::Tuple(Chain::Cons(first, rest)),
                    None => Ty::Inst(class, Chain::Cons(first, rest)),
                }
            }
        },
    }
}

/// The class whose members a value of a type has, with its arguments.
pub fn class_of(cx: &Ctx, ty: &Ty) -> (r: Option<Nominal>)
    ensures
        r == model::lookup::class_of(cx, ty),
{
    match ty {
        Ty::Int => plain(find_literal(&cx.core_types, "Int")),
        Ty::Bool => plain(find_literal(&cx.core_types, "Bool")),
        Ty::Str => plain(find_literal(&cx.core_types, "String")),
        Ty::Bytes => plain(find_literal(&cx.core_types, "Bytes")),
        Ty::Class(class) => Some(Nominal { class: *class, args: Chain::Nil }),
        Ty::Inst(class, args) => Some(Nominal { class: *class, args: clone_tys(&*args) }),
        _ => None,
    }
}

/// Look up a class or enum type name in the given scope.
pub fn lookup_type(cx: &Ctx, name: &Text, env: &TyEnv) -> (r: Option<u32>)
    ensures
        r == model::lookup::lookup_type(cx, name, env),
{
    if env.core_scope {
        return find_id(&cx.core_types, name);
    }
    match find_id(&cx.user_types, name) {
        Some(class) => Some(class),
        None => {
            if cx.prelude && is_prelude_type(name) {
                find_id(&cx.core_types, name)
            } else {
                None
            }
        },
    }
}

/// Look up an interface name in the given scope.
pub fn lookup_interface(cx: &Ctx, name: &Text, env: &TyEnv) -> (r: Option<u32>)
    ensures
        r == model::lookup::lookup_interface(cx, name, env),
{
    if env.core_scope {
        return find_id(&cx.core_interfaces, name);
    }
    match find_id(&cx.user_interfaces, name) {
        Some(interface) => Some(interface),
        None => {
            if cx.prelude {
                find_id(&cx.core_interfaces, name)
            } else {
                None
            }
        },
    }
}

/// Find a field layout index by name.
pub fn find_field(cx: &Ctx, class: u32, name: &Text) -> (r: Option<u32>)
    ensures
        r == model::lookup::find_field(cx, class, name),
{
    position(&class_at(cx, class).field_names, name)
}

/// The enum family index of a class, when it belongs to one.
pub fn family_of(cx: &Ctx, class: u32) -> (r: Option<u32>)
    ensures
        r == model::lookup::family_of(cx, class),
{
    match class_at(cx, class).kind {
        ClassKind::EnumParent => Some(class),
        ClassKind::EnumCase => class_at(cx, class).family,
        ClassKind::Normal => None,
    }
}

/// The arm of a short name.
pub fn arm_named(cx: &Ctx, arms: &Chain<u32>, short: &Text) -> (r: Option<u32>)
    ensures
        r == model::lookup::arm_named(cx, arms, short),
    decreases arms,
{
    match arms {
        Chain::Nil => None,
        Chain::Cons(head, tail) => {
            if same_text(&class_at(cx, **head).arm_short, &*short) {
                Some(**head)
            } else {
                arm_named(cx, tail, short)
            }
        },
    }
}

/// Find an arm of a family by its short name.
pub fn find_arm(cx: &Ctx, family: u32, short: &Text) -> (r: Option<u32>)
    ensures
        r == model::lookup::find_arm(cx, family, short),
{
    arm_named(cx, &class_at(cx, family).arms, short)
}

/// A sorted list of numbers with one more number.
pub fn insert_sorted(ids: Chain<u32>, id: u32) -> (r: Chain<u32>)
    ensures
        r == model::lookup::insert_sorted(ids, id),
    decreases ids,
{
    match ids {
        Chain::Nil => one(id),
        Chain::Cons(head, tail) => {
            if id <= *head {
                Chain::Cons(Box::new(id), Box::new(Chain::Cons(head, tail)))
            } else {
                Chain::Cons(head, Box::new(insert_sorted(*tail, id)))
            }
        },
    }
}

/// The enum families of a name table that declare one arm name, in
/// ascending order.
pub fn families_in(cx: &Ctx, entries: &Chain<NameEntry>, ctor: &Text) -> (r: Chain<u32>)
    ensures
        r == model::lookup::families_in(cx, entries, ctor),
    decreases entries,
{
    match entries {
        Chain::Nil => Chain::Nil,
        Chain::Cons(head, tail) => {
            let rest = families_in(cx, tail, ctor);
            if class_at(cx, head.id).kind == ClassKind::EnumParent && find_arm(cx, head.id, ctor).is_some() {
                insert_sorted(rest, head.id)
            } else {
                rest
            }
        },
    }
}

/// A sorted list of numbers with those of another.
pub fn insert_all_sorted(ids: Chain<u32>, more: Chain<u32>) -> (r: Chain<u32>)
    ensures
        r == model::lookup::insert_all_sorted(ids, more),
    decreases more,
{
    match more {
        Chain::Nil => ids,
        Chain::Cons(head, tail) => insert_all_sorted(insert_sorted(ids, *head), *tail),
    }
}

/// The families whose unqualified constructor names are in scope: those
/// of the module, and every core family for a constructor name of the
/// prelude.
pub fn ctor_families(cx: &Ctx, env: &TyEnv, ctor: &Text) -> (r: Chain<u32>)
    ensures
        r == model::lookup::ctor_families(cx, env, ctor),
{
    if env.core_scope {
        return families_in(cx, &cx.core_types, ctor);
    }
    let families = families_in(cx, &cx.user_types, ctor);
    if cx.prelude && is_prelude_ctor(ctor) {
        insert_all_sorted(families, families_in(cx, &cx.core_types, ctor))
    } else {
        families
    }
}

/// The position of one associated type by name.
pub fn associated_position(items: &Chain<AssociatedInfo>, name: &Text) -> (r: Option<u32>)
    ensures
        r == model::lookup::associated_position(items, name),
    decreases items,
{
    match items {
        Chain::Nil => None,
        Chain::Cons(head, tail) => {
            if same_text(&head.name, &*name) {
                Some(0u32)
            } else {
                match associated_position(tail, name) {
                    None => None,
                    Some(at) => Some(at.wrapping_add(1)),
                }
            }
        },
    }
}

/// A stack with the parents of an interface.
pub fn push_parents(parents: &Chain<InterfaceUse>, stack: Chain<u32>) -> (r: Chain<u32>)
    ensures
        r == model::lookup::push_parents(parents, stack),
    decreases parents,
{
    match parents {
        Chain::Nil => stack,
        Chain::Cons(head, tail) => push_parents(tail, cons(head.interface, stack)),
    }
}

/// Find an associated type among interfaces and their parents.
pub fn associated_walk(
    cx: &Ctx,
    name: &Text,
    stack: Chain<u32>,
    seen: Chain<u32>,
    found: Chain<AssocSlot>,
    steps: u32,
) -> (r: Chain<AssocSlot>)
    ensures
        r == model::lookup::associated_walk(cx, name, stack, seen, found, steps),
    decreases steps,
{
    if steps == 0 {
        return found;
    }
    match stack {
        Chain::Nil => found,
        Chain::Cons(current, rest) => {
            if holds_id(&seen, *current) {
                associated_walk(cx, name, *rest, seen, found, (steps - 1) as u32)
            } else {
                let contract = interface_at(cx, *current);
                let more = push_parents(&contract.parents, *rest);
                match associated_position(&contract.associated, name) {
                    Some(at) => {
                        let slot = AssocSlot { interface: *current, assoc: at };
                        associated_walk(cx, name, more, cons(*current, seen), append(found, slot), (steps - 1) as u32)
                    },
                    None => associated_walk(cx, name, more, cons(*current, seen), found, (steps - 1) as u32),
                }
            }
        },
    }
}

/// Find one associated type through an interface inheritance graph.
pub fn interface_associated(cx: &Ctx, interface: u32, name: &Text) -> (r: Chain<AssocSlot>)
    ensures
        r == model::lookup::interface_associated(cx, interface, name),
{
    associated_walk(cx, name, one(interface), Chain::Nil, Chain::Nil, 0xffff_ffffu32)
}

/// The position of one interface method by name.
pub fn find_method(methods: &Chain<InterfaceMethodSig>, name: &Text) -> (r: Option<u32>)
    ensures
        r == model::lookup::find_method(methods, name),
    decreases methods,
{
    match methods {
        Chain::Nil => None,
        Chain::Cons(head, tail) => {
            if same_text(&head.name, &*name) {
                Some(0u32)
            } else {
                match find_method(tail, name) {
                    None => None,
                    Some(at) => Some(at.wrapping_add(1)),
                }
            }
        },
    }
}

/// The method of one name that a class itself declares.
pub fn own_method<'a>(methods: &'a Chain<MethodSig>, name: &Text) -> (r: Option<&'a MethodSig>)
    ensures
        r == model::lookup::own_method(methods, name),
    decreases methods,
{
    match methods {
        Chain::Nil => None,
        Chain::Cons(head, tail) => {
            if same_text(&head.name, &*name) {
                Some(&**head)
            } else {
                own_method(tail, name)
            }
        },
    }
}

/// Whether a class is one class or inherits it.
pub fn class_extends(cx: &Ctx, class: u32, ancestor: u32) -> (r: bool)
    ensures
        r == model::lookup::class_extends(cx, class, ancestor),
    decreases class,
{
    if class == ancestor {
        return true;
    }
    match meta_at(cx, class).parent {
        None => false,
        Some(parent) => parent < class && class_extends(cx, parent, ancestor),
    }
}

/// The type arguments of the parent of a class, seen with the arguments
/// of the class. An enum arm passes its own arguments on.
pub fn parent_arguments(cx: &Ctx, class: u32, args: &Chain<Ty>) -> (r: Chain<Ty>)
    ensures
        r == model::lookup::parent_arguments(cx, class, args),
{
    let meta = meta_at(cx, class);
    if meta.kind != ClassKind::EnumCase || !meta.parent_args.is_empty() {
        substitute_all(&meta.parent_args, args, &Chain::Nil)
    } else {
        clone_tys(&*args)
    }
}

/// The type arguments of an ancestor, seen from a class with arguments.
pub fn ancestor_args(cx: &Ctx, class: u32, args: Chain<Ty>, ancestor: u32) -> (r: Option<Chain<Ty>>)
    ensures
        r == model::lookup::ancestor_args(cx, class, args, ancestor),
    decreases class,
{
    if class == ancestor {
        return Some(args);
    }
    let parent = match meta_at(cx, class).parent {
        Some(found) => found,
        None => {
            return None;
        },
    };
    if parent >= class {
        return None;
    }
    let above = parent_arguments(cx, class, &args);
    ancestor_args(cx, parent, above, ancestor)
}

/// Whether the values of a class are always frozen.
pub fn class_always_frozen(cx: &Ctx, class: u32) -> (r: bool)
    ensures
        r == model::lookup::class_always_frozen(cx, class),
{
    let info = class_at(cx, class);
    info.is_frozen || match info.native_repr {
        Some(NativeRepr::Unit) => true,
        Some(NativeRepr::Int) => true,
        Some(NativeRepr::Float) => true,
        Some(NativeRepr::Bool) => true,
        Some(NativeRepr::Text) => true,
        Some(NativeRepr::String) => true,
        Some(NativeRepr::Substring) => true,
        Some(NativeRepr::Char) => true,
        Some(NativeRepr::Bytes) => true,
        _ => false,
    }
}

/// Whether each type is always frozen.
pub fn all_always_frozen(cx: &Ctx, items: &Chain<Ty>, allow_var: bool, depth: u32) -> (r: bool)
    ensures
        r == model::lookup::all_always_frozen(cx, items, allow_var, depth),
    decreases items,
{
    match items {
        Chain::Nil => true,
        Chain::Cons(head, tail) => always_frozen_at(cx, head, allow_var, depth) && all_always_frozen(cx, tail, allow_var, depth),
    }
}

/// Whether a type is always frozen, up to a depth.
pub fn always_frozen_at(cx: &Ctx, ty: &Ty, allow_var: bool, depth: u32) -> (r: bool)
    ensures
        r == model::lookup::always_frozen_at(cx, ty, allow_var, depth),
    decreases ty,
{
    if depth >= 128 {
        return false;
    }
    match ty {
        Ty::Unit => true,
        Ty::Bool => true,
        Ty::Int => true,
        Ty::Float => true,
        Ty::Str => true,
        Ty::Never => true,
        Ty::Bytes => true,
        Ty::Digest => true,
        Ty::Fault => true,
        Ty::Op(_, _) => true,
        Ty::Var(_) => allow_var,
        Ty::Tuple(items) => all_always_frozen(cx, items, allow_var, (depth + 1) as u32),
        Ty::Class(class) => class_always_frozen(cx, *class),
        Ty::Inst(class, args) => class_always_frozen(cx, *class) && all_always_frozen(cx, args, allow_var, (depth + 1) as u32),
        _ => false,
    }
}

/// Whether every value of one type is deeply frozen.
pub fn type_always_frozen(cx: &Ctx, ty: &Ty, allow_var: bool) -> (r: bool)
    ensures
        r == model::lookup::type_always_frozen(cx, ty, allow_var),
{
    always_frozen_at(cx, ty, allow_var, 0u32)
}

/// The self type of a class.
pub fn class_self_type(class: u32, type_params: u32, native_repr: Option<NativeRepr>) -> (r: Ty)
    ensures
        r == model::lookup::class_self_type(class, type_params, native_repr),
{
    match native_repr {
        Some(NativeRepr::Unit) => Ty::Unit,
        Some(NativeRepr::Int) => Ty::Int,
        Some(NativeRepr::Float) => Ty::Float,
        Some(NativeRepr::Bool) => Ty::Bool,
        Some(NativeRepr::String) => Ty::Str,
        Some(NativeRepr::Bytes) => Ty::Bytes,
        Some(NativeRepr::FileHandle) => Ty::FileHandle,
        Some(NativeRepr::List) => Ty::ListOf(Box::new(Ty::Var(0))),
        Some(NativeRepr::MapRepr) => Ty::MapOf(Box::new(Ty::Var(0)), Box::new(Ty::Var(1))),
        Some(NativeRepr::Tuple(arity)) => Ty::Tuple(first_variables(arity as u32)),
        _ => {
            if type_params == 0 {
                Ty::Class(class)
            } else {
                Ty::Inst(class, first_variables(type_params))
            }
        },
    }
}

/// The first holder-local type inside a list.
pub fn holder_local_in(cx: &Ctx, st: Chain<u32>, items: &Chain<Ty>, steps: u32) -> (r: (Chain<u32>, Result<Option<Ty>, Stop>))
    ensures
        r == model::lookup::holder_local_in(cx, st, items, steps),
    decreases steps, items,
{
    match items {
        Chain::Nil => (st, Ok(None)),
        Chain::Cons(head, tail) => {
            let (st, out) = holder_local_part(cx, st, head, steps);
            let part = match out {
                Ok(found) => found,
                Err(stop) => {
                    return (st, Err(stop));
                },
            };
            match part {
                Some(found) => (st, Ok(Some(found))),
                None => holder_local_in(cx, st, tail, steps),
            }
        },
    }
}

/// The first holder-local part of one message type.
///
/// The walk reads the parts of a composite type, the type arguments of
/// a generic application, and the declared fields of every class it
/// reaches. It stops at a handle, whose type arguments name no part of
/// the handle value. `st` holds the classes already visited.
pub fn holder_local_part(cx: &Ctx, st: Chain<u32>, ty: &Ty, steps: u32) -> (r: (Chain<u32>, Result<Option<Ty>, Stop>))
    ensures
        r == model::lookup::holder_local_part(cx, st, ty, steps),
    decreases steps, ty,
{
    let local = match is_holder_local(cx, ty) {
        Ok(found) => found,
        Err(stop) => {
            return (st, Err(stop));
        },
    };
    if local {
        return (st, Ok(Some((*ty).clone())));
    }
    match ty {
        Ty::ListOf(item) => holder_local_part(cx, st, item, steps),
        Ty::MapOf(key, value) => {
            let (st, out) = holder_local_part(cx, st, key, steps);
            let part = match out {
                Ok(found) => found,
                Err(stop) => {
                    return (st, Err(stop));
                },
            };
            match part {
                Some(found) => (st, Ok(Some(found))),
                None => holder_local_part(cx, st, value, steps),
            }
        },
        Ty::Tuple(items) => holder_local_in(cx, st, items, steps),
        Ty::Class(class) => {
            match class_at(cx, *class).native_repr {
                Some(NativeRepr::StringBuilder) => (st, Ok(Some((*ty).clone()))),
                Some(NativeRepr::ByteBuffer) => (st, Ok(Some((*ty).clone()))),
                _ => {
                    if steps == 0 {
                        (st, Ok(None))
                    } else {
                        holder_local_class(cx, st, *class, (steps - 1) as u32)
                    }
                },
            }
        },
        Ty::Inst(class, args) => {
            let (st, out) = holder_local_in(cx, st, args, steps);
            let part = match out {
                Ok(found) => found,
                Err(stop) => {
                    return (st, Err(stop));
                },
            };
            match part {
                Some(found) => (st, Ok(Some(found))),
                None => {
                    if steps == 0 {
                        (st, Ok(None))
                    } else {
                        holder_local_class(cx, st, *class, (steps - 1) as u32)
                    }
                },
            }
        },
        _ => (st, Ok(None)),
    }
}

/// The first holder-local type inside the arms of an enum.
pub fn holder_local_arms(cx: &Ctx, st: Chain<u32>, arms: &Chain<u32>, steps: u32) -> (r: (Chain<u32>, Result<Option<Ty>, Stop>))
    ensures
        r == model::lookup::holder_local_arms(cx, st, arms, steps),
    decreases steps, arms,
{
    match arms {
        Chain::Nil => (st, Ok(None)),
        Chain::Cons(head, tail) => {
            if steps == 0 {
                (st, Ok(None))
            } else {
                let (st, out) = holder_local_class(cx, st, **head, (steps - 1) as u32);
                let part = match out {
                    Ok(found) => found,
                    Err(stop) => {
                        return (st, Err(stop));
                    },
                };
                match part {
                    Some(found) => (st, Ok(Some(found))),
                    None => holder_local_arms(cx, st, tail, steps),
                }
            }
        },
    }
}

/// The first holder-local field type of one class, its inherited fields
/// and the arms of an enum family included. A class is visited once.
pub fn holder_local_class(cx: &Ctx, st: Chain<u32>, class: u32, steps: u32) -> (r: (Chain<u32>, Result<Option<Ty>, Stop>))
    ensures
        r == model::lookup::holder_local_class(cx, st, class, steps),
    decreases steps, Chain::<u32>::Nil,
{
    if holds_id(&st, class) {
        return (st, Ok(None));
    }
    let st = append(st, class);
    if steps == 0 {
        return (st, Ok(None));
    }
    let (st, out) = holder_local_in(cx, st, &class_at(cx, class).field_tys, (steps - 1) as u32);
    let part = match out {
        Ok(found) => found,
        Err(stop) => {
            return (st, Err(stop));
        },
    };
    match part {
        Some(found) => (st, Ok(Some(found))),
        None => holder_local_arms(cx, st, &class_at(cx, class).arms, (steps - 1) as u32),
    }
}

/// Reject a mailbox message type that names a holder-local class. Every
/// message crosses a machine boundary as a copy, and a holder-local
/// value has no copy.
pub fn check_mailbox_type(cx: &Ctx, mailbox: &Ty, span: Span) -> (r: Result<(), Stop>)
    ensures
        r == model::lookup::check_mailbox_type(cx, mailbox, span),
{
    match holder_local_part(cx, Chain::Nil, mailbox, 0xffff_ffffu32) {
        (_, Err(stop)) => Err(stop),
        (_, Ok(None)) => Ok(()),
        (_, Ok(Some(part))) => Err(Stop::Fail(Diag { problem: Problem::HolderLocalMailbox { part: part }, subject: Chain::Nil, span: span })),
    }
}

} // verus!
