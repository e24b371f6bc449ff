//! Class and enum declarations.

use vstd::prelude::*;
use crate::answers::{compatible, row_included};
use crate::ast::{ArmDef, ArmField, ClassDef, EnumDef, FieldDef, MethodDef, Module, ParentClause, Span};
use crate::chain::{Chain, copy_chain};
use crate::conform::{empty_bounds, empty_env, lookup_method};
use crate::context::{AssocValue, ClassInfo, ClassKind, ClassMeta, Ctx, Decl, InterfaceUse, Layout, Members, MethodSig, NameEntry, NativeRepr, Natives, PendingKey, TupleClass, TyEnv, clone_interface_use_lists, clone_texts};
use crate::fulfil::{declared_class, with_class};
use crate::lists::{append, concat, cons, count, find_id, find_literal, first_unset, holds_name, nth, one, same_len, set_nth};
use crate::lookup::{check_mailbox_type, class_at, class_self_type, is_id, lookup_type, meta_at, own_method};
use crate::members::{resolve_conformance_shapes, resolve_method_sig};
use crate::names::{core_native_repr, dotted, tuple_core_arity};
use crate::problem::{Diag, Problem, Stop};
use crate::resolve::{check_key_type, named, resolve_generic_bounds, resolve_type, resolve_types, split_generics, unnamed};
use crate::subst::{contains_var, substitute_all};
use crate::text::{Text, is_text};
use crate::types::{Ty, clone_tys, same_flags, same_tys};
use crate::model::layout::{lemma_linked, linked};
use crate::model::keeps::{kept_decl, took_funcs};
use crate::model;

verus! {

broadcast use crate::model::keeps::group_kept;

/// The native classes with one core class at its role.
pub fn register_core_native_class(natives: Natives, name: &Text, class: u32) -> (r: Natives)
    ensures
        r == model::classes::register_core_native_class(natives, name, class),
{
    if is_text(&*name, "Unit") {
        return Natives { unit: Some(class), ..natives };
    }
    if is_text(&*name, "Int") {
        return Natives { int: Some(class), ..natives };
    }
    if is_text(&*name, "Float") {
        return Natives { float: Some(class), ..natives };
    }
    if is_text(&*name, "Bool") {
        return Natives { boolean: Some(class), ..natives };
    }
    if is_text(&*name, "String") {
        return Natives { string: Some(class), ..natives };
    }
    if is_text(&*name, "Bytes") {
        return Natives { bytes: Some(class), ..natives };
    }
    if is_text(&*name, "FileHandle") {
        return Natives { file: Some(class), ..natives };
    }
    if is_text(&*name, "List") {
        return Natives { list: Some(class), ..natives };
    }
    if is_text(&*name, "Map") {
        return Natives { map: Some(class), ..natives };
    }
    match tuple_core_arity(name) {
        Some(arity) => Natives { tuples: append(natives.tuples, TupleClass { arity: arity as u8, class: class }), ..natives },
        None => natives,
    }
}

/// Declare one class: a table entry, and a name for all but enum arms.
pub fn declare_class(cx: Ctx, name: Text, meta: ClassMeta, is_core: bool, span: Span) -> (r: Result<Ctx, Stop>)
    ensures
        r == model::classes::declare_class(cx, name, meta, is_core, span),
{
    let id = count(&cx.metas);
    let is_arm = meta.kind == ClassKind::EnumCase;
    let taken = if is_core { find_id(&cx.core_types, &name) } else { find_id(&cx.user_types, &name) };
    if !is_arm && taken.is_some() {
        return Err(Stop::Fail(Diag { problem: Problem::DuplicateDefinition, subject: name, span: span }));
    }
    let metas = append(cx.metas, meta);
    if is_arm {
        Ok(Ctx { metas: metas, ..cx })
    } else if is_core {
        Ok(Ctx { metas: metas, core_types: append(cx.core_types, NameEntry { name: name, id: id }), ..cx })
    } else {
        Ok(Ctx { metas: metas, user_types: append(cx.user_types, NameEntry { name: name, id: id }), ..cx })
    }
}

/// What predeclaration knows of a class without a parent.
pub fn new_meta(name: &Text, type_params: u32, kind: ClassKind, is_final: bool) -> (r: ClassMeta)
    ensures
        r == model::classes::new_meta(name, type_params, kind, is_final),
{
    ClassMeta { name: copy_chain(&*name), type_params: type_params, kind: kind, is_final: is_final, parent: None, parent_args: Chain::Nil }
}

/// Register the name of each class.
pub fn register_classes(cx: Ctx, classes: &Chain<ClassDef>, is_core: bool) -> (r: Result<Ctx, Stop>)
    ensures
        r == model::classes::register_classes(cx, classes, is_core),
    decreases classes,
{
    match classes {
        Chain::Nil => Ok(cx),
        Chain::Cons(head, tail) => {
            let generics = split_generics(&head.generics);
            let id = count(&cx.metas);
            if !generics.effects.is_empty() {
                Err(unnamed(Problem::ClassEffectParameters, head.name_span))
            } else {
                let next = match declare_class(cx, copy_chain(&head.name), new_meta(&head.name, count(&generics.types), ClassKind::Normal, head.is_final), is_core, head.name_span) {
                    Ok(found) => found,
                    Err(stop) => {
                        return Err(stop);
                    },
                };
                if is_core {
                    register_classes(Ctx { natives: register_core_native_class(next.natives, &head.name, id), ..next }, tail, is_core)
                } else {
                    register_classes(next, tail, is_core)
                }
            }
        },
    }
}

/// Register each arm of one enum.
pub fn register_arms(
    cx: Ctx,
    arms: &Chain<ArmDef>,
    family: &Text,
    type_params: u32,
    parent: u32,
    seen: Chain<Text>,
    is_core: bool,
) -> (r: Result<Ctx, Stop>)
    ensures
        r == model::classes::register_arms(cx, arms, family, type_params, parent, seen, is_core),
    decreases arms,
{
    match arms {
        Chain::Nil => Ok(cx),
        Chain::Cons(head, tail) => {
            if holds_name(&seen, &head.name) {
                Err(named(Problem::DuplicateArm, &head.name, head.name_span))
            } else {
                let full = dotted(family, &head.name);
                let meta = ClassMeta { parent: Some(parent), ..new_meta(&full, type_params, ClassKind::EnumCase, false) };
                let next = match declare_class(cx, full, meta, is_core, head.name_span) {
                    Ok(found) => found,
                    Err(stop) => {
                        return Err(stop);
                    },
                };
                register_arms(next, tail, family, type_params, parent, cons(copy_chain(&head.name), seen), is_core)
            }
        },
    }
}

/// Register each enum and its arms.
pub fn register_enums(cx: Ctx, enums: &Chain<EnumDef>, is_core: bool) -> (r: Result<Ctx, Stop>)
    ensures
        r == model::classes::register_enums(cx, enums, is_core),
    decreases enums,
{
    match enums {
        Chain::Nil => Ok(cx),
        Chain::Cons(head, tail) => {
            let generics = split_generics(&head.generics);
            let arity = count(&generics.types);
            let parent = count(&cx.metas);
            if !generics.effects.is_empty() {
                Err(unnamed(Problem::EnumEffectParameters, head.name_span))
            } else {
                let next = match declare_class(cx, copy_chain(&head.name), new_meta(&head.name, arity, ClassKind::EnumParent, false), is_core, head.name_span) {
                    Ok(found) => found,
                    Err(stop) => {
                        return Err(stop);
                    },
                };
                let next = match register_arms(next, &head.arms, &head.name, arity, parent, Chain::Nil, is_core) {
                    Ok(found) => found,
                    Err(stop) => {
                        return Err(stop);
                    },
                };
                register_enums(next, tail, is_core)
            }
        },
    }
}

/// Register all class and enum names of one source module. The arms of
/// an enum follow it in the class table.
pub fn register_type_names(cx: Ctx, module: &Module, is_core: bool) -> (r: Result<Ctx, Stop>)
    ensures
        r == model::classes::register_type_names(cx, module, is_core),
{
    let next = match register_classes(cx, &module.classes, is_core) {
        Ok(found) => found,
        Err(stop) => {
            return Err(stop);
        },
    };
    register_enums(next, &module.enums, is_core)
}

/// Whether a class is a core class of one name.
pub fn is_core_class(cx: &Ctx, class: u32, name: &str) -> (r: bool)
    ensures
        r == model::classes::is_core_class(cx, class, name),
{
    is_id(find_literal(&cx.core_types, name), class)
}

/// Why one class cannot be the parent of another.
pub fn parent_problem(cx: &Ctx, name: &Text, parent: u32, class: u32, is_core: bool) -> (r: Option<Problem>)
    ensures
        r == model::classes::parent_problem(cx, name, parent, class, is_core),
{
    let meta = meta_at(cx, parent);
    if !is_core && is_text(&*name, "Text") && is_core_class(cx, parent, "Text") {
        return Some(Problem::SealedText);
    }
    if !is_core && is_text(&*name, "TcpResource") && is_core_class(cx, parent, "TcpResource") {
        return Some(Problem::SealedTcp);
    }
    if !is_core && (is_core_class(cx, parent, "SyntaxElement") || is_core_class(cx, parent, "SyntaxNode")) {
        return Some(Problem::SealedSyntax);
    }
    if meta.is_final {
        return Some(Problem::FinalParent);
    }
    if meta.kind != ClassKind::Normal {
        return Some(Problem::SealedEnum);
    }
    if parent >= cx.import_start {
        return Some(Problem::ParentImported);
    }
    if parent >= class {
        Some(Problem::ParentAfterChild)
    } else {
        None
    }
}

/// The tables with the parent of one class set.
pub fn with_parent(cx: Ctx, class: u32, parent: u32, args: Chain<Ty>) -> (r: Ctx)
    ensures
        r == model::classes::with_parent(cx, class, parent, args),
{
    let meta = ClassMeta { parent: Some(parent), parent_args: args, ..(*meta_at(&cx, class)).clone() };
    Ctx { metas: set_nth(cx.metas, class, meta), ..cx }
}

/// Link one declared parent. A bare `Proc` parent stands for
/// `Proc[Never]`: the proc takes no message.
pub fn link_class_parent(
    cx: Ctx,
    st: Decl,
    declaration: &ClassDef,
    clause: &ParentClause,
    is_core: bool,
) -> (r: (Decl, Result<Ctx, Stop>))
    ensures
        r == model::classes::link_class_parent(cx, st, declaration, clause, is_core),
        kept_decl(st, r.0),
{
    let class = declared_class(&cx, &declaration.name, is_core);
    if !declaration.generics.is_empty() {
        return (st, Err(unnamed(Problem::GenericClassParent, clause.span)));
    }
    let env = TyEnv { core_scope: is_core, ..empty_env() };
    let parent = match lookup_type(&cx, &clause.name, &env) {
        Some(found) => found,
        None => {
            return (st, Err(named(Problem::UnknownParent, &clause.name, clause.span)));
        },
    };
    match parent_problem(&cx, &clause.name, parent, class, is_core) {
        Some(problem) => (st, Err(named(problem, &clause.name, clause.span))),
        None => {
            let wanted = meta_at(&cx, parent).type_params;
            if clause.args.is_empty() && is_core_class(&cx, parent, "Proc") {
                (st, Ok(with_parent(cx, class, parent, one(Ty::Never))))
            } else if count(&clause.args) != wanted {
                (st, Err(named(Problem::ParentArgumentCount { expected: wanted, found: count(&clause.args) }, &clause.name, clause.span)))
            } else {
                let (st, out) = resolve_types(&cx, &env, st, &clause.args);
                let args = match out {
                    Ok(found) => found,
                    Err(stop) => {
                        return (st, Err(stop));
                    },
                };
                (st, Ok(with_parent(cx, class, parent, args)))
            }
        },
    }
}

/// Link declared parent classes and reject invalid inheritance.
pub fn link_class_parents(cx: Ctx, st: Decl, classes: &Chain<ClassDef>, is_core: bool) -> (r: (Decl, Result<Ctx, Stop>))
    ensures
        r == model::classes::link_class_parents(cx, st, classes, is_core),
        kept_decl(st, r.0),
        r.1 matches Ok(next) ==> linked(cx, next),
    decreases classes,
{
    proof {
        lemma_linked(cx, st, *classes, is_core);
    }
    match classes {
        Chain::Nil => (st, Ok(cx)),
        Chain::Cons(head, tail) => {
            match &head.parent {
                None => link_class_parents(cx, st, tail, is_core),
                Some(clause) => {
                    let (st, out) = link_class_parent(cx, st, head, clause, is_core);
                    let next = match out {
                        Ok(found) => found,
                        Err(stop) => {
                            return (st, Err(stop));
                        },
                    };
                    link_class_parents(next, st, tail, is_core)
                },
            }
        },
    }
}

/// Whether the modifiers and the parent of a native core class fit its
/// representation.
pub fn native_layout_valid(cx: &Ctx, repr: NativeRepr, is_final: bool, parent: Option<u32>) -> (r: bool)
    ensures
        r == model::classes::native_layout_valid(cx, repr, is_final, parent),
{
    match repr {
        NativeRepr::Text => !is_final && parent.is_none(),
        NativeRepr::String => is_final && parent == find_literal(&cx.core_types, "Text"),
        NativeRepr::Substring => is_final && parent == find_literal(&cx.core_types, "Text"),
        NativeRepr::TcpResource => !is_final && parent.is_none(),
        NativeRepr::TcpStream => is_final && parent == find_literal(&cx.core_types, "TcpResource"),
        NativeRepr::TcpListener => is_final && parent == find_literal(&cx.core_types, "TcpResource"),
        _ => is_final && parent.is_none(),
    }
}

/// The number of type parameters of a native core class.
pub fn native_arity(repr: NativeRepr) -> (r: u32)
    ensures
        r == model::classes::native_arity(repr),
{
    match repr {
        NativeRepr::List => 1u32,
        NativeRepr::Tuple(arity) => arity as u32,
        NativeRepr::MapRepr => 2u32,
        NativeRepr::FunctionCode => 2u32,
        NativeRepr::FunctionDef => 2u32,
        NativeRepr::FunctionBinding => 2u32,
        _ => 0u32,
    }
}

/// Whether a class declares an initializer.
pub fn declares_init(methods: &Chain<MethodDef>) -> (r: bool)
    ensures
        r == model::classes::declares_init(methods),
    decreases methods,
{
    match methods {
        Chain::Nil => false,
        Chain::Cons(head, tail) => is_text(&head.name, "init") || declares_init(tail),
    }
}

/// Whether a native core class has no state of its own and the shape of
/// its representation.
pub fn native_shape_valid(
    cx: &Ctx,
    repr: Option<NativeRepr>,
    declaration: &ClassDef,
    parent: Option<u32>,
    arity: u32,
) -> (r: bool)
    ensures
        r == model::classes::native_shape_valid(cx, repr, declaration, parent, arity),
{
    match repr {
        None => true,
        Some(native) => {
            native_layout_valid(cx, native, declaration.is_final, parent) && arity == native_arity(native)
            && declaration.fields.is_empty() && !declares_init(&declaration.methods)
        },
    }
}

/// The first default of a generic parent whose type names a class
/// parameter.
pub fn generic_default<'a>(names: &'a Chain<Text>, tys: &Chain<Ty>, defaults: &Chain<bool>) -> (r: Option<&'a Text>)
    ensures
        r == model::classes::generic_default(names, tys, defaults),
    decreases names,
{
    match (names, tys, defaults) {
        (Chain::Cons(name, names_rest), Chain::Cons(ty, tys_rest), Chain::Cons(set, defaults_rest)) => {
            if **set && contains_var(ty) {
                Some(&**name)
            } else {
                generic_default(names_rest, tys_rest, defaults_rest)
            }
        },
        _ => None,
    }
}

/// The layout that a class takes over from its parent, with the type
/// arguments of the parent applied.
pub fn inherited_layout(cx: &Ctx, parent: Option<u32>, args: &Chain<Ty>, span: Span) -> (r: Result<Layout, Stop>)
    ensures
        r == model::classes::inherited_layout(cx, parent, args, span),
{
    match parent {
        None => Ok(Layout { names: Chain::Nil, tys: Chain::Nil, defaults: Chain::Nil }),
        Some(class) => {
            let info = class_at(cx, class);
            let free = if args.is_empty() { None } else { generic_default(&info.field_names, &info.field_tys, &info.has_default) };
            match free {
                Some(name) => Err(named(Problem::GenericDefault, name, span)),
                None => Ok(Layout { names: clone_texts(&info.field_names), tys: substitute_all(&info.field_tys, args, &Chain::Nil), defaults: copy_chain(&info.has_default) }),
            }
        },
    }
}

/// A layout with the own fields of a class.
pub fn own_fields(
    cx: &Ctx,
    env: &TyEnv,
    st: Decl,
    fields: &Chain<FieldDef>,
    layout: Layout,
) -> (r: (Decl, Result<Layout, Stop>))
    ensures
        r == model::classes::own_fields(cx, env, st, fields, layout),
        kept_decl(st, r.0),
    decreases fields,
{
    match fields {
        Chain::Nil => (st, Ok(layout)),
        Chain::Cons(head, tail) => {
            if holds_name(&layout.names, &head.name) {
                (st, Err(named(Problem::DuplicateField, &head.name, head.span)))
            } else {
                let (st, out) = resolve_type(cx, env, st, &head.ty);
                let ty = match out {
                    Ok(found) => found,
                    Err(stop) => {
                        return (st, Err(stop));
                    },
                };
                let next = Layout { names: append(layout.names, copy_chain(&head.name)), tys: append(layout.tys, ty), defaults: append(layout.defaults, head.default.is_some()) };
                own_fields(cx, env, st, tail, next)
            }
        },
    }
}

/// Require a method to keep what the method it overrides promises.
pub fn check_override(cx: &Ctx, base: &MethodSig, sig: &MethodSig, span: Span) -> (r: Result<(), Stop>)
    ensures
        r == model::classes::check_override(cx, base, sig, span),
{
    let same = same_tys(&base.params, &sig.params) && same_flags(&base.param_muts, &sig.param_muts) && base.mut_self == sig.mut_self
    && same_len(&base.own_type_params, &sig.own_type_params) && same_len(&base.own_effect_params, &sig.own_effect_params);
    if !same {
        return Err(named(Problem::OverrideParameters, &sig.name, span));
    }
    let narrows = match compatible(cx, &base.ret, &sig.ret) {
        Ok(found) => found,
        Err(stop) => {
            return Err(stop);
        },
    };
    if !narrows {
        return Err(named(Problem::OverrideResult, &sig.name, span));
    }
    let included = match row_included(cx, &sig.row, &base.row) {
        Ok(found) => found,
        Err(stop) => {
            return Err(stop);
        },
    };
    if included {
        Ok(())
    } else {
        Err(named(Problem::OverrideRow { parent: copy_chain(&base.row) }, &sig.name, span))
    }
}

/// Check a method against the nearest ancestor method of its name, read
/// with the arguments of the parent.
pub fn check_inherited_method(
    cx: &Ctx,
    parent: Option<u32>,
    parent_args: &Chain<Ty>,
    arity: u32,
    sig: &MethodSig,
    span: Span,
) -> (r: Result<(), Stop>)
    ensures
        r == model::classes::check_inherited_method(cx, parent, parent_args, arity, sig, span),
{
    match parent {
        None => Ok(()),
        Some(class) => {
            match lookup_method(cx, class, clone_tys(&*parent_args), arity, &sig.name) {
                None => Ok(()),
                Some(found) => check_override(cx, &found.sig, sig, span),
            }
        },
    }
}

/// Require an initializer to take `mut self` and to give no result.
pub fn check_init_shape(method: &MethodDef) -> (r: Result<(), Stop>)
    ensures
        r == model::classes::check_init_shape(method),
{
    if !method.mut_self {
        return Err(unnamed(Problem::InitNeedsMutSelf, method.name_span));
    }
    if method.ret.is_some() {
        Err(unnamed(Problem::InitResult, method.name_span))
    } else {
        Ok(())
    }
}

/// Resolve the methods of one class.
pub fn class_methods(
    cx: &Ctx,
    st: Decl,
    declaration: &ClassDef,
    methods: &Chain<MethodDef>,
    names: &Chain<Text>,
    bounds: &Chain<Chain<InterfaceUse>>,
    self_ty: &Ty,
    fields: &Chain<Text>,
    parent: Option<u32>,
    parent_args: &Chain<Ty>,
    is_core: bool,
    members: Members,
) -> (r: (Decl, Result<Members, Stop>))
    ensures
        r == model::classes::class_methods(cx, st, declaration, methods, names, bounds, self_ty, fields, parent, parent_args, is_core, members),
        r.1 is Ok ==> took_funcs(st, r.0, model::lists::count(methods)),
    decreases methods,
{
    match methods {
        Chain::Nil => (st, Ok(members)),
        Chain::Cons(head, tail) => {
            let is_init = is_text(&head.name, "init");
            if is_text(&head.name, "freeze") {
                (st, Err(unnamed(Problem::FreezeReserved, head.name_span)))
            } else if holds_name(fields, &head.name) || own_method(&members.methods, &head.name).is_some() || (is_init && members.init.is_some()) {
                (st, Err(named(Problem::DuplicateMember, &head.name, head.name_span)))
            } else if is_init {
                let _shape = match check_init_shape(head) {
                    Ok(found) => found,
                    Err(stop) => {
                        return (st, Err(stop));
                    },
                };
                let (st, out) = resolve_method_sig(cx, st, head, names, bounds, self_ty, is_core, true);
                let sig = match out {
                    Ok(found) => found,
                    Err(stop) => {
                        return (st, Err(stop));
                    },
                };
                class_methods(cx, st, declaration, tail, names, bounds, self_ty, fields, parent, parent_args, is_core, Members { init: Some(sig), ..members })
            } else if declaration.is_frozen && head.mut_self {
                (st, Err(unnamed(Problem::FrozenMutSelf, head.name_span)))
            } else {
                let (st, out) = resolve_method_sig(cx, st, head, names, bounds, self_ty, is_core, false);
                let sig = match out {
                    Ok(found) => found,
                    Err(stop) => {
                        return (st, Err(stop));
                    },
                };
                let _inherited = match check_inherited_method(cx, parent, parent_args, count(names), &sig, head.name_span) {
                    Ok(found) => found,
                    Err(stop) => {
                        return (st, Err(stop));
                    },
                };
                class_methods(cx, st, declaration, tail, names, bounds, self_ty, fields, parent, parent_args, is_core, Members { methods: append(members.methods, sig), ..members })
            }
        },
    }
}

/// The scope of the members of a class.
pub fn class_scope(
    names: &Chain<Text>,
    bounds: Chain<Chain<InterfaceUse>>,
    self_ty: &Ty,
    is_core: bool,
) -> (r: TyEnv)
    ensures
        r == model::classes::class_scope(names, bounds, self_ty, is_core),
{
    TyEnv {
        type_names: clone_texts(&*names),
        type_bounds: bounds,
        extra_bounds: Chain::Nil,
        effect_names: Chain::Nil,
        type_offset: 0,
        self_interface: None,
        self_ty: Some((*self_ty).clone()),
        core_scope: is_core,
    }
}

/// The span of a declaration that source positions refer to.
pub fn source_span(span: Span, is_core: bool) -> (r: Option<Span>)
    ensures
        r == model::classes::source_span(span, is_core),
{
    if is_core {
        None
    } else {
        Some(span)
    }
}

/// The machine representation of a class: core classes only have one.
pub fn class_repr(name: &Text, is_core: bool) -> (r: Option<NativeRepr>)
    ensures
        r == model::classes::class_repr(name, is_core),
{
    if is_core {
        core_native_repr(name)
    } else {
        None
    }
}

/// Where a parent is written: the whole class where it has none.
pub fn parent_span(declaration: &ClassDef) -> (r: Span)
    ensures
        r == model::classes::parent_span(declaration),
{
    match &declaration.parent {
        Some(clause) => clause.span,
        None => declaration.span,
    }
}

/// Require an initializer where a field has no default.
pub fn check_needs_init(members: &Members, layout: &Layout, span: Span) -> (r: Result<(), Stop>)
    ensures
        r == model::classes::check_needs_init(members, layout, span),
{
    if members.init.is_some() {
        return Ok(());
    }
    match first_unset(&layout.defaults) {
        None => Ok(()),
        Some(at) => {
            match nth(&layout.names, at) {
                Some(name) => Err(named(Problem::NeedsInit, name, span)),
                None => Ok(()),
            }
        },
    }
}

/// Resolve one class declaration: layout, methods, `init` and
/// conformances.
pub fn resolve_class(cx: &Ctx, st: Decl, declaration: &ClassDef, class: u32, is_core: bool) -> (r: (Decl, Result<ClassInfo, Stop>))
    ensures
        r == model::classes::resolve_class(cx, st, declaration, class, is_core),
        r.1 is Ok ==> took_funcs(st, r.0, model::lists::count(&declaration.methods)),
{
    let meta = meta_at(cx, class);
    let parent = meta.parent;
    let generics = split_generics(&declaration.generics);
    let arity = count(&generics.types);
    let repr = class_repr(&declaration.name, is_core);
    if !native_shape_valid(cx, repr, declaration, parent, arity) {
        return (st, Err(named(Problem::NativeShape, &declaration.name, declaration.span)));
    }
    let self_ty = class_self_type(class, arity, repr);
    let outer = class_scope(&generics.types, empty_bounds(&generics.types), &self_ty, is_core);
    let (st, out) = resolve_generic_bounds(cx, &outer, st, &declaration.generics);
    let bounds = match out {
        Ok(found) => found,
        Err(stop) => {
            return (st, Err(stop));
        },
    };
    let env = class_scope(&generics.types, clone_interface_use_lists(&bounds), &self_ty, is_core);
    let inherited = match inherited_layout(cx, parent, &meta.parent_args, parent_span(declaration)) {
        Ok(found) => found,
        Err(stop) => {
            return (st, Err(stop));
        },
    };
    let own_start = count(&inherited.names);
    let (st, out) = own_fields(cx, &env, st, &declaration.fields, inherited);
    let layout = match out {
        Ok(found) => found,
        Err(stop) => {
            return (st, Err(stop));
        },
    };
    let (st, out) = class_methods(cx, st, declaration, &declaration.methods, &generics.types, &bounds, &self_ty, &layout.names, parent, &meta.parent_args, is_core, Members { methods: Chain::Nil, init: None });
    let members = match out {
        Ok(found) => found,
        Err(stop) => {
            return (st, Err(stop));
        },
    };
    let _init = match check_needs_init(&members, &layout, declaration.name_span) {
        Ok(found) => found,
        Err(stop) => {
            return (st, Err(stop));
        },
    };
    let (st, out) = resolve_conformance_shapes(cx, &env, st, &declaration.interfaces, &declaration.associated, class, &self_ty);
    let conformances = match out {
        Ok(found) => found,
        Err(stop) => {
            return (st, Err(stop));
        },
    };
    (st, Ok(ClassInfo {
        imported: false,
        source_span: source_span(declaration.span, is_core),
        is_final: declaration.is_final,
        is_frozen: declaration.is_frozen,
        native_repr: repr,
        name: copy_chain(&declaration.name),
        parent: parent,
        type_params: generics.types,
        type_bounds: bounds,
        conformances: conformances,
        kind: ClassKind::Normal,
        self_ty: self_ty,
        field_names: layout.names,
        field_tys: layout.tys,
        has_default: layout.defaults,
        own_start: own_start,
        methods: members.methods,
        init: members.init,
        family: None,
        arms: Chain::Nil,
        arm_short: Chain::Nil,
    }))
}

/// The layout of one enum arm.
pub fn arm_layout(cx: &Ctx, env: &TyEnv, st: Decl, fields: &Chain<ArmField>) -> (r: (Decl, Result<Layout, Stop>))
    ensures
        r == model::classes::arm_layout(cx, env, st, fields),
        kept_decl(st, r.0),
    decreases fields,
{
    match fields {
        Chain::Nil => (st, Ok(Layout { names: Chain::Nil, tys: Chain::Nil, defaults: Chain::Nil })),
        Chain::Cons(head, tail) => {
            let (st, out) = resolve_type(cx, env, st, &head.ty);
            let ty = match out {
                Ok(found) => found,
                Err(stop) => {
                    return (st, Err(stop));
                },
            };
            let (st, out) = arm_layout(cx, env, st, tail);
            let rest = match out {
                Ok(found) => found,
                Err(stop) => {
                    return (st, Err(stop));
                },
            };
            (st, Ok(Layout { names: cons(copy_chain(&head.name), rest.names), tys: cons(ty, rest.tys), defaults: cons(false, rest.defaults) }))
        },
    }
}

/// The layout of each enum arm.
pub fn arm_layouts(cx: &Ctx, env: &TyEnv, st: Decl, arms: &Chain<ArmDef>) -> (r: (Decl, Result<Chain<Layout>, Stop>))
    ensures
        r == model::classes::arm_layouts(cx, env, st, arms),
        kept_decl(st, r.0),
    decreases arms,
{
    match arms {
        Chain::Nil => (st, Ok(Chain::Nil)),
        Chain::Cons(head, tail) => {
            let (st, out) = arm_layout(cx, env, st, &head.fields);
            let first = match out {
                Ok(found) => found,
                Err(stop) => {
                    return (st, Err(stop));
                },
            };
            let (st, out) = arm_layouts(cx, env, st, tail);
            let rest = match out {
                Ok(found) => found,
                Err(stop) => {
                    return (st, Err(stop));
                },
            };
            (st, Ok(cons(first, rest)))
        },
    }
}

/// Resolve the methods of one enum.
pub fn enum_methods(
    cx: &Ctx,
    st: Decl,
    methods: &Chain<MethodDef>,
    names: &Chain<Text>,
    bounds: &Chain<Chain<InterfaceUse>>,
    self_ty: &Ty,
    is_core: bool,
    found: Chain<MethodSig>,
) -> (r: (Decl, Result<Chain<MethodSig>, Stop>))
    ensures
        r == model::classes::enum_methods(cx, st, methods, names, bounds, self_ty, is_core, found),
        r.1 is Ok ==> took_funcs(st, r.0, model::lists::count(methods)),
    decreases methods,
{
    match methods {
        Chain::Nil => (st, Ok(found)),
        Chain::Cons(head, tail) => {
            if is_text(&head.name, "freeze") {
                (st, Err(unnamed(Problem::FreezeReserved, head.name_span)))
            } else if is_text(&head.name, "init") {
                (st, Err(unnamed(Problem::EnumInit, head.name_span)))
            } else if own_method(&found, &head.name).is_some() {
                (st, Err(named(Problem::DuplicateEnumMember, &head.name, head.name_span)))
            } else {
                let (st, out) = resolve_method_sig(cx, st, head, names, bounds, self_ty, is_core, false);
                let sig = match out {
                    Ok(found) => found,
                    Err(stop) => {
                        return (st, Err(stop));
                    },
                };
                enum_methods(cx, st, tail, names, bounds, self_ty, is_core, append(found, sig))
            }
        },
    }
}

/// The consecutive class indices of the arms of an enum.
pub fn arm_ids(arms: &Chain<ArmDef>, first: u32) -> (r: Chain<u32>)
    ensures
        r == model::classes::arm_ids(arms, first),
    decreases arms,
{
    match arms {
        Chain::Nil => Chain::Nil,
        Chain::Cons(_, tail) => cons(first, arm_ids(tail, first.wrapping_add(1))),
    }
}

/// The entry of one enum arm.
pub fn arm_info(
    declaration: &EnumDef,
    arm: &ArmDef,
    layout: Layout,
    class: u32,
    family: u32,
    names: &Chain<Text>,
    bounds: &Chain<Chain<InterfaceUse>>,
    is_core: bool,
) -> (r: ClassInfo)
    ensures
        r == model::classes::arm_info(declaration, arm, layout, class, family, names, bounds, is_core),
{
    ClassInfo {
        imported: false,
        source_span: source_span(declaration.span, is_core),
        is_final: false,
        is_frozen: false,
        native_repr: None,
        name: dotted(&declaration.name, &arm.name),
        parent: Some(family),
        type_params: clone_texts(&*names),
        type_bounds: clone_interface_use_lists(&*bounds),
        conformances: Chain::Nil,
        kind: ClassKind::EnumCase,
        self_ty: class_self_type(class, count(names), None),
        field_names: layout.names,
        field_tys: layout.tys,
        has_default: layout.defaults,
        own_start: 0,
        methods: Chain::Nil,
        init: None,
        family: Some(family),
        arms: Chain::Nil,
        arm_short: copy_chain(&arm.name),
    }
}

/// The tables with the resolved arms of an enum.
pub fn with_arms(
    cx: Ctx,
    declaration: &EnumDef,
    arms: &Chain<ArmDef>,
    layouts: Chain<Layout>,
    class: u32,
    family: u32,
    names: &Chain<Text>,
    bounds: &Chain<Chain<InterfaceUse>>,
    is_core: bool,
) -> (r: Ctx)
    ensures
        r == model::classes::with_arms(cx, declaration, arms, layouts, class, family, names, bounds, is_core),
    decreases arms,
{
    match (arms, layouts) {
        (Chain::Cons(arm, arms_rest), Chain::Cons(layout, layouts_rest)) => {
            let info = arm_info(declaration, arm, *layout, class, family, names, bounds, is_core);
            with_arms(with_class(cx, class, info), declaration, arms_rest, *layouts_rest, class.wrapping_add(1), family, names, bounds, is_core)
        },
        _ => cx,
    }
}

/// Resolve one enum: the abstract parent, the case classes, and the
/// family methods on the parent.
pub fn resolve_enum(cx: Ctx, st: Decl, declaration: &EnumDef, is_core: bool) -> (r: (Decl, Result<Ctx, Stop>))
    ensures
        r == model::classes::resolve_enum(cx, st, declaration, is_core),
        r.1 is Ok ==> took_funcs(st, r.0, model::lists::count(&declaration.methods)),
{
    let family = declared_class(&cx, &declaration.name, is_core);
    let generics = split_generics(&declaration.generics);
    let self_ty = class_self_type(family, count(&generics.types), None);
    let outer = class_scope(&generics.types, empty_bounds(&generics.types), &self_ty, is_core);
    let (st, out) = resolve_generic_bounds(&cx, &outer, st, &declaration.generics);
    let bounds = match out {
        Ok(found) => found,
        Err(stop) => {
            return (st, Err(stop));
        },
    };
    let env = class_scope(&generics.types, clone_interface_use_lists(&bounds), &self_ty, is_core);
    let (st, out) = arm_layouts(&cx, &env, st, &declaration.arms);
    let layouts = match out {
        Ok(found) => found,
        Err(stop) => {
            return (st, Err(stop));
        },
    };
    let (st, out) = enum_methods(&cx, st, &declaration.methods, &generics.types, &bounds, &self_ty, is_core, Chain::Nil);
    let methods = match out {
        Ok(found) => found,
        Err(stop) => {
            return (st, Err(stop));
        },
    };
    let info = ClassInfo {
        imported: false,
        source_span: source_span(declaration.span, is_core),
        is_final: false,
        is_frozen: false,
        native_repr: None,
        name: copy_chain(&declaration.name),
        parent: None,
        type_params: clone_texts(&generics.types),
        type_bounds: clone_interface_use_lists(&bounds),
        conformances: Chain::Nil,
        kind: ClassKind::EnumParent,
        self_ty: self_ty.clone(),
        field_names: Chain::Nil,
        field_tys: Chain::Nil,
        has_default: Chain::Nil,
        own_start: 0,
        methods: methods,
        init: None,
        family: None,
        arms: arm_ids(&declaration.arms, family.wrapping_add(1)),
        arm_short: Chain::Nil,
    };
    let cx = with_class(cx, family, info);
    let (st, out) = resolve_conformance_shapes(&cx, &env, st, &declaration.interfaces, &declaration.associated, family, &self_ty);
    let conformances = match out {
        Ok(found) => found,
        Err(stop) => {
            return (st, Err(stop));
        },
    };
    let info = ClassInfo { conformances: conformances, ..(*class_at(&cx, family)).clone() };
    let cx = with_class(cx, family, info);
    (st, Ok(with_arms(cx, declaration, &declaration.arms, layouts, family.wrapping_add(1), family, &generics.types, &bounds, is_core)))
}

/// The tables with the associated types that resolution has bound.
pub fn with_values(cx: Ctx, values: Chain<AssocValue>) -> (r: Ctx)
    ensures
        r == model::classes::with_values(cx, values),
{
    Ctx { assoc_values: concat(values, cx.assoc_values), ..cx }
}

/// Resolve each class of a source module.
pub fn resolve_each_class(cx: Ctx, st: Decl, classes: &Chain<ClassDef>, is_core: bool) -> (r: (Decl, Result<Ctx, Stop>))
    ensures
        r == model::classes::resolve_each_class(cx, st, classes, is_core),
        r.1 is Ok ==> took_funcs(st, r.0, model::modules::class_method_count(classes)),
    decreases classes,
{
    match classes {
        Chain::Nil => (st, Ok(cx)),
        Chain::Cons(head, tail) => {
            let class = declared_class(&cx, &head.name, is_core);
            let (st, out) = resolve_class(&cx, st, head, class, is_core);
            let info = match out {
                Ok(found) => found,
                Err(stop) => {
                    return (st, Err(stop));
                },
            };
            let next = with_values(with_class(cx, class, info), st.values);
            resolve_each_class(next, Decl { values: Chain::Nil, ..st }, tail, is_core)
        },
    }
}

/// Resolve each enum of a source module.
pub fn resolve_each_enum(cx: Ctx, st: Decl, enums: &Chain<EnumDef>, is_core: bool) -> (r: (Decl, Result<Ctx, Stop>))
    ensures
        r == model::classes::resolve_each_enum(cx, st, enums, is_core),
        r.1 is Ok ==> took_funcs(st, r.0, model::modules::enum_method_count(enums)),
    decreases enums,
{
    match enums {
        Chain::Nil => (st, Ok(cx)),
        Chain::Cons(head, tail) => {
            let (st, out) = resolve_enum(cx, st, head, is_core);
            let resolved = match out {
                Ok(found) => found,
                Err(stop) => {
                    return (st, Err(stop));
                },
            };
            let next = with_values(resolved, st.values);
            resolve_each_enum(next, Decl { values: Chain::Nil, ..st }, tail, is_core)
        },
    }
}

/// Resolve the classes and enums of one source module, in class-index
/// order.
pub fn resolve_all_classes(cx: Ctx, st: Decl, module: &Module, is_core: bool) -> (r: (Decl, Result<Ctx, Stop>))
    ensures
        r == model::classes::resolve_all_classes(cx, st, module, is_core),
        r.1 is Ok ==> took_funcs(st, r.0, model::modules::method_count(module)),
{
    let (st, out) = resolve_each_class(cx, st, &module.classes, is_core);
    let next = match out {
        Ok(found) => found,
        Err(stop) => {
            return (st, Err(stop));
        },
    };
    resolve_each_enum(next, st, &module.enums, is_core)
}

/// Require the mailbox type of every `Proc` subclass to be a type whose
/// values can be copied.
pub fn check_mailbox_types(cx: &Ctx, classes: &Chain<ClassDef>) -> (r: Result<(), Stop>)
    ensures
        r == model::classes::check_mailbox_types(cx, classes),
    decreases classes,
{
    match classes {
        Chain::Nil => Ok(()),
        Chain::Cons(head, tail) => {
            let _mailbox = match check_class_mailbox(cx, head) {
                Ok(found) => found,
                Err(stop) => {
                    return Err(stop);
                },
            };
            check_mailbox_types(cx, tail)
        },
    }
}

/// Check the mailbox type of one class.
pub fn check_class_mailbox(cx: &Ctx, declaration: &ClassDef) -> (r: Result<(), Stop>)
    ensures
        r == model::classes::check_class_mailbox(cx, declaration),
{
    match (find_literal(&cx.core_types, "Proc"), &declaration.parent) {
        (Some(proc_class), Some(clause)) => {
            match &clause.args {
                Chain::Nil => Ok(()),
                Chain::Cons(written, _) => {
                    let meta = meta_at(cx, declared_class(cx, &declaration.name, false));
                    if !is_id(meta.parent, proc_class) {
                        Ok(())
                    } else {
                        match nth(&meta.parent_args, 0u32) {
                            Some(mailbox) => check_mailbox_type(cx, mailbox, written.span),
                            None => Ok(()),
                        }
                    }
                },
            }
        },
        _ => Ok(()),
    }
}

/// Check the map keys that waited for the complete class table.
pub fn check_deferred_map_keys(cx: &Ctx, keys: &Chain<PendingKey>) -> (r: Result<(), Stop>)
    ensures
        r == model::classes::check_deferred_map_keys(cx, keys),
    decreases keys,
{
    match keys {
        Chain::Nil => Ok(()),
        Chain::Cons(head, tail) => {
            match check_key_type(cx, &head.env, Decl { keys: Chain::Nil, next_func: 0, values: Chain::Nil }, &head.key, head.span) {
                (_, Err(stop)) => Err(stop),
                (_, Ok(_)) => check_deferred_map_keys(cx, tail),
            }
        },
    }
}

} // verus!
