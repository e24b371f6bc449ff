//! Class and enum declarations.
//!
//! The functions here state what the functions of the same name compute.

use vstd::prelude::*;
use crate::ast::{ArmDef, ArmField, ClassDef, EnumDef, FieldDef, MethodDef, Module, ParentClause, Span};
use crate::chain::Chain;
use crate::context::{AssocValue, ClassInfo, ClassKind, ClassMeta, Ctx, Decl, InterfaceUse, Layout, Members, MethodSig, NameEntry, NativeRepr, Natives, PendingKey, TupleClass, TyEnv};
use crate::model::answers::{compatible, row_included};
use crate::model::conform::{empty_bounds, empty_env, lookup_method};
use crate::model::fulfil::{declared_class, with_class};
use crate::model::lists::{append, concat, cons, count, find_id, find_literal, first_unset, holds_name, nth, one, same_len, set_nth};
use crate::model::lookup::{check_mailbox_type, class_at, class_self_type, is_id, lookup_type, meta_at, own_method};
use crate::model::members::{resolve_conformance_shapes, resolve_method_sig};
use crate::model::names::{core_native_repr, dotted, tuple_core_arity};
use crate::model::resolve::{check_key_type, named, resolve_generic_bounds, resolve_type, resolve_types, split_generics, unnamed};
use crate::model::subst::{contains_var, substitute_all};
use crate::problem::{Diag, Problem, Stop};
use crate::text::Text;
use crate::types::Ty;

verus! {

/// The native classes with one core class at its role.
pub open spec fn register_core_native_class(natives: Natives, name: &Text, class: u32) -> Natives
{
    if ((*name)@ == "Unit"@) {
        Natives { unit: Some(class), ..natives }
    } else if ((*name)@ == "Int"@) {
        Natives { int: Some(class), ..natives }
    } else if ((*name)@ == "Float"@) {
        Natives { float: Some(class), ..natives }
    } else if ((*name)@ == "Bool"@) {
        Natives { boolean: Some(class), ..natives }
    } else if ((*name)@ == "String"@) {
        Natives { string: Some(class), ..natives }
    } else if ((*name)@ == "Bytes"@) {
        Natives { bytes: Some(class), ..natives }
    } else if ((*name)@ == "FileHandle"@) {
        Natives { file: Some(class), ..natives }
    } else if ((*name)@ == "List"@) {
        Natives { list: Some(class), ..natives }
    } else if ((*name)@ == "Map"@) {
        Natives { map: Some(class), ..natives }
    } else {
        match tuple_core_arity(name) {
            Some(arity) => Natives { tuples: append(natives.tuples, TupleClass { arity: arity as u8, class: class }), ..natives },
            None => natives,
        }
    }
}

/// Declare one class: a table entry, and a name for all but enum arms.
pub open spec fn declare_class(cx: Ctx, name: Text, meta: ClassMeta, is_core: bool, span: Span) -> Result<Ctx, Stop>
{
    let id = count(&cx.metas);
    let is_arm = meta.kind == ClassKind::EnumCase;
    let taken = if is_core { find_id(&cx.core_types, &name) } else { find_id(&cx.user_types, &name) };
    if !is_arm && taken.is_some() {
        Err(Stop::Fail(Diag { problem: Problem::DuplicateDefinition, subject: name, span: span }))
    } else {
        let metas = append(cx.metas, meta);
        if is_arm {
            Ok(Ctx { metas: metas, ..cx })
        } else if is_core {
            Ok(Ctx { metas: metas, core_types: append(cx.core_types, NameEntry { name: name, id: id }), ..cx })
        } else {
            Ok(Ctx { metas: metas, user_types: append(cx.user_types, NameEntry { name: name, id: id }), ..cx })
        }
    }
}

/// What predeclaration knows of a class without a parent.
pub open spec fn new_meta(name: &Text, type_params: u32, kind: ClassKind, is_final: bool) -> ClassMeta
{
    ClassMeta { name: *name, type_params: type_params, kind: kind, is_final: is_final, parent: None, parent_args: Chain::Nil }
}

/// Register the name of each class.
pub open spec fn register_classes(cx: Ctx, classes: &Chain<ClassDef>, is_core: bool) -> Result<Ctx, Stop>
    decreases classes,
{
    match classes {
        Chain::Nil => Ok(cx),
        Chain::Cons(head, tail) => {
            let generics = split_generics(&head.generics);
            let id = count(&cx.metas);
            if !generics.effects.is_empty() {
                Err(unnamed(Problem::ClassEffectParameters, head.name_span))
            } else {
                match declare_class(cx, head.name, new_meta(&head.name, count(&generics.types), ClassKind::Normal, head.is_final), is_core, head.name_span) {
                    Err(stop) => Err(stop),
                    Ok(next) => {
                        if is_core {
                            register_classes(Ctx { natives: register_core_native_class(next.natives, &head.name, id), ..next }, tail, is_core)
                        } else {
                            register_classes(next, tail, is_core)
                        }
                    },
                }
            }
        },
    }
}

/// Register each arm of one enum.
pub open spec fn register_arms(
    cx: Ctx,
    arms: &Chain<ArmDef>,
    family: &Text,
    type_params: u32,
    parent: u32,
    seen: Chain<Text>,
    is_core: bool,
) -> Result<Ctx, Stop>
    decreases arms,
{
    match arms {
        Chain::Nil => Ok(cx),
        Chain::Cons(head, tail) => {
            if holds_name(&seen, &head.name) {
                Err(named(Problem::DuplicateArm, &head.name, head.name_span))
            } else {
                let full = dotted(family, &head.name);
                let meta = ClassMeta { parent: Some(parent), ..new_meta(&full, type_params, ClassKind::EnumCase, false) };
                match declare_class(cx, full, meta, is_core, head.name_span) {
                    Err(stop) => Err(stop),
                    Ok(next) => {
                        register_arms(next, tail, family, type_params, parent, cons(head.name, seen), is_core)
                    },
                }
            }
        },
    }
}

/// Register each enum and its arms.
pub open spec fn register_enums(cx: Ctx, enums: &Chain<EnumDef>, is_core: bool) -> Result<Ctx, Stop>
    decreases enums,
{
    match enums {
        Chain::Nil => Ok(cx),
        Chain::Cons(head, tail) => {
            let generics = split_generics(&head.generics);
            let arity = count(&generics.types);
            let parent = count(&cx.metas);
            if !generics.effects.is_empty() {
                Err(unnamed(Problem::EnumEffectParameters, head.name_span))
            } else {
                match declare_class(cx, head.name, new_meta(&head.name, arity, ClassKind::EnumParent, false), is_core, head.name_span) {
                    Err(stop) => Err(stop),
                    Ok(next) => {
                        match register_arms(next, &head.arms, &head.name, arity, parent, Chain::Nil, is_core) {
                            Err(stop) => Err(stop),
                            Ok(next) => {
                                register_enums(next, tail, is_core)
                            },
                        }
                    },
                }
            }
        },
    }
}

/// Register all class and enum names of one source module. The arms of
/// an enum follow it in the class table.
pub open spec fn register_type_names(cx: Ctx, module: &Module, is_core: bool) -> Result<Ctx, Stop>
{
    match register_classes(cx, &module.classes, is_core) {
        Err(stop) => Err(stop),
        Ok(next) => {
            register_enums(next, &module.enums, is_core)
        },
    }
}

/// Whether a class is a core class of one name.
pub open spec fn is_core_class(cx: &Ctx, class: u32, name: &str) -> bool
{
    is_id(find_literal(&cx.core_types, name), class)
}

/// Why one class cannot be the parent of another.
pub open spec fn parent_problem(cx: &Ctx, name: &Text, parent: u32, class: u32, is_core: bool) -> Option<Problem>
{
    let meta = meta_at(cx, parent);
    if !is_core && ((*name)@ == "Text"@) && is_core_class(cx, parent, "Text") {
        Some(Problem::SealedText)
    } else if !is_core && ((*name)@ == "TcpResource"@) && is_core_class(cx, parent, "TcpResource") {
        Some(Problem::SealedTcp)
    } else if !is_core && (is_core_class(cx, parent, "SyntaxElement") || is_core_class(cx, parent, "SyntaxNode")) {
        Some(Problem::SealedSyntax)
    } else if meta.is_final {
        Some(Problem::FinalParent)
    } else if meta.kind != ClassKind::Normal {
        Some(Problem::SealedEnum)
    } else if parent >= cx.import_start {
        Some(Problem::ParentImported)
    } else if parent >= class {
        Some(Problem::ParentAfterChild)
    } else {
        None
    }
}

/// The tables with the parent of one class set.
pub open spec fn with_parent(cx: Ctx, class: u32, parent: u32, args: Chain<Ty>) -> Ctx
{
    let meta = ClassMeta { parent: Some(parent), parent_args: args, ..*meta_at(&cx, class) };
    Ctx { metas: set_nth(cx.metas, class, meta), ..cx }
}

/// Link one declared parent. A bare `Proc` parent stands for
/// `Proc[Never]`: the proc takes no message.
pub open spec fn link_class_parent(
    cx: Ctx,
    st: Decl,
    declaration: &ClassDef,
    clause: &ParentClause,
    is_core: bool,
) -> (Decl, Result<Ctx, Stop>)
{
    let class = declared_class(&cx, &declaration.name, is_core);
    if !declaration.generics.is_empty() {
        (st, Err(unnamed(Problem::GenericClassParent, clause.span)))
    } else {
        let env = TyEnv { core_scope: is_core, ..empty_env() };
        match lookup_type(&cx, &clause.name, &env) {
            None => (st, Err(named(Problem::UnknownParent, &clause.name, clause.span))),
            Some(parent) => {
                match parent_problem(&cx, &clause.name, parent, class, is_core) {
                    Some(problem) => (st, Err(named(problem, &clause.name, clause.span))),
                    None => {
                        let wanted = meta_at(&cx, parent).type_params;
                        if clause.args.is_empty() && is_core_class(&cx, parent, "Proc") {
                            (st, Ok(with_parent(cx, class, parent, one(Ty::Never))))
                        } else if count(&clause.args) != wanted {
                            (st, Err(named(Problem::ParentArgumentCount { expected: wanted, found: count(&clause.args) }, &clause.name, clause.span)))
                        } else {
                            match resolve_types(&cx, &env, st, &clause.args) {
                                (st, Err(stop)) => (st, Err(stop)),
                                (st, Ok(args)) => {
                                    (st, Ok(with_parent(cx, class, parent, args)))
                                },
                            }
                        }
                    },
                }
            },
        }
    }
}

/// Link declared parent classes and reject invalid inheritance.
pub open spec fn link_class_parents(cx: Ctx, st: Decl, classes: &Chain<ClassDef>, is_core: bool) -> (Decl, Result<Ctx, Stop>)
    decreases classes,
{
    match classes {
        Chain::Nil => (st, Ok(cx)),
        Chain::Cons(head, tail) => {
            match &head.parent {
                None => link_class_parents(cx, st, tail, is_core),
                Some(clause) => {
                    match link_class_parent(cx, st, head, clause, is_core) {
                        (st, Err(stop)) => (st, Err(stop)),
                        (st, Ok(next)) => {
                            link_class_parents(next, st, tail, is_core)
                        },
                    }
                },
            }
        },
    }
}

/// Whether the modifiers and the parent of a native core class fit its
/// representation.
pub open spec fn native_layout_valid(cx: &Ctx, repr: NativeRepr, is_final: bool, parent: Option<u32>) -> bool
{
    match repr {
        NativeRepr::Text => !is_final && parent.is_none(),
        NativeRepr::String => is_final && parent == find_literal(&cx.core_types, "Text"),
        NativeRepr::Substring => is_final && parent == find_literal(&cx.core_types, "Text"),
        NativeRepr::TcpResource => !is_final && parent.is_none(),
        NativeRepr::TcpStream => is_final && parent == find_literal(&cx.core_types, "TcpResource"),
        NativeRepr::TcpListener => is_final && parent == find_literal(&cx.core_types, "TcpResource"),
        _ => is_final && parent.is_none(),
    }
}

/// The number of type parameters of a native core class.
pub open spec fn native_arity(repr: NativeRepr) -> u32
{
    match repr {
        NativeRepr::List => 1u32,
        NativeRepr::Tuple(arity) => arity as u32,
        NativeRepr::MapRepr => 2u32,
        NativeRepr::FunctionCode => 2u32,
        NativeRepr::FunctionDef => 2u32,
        NativeRepr::FunctionBinding => 2u32,
        _ => 0u32,
    }
}

/// Whether a class declares an initializer.
pub open spec fn declares_init(methods: &Chain<MethodDef>) -> bool
    decreases methods,
{
    match methods {
        Chain::Nil => false,
        Chain::Cons(head, tail) => (head.name@ == "init"@) || declares_init(tail),
    }
}

/// Whether a native core class has no state of its own and the shape of
/// its representation.
pub open spec fn native_shape_valid(
    cx: &Ctx,
    repr: Option<NativeRepr>,
    declaration: &ClassDef,
    parent: Option<u32>,
    arity: u32,
) -> bool
{
    match repr {
        None => true,
        Some(native) => {
            native_layout_valid(cx, native, declaration.is_final, parent) && arity == native_arity(native)
            && declaration.fields.is_empty() && !declares_init(&declaration.methods)
        },
    }
}

/// The first default of a generic parent whose type names a class
/// parameter.
pub open spec fn generic_default<'a>(names: &'a Chain<Text>, tys: &Chain<Ty>, defaults: &Chain<bool>) -> Option<&'a Text>
    decreases names,
{
    match (names, tys, defaults) {
        (Chain::Cons(name, names_rest), Chain::Cons(ty, tys_rest), Chain::Cons(set, defaults_rest)) => {
            if **set && contains_var(ty) {
                Some(&**name)
            } else {
                generic_default(names_rest, tys_rest, defaults_rest)
            }
        },
        _ => None,
    }
}

/// The layout that a class takes over from its parent, with the type
/// arguments of the parent applied.
pub open spec fn inherited_layout(cx: &Ctx, parent: Option<u32>, args: &Chain<Ty>, span: Span) -> Result<Layout, Stop>
{
    match parent {
        None => Ok(Layout { names: Chain::Nil, tys: Chain::Nil, defaults: Chain::Nil }),
        Some(class) => {
            let info = class_at(cx, class);
            let free = if args.is_empty() { None } else { generic_default(&info.field_names, &info.field_tys, &info.has_default) };
            match free {
                Some(name) => Err(named(Problem::GenericDefault, name, span)),
                None => Ok(Layout { names: info.field_names, tys: substitute_all(&info.field_tys, args, &Chain::Nil), defaults: info.has_default }),
            }
        },
    }
}

/// A layout with the own fields of a class.
pub open spec fn own_fields(
    cx: &Ctx,
    env: &TyEnv,
    st: Decl,
    fields: &Chain<FieldDef>,
    layout: Layout,
) -> (Decl, Result<Layout, Stop>)
    decreases fields,
{
    match fields {
        Chain::Nil => (st, Ok(layout)),
        Chain::Cons(head, tail) => {
            if holds_name(&layout.names, &head.name) {
                (st, Err(named(Problem::DuplicateField, &head.name, head.span)))
            } else {
                match resolve_type(cx, env, st, &head.ty) {
                    (st, Err(stop)) => (st, Err(stop)),
                    (st, Ok(ty)) => {
                        let next = Layout { names: append(layout.names, head.name), tys: append(layout.tys, ty), defaults: append(layout.defaults, head.default.is_some()) };
                        own_fields(cx, env, st, tail, next)
                    },
                }
            }
        },
    }
}

/// Require a method to keep what the method it overrides promises.
pub open spec fn check_override(cx: &Ctx, base: &MethodSig, sig: &MethodSig, span: Span) -> Result<(), Stop>
{
    let same = (base.params == sig.params) && (base.param_muts == sig.param_muts) && base.mut_self == sig.mut_self
    && same_len(&base.own_type_params, &sig.own_type_params) && same_len(&base.own_effect_params, &sig.own_effect_params);
    if !same {
        Err(named(Problem::OverrideParameters, &sig.name, span))
    } else {
        match compatible(cx, &base.ret, &sig.ret) {
            Err(stop) => Err(stop),
            Ok(narrows) => {
                if !narrows {
                    Err(named(Problem::OverrideResult, &sig.name, span))
                } else {
                    match row_included(cx, &sig.row, &base.row) {
                        Err(stop) => Err(stop),
                        Ok(included) => {
                            if included {
                                Ok(())
                            } else {
                                Err(named(Problem::OverrideRow { parent: base.row }, &sig.name, span))
                            }
                        },
                    }
                }
            },
        }
    }
}

/// Check a method against the nearest ancestor method of its name, read
/// with the arguments of the parent.
pub open spec fn check_inherited_method(
    cx: &Ctx,
    parent: Option<u32>,
    parent_args: &Chain<Ty>,
    arity: u32,
    sig: &MethodSig,
    span: Span,
) -> Result<(), Stop>
{
    match parent {
        None => Ok(()),
        Some(class) => {
            match lookup_method(cx, class, *parent_args, arity, &sig.name) {
                None => Ok(()),
                Some(found) => check_override(cx, &found.sig, sig, span),
            }
        },
    }
}

/// Require an initializer to take `mut self` and to give no result.
pub open spec fn check_init_shape(method: &MethodDef) -> Result<(), Stop>
{
    if !method.mut_self {
        Err(unnamed(Problem::InitNeedsMutSelf, method.name_span))
    } else if method.ret.is_some() {
        Err(unnamed(Problem::InitResult, method.name_span))
    } else {
        Ok(())
    }
}

/// Resolve the methods of one class.
pub open spec fn class_methods(
    cx: &Ctx,
    st: Decl,
    declaration: &ClassDef,
    methods: &Chain<MethodDef>,
    names: &Chain<Text>,
    bounds: &Chain<Chain<InterfaceUse>>,
    self_ty: &Ty,
    fields: &Chain<Text>,
    parent: Option<u32>,
    parent_args: &Chain<Ty>,
    is_core: bool,
    members: Members,
) -> (Decl, Result<Members, Stop>)
    decreases methods,
{
    match methods {
        Chain::Nil => (st, Ok(members)),
        Chain::Cons(head, tail) => {
            let is_init = (head.name@ == "init"@);
            if (head.name@ == "freeze"@) {
                (st, Err(unnamed(Problem::FreezeReserved, head.name_span)))
            } else if holds_name(fields, &head.name) || own_method(&members.methods, &head.name).is_some() || (is_init && members.init.is_some()) {
                (st, Err(named(Problem::DuplicateMember, &head.name, head.name_span)))
            } else if is_init {
                match check_init_shape(head) {
                    Err(stop) => (st, Err(stop)),
                    Ok(_shape) => {
                        match resolve_method_sig(cx, st, head, names, bounds, self_ty, is_core, true) {
                            (st, Err(stop)) => (st, Err(stop)),
                            (st, Ok(sig)) => {
                                class_methods(cx, st, declaration, tail, names, bounds, self_ty, fields, parent, parent_args, is_core, Members { init: Some(sig), ..members })
                            },
                        }
                    },
                }
            } else if declaration.is_frozen && head.mut_self {
                (st, Err(unnamed(Problem::FrozenMutSelf, head.name_span)))
            } else {
                match resolve_method_sig(cx, st, head, names, bounds, self_ty, is_core, false) {
                    (st, Err(stop)) => (st, Err(stop)),
                    (st, Ok(sig)) => {
                        match check_inherited_method(cx, parent, parent_args, count(names), &sig, head.name_span) {
                            Err(stop) => (st, Err(stop)),
                            Ok(_inherited) => {
                                class_methods(cx, st, declaration, tail, names, bounds, self_ty, fields, parent, parent_args, is_core, Members { methods: append(members.methods, sig), ..members })
                            },
                        }
                    },
                }
            }
        },
    }
}

/// The scope of the members of a class.
pub open spec fn class_scope(
    names: &Chain<Text>,
    bounds: Chain<Chain<InterfaceUse>>,
    self_ty: &Ty,
    is_core: bool,
) -> TyEnv
{
    TyEnv {
        type_names: *names,
        type_bounds: bounds,
        extra_bounds: Chain::Nil,
        effect_names: Chain::Nil,
        type_offset: 0,
        self_interface: None,
        self_ty: Some(*self_ty),
        core_scope: is_core,
    }
}

/// The span of a declaration that source positions refer to.
pub open spec fn source_span(span: Span, is_core: bool) -> Option<Span>
{
    if is_core {
        None
    } else {
        Some(span)
    }
}

/// The machine representation of a class: core classes only have one.
pub open spec fn class_repr(name: &Text, is_core: bool) -> Option<NativeRepr>
{
    if is_core {
        core_native_repr(name)
    } else {
        None
    }
}

/// Where a parent is written: the whole class where it has none.
pub open spec fn parent_span(declaration: &ClassDef) -> Span
{
    match &declaration.parent {
        Some(clause) => clause.span,
        None => declaration.span,
    }
}

/// Require an initializer where a field has no default.
pub open spec fn check_needs_init(members: &Members, layout: &Layout, span: Span) -> Result<(), Stop>
{
    if members.init.is_some() {
        Ok(())
    } else {
        match first_unset(&layout.defaults) {
            None => Ok(()),
            Some(at) => {
                match nth(&layout.names, at) {
                    Some(name) => Err(named(Problem::NeedsInit, name, span)),
                    None => Ok(()),
                }
            },
        }
    }
}

/// Resolve one class declaration: layout, methods, `init` and
/// conformances.
pub open spec fn resolve_class(cx: &Ctx, st: Decl, declaration: &ClassDef, class: u32, is_core: bool) -> (Decl, Result<ClassInfo, Stop>)
{
    let meta = meta_at(cx, class);
    let parent = meta.parent;
    let generics = split_generics(&declaration.generics);
    let arity = count(&generics.types);
    let repr = class_repr(&declaration.name, is_core);
    if !native_shape_valid(cx, repr, declaration, parent, arity) {
        (st, Err(named(Problem::NativeShape, &declaration.name, declaration.span)))
    } else {
        let self_ty = class_self_type(class, arity, repr);
        let outer = class_scope(&generics.types, empty_bounds(&generics.types), &self_ty, is_core);
        match resolve_generic_bounds(cx, &outer, st, &declaration.generics) {
            (st, Err(stop)) => (st, Err(stop)),
            (st, Ok(bounds)) => {
                let env = class_scope(&generics.types, bounds, &self_ty, is_core);
                match inherited_layout(cx, parent, &meta.parent_args, parent_span(declaration)) {
                    Err(stop) => (st, Err(stop)),
                    Ok(inherited) => {
                        let own_start = count(&inherited.names);
                        match own_fields(cx, &env, st, &declaration.fields, inherited) {
                            (st, Err(stop)) => (st, Err(stop)),
                            (st, Ok(layout)) => {
                                match class_methods(cx, st, declaration, &declaration.methods, &generics.types, &bounds, &self_ty, &layout.names, parent, &meta.parent_args, is_core, Members { methods: Chain::Nil, init: None }) {
                                    (st, Err(stop)) => (st, Err(stop)),
                                    (st, Ok(members)) => {
                                        match check_needs_init(&members, &layout, declaration.name_span) {
                                            Err(stop) => (st, Err(stop)),
                                            Ok(_init) => {
                                                match resolve_conformance_shapes(cx, &env, st, &declaration.interfaces, &declaration.associated, class, &self_ty) {
                                                    (st, Err(stop)) => (st, Err(stop)),
                                                    (st, Ok(conformances)) => {
                                                        (st, Ok(ClassInfo {
                                                            imported: false,
                                                            source_span: source_span(declaration.span, is_core),
                                                            is_final: declaration.is_final,
                                                            is_frozen: declaration.is_frozen,
                                                            native_repr: repr,
                                                            name: declaration.name,
                                                            parent: parent,
                                                            type_params: generics.types,
                                                            type_bounds: bounds,
                                                            conformances: conformances,
                                                            kind: ClassKind::Normal,
                                                            self_ty: self_ty,
                                                            field_names: layout.names,
                                                            field_tys: layout.tys,
                                                            has_default: layout.defaults,
                                                            own_start: own_start,
                                                            methods: members.methods,
                                                            init: members.init,
                                                            family: None,
                                                            arms: Chain::Nil,
                                                            arm_short: Chain::Nil,
                                                        }))
                                                    },
                                                }
                                            },
                                        }
                                    },
                                }
                            },
                        }
                    },
                }
            },
        }
    }
}

/// The layout of one enum arm.
pub open spec fn arm_layout(cx: &Ctx, env: &TyEnv, st: Decl, fields: &Chain<ArmField>) -> (Decl, Result<Layout, Stop>)
    decreases fields,
{
    match fields {
        Chain::Nil => (st, Ok(Layout { names: Chain::Nil, tys: Chain::Nil, defaults: Chain::Nil })),
        Chain::Cons(head, tail) => {
            match resolve_type(cx, env, st, &head.ty) {
                (st, Err(stop)) => (st, Err(stop)),
                (st, Ok(ty)) => {
                    match arm_layout(cx, env, st, tail) {
                        (st, Err(stop)) => (st, Err(stop)),
                        (st, Ok(rest)) => {
                            (st, Ok(Layout { names: cons(head.name, rest.names), tys: cons(ty, rest.tys), defaults: cons(false, rest.defaults) }))
                        },
                    }
                },
            }
        },
    }
}

/// The layout of each enum arm.
pub open spec fn arm_layouts(cx: &Ctx, env: &TyEnv, st: Decl, arms: &Chain<ArmDef>) -> (Decl, Result<Chain<Layout>, Stop>)
    decreases arms,
{
    match arms {
        Chain::Nil => (st, Ok(Chain::Nil)),
        Chain::Cons(head, tail) => {
            match arm_layout(cx, env, st, &head.fields) {
                (st, Err(stop)) => (st, Err(stop)),
                (st, Ok(first)) => {
                    match arm_layouts(cx, env, st, tail) {
                        (st, Err(stop)) => (st, Err(stop)),
                        (st, Ok(rest)) => {
                            (st, Ok(cons(first, rest)))
                        },
                    }
                },
            }
        },
    }
}

/// Resolve the methods of one enum.
pub open spec fn enum_methods(
    cx: &Ctx,
    st: Decl,
    methods: &Chain<MethodDef>,
    names: &Chain<Text>,
    bounds: &Chain<Chain<InterfaceUse>>,
    self_ty: &Ty,
    is_core: bool,
    found: Chain<MethodSig>,
) -> (Decl, Result<Chain<MethodSig>, Stop>)
    decreases methods,
{
    match methods {
        Chain::Nil => (st, Ok(found)),
        Chain::Cons(head, tail) => {
            if (head.name@ == "freeze"@) {
                (st, Err(unnamed(Problem::FreezeReserved, head.name_span)))
            } else if (head.name@ == "init"@) {
                (st, Err(unnamed(Problem::EnumInit, head.name_span)))
            } else if own_method(&found, &head.name).is_some() {
                (st, Err(named(Problem::DuplicateEnumMember, &head.name, head.name_span)))
            } else {
                match resolve_method_sig(cx, st, head, names, bounds, self_ty, is_core, false) {
                    (st, Err(stop)) => (st, Err(stop)),
                    (st, Ok(sig)) => {
                        enum_methods(cx, st, tail, names, bounds, self_ty, is_core, append(found, sig))
                    },
                }
            }
        },
    }
}

/// The consecutive class indices of the arms of an enum.
pub open spec fn arm_ids(arms: &Chain<ArmDef>, first: u32) -> Chain<u32>
    decreases arms,
{
    match arms {
        Chain::Nil => Chain::Nil,
        Chain::Cons(_, tail) => cons(first, arm_ids(tail, first.wrapping_add(1))),
    }
}

/// The entry of one enum arm.
pub open spec fn arm_info(
    declaration: &EnumDef,
    arm: &ArmDef,
    layout: Layout,
    class: u32,
    family: u32,
    names: &Chain<Text>,
    bounds: &Chain<Chain<InterfaceUse>>,
    is_core: bool,
) -> ClassInfo
{
    ClassInfo {
        imported: false,
        source_span: source_span(declaration.span, is_core),
        is_final: false,
        is_frozen: false,
        native_repr: None,
        name: dotted(&declaration.name, &arm.name),
        parent: Some(family),
        type_params: *names,
        type_bounds: *bounds,
        conformances: Chain::Nil,
        kind: ClassKind::EnumCase,
        self_ty: class_self_type(class, count(names), None),
        field_names: layout.names,
        field_tys: layout.tys,
        has_default: layout.defaults,
        own_start: 0,
        methods: Chain::Nil,
        init: None,
        family: Some(family),
        arms: Chain::Nil,
        arm_short: arm.name,
    }
}

/// The tables with the resolved arms of an enum.
pub open spec fn with_arms(
    cx: Ctx,
    declaration: &EnumDef,
    arms: &Chain<ArmDef>,
    layouts: Chain<Layout>,
    class: u32,
    family: u32,
    names: &Chain<Text>,
    bounds: &Chain<Chain<InterfaceUse>>,
    is_core: bool,
) -> Ctx
    decreases arms,
{
    match (arms, layouts) {
        (Chain::Cons(arm, arms_rest), Chain::Cons(layout, layouts_rest)) => {
            let info = arm_info(declaration, arm, *layout, class, family, names, bounds, is_core);
            with_arms(with_class(cx, class, info), declaration, arms_rest, *layouts_rest, class.wrapping_add(1), family, names, bounds, is_core)
        },
        _ => cx,
    }
}

/// Resolve one enum: the abstract parent, the case classes, and the
/// family methods on the parent.
pub open spec fn resolve_enum(cx: Ctx, st: Decl, declaration: &EnumDef, is_core: bool) -> (Decl, Result<Ctx, Stop>)
{
    let family = declared_class(&cx, &declaration.name, is_core);
    let generics = split_generics(&declaration.generics);
    let self_ty = class_self_type(family, count(&generics.types), None);
    let outer = class_scope(&generics.types, empty_bounds(&generics.types), &self_ty, is_core);
    match resolve_generic_bounds(&cx, &outer, st, &declaration.generics) {
        (st, Err(stop)) => (st, Err(stop)),
        (st, Ok(bounds)) => {
            let env = class_scope(&generics.types, bounds, &self_ty, is_core);
            match arm_layouts(&cx, &env, st, &declaration.arms) {
                (st, Err(stop)) => (st, Err(stop)),
                (st, Ok(layouts)) => {
                    match enum_methods(&cx, st, &declaration.methods, &generics.types, &bounds, &self_ty, is_core, Chain::Nil) {
                        (st, Err(stop)) => (st, Err(stop)),
                        (st, Ok(methods)) => {
                            let info = ClassInfo {
                                imported: false,
                                source_span: source_span(declaration.span, is_core),
                                is_final: false,
                                is_frozen: false,
                                native_repr: None,
                                name: declaration.name,
                                parent: None,
                                type_params: generics.types,
                                type_bounds: bounds,
                                conformances: Chain::Nil,
                                kind: ClassKind::EnumParent,
                                self_ty: self_ty,
                                field_names: Chain::Nil,
                                field_tys: Chain::Nil,
                                has_default: Chain::Nil,
                                own_start: 0,
                                methods: methods,
                                init: None,
                                family: None,
                                arms: arm_ids(&declaration.arms, family.wrapping_add(1)),
                                arm_short: Chain::Nil,
                            };
                            let cx = with_class(cx, family, info);
                            match resolve_conformance_shapes(&cx, &env, st, &declaration.interfaces, &declaration.associated, family, &self_ty) {
                                (st, Err(stop)) => (st, Err(stop)),
                                (st, Ok(conformances)) => {
                                    let info = ClassInfo { conformances: conformances, ..*class_at(&cx, family) };
                                    let cx = with_class(cx, family, info);
                                    (st, Ok(with_arms(cx, declaration, &declaration.arms, layouts, family.wrapping_add(1), family, &generics.types, &bounds, is_core)))
                                },
                            }
                        },
                    }
                },
            }
        },
    }
}

/// The tables with the associated types that resolution has bound.
pub open spec fn with_values(cx: Ctx, values: Chain<AssocValue>) -> Ctx
{
    Ctx { assoc_values: concat(values, cx.assoc_values), ..cx }
}

/// Resolve each class of a source module.
pub open spec fn resolve_each_class(cx: Ctx, st: Decl, classes: &Chain<ClassDef>, is_core: bool) -> (Decl, Result<Ctx, Stop>)
    decreases classes,
{
    match classes {
        Chain::Nil => (st, Ok(cx)),
        Chain::Cons(head, tail) => {
            let class = declared_class(&cx, &head.name, is_core);
            match resolve_class(&cx, st, head, class, is_core) {
                (st, Err(stop)) => (st, Err(stop)),
                (st, Ok(info)) => {
                    let next = with_values(with_class(cx, class, info), st.values);
                    resolve_each_class(next, Decl { values: Chain::Nil, ..st }, tail, is_core)
                },
            }
        },
    }
}

/// Resolve each enum of a source module.
pub open spec fn resolve_each_enum(cx: Ctx, st: Decl, enums: &Chain<EnumDef>, is_core: bool) -> (Decl, Result<Ctx, Stop>)
    decreases enums,
{
    match enums {
        Chain::Nil => (st, Ok(cx)),
        Chain::Cons(head, tail) => {
            match resolve_enum(cx, st, head, is_core) {
                (st, Err(stop)) => (st, Err(stop)),
                (st, Ok(resolved)) => {
                    let next = with_values(resolved, st.values);
                    resolve_each_enum(next, Decl { values: Chain::Nil, ..st }, tail, is_core)
                },
            }
        },
    }
}

/// Resolve the classes and enums of one source module, in class-index
/// order.
pub open spec fn resolve_all_classes(cx: Ctx, st: Decl, module: &Module, is_core: bool) -> (Decl, Result<Ctx, Stop>)
{
    match resolve_each_class(cx, st, &module.classes, is_core) {
        (st, Err(stop)) => (st, Err(stop)),
        (st, Ok(next)) => {
            resolve_each_enum(next, st, &module.enums, is_core)
        },
    }
}

/// Require the mailbox type of every `Proc` subclass to be a type whose
/// values can be copied.
pub open spec fn check_mailbox_types(cx: &Ctx, classes: &Chain<ClassDef>) -> Result<(), Stop>
    decreases classes,
{
    match classes {
        Chain::Nil => Ok(()),
        Chain::Cons(head, tail) => {
            match check_class_mailbox(cx, head) {
                Err(stop) => Err(stop),
                Ok(_mailbox) => {
                    check_mailbox_types(cx, tail)
                },
            }
        },
    }
}

/// Check the mailbox type of one class.
pub open spec fn check_class_mailbox(cx: &Ctx, declaration: &ClassDef) -> Result<(), Stop>
{
    match (find_literal(&cx.core_types, "Proc"), &declaration.parent) {
        (Some(proc_class), Some(clause)) => {
            match &clause.args {
                Chain::Nil => Ok(()),
                Chain::Cons(written, _) => {
                    let meta = meta_at(cx, declared_class(cx, &declaration.name, false));
                    if !is_id(meta.parent, proc_class) {
                        Ok(())
                    } else {
                        match nth(&meta.parent_args, 0u32) {
                            Some(mailbox) => check_mailbox_type(cx, mailbox, written.span),
                            None => Ok(()),
                        }
                    }
                },
            }
        },
        _ => Ok(()),
    }
}

/// Check the map keys that waited for the complete class table.
pub open spec fn check_deferred_map_keys(cx: &Ctx, keys: &Chain<PendingKey>) -> Result<(), Stop>
    decreases keys,
{
    match keys {
        Chain::Nil => Ok(()),
        Chain::Cons(head, tail) => {
            match check_key_type(cx, &head.env, Decl { keys: Chain::Nil, next_func: 0, values: Chain::Nil }, &head.key, head.span) {
                (_, Err(stop)) => Err(stop),
                (_, Ok(_)) => check_deferred_map_keys(cx, tail),
            }
        },
    }
}

} // verus!
