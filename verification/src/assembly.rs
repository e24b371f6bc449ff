//! The checked module: exports, classes, interfaces and named functions.

use vstd::prelude::*;
use crate::ast::{ArmDef, ClassDef, EnumDef, FuncDef, InterfaceDef, Module, clone_opt_text};
use crate::chain::{Chain, copy_chain};
use crate::context::{ClassInfo, ClassKind, ConformanceInfo, Ctx, InterfaceInfo, InterfaceMethodSig, MethodSig, NameEntry, NativeRepr, Params, clone_associated_infos, clone_interface_use_lists, clone_interface_uses, clone_texts, clone_type_premises};
use crate::fulfil::{declared_class, declared_interface};
use crate::hir::HirFunc;
use crate::lists::{append, concat, cons, count, falses, find_id, nth, one};
use crate::lookup::{class_at, find_arm, interface_at, meta_at};
use crate::names::{behind, dotted};
use crate::program::{CheckOptions, ClassOrigin, CtorKind, DefKind, FieldDefault, FuncBinding, Halt, HirClass, HirConformance, HirExport, HirInterface, HirInterfaceMethod, HirModule, Key, clone_field_defaults, same_key};
use crate::scope::decimal_before;
use crate::state::MadeFunc;
use crate::text::{Text, is_text, same_text, text};
use crate::types::{Row, Ty, clone_tys};
use crate::model::sound::{};
use crate::model;

verus! {

broadcast use crate::model::sound::group_sound;

/// The name of the core module.
pub fn core_path() -> (r: Text)
    ensures
        r == model::assembly::core_path(),
{
    text("core")
}

/// The qualified name of one class of another module.
pub fn origin_of<'a>(origins: &'a Chain<ClassOrigin>, class: u32) -> (r: Option<&'a Key>)
    ensures
        r == model::assembly::origin_of(origins, class),
    decreases origins,
{
    match origins {
        Chain::Nil => None,
        Chain::Cons(head, tail) => {
            if head.class == class {
                Some(&head.key)
            } else {
                origin_of(tail, class)
            }
        },
    }
}

/// The qualified name of a class: of the core, of this module, or of the
/// module that it comes from.
pub fn class_key(cx: &Ctx, origins: &Chain<ClassOrigin>, class: u32, path: &Text) -> (r: Key)
    ensures
        r == model::assembly::class_key(cx, origins, class, path),
{
    let name = copy_chain(&class_at(cx, class).name);
    if class < cx.user_start {
        return Key { module: core_path(), name: name };
    }
    if class < cx.import_start {
        return Key { module: copy_chain(&*path), name: name };
    }
    match origin_of(origins, class) {
        Some(key) => (*key).clone(),
        None => Key { module: copy_chain(&*path), name: name },
    }
}

/// The exported defaults of one interface.
pub fn default_exports(methods: &Chain<InterfaceMethodSig>) -> (r: Chain<HirExport>)
    ensures
        r == model::assembly::default_exports(methods),
    decreases methods,
{
    match methods {
        Chain::Nil => Chain::Nil,
        Chain::Cons(head, tail) => {
            let rest = default_exports(tail);
            match (&head.default_binding, head.default_func) {
                (Some(binding), Some(func)) => cons(HirExport { kind: DefKind::Function, name: copy_chain(&*binding), def: func }, rest),
                _ => rest,
            }
        },
    }
}

/// The exports of interfaces, in order.
pub fn interface_exports(cx: &Ctx, interfaces: &Chain<InterfaceDef>, is_core: bool) -> (r: Chain<HirExport>)
    ensures
        r == model::assembly::interface_exports(cx, interfaces, is_core),
    decreases interfaces,
{
    match interfaces {
        Chain::Nil => Chain::Nil,
        Chain::Cons(head, tail) => {
            let id = declared_interface(cx, &head.name, is_core);
            let rest = concat(default_exports(&interface_at(cx, id).methods), interface_exports(cx, tail, is_core));
            cons(HirExport { kind: DefKind::Interface, name: copy_chain(&head.name), def: id }, rest)
        },
    }
}

/// The exports of classes, in order.
pub fn class_exports(cx: &Ctx, classes: &Chain<ClassDef>, is_core: bool) -> (r: Chain<HirExport>)
    ensures
        r == model::assembly::class_exports(cx, classes, is_core),
    decreases classes,
{
    match classes {
        Chain::Nil => Chain::Nil,
        Chain::Cons(head, tail) => cons(HirExport { kind: DefKind::Class, name: copy_chain(&head.name), def: declared_class(cx, &head.name, is_core) }, class_exports(cx, tail, is_core)),
    }
}

/// The exported arms of one enum.
pub fn arm_exports(cx: &Ctx, arms: &Chain<ArmDef>, family: u32, name: &Text) -> (r: Chain<HirExport>)
    ensures
        r == model::assembly::arm_exports(cx, arms, family, name),
    decreases arms,
{
    match arms {
        Chain::Nil => Chain::Nil,
        Chain::Cons(head, tail) => {
            let rest = arm_exports(cx, tail, family, name);
            match find_arm(cx, family, &head.name) {
                Some(class) => cons(HirExport { kind: DefKind::EnumCase, name: dotted(name, &head.name), def: class }, rest),
                None => rest,
            }
        },
    }
}

/// The exports of enums and their arms, in order.
pub fn enum_exports(cx: &Ctx, enums: &Chain<EnumDef>, is_core: bool) -> (r: Chain<HirExport>)
    ensures
        r == model::assembly::enum_exports(cx, enums, is_core),
    decreases enums,
{
    match enums {
        Chain::Nil => Chain::Nil,
        Chain::Cons(head, tail) => {
            let family = declared_class(cx, &head.name, is_core);
            let rest = concat(arm_exports(cx, &head.arms, family, &head.name), enum_exports(cx, tail, is_core));
            cons(HirExport { kind: DefKind::Enum, name: copy_chain(&head.name), def: family }, rest)
        },
    }
}

/// The function table of one source module.
pub fn function_names<'a>(cx: &'a Ctx, is_core: bool) -> (r: &'a Chain<NameEntry>)
    ensures
        r == model::assembly::function_names(cx, is_core),
{
    if is_core {
        &cx.core_func_index
    } else {
        &cx.func_index
    }
}

/// The exports of functions, in order.
pub fn function_exports(cx: &Ctx, funcs: &Chain<FuncDef>, is_core: bool) -> (r: Chain<HirExport>)
    ensures
        r == model::assembly::function_exports(cx, funcs, is_core),
    decreases funcs,
{
    match funcs {
        Chain::Nil => Chain::Nil,
        Chain::Cons(head, tail) => {
            let rest = function_exports(cx, tail, is_core);
            match find_id(function_names(cx, is_core), &head.name) {
                Some(func) => cons(HirExport { kind: DefKind::Function, name: copy_chain(&head.name), def: func }, rest),
                None => rest,
            }
        },
    }
}

/// The exported definitions of a source module, in declaration order. A
/// module exports only what it defines.
pub fn collect_exports(cx: &Ctx, module: &Module, is_core: bool) -> (r: Chain<HirExport>)
    ensures
        r == model::assembly::collect_exports(cx, module, is_core),
{
    let funcs = function_exports(cx, &module.funcs, is_core);
    let enums = concat(enum_exports(cx, &module.enums, is_core), funcs);
    let classes = concat(class_exports(cx, &module.classes, is_core), enums);
    concat(interface_exports(cx, &module.interfaces, is_core), classes)
}

/// Whether an export list holds one function.
pub fn exports_func(exports: &Chain<HirExport>, func: u32) -> (r: bool)
    ensures
        r == model::assembly::exports_func(exports, func),
    decreases exports,
{
    match exports {
        Chain::Nil => false,
        Chain::Cons(head, tail) => (head.kind == DefKind::Function && head.def == func) || exports_func(tail, func),
    }
}

/// Whether a method list holds one function.
pub fn holds_func(methods: &Chain<MethodSig>, func: u32) -> (r: bool)
    ensures
        r == model::assembly::holds_func(methods, func),
    decreases methods,
{
    match methods {
        Chain::Nil => false,
        Chain::Cons(head, tail) => head.func == func || holds_func(tail, func),
    }
}

/// Whether one function is a method of one of the first classes.
pub fn is_method(classes: &Chain<ClassInfo>, total: u32, func: u32) -> (r: bool)
    ensures
        r == model::assembly::is_method(classes, total, func),
    decreases classes,
{
    match classes {
        Chain::Nil => false,
        Chain::Cons(head, tail) => total != 0 && (holds_func(&head.methods, func) || is_method(tail, (total - 1) as u32, func)),
    }
}

/// The exports of core functions that carry no name of their own, each
/// under its position among the core functions.
pub fn internal_exports(
    cx: &Ctx,
    exports: &Chain<HirExport>,
    funcs: &Chain<HirFunc>,
    at: u32,
    ordinal: u32,
) -> (r: Chain<HirExport>)
    ensures
        r == model::assembly::internal_exports(cx, exports, funcs, at, ordinal),
    decreases funcs,
{
    match funcs {
        Chain::Nil => Chain::Nil,
        Chain::Cons(head, tail) => {
            if !head.core {
                internal_exports(cx, exports, tail, at.wrapping_add(1), ordinal)
            } else {
                let rest = internal_exports(cx, exports, tail, at.wrapping_add(1), ordinal.wrapping_add(1));
                if is_method(&cx.classes, cx.user_start, at) || exports_func(exports, at) {
                    rest
                } else {
                    cons(HirExport { kind: DefKind::Function, name: concat(text("$internal.function."), decimal_before(ordinal, Chain::Nil)), def: at }, rest)
                }
            }
        },
    }
}

/// The complete provider surface of the core.
pub fn collect_core_exports(cx: &Ctx, core: &Module, funcs: &Chain<HirFunc>) -> (r: Chain<HirExport>)
    ensures
        r == model::assembly::collect_core_exports(cx, core, funcs),
{
    let exports = collect_exports(cx, core, true);
    let internal = internal_exports(cx, &exports, funcs, 0u32, 0u32);
    concat(exports, internal)
}

/// A function list without the one of an index, and that one.
pub fn take_made(made: Chain<MadeFunc>, index: u32) -> (r: (Chain<MadeFunc>, Option<HirFunc>))
    ensures
        r == model::assembly::take_made(made, index),
    decreases made,
{
    match made {
        Chain::Nil => (Chain::Nil, None),
        Chain::Cons(head, tail) => {
            if head.index == index {
                (*tail, Some(head.func))
            } else {
                let (rest, found) = take_made(*tail, index);
                (Chain::Cons(head, Box::new(rest)), found)
            }
        },
    }
}

/// The checked functions in index order. Each reserved index holds one.
pub fn order_funcs(made: Chain<MadeFunc>, at: u32, total: u32) -> (r: Result<Chain<HirFunc>, Halt>)
    ensures
        r == model::assembly::order_funcs(made, at, total),
    decreases total - at,
{
    if at >= total {
        return Ok(Chain::Nil);
    }
    let (rest, found) = take_made(made, at);
    match found {
        None => Err(Halt::Unchecked(at)),
        Some(func) => {
            let more = match order_funcs(rest, (at + 1) as u32, total) {
                Ok(found) => found,
                Err(stop) => {
                    return Err(stop);
                },
            };
            Ok(cons(func, more))
        },
    }
}

/// The field defaults of a class: those of its ancestors first.
pub fn inherited_defaults(cx: &Ctx, table: &Chain<Chain<FieldDefault>>, class: u32) -> (r: Chain<FieldDefault>)
    ensures
        r == model::assembly::inherited_defaults(cx, table, class),
    decreases class,
{
    let own = own_defaults(table, class);
    match class_at(cx, class).parent {
        None => own,
        Some(parent) => {
            if parent < class {
                concat(inherited_defaults(cx, table, parent), own)
            } else {
                own
            }
        },
    }
}

/// The defaults of the fields that a class declares itself.
pub fn own_defaults(table: &Chain<Chain<FieldDefault>>, class: u32) -> (r: Chain<FieldDefault>)
    ensures
        r == model::assembly::own_defaults(table, class),
{
    match nth(table, class) {
        Some(found) => clone_field_defaults(&*found),
        None => Chain::Nil,
    }
}

/// How an object of a class comes about.
pub fn ctor_kind(info: &ClassInfo) -> (r: CtorKind)
    ensures
        r == model::assembly::ctor_kind(info),
{
    if info.kind == ClassKind::EnumCase {
        return CtorKind::CaseFields;
    }
    if info.init.is_some() {
        CtorKind::Init
    } else {
        CtorKind::Defaults
    }
}

/// The parameters of the constructor of a class.
pub fn ctor_params(info: &ClassInfo) -> (r: Params)
    ensures
        r == model::assembly::ctor_params(info),
{
    match (&info.native_repr, &info.self_ty) {
        (Some(NativeRepr::Tuple(_)), Ty::Tuple(items)) => Params { types: clone_tys(&*items), muts: falses(items), names: Chain::Nil },
        _ => {
            if info.kind == ClassKind::EnumCase {
                Params { types: clone_tys(&info.field_tys), muts: falses(&info.field_tys), names: clone_texts(&info.field_names) }
            } else {
                match &info.init {
                    Some(init) => Params { types: clone_tys(&init.params), muts: copy_chain(&init.param_muts), names: clone_texts(&init.param_names) },
                    None => Params { types: Chain::Nil, muts: Chain::Nil, names: Chain::Nil },
                }
            }
        },
    }
}

/// The row of the constructor of a class.
pub fn ctor_row(info: &ClassInfo) -> (r: Row)
    ensures
        r == model::assembly::ctor_row(info),
{
    match &info.init {
        Some(init) => copy_chain(&init.row),
        None => Chain::Nil,
    }
}

/// The initializer function of a class.
pub fn init_func(info: &ClassInfo) -> (r: Option<u32>)
    ensures
        r == model::assembly::init_func(info),
{
    match &info.init {
        Some(init) => Some(init.func),
        None => None,
    }
}

/// The methods of a class, by name.
pub fn method_names(methods: &Chain<MethodSig>) -> (r: Chain<NameEntry>)
    ensures
        r == model::assembly::method_names(methods),
    decreases methods,
{
    match methods {
        Chain::Nil => Chain::Nil,
        Chain::Cons(head, tail) => cons(NameEntry { name: copy_chain(&head.name), id: head.func }, method_names(tail)),
    }
}

/// The checked form of one class.
pub fn hir_class(
    cx: &Ctx,
    info: &ClassInfo,
    origins: &Chain<ClassOrigin>,
    table: &Chain<Chain<FieldDefault>>,
    class: u32,
    path: &Text,
) -> (r: HirClass)
    ensures
        r == model::assembly::hir_class(cx, info, origins, table, class, path),
{
    HirClass {
        imported: info.imported,
        source_span: info.source_span,
        is_final: info.is_final,
        is_frozen: info.is_frozen,
        native_repr: info.native_repr,
        name: copy_chain(&info.name),
        key: class_key(cx, origins, class, path),
        parent: info.parent,
        parent_args: clone_tys(&meta_at(cx, class).parent_args),
        type_params: count(&info.type_params),
        type_bounds: clone_interface_use_lists(&info.type_bounds),
        kind: info.kind,
        ctor_kind: ctor_kind(info),
        field_names: clone_texts(&info.field_names),
        field_tys: clone_tys(&info.field_tys),
        field_defaults: copy_chain(&info.has_default),
        own_start: info.own_start,
        defaults: inherited_defaults(cx, table, class),
        methods: method_names(&info.methods),
        init: init_func(info),
        ctor: ctor_params(info),
        ctor_row: ctor_row(info),
    }
}

/// The checked form of each class.
pub fn hir_classes(
    cx: &Ctx,
    classes: &Chain<ClassInfo>,
    origins: &Chain<ClassOrigin>,
    table: &Chain<Chain<FieldDefault>>,
    at: u32,
    path: &Text,
) -> (r: Chain<HirClass>)
    ensures
        r == model::assembly::hir_classes(cx, classes, origins, table, at, path),
    decreases classes,
{
    match classes {
        Chain::Nil => Chain::Nil,
        Chain::Cons(head, tail) => cons(hir_class(cx, head, origins, table, at, path), hir_classes(cx, tail, origins, table, at.wrapping_add(1), path)),
    }
}

/// The checked conformances of one class.
pub fn class_conformances(items: &Chain<ConformanceInfo>, class: u32) -> (r: Chain<HirConformance>)
    ensures
        r == model::assembly::class_conformances(items, class),
    decreases items,
{
    match items {
        Chain::Nil => Chain::Nil,
        Chain::Cons(head, tail) => cons(HirConformance { class: class, info: (**head).clone() }, class_conformances(tail, class)),
    }
}

/// The conformances of every class, in class order.
pub fn hir_conformances(classes: &Chain<ClassInfo>, at: u32) -> (r: Chain<HirConformance>)
    ensures
        r == model::assembly::hir_conformances(classes, at),
    decreases classes,
{
    match classes {
        Chain::Nil => Chain::Nil,
        Chain::Cons(head, tail) => concat(class_conformances(&head.conformances, at), hir_conformances(tail, at.wrapping_add(1))),
    }
}

/// The qualified name of an interface.
pub fn interface_key(cx: &Ctx, info: &InterfaceInfo, at: u32, path: &Text) -> (r: Key)
    ensures
        r == model::assembly::interface_key(cx, info, at, path),
{
    if at < cx.user_interface_start {
        return Key { module: core_path(), name: copy_chain(&info.name) };
    }
    match &info.origin {
        Some(origin) => Key { module: copy_chain(&origin.module), name: copy_chain(&origin.name) },
        None => Key { module: copy_chain(&*path), name: copy_chain(&info.name) },
    }
}

/// The checked form of each interface method.
pub fn hir_requirements(methods: &Chain<InterfaceMethodSig>) -> (r: Chain<HirInterfaceMethod>)
    ensures
        r == model::assembly::hir_requirements(methods),
    decreases methods,
{
    match methods {
        Chain::Nil => Chain::Nil,
        Chain::Cons(head, tail) => {
            let first = HirInterfaceMethod {
                selector: copy_chain(&head.name),
                mut_self: head.mut_self,
                type_params: count(&head.own_type_params),
                type_bounds: clone_interface_use_lists(&head.own_type_bounds),
                effect_params: count(&head.own_effect_params),
                premises: clone_type_premises(&head.premises),
                params: clone_tys(&head.params),
                param_muts: copy_chain(&head.param_muts),
                param_names: clone_texts(&head.param_names),
                ret: head.ret.clone(),
                row: copy_chain(&head.row),
                default_func: head.default_func,
                default_binding: clone_opt_text(&head.default_binding),
            };
            cons(first, hir_requirements(tail))
        },
    }
}

/// The checked form of each interface.
pub fn hir_interfaces(cx: &Ctx, interfaces: &Chain<InterfaceInfo>, at: u32, path: &Text) -> (r: Chain<HirInterface>)
    ensures
        r == model::assembly::hir_interfaces(cx, interfaces, at, path),
    decreases interfaces,
{
    match interfaces {
        Chain::Nil => Chain::Nil,
        Chain::Cons(head, tail) => {
            let first = HirInterface {
                key: interface_key(cx, head, at, path),
                name: copy_chain(&head.name),
                type_params: count(&head.type_params),
                effect_params: count(&head.effect_params),
                generic_is_effect: copy_chain(&head.generic_is_effect),
                parents: clone_interface_uses(&head.parents),
                type_bounds: clone_interface_use_lists(&head.type_bounds),
                associated: clone_associated_infos(&head.associated),
                methods: hir_requirements(&head.methods),
            };
            cons(first, hir_interfaces(cx, tail, at.wrapping_add(1), path))
        },
    }
}

/// The first class with one role: a core class of the name that the role
/// has.
pub fn role_class(classes: &Chain<HirClass>, label: &Text, at: u32) -> (r: Option<u32>)
    ensures
        r == model::assembly::role_class(classes, label, at),
    decreases classes,
{
    match classes {
        Chain::Nil => None,
        Chain::Cons(head, tail) => {
            if is_text(&head.key.module, "core") && same_text(&head.key.name, &*label) {
                Some(at)
            } else {
                role_class(tail, label, at.wrapping_add(1))
            }
        },
    }
}

/// The classes of the core roles, in role order.
pub fn role_classes(classes: &Chain<HirClass>, labels: &Chain<Text>) -> (r: Chain<Option<u32>>)
    ensures
        r == model::assembly::role_classes(classes, labels),
    decreases labels,
{
    match labels {
        Chain::Nil => Chain::Nil,
        Chain::Cons(head, tail) => cons(role_class(classes, head, 0u32), role_classes(classes, tail)),
    }
}

/// The names of consecutive functions, up to a number.
pub fn named_funcs(funcs: &Chain<HirFunc>, path: &Text, at: u32, total: u32) -> (r: Chain<FuncBinding>)
    ensures
        r == model::assembly::named_funcs(funcs, path, at, total),
    decreases funcs,
{
    match funcs {
        Chain::Nil => Chain::Nil,
        Chain::Cons(head, tail) => {
            if total == 0 {
                Chain::Nil
            } else {
                let rest = named_funcs(tail, path, at.wrapping_add(1), (total - 1) as u32);
                if head.imported {
                    rest
                } else {
                    cons(FuncBinding { key: Key { module: copy_chain(&*path), name: copy_chain(&head.name) }, func: at }, rest)
                }
            }
        },
    }
}

/// The functions behind a number of others.
pub fn funcs_from<'a>(funcs: &'a Chain<HirFunc>, at: u32) -> (r: &'a Chain<HirFunc>)
    ensures
        r == model::assembly::funcs_from(funcs, at),
    decreases funcs,
{
    match funcs {
        Chain::Nil => funcs,
        Chain::Cons(_, tail) => {
            if at == 0 {
                funcs
            } else {
                funcs_from(tail, (at - 1) as u32)
            }
        },
    }
}

/// Whether one function comes from another module.
pub fn is_imported(funcs: &Chain<HirFunc>, func: u32) -> (r: bool)
    ensures
        r == model::assembly::is_imported(funcs, func),
{
    match nth(funcs, func) {
        Some(found) => found.imported,
        None => false,
    }
}

/// The names of the defaults of one interface.
pub fn default_bindings(
    methods: &Chain<HirInterfaceMethod>,
    funcs: &Chain<HirFunc>,
    module: &Text,
) -> (r: Chain<FuncBinding>)
    ensures
        r == model::assembly::default_bindings(methods, funcs, module),
    decreases methods,
{
    match methods {
        Chain::Nil => Chain::Nil,
        Chain::Cons(head, tail) => {
            let rest = default_bindings(tail, funcs, module);
            match (head.default_func, &head.default_binding) {
                (Some(func), Some(binding)) => {
                    if is_imported(funcs, func) {
                        rest
                    } else {
                        cons(FuncBinding { key: Key { module: copy_chain(&*module), name: copy_chain(&*binding) }, func: func }, rest)
                    }
                },
                _ => rest,
            }
        },
    }
}

/// Whether a definition belongs to the core.
pub fn is_core_key(key: &Key) -> (r: bool)
    ensures
        r == model::assembly::is_core_key(key),
{
    is_text(&key.module, "core") || behind(&key.module, &text("core.")).is_some()
}

/// The function bindings of interface defaults.
pub fn interface_bindings(interfaces: &Chain<HirInterface>, funcs: &Chain<HirFunc>, path: &Text) -> (r: Chain<FuncBinding>)
    ensures
        r == model::assembly::interface_bindings(interfaces, funcs, path),
    decreases interfaces,
{
    match interfaces {
        Chain::Nil => Chain::Nil,
        Chain::Cons(head, tail) => {
            let rest = interface_bindings(tail, funcs, path);
            if is_core_key(&head.key) {
                concat(default_bindings(&head.methods, funcs, &core_path()), rest)
            } else {
                concat(default_bindings(&head.methods, funcs, path), rest)
            }
        },
    }
}

/// The name of a class member: the qualified name of its class first.
pub fn member_key(key: &Key, member: &Text) -> (r: Key)
    ensures
        r == model::assembly::member_key(key, member),
{
    Key { module: copy_chain(&key.module), name: dotted(&key.name, member) }
}

/// The function bindings of methods.
pub fn member_bindings(key: &Key, methods: &Chain<NameEntry>) -> (r: Chain<FuncBinding>)
    ensures
        r == model::assembly::member_bindings(key, methods),
    decreases methods,
{
    match methods {
        Chain::Nil => Chain::Nil,
        Chain::Cons(head, tail) => cons(FuncBinding { key: member_key(key, &head.name), func: head.id }, member_bindings(key, tail)),
    }
}

/// The name of the initializer of a class.
pub fn init_binding(class: &HirClass) -> (r: Chain<FuncBinding>)
    ensures
        r == model::assembly::init_binding(class),
{
    match class.init {
        Some(func) => one(FuncBinding { key: member_key(&class.key, &text("init")), func: func }),
        None => Chain::Nil,
    }
}

/// The function bindings of each class.
pub fn class_bindings(classes: &Chain<HirClass>) -> (r: Chain<FuncBinding>)
    ensures
        r == model::assembly::class_bindings(classes),
    decreases classes,
{
    match classes {
        Chain::Nil => Chain::Nil,
        Chain::Cons(head, tail) => {
            let rest = class_bindings(tail);
            if head.imported {
                rest
            } else {
                concat(member_bindings(&head.key, &head.methods), concat(init_binding(head), rest))
            }
        },
    }
}

/// Whether a binding list holds one name.
pub fn holds_key(bindings: &Chain<FuncBinding>, key: &Key) -> (r: bool)
    ensures
        r == model::assembly::holds_key(bindings, key),
    decreases bindings,
{
    match bindings {
        Chain::Nil => false,
        Chain::Cons(head, tail) => same_key(&head.key, &*key) || holds_key(tail, key),
    }
}

/// The bindings with the core exports that they do not name yet.
pub fn add_core_exports(bindings: Chain<FuncBinding>, exports: &Chain<HirExport>) -> (r: Chain<FuncBinding>)
    ensures
        r == model::assembly::add_core_exports(bindings, exports),
    decreases exports,
{
    match exports {
        Chain::Nil => bindings,
        Chain::Cons(head, tail) => {
            let key = Key { module: core_path(), name: copy_chain(&head.name) };
            if head.kind == DefKind::Function && !holds_key(&bindings, &key) {
                add_core_exports(append(bindings, FuncBinding { key: key, func: head.def }), tail)
            } else {
                add_core_exports(bindings, tail)
            }
        },
    }
}

/// The named functions of a module. A free function takes the module path
/// as its root; a class member takes the qualified name of its class.
pub fn collect_bindings(
    funcs: &Chain<HirFunc>,
    interfaces: &Chain<HirInterface>,
    classes: &Chain<HirClass>,
    exports: &Chain<HirExport>,
    path: &Text,
    source_funcs: u32,
    core_funcs: u32,
) -> (r: Chain<FuncBinding>)
    ensures
        r == model::assembly::collect_bindings(funcs, interfaces, classes, exports, path, source_funcs, core_funcs),
{
    let source = named_funcs(funcs, path, 0u32, source_funcs);
    let core = named_funcs(funcs_from(funcs, source_funcs), &core_path(), source_funcs, core_funcs);
    let members = concat(interface_bindings(interfaces, funcs, path), class_bindings(classes));
    add_core_exports(concat(source, concat(core, members)), exports)
}

/// Build one checked module. Source functions come first; core functions
/// follow them.
pub fn assemble(
    cx: &Ctx,
    funcs: Chain<HirFunc>,
    defaults: &Chain<Chain<FieldDefault>>,
    entry: u32,
    module: &Module,
    core: &Module,
    options: &CheckOptions,
) -> (r: HirModule)
    ensures
        r == model::assembly::assemble(cx, funcs, defaults, entry, module, core, options),
{
    let classes = hir_classes(cx, &cx.classes, &options.imported.origins, defaults, 0u32, &options.path);
    let interfaces = hir_interfaces(cx, &cx.interfaces, 0u32, &options.path);
    let core_exports = if options.build_core_provider { collect_core_exports(cx, core, &funcs) } else { Chain::Nil };
    let bindings = collect_bindings(&funcs, &interfaces, &classes, &core_exports, &options.path, count(&module.funcs), count(&core.funcs));
    let roles = role_classes(&classes, &options.image.role_labels);
    HirModule {
        interfaces: interfaces,
        conformances: hir_conformances(&cx.classes, 0u32),
        classes: classes,
        funcs: funcs,
        entry: entry,
        core: cx.core,
        core_roles: roles,
        exports: collect_exports(cx, module, false),
        core_exports: core_exports,
        bindings: bindings,
    }
}

} // verus!
