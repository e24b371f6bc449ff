//! The checked module: exports, classes, interfaces and named functions.
//!
//! The functions here state what the functions of the same name compute.

use vstd::prelude::*;
use crate::ast::{ArmDef, ClassDef, EnumDef, FuncDef, InterfaceDef, Module};
use crate::chain::{Chain, chain_of};
use crate::context::{ClassInfo, ClassKind, ConformanceInfo, Ctx, InterfaceInfo, InterfaceMethodSig, MethodSig, NameEntry, NativeRepr, Params};
use crate::hir::HirFunc;
use crate::model::fulfil::{declared_class, declared_interface};
use crate::model::lists::{append, concat, cons, count, falses, find_id, nth, one};
use crate::model::lookup::{class_at, find_arm, interface_at, meta_at};
use crate::model::names::{behind, dotted};
use crate::model::scope::decimal_before;
use crate::program::{CheckOptions, ClassOrigin, CtorKind, DefKind, FieldDefault, FuncBinding, Halt, HirClass, HirConformance, HirExport, HirInterface, HirInterfaceMethod, HirModule, Key};
use crate::state::MadeFunc;
use crate::text::Text;
use crate::types::{Row, Ty};

verus! {

/// The name of the core module.
pub open spec fn core_path() -> Text
{
    chain_of("core"@)
}

/// The qualified name of one class of another module.
pub open spec fn origin_of<'a>(origins: &'a Chain<ClassOrigin>, class: u32) -> Option<&'a Key>
    decreases origins,
{
    match origins {
        Chain::Nil => None,
        Chain::Cons(head, tail) => {
            if head.class == class {
                Some(&head.key)
            } else {
                origin_of(tail, class)
            }
        },
    }
}

/// The qualified name of a class: of the core, of this module, or of the
/// module that it comes from.
pub open spec fn class_key(cx: &Ctx, origins: &Chain<ClassOrigin>, class: u32, path: &Text) -> Key
{
    let name = class_at(cx, class).name;
    if class < cx.user_start {
        Key { module: core_path(), name: name }
    } else if class < cx.import_start {
        Key { module: *path, name: name }
    } else {
        match origin_of(origins, class) {
            Some(key) => *key,
            None => Key { module: *path, name: name },
        }
    }
}

/// The exported defaults of one interface.
pub open spec fn default_exports(methods: &Chain<InterfaceMethodSig>) -> Chain<HirExport>
    decreases methods,
{
    match methods {
        Chain::Nil => Chain::Nil,
        Chain::Cons(head, tail) => {
            let rest = default_exports(tail);
            match (&head.default_binding, head.default_func) {
                (Some(binding), Some(func)) => cons(HirExport { kind: DefKind::Function, name: *binding, def: func }, rest),
                _ => rest,
            }
        },
    }
}

/// The exports of interfaces, in order.
pub open spec fn interface_exports(cx: &Ctx, interfaces: &Chain<InterfaceDef>, is_core: bool) -> Chain<HirExport>
    decreases interfaces,
{
    match interfaces {
        Chain::Nil => Chain::Nil,
        Chain::Cons(head, tail) => {
            let id = declared_interface(cx, &head.name, is_core);
            let rest = concat(default_exports(&interface_at(cx, id).methods), interface_exports(cx, tail, is_core));
            cons(HirExport { kind: DefKind::Interface, name: head.name, def: id }, rest)
        },
    }
}

/// The exports of classes, in order.
pub open spec fn class_exports(cx: &Ctx, classes: &Chain<ClassDef>, is_core: bool) -> Chain<HirExport>
    decreases classes,
{
    match classes {
        Chain::Nil => Chain::Nil,
        Chain::Cons(head, tail) => cons(HirExport { kind: DefKind::Class, name: head.name, def: declared_class(cx, &head.name, is_core) }, class_exports(cx, tail, is_core)),
    }
}

/// The exported arms of one enum.
pub open spec fn arm_exports(cx: &Ctx, arms: &Chain<ArmDef>, family: u32, name: &Text) -> Chain<HirExport>
    decreases arms,
{
    match arms {
        Chain::Nil => Chain::Nil,
        Chain::Cons(head, tail) => {
            let rest = arm_exports(cx, tail, family, name);
            match find_arm(cx, family, &head.name) {
                Some(class) => cons(HirExport { kind: DefKind::EnumCase, name: dotted(name, &head.name), def: class }, rest),
                None => rest,
            }
        },
    }
}

/// The exports of enums and their arms, in order.
pub open spec fn enum_exports(cx: &Ctx, enums: &Chain<EnumDef>, is_core: bool) -> Chain<HirExport>
    decreases enums,
{
    match enums {
        Chain::Nil => Chain::Nil,
        Chain::Cons(head, tail) => {
            let family = declared_class(cx, &head.name, is_core);
            let rest = concat(arm_exports(cx, &head.arms, family, &head.name), enum_exports(cx, tail, is_core));
            cons(HirExport { kind: DefKind::Enum, name: head.name, def: family }, rest)
        },
    }
}

/// The function table of one source module.
pub open spec fn function_names<'a>(cx: &'a Ctx, is_core: bool) -> &'a Chain<NameEntry>
{
    if is_core {
        &cx.core_func_index
    } else {
        &cx.func_index
    }
}

/// The exports of functions, in order.
pub open spec fn function_exports(cx: &Ctx, funcs: &Chain<FuncDef>, is_core: bool) -> Chain<HirExport>
    decreases funcs,
{
    match funcs {
        Chain::Nil => Chain::Nil,
        Chain::Cons(head, tail) => {
            let rest = function_exports(cx, tail, is_core);
            match find_id(function_names(cx, is_core), &head.name) {
                Some(func) => cons(HirExport { kind: DefKind::Function, name: head.name, def: func }, rest),
                None => rest,
            }
        },
    }
}

/// The exported definitions of a source module, in declaration order. A
/// module exports only what it defines.
pub open spec fn collect_exports(cx: &Ctx, module: &Module, is_core: bool) -> Chain<HirExport>
{
    let funcs = function_exports(cx, &module.funcs, is_core);
    let enums = concat(enum_exports(cx, &module.enums, is_core), funcs);
    let classes = concat(class_exports(cx, &module.classes, is_core), enums);
    concat(interface_exports(cx, &module.interfaces, is_core), classes)
}

/// Whether an export list holds one function.
pub open spec fn exports_func(exports: &Chain<HirExport>, func: u32) -> bool
    decreases exports,
{
    match exports {
        Chain::Nil => false,
        Chain::Cons(head, tail) => (head.kind == DefKind::Function && head.def == func) || exports_func(tail, func),
    }
}

/// Whether a method list holds one function.
pub open spec fn holds_func(methods: &Chain<MethodSig>, func: u32) -> bool
    decreases methods,
{
    match methods {
        Chain::Nil => false,
        Chain::Cons(head, tail) => head.func == func || holds_func(tail, func),
    }
}

/// Whether one function is a method of one of the first classes.
pub open spec fn is_method(classes: &Chain<ClassInfo>, total: u32, func: u32) -> bool
    decreases classes,
{
    match classes {
        Chain::Nil => false,
        Chain::Cons(head, tail) => total != 0 && (holds_func(&head.methods, func) || is_method(tail, (total - 1) as u32, func)),
    }
}

/// The exports of core functions that carry no name of their own, each
/// under its position among the core functions.
pub open spec fn internal_exports(
    cx: &Ctx,
    exports: &Chain<HirExport>,
    funcs: &Chain<HirFunc>,
    at: u32,
    ordinal: u32,
) -> Chain<HirExport>
    decreases funcs,
{
    match funcs {
        Chain::Nil => Chain::Nil,
        Chain::Cons(head, tail) => {
            if !head.core {
                internal_exports(cx, exports, tail, at.wrapping_add(1), ordinal)
            } else {
                let rest = internal_exports(cx, exports, tail, at.wrapping_add(1), ordinal.wrapping_add(1));
                if is_method(&cx.classes, cx.user_start, at) || exports_func(exports, at) {
                    rest
                } else {
                    cons(HirExport { kind: DefKind::Function, name: concat(chain_of("$internal.function."@), decimal_before(ordinal, Chain::Nil)), def: at }, rest)
                }
            }
        },
    }
}

/// The complete provider surface of the core.
pub open spec fn collect_core_exports(cx: &Ctx, core: &Module, funcs: &Chain<HirFunc>) -> Chain<HirExport>
{
    let exports = collect_exports(cx, core, true);
    let internal = internal_exports(cx, &exports, funcs, 0u32, 0u32);
    concat(exports, internal)
}

/// A function list without the one of an index, and that one.
pub open spec fn take_made(made: Chain<MadeFunc>, index: u32) -> (Chain<MadeFunc>, Option<HirFunc>)
    decreases made,
{
    match made {
        Chain::Nil => (Chain::Nil, None),
        Chain::Cons(head, tail) => {
            if head.index == index {
                (*tail, Some(head.func))
            } else {
                let (rest, found) = take_made(*tail, index);
                (Chain::Cons(head, Box::new(rest)), found)
            }
        },
    }
}

/// The checked functions in index order. Each reserved index holds one.
pub open spec fn order_funcs(made: Chain<MadeFunc>, at: u32, total: u32) -> Result<Chain<HirFunc>, Halt>
    decreases total - at,
{
    if at >= total {
        Ok(Chain::Nil)
    } else {
        let (rest, found) = take_made(made, at);
        match found {
            None => Err(Halt::Unchecked(at)),
            Some(func) => {
                match order_funcs(rest, (at + 1) as u32, total) {
                    Err(stop) => Err(stop),
                    Ok(more) => {
                        Ok(cons(func, more))
                    },
                }
            },
        }
    }
}

/// The field defaults of a class: those of its ancestors first.
pub open spec fn inherited_defaults(cx: &Ctx, table: &Chain<Chain<FieldDefault>>, class: u32) -> Chain<FieldDefault>
    decreases class,
{
    let own = own_defaults(table, class);
    match class_at(cx, class).parent {
        None => own,
        Some(parent) => {
            if parent < class {
                concat(inherited_defaults(cx, table, parent), own)
            } else {
                own
            }
        },
    }
}

/// The defaults of the fields that a class declares itself.
pub open spec fn own_defaults(table: &Chain<Chain<FieldDefault>>, class: u32) -> Chain<FieldDefault>
{
    match nth(table, class) {
        Some(found) => *found,
        None => Chain::Nil,
    }
}

/// How an object of a class comes about.
pub open spec fn ctor_kind(info: &ClassInfo) -> CtorKind
{
    if info.kind == ClassKind::EnumCase {
        CtorKind::CaseFields
    } else if info.init.is_some() {
        CtorKind::Init
    } else {
        CtorKind::Defaults
    }
}

/// The parameters of the constructor of a class.
pub open spec fn ctor_params(info: &ClassInfo) -> Params
{
    match (&info.native_repr, &info.self_ty) {
        (Some(NativeRepr::Tuple(_)), Ty::Tuple(items)) => Params { types: *items, muts: falses(items), names: Chain::Nil },
        _ => {
            if info.kind == ClassKind::EnumCase {
                Params { types: info.field_tys, muts: falses(&info.field_tys), names: info.field_names }
            } else {
                match &info.init {
                    Some(init) => Params { types: init.params, muts: init.param_muts, names: init.param_names },
                    None => Params { types: Chain::Nil, muts: Chain::Nil, names: Chain::Nil },
                }
            }
        },
    }
}

/// The row of the constructor of a class.
pub open spec fn ctor_row(info: &ClassInfo) -> Row
{
    match &info.init {
        Some(init) => init.row,
        None => Chain::Nil,
    }
}

/// The initializer function of a class.
pub open spec fn init_func(info: &ClassInfo) -> Option<u32>
{
    match &info.init {
        Some(init) => Some(init.func),
        None => None,
    }
}

/// The methods of a class, by name.
pub open spec fn method_names(methods: &Chain<MethodSig>) -> Chain<NameEntry>
    decreases methods,
{
    match methods {
        Chain::Nil => Chain::Nil,
        Chain::Cons(head, tail) => cons(NameEntry { name: head.name, id: head.func }, method_names(tail)),
    }
}

/// The checked form of one class.
pub open spec fn hir_class(
    cx: &Ctx,
    info: &ClassInfo,
    origins: &Chain<ClassOrigin>,
    table: &Chain<Chain<FieldDefault>>,
    class: u32,
    path: &Text,
) -> HirClass
{
    HirClass {
        imported: info.imported,
        source_span: info.source_span,
        is_final: info.is_final,
        is_frozen: info.is_frozen,
        native_repr: info.native_repr,
        name: info.name,
        key: class_key(cx, origins, class, path),
        parent: info.parent,
        parent_args: meta_at(cx, class).parent_args,
        type_params: count(&info.type_params),
        type_bounds: info.type_bounds,
        kind: info.kind,
        ctor_kind: ctor_kind(info),
        field_names: info.field_names,
        field_tys: info.field_tys,
        field_defaults: info.has_default,
        own_start: info.own_start,
        defaults: inherited_defaults(cx, table, class),
        methods: method_names(&info.methods),
        init: init_func(info),
        ctor: ctor_params(info),
        ctor_row: ctor_row(info),
    }
}

/// The checked form of each class.
pub open spec fn hir_classes(
    cx: &Ctx,
    classes: &Chain<ClassInfo>,
    origins: &Chain<ClassOrigin>,
    table: &Chain<Chain<FieldDefault>>,
    at: u32,
    path: &Text,
) -> Chain<HirClass>
    decreases classes,
{
    match classes {
        Chain::Nil => Chain::Nil,
        Chain::Cons(head, tail) => cons(hir_class(cx, head, origins, table, at, path), hir_classes(cx, tail, origins, table, at.wrapping_add(1), path)),
    }
}

/// The checked conformances of one class.
pub open spec fn class_conformances(items: &Chain<ConformanceInfo>, class: u32) -> Chain<HirConformance>
    decreases items,
{
    match items {
        Chain::Nil => Chain::Nil,
        Chain::Cons(head, tail) => cons(HirConformance { class: class, info: **head }, class_conformances(tail, class)),
    }
}

/// The conformances of every class, in class order.
pub open spec fn hir_conformances(classes: &Chain<ClassInfo>, at: u32) -> Chain<HirConformance>
    decreases classes,
{
    match classes {
        Chain::Nil => Chain::Nil,
        Chain::Cons(head, tail) => concat(class_conformances(&head.conformances, at), hir_conformances(tail, at.wrapping_add(1))),
    }
}

/// The qualified name of an interface.
pub open spec fn interface_key(cx: &Ctx, info: &InterfaceInfo, at: u32, path: &Text) -> Key
{
    if at < cx.user_interface_start {
        Key { module: core_path(), name: info.name }
    } else {
        match &info.origin {
            Some(origin) => Key { module: origin.module, name: origin.name },
            None => Key { module: *path, name: info.name },
        }
    }
}

/// The checked form of each interface method.
pub open spec fn hir_requirements(methods: &Chain<InterfaceMethodSig>) -> Chain<HirInterfaceMethod>
    decreases methods,
{
    match methods {
        Chain::Nil => Chain::Nil,
        Chain::Cons(head, tail) => {
            let first = HirInterfaceMethod {
                selector: head.name,
                mut_self: head.mut_self,
                type_params: count(&head.own_type_params),
                type_bounds: head.own_type_bounds,
                effect_params: count(&head.own_effect_params),
                premises: head.premises,
                params: head.params,
                param_muts: head.param_muts,
                param_names: head.param_names,
                ret: head.ret,
                row: head.row,
                default_func: head.default_func,
                default_binding: head.default_binding,
            };
            cons(first, hir_requirements(tail))
        },
    }
}

/// The checked form of each interface.
pub open spec fn hir_interfaces(cx: &Ctx, interfaces: &Chain<InterfaceInfo>, at: u32, path: &Text) -> Chain<HirInterface>
    decreases interfaces,
{
    match interfaces {
        Chain::Nil => Chain::Nil,
        Chain::Cons(head, tail) => {
            let first = HirInterface {
                key: interface_key(cx, head, at, path),
                name: head.name,
                type_params: count(&head.type_params),
                effect_params: count(&head.effect_params),
                generic_is_effect: head.generic_is_effect,
                parents: head.parents,
                type_bounds: head.type_bounds,
                associated: head.associated,
                methods: hir_requirements(&head.methods),
            };
            cons(first, hir_interfaces(cx, tail, at.wrapping_add(1), path))
        },
    }
}

/// The first class with one role: a core class of the name that the role
/// has.
pub open spec fn role_class(classes: &Chain<HirClass>, label: &Text, at: u32) -> Option<u32>
    decreases classes,
{
    match classes {
        Chain::Nil => None,
        Chain::Cons(head, tail) => {
            if (head.key.module@ == "core"@) && (head.key.name == *label) {
                Some(at)
            } else {
                role_class(tail, label, at.wrapping_add(1))
            }
        },
    }
}

/// The classes of the core roles, in role order.
pub open spec fn role_classes(classes: &Chain<HirClass>, labels: &Chain<Text>) -> Chain<Option<u32>>
    decreases labels,
{
    match labels {
        Chain::Nil => Chain::Nil,
        Chain::Cons(head, tail) => cons(role_class(classes, head, 0u32), role_classes(classes, tail)),
    }
}

/// The names of consecutive functions, up to a number.
pub open spec fn named_funcs(funcs: &Chain<HirFunc>, path: &Text, at: u32, total: u32) -> Chain<FuncBinding>
    decreases funcs,
{
    match funcs {
        Chain::Nil => Chain::Nil,
        Chain::Cons(head, tail) => {
            if total == 0 {
                Chain::Nil
            } else {
                let rest = named_funcs(tail, path, at.wrapping_add(1), (total - 1) as u32);
                if head.imported {
                    rest
                } else {
                    cons(FuncBinding { key: Key { module: *path, name: head.name }, func: at }, rest)
                }
            }
        },
    }
}

/// The functions behind a number of others.
pub open spec fn funcs_from<'a>(funcs: &'a Chain<HirFunc>, at: u32) -> &'a Chain<HirFunc>
    decreases funcs,
{
    match funcs {
        Chain::Nil => funcs,
        Chain::Cons(_, tail) => {
            if at == 0 {
                funcs
            } else {
                funcs_from(tail, (at - 1) as u32)
            }
        },
    }
}

/// Whether one function comes from another module.
pub open spec fn is_imported(funcs: &Chain<HirFunc>, func: u32) -> bool
{
    match nth(funcs, func) {
        Some(found) => found.imported,
        None => false,
    }
}

/// The names of the defaults of one interface.
pub open spec fn default_bindings(
    methods: &Chain<HirInterfaceMethod>,
    funcs: &Chain<HirFunc>,
    module: &Text,
) -> Chain<FuncBinding>
    decreases methods,
{
    match methods {
        Chain::Nil => Chain::Nil,
        Chain::Cons(head, tail) => {
            let rest = default_bindings(tail, funcs, module);
            match (head.default_func, &head.default_binding) {
                (Some(func), Some(binding)) => {
                    if is_imported(funcs, func) {
                        rest
                    } else {
                        cons(FuncBinding { key: Key { module: *module, name: *binding }, func: func }, rest)
                    }
                },
                _ => rest,
            }
        },
    }
}

/// Whether a definition belongs to the core.
pub open spec fn is_core_key(key: &Key) -> bool
{
    (key.module@ == "core"@) || behind(&key.module, &chain_of("core."@)).is_some()
}

/// The function bindings of interface defaults.
pub open spec fn interface_bindings(interfaces: &Chain<HirInterface>, funcs: &Chain<HirFunc>, path: &Text) -> Chain<FuncBinding>
    decreases interfaces,
{
    match interfaces {
        Chain::Nil => Chain::Nil,
        Chain::Cons(head, tail) => {
            let rest = interface_bindings(tail, funcs, path);
            if is_core_key(&head.key) {
                concat(default_bindings(&head.methods, funcs, &core_path()), rest)
            } else {
                concat(default_bindings(&head.methods, funcs, path), rest)
            }
        },
    }
}

/// The name of a class member: the qualified name of its class first.
pub open spec fn member_key(key: &Key, member: &Text) -> Key
{
    Key { module: key.module, name: dotted(&key.name, member) }
}

/// The function bindings of methods.
pub open spec fn member_bindings(key: &Key, methods: &Chain<NameEntry>) -> Chain<FuncBinding>
    decreases methods,
{
    match methods {
        Chain::Nil => Chain::Nil,
        Chain::Cons(head, tail) => cons(FuncBinding { key: member_key(key, &head.name), func: head.id }, member_bindings(key, tail)),
    }
}

/// The name of the initializer of a class.
pub open spec fn init_binding(class: &HirClass) -> Chain<FuncBinding>
{
    match class.init {
        Some(func) => one(FuncBinding { key: member_key(&class.key, &chain_of("init"@)), func: func }),
        None => Chain::Nil,
    }
}

/// The function bindings of each class.
pub open spec fn class_bindings(classes: &Chain<HirClass>) -> Chain<FuncBinding>
    decreases classes,
{
    match classes {
        Chain::Nil => Chain::Nil,
        Chain::Cons(head, tail) => {
            let rest = class_bindings(tail);
            if head.imported {
                rest
            } else {
                concat(member_bindings(&head.key, &head.methods), concat(init_binding(head), rest))
            }
        },
    }
}

/// Whether a binding list holds one name.
pub open spec fn holds_key(bindings: &Chain<FuncBinding>, key: &Key) -> bool
    decreases bindings,
{
    match bindings {
        Chain::Nil => false,
        Chain::Cons(head, tail) => (head.key == *key) || holds_key(tail, key),
    }
}

/// The bindings with the core exports that they do not name yet.
pub open spec fn add_core_exports(bindings: Chain<FuncBinding>, exports: &Chain<HirExport>) -> Chain<FuncBinding>
    decreases exports,
{
    match exports {
        Chain::Nil => bindings,
        Chain::Cons(head, tail) => {
            let key = Key { module: core_path(), name: head.name };
            if head.kind == DefKind::Function && !holds_key(&bindings, &key) {
                add_core_exports(append(bindings, FuncBinding { key: key, func: head.def }), tail)
            } else {
                add_core_exports(bindings, tail)
            }
        },
    }
}

/// The named functions of a module. A free function takes the module path
/// as its root; a class member takes the qualified name of its class.
pub open spec fn collect_bindings(
    funcs: &Chain<HirFunc>,
    interfaces: &Chain<HirInterface>,
    classes: &Chain<HirClass>,
    exports: &Chain<HirExport>,
    path: &Text,
    source_funcs: u32,
    core_funcs: u32,
) -> Chain<FuncBinding>
{
    let source = named_funcs(funcs, path, 0u32, source_funcs);
    let core = named_funcs(funcs_from(funcs, source_funcs), &core_path(), source_funcs, core_funcs);
    let members = concat(interface_bindings(interfaces, funcs, path), class_bindings(classes));
    add_core_exports(concat(source, concat(core, members)), exports)
}

/// Build one checked module. Source functions come first; core functions
/// follow them.
pub open spec fn assemble(
    cx: &Ctx,
    funcs: Chain<HirFunc>,
    defaults: &Chain<Chain<FieldDefault>>,
    entry: u32,
    module: &Module,
    core: &Module,
    options: &CheckOptions,
) -> HirModule
{
    let classes = hir_classes(cx, &cx.classes, &options.imported.origins, defaults, 0u32, &options.path);
    let interfaces = hir_interfaces(cx, &cx.interfaces, 0u32, &options.path);
    let core_exports = if options.build_core_provider { collect_core_exports(cx, core, &funcs) } else { Chain::Nil };
    let bindings = collect_bindings(&funcs, &interfaces, &classes, &core_exports, &options.path, count(&module.funcs), count(&core.funcs));
    let roles = role_classes(&classes, &options.image.role_labels);
    HirModule {
        interfaces: interfaces,
        conformances: hir_conformances(&cx.classes, 0u32),
        classes: classes,
        funcs: funcs,
        entry: entry,
        core: cx.core,
        core_roles: roles,
        exports: collect_exports(cx, module, false),
        core_exports: core_exports,
        bindings: bindings,
    }
}

} // verus!
