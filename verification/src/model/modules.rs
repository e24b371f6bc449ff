//! The passes over one module: names, declarations, bodies, and the
//! checked result.
//!
//! The functions here state what the functions of the same name compute.

use vstd::prelude::*;
use crate::ast::{ClassDef, EnumDef, FuncDef, InterfaceDef, InterfaceMethod, Module, nowhere};
use crate::chain::{Chain, chain_of};
use crate::context::{Absent, ClassInfo, ClassKind, ClassMeta, CoreIds, Ctx, Decl, FnSig, ImportEnv, InterfaceInfo, InterfaceMethodSig, InterfaceUse, NameEntry, Natives, TyEnv, UseEntry, Uses};
use crate::model::assembly::{assemble, order_funcs};
use crate::model::bodies::{check_all_methods, check_defaults, check_entry_func, check_functions, check_interface_defaults, no_default};
use crate::model::classes::{check_deferred_map_keys, check_mailbox_types, link_class_parents, register_type_names, resolve_all_classes};
use crate::model::conform::{empty_env, no_bounds};
use crate::model::fulfil::{check_all_conformances, check_frozen_classes, declared_interface, interface_self_dependencies};
use crate::model::interfaces::{index_interface_defaults, register_interface_names, resolve_all_interfaces, with_interface};
use crate::model::lists::{append, concat, cons, count, find_id, find_literal, nth, one, set_nth};
use crate::model::lookup::{core_interface, find_method, interface_at};
use crate::model::resolve::{named, resolve_generic_bounds, resolve_sig, split_generics, unnamed};
use crate::model::subst::{row_variables, variables};
use crate::model::uses::resolve_uses;
use crate::problem::{Problem, Stop};
use crate::program::{CheckOptions, CompiledCore, Declared, FieldDefault, Halt, HirModule, Image, ImportPlan, Imported, ImportedFunc};
use crate::state::{MadeFunc, Output};
use crate::text::Text;
use crate::types::Ty;

verus! {

/// The result of a pass over the core or over the module.
pub open spec fn halted<T>(result: Result<T, Stop>, is_core: bool) -> Result<T, Halt>
{
    match result {
        Ok(value) => Ok(value),
        Err(stop) => {
            if is_core {
                Err(Halt::Core(stop))
            } else {
                Err(Halt::Source(stop))
            }
        },
    }
}

/// A module without declarations.
pub open spec fn empty_module() -> Module
{
    Module { uses: Chain::Nil, interfaces: Chain::Nil, classes: Chain::Nil, enums: Chain::Nil, funcs: Chain::Nil, entry: Chain::Nil }
}

/// Declarations that give nothing.
pub open spec fn nothing_imported() -> Imported
{
    Imported {
        metas: Chain::Nil,
        classes: Chain::Nil,
        origins: Chain::Nil,
        types: Chain::Nil,
        interfaces: Chain::Nil,
        interface_names: Chain::Nil,
        funcs: Chain::Nil,
        natives: no_natives(),
    }
}

/// The core classes behind the built-in types, before any is declared.
pub open spec fn no_natives() -> Natives
{
    Natives { unit: None, int: None, float: None, boolean: None, string: None, bytes: None, file: None, list: None, map: None, tuples: Chain::Nil }
}

/// The default options: the prelude, the core from its source, and no
/// other module.
pub open spec fn default_options(image: Image) -> CheckOptions
{
    CheckOptions {
        prelude: true,
        build_core_provider: false,
        image: image,
        path: Chain::Nil,
        imports: ImportEnv { roots: Chain::Nil, modules: Chain::Nil, no_package_roots: true },
        imported: nothing_imported(),
        core: None,
        core_roots: Chain::Nil,
    }
}

/// The compiled core that a check uses. A build of the core itself uses
/// none.
pub open spec fn compiled_core<'a>(options: &'a CheckOptions) -> Option<&'a CompiledCore>
{
    match &options.core {
        Some(core) => {
            if options.build_core_provider {
                None
            } else {
                Some(core)
            }
        },
        None => None,
    }
}

/// The core source of a check: none with a compiled core.
pub open spec fn core_source<'a>(options: &'a CheckOptions, nothing: &'a Module) -> &'a Module
{
    match compiled_core(options) {
        Some(_) => nothing,
        None => &options.image.source,
    }
}

/// The core image owns the module path `core`, and the compiled core must
/// be that module, built for the same operations.
pub open spec fn check_core_choice(options: &CheckOptions) -> Result<(), Stop>
{
    if (options.path@ == "core"@) {
        Err(unnamed(Problem::CorePath, nowhere()))
    } else {
        match compiled_core(options) {
            None => Ok(()),
            Some(core) => {
                if !(core.path@ == "core"@) {
                    Err(unnamed(Problem::CoreOtherPath, nowhere()))
                } else if !core.same_bundle {
                    Err(unnamed(Problem::CoreOtherBundle, nowhere()))
                } else {
                    Ok(())
                }
            },
        }
    }
}

/// A class entry before its declaration resolves.
pub open spec fn unresolved_class() -> ClassInfo
{
    ClassInfo {
        imported: false,
        source_span: None,
        is_final: false,
        is_frozen: false,
        native_repr: None,
        name: Chain::Nil,
        parent: None,
        type_params: Chain::Nil,
        type_bounds: Chain::Nil,
        conformances: Chain::Nil,
        kind: ClassKind::Normal,
        self_ty: Ty::Unit,
        field_names: Chain::Nil,
        field_tys: Chain::Nil,
        has_default: Chain::Nil,
        own_start: 0,
        methods: Chain::Nil,
        init: None,
        family: None,
        arms: Chain::Nil,
        arm_short: Chain::Nil,
    }
}

/// A signature without parameters.
pub open spec fn empty_sig() -> FnSig
{
    FnSig {
        type_params: Chain::Nil,
        type_bounds: Chain::Nil,
        effect_params: Chain::Nil,
        params: Chain::Nil,
        param_muts: Chain::Nil,
        param_names: Chain::Nil,
        ret: Ty::Unit,
        row: Chain::Nil,
    }
}

/// An interface without members.
pub open spec fn empty_interface() -> InterfaceInfo
{
    InterfaceInfo {
        origin: None,
        name: Chain::Nil,
        type_params: Chain::Nil,
        effect_params: Chain::Nil,
        generic_is_effect: Chain::Nil,
        parents: Chain::Nil,
        type_bounds: Chain::Nil,
        associated: Chain::Nil,
        methods: Chain::Nil,
    }
}

/// The tables before any declaration.
pub open spec fn start(options: &CheckOptions) -> Ctx
{
    Ctx {
        bundle: options.image.bundle,
        builtins: options.image.builtins,
        metas: Chain::Nil,
        natives: no_natives(),
        classes: Chain::Nil,
        user_types: Chain::Nil,
        core_types: Chain::Nil,
        interfaces: Chain::Nil,
        user_interfaces: Chain::Nil,
        core_interfaces: Chain::Nil,
        interface_defaults: Chain::Nil,
        prelude: options.prelude,
        func_index: Chain::Nil,
        core_func_index: Chain::Nil,
        sigs: Chain::Nil,
        uses: Chain::Nil,
        user_start: 0,
        import_start: 0,
        user_interface_start: 0,
        import_interface_start: 0,
        core: CoreIds { option_class: 0, some_class: 0, none_class: 0, partial_eq_interface: 0, partial_eq_method: 0, hashable_interface: 0, hashable_method: 0 },
        defer_map_keys: true,
        max_interface_index: options.image.max_interface_index,
        answers: options.image.answers,
        assoc_values: Chain::Nil,
        absent: Absent {
            class: unresolved_class(),
            interface: empty_interface(),
            meta: ClassMeta { name: Chain::Nil, type_params: 0, kind: ClassKind::Normal, is_final: false, parent: None, parent_args: Chain::Nil },
            sig: empty_sig(),
        },
    }
}

/// The tables with the names of a compiled core.
pub open spec fn with_core_names(cx: Ctx, tables: &Imported) -> Ctx
{
    Ctx {
        metas: tables.metas,
        natives: tables.natives,
        core_types: tables.types,
        interfaces: tables.interfaces,
        core_interfaces: tables.interface_names,
        ..cx
    }
}

/// Register the names of the core. It comes first, so that a core class
/// always has a lower index than a module class that inherits it.
pub open spec fn core_names(cx: Ctx, options: &CheckOptions, core: &Module) -> Result<Ctx, Halt>
{
    match compiled_core(options) {
        Some(compiled) => Ok(with_core_names(cx, &compiled.tables)),
        None => {
            match halted(register_interface_names(cx, &core.interfaces, true), true) {
                Err(stop) => Err(stop),
                Ok(next) => {
                    halted(register_type_names(next, core, true), true)
                },
            }
        },
    }
}

/// Register all type and interface names of the core and the module.
pub open spec fn predeclare(options: &CheckOptions, module: &Module, core: &Module) -> Result<Ctx, Halt>
{
    match halted(check_core_choice(options), false) {
        Err(stop) => Err(stop),
        Ok(_choice) => {
            match core_names(start(options), options, core) {
                Err(stop) => Err(stop),
                Ok(core_cx) => {
                    let interface_start = count(&core_cx.interfaces);
                    match halted(register_interface_names(Ctx { user_interface_start: interface_start, ..core_cx }, &module.interfaces, false), false) {
                        Err(stop) => Err(stop),
                        Ok(named_cx) => {
                            let import_interface_start = count(&named_cx.interfaces);
                            let user_start = count(&named_cx.metas);
                            match halted(register_type_names(Ctx { import_interface_start: import_interface_start, user_start: user_start, ..named_cx }, module, false), false) {
                                Err(stop) => Err(stop),
                                Ok(cx) => {
                                    let import_start = count(&cx.metas);
                                    Ok(Ctx { import_start: import_start, ..cx })
                                },
                            }
                        },
                    }
                },
            }
        },
    }
}

/// The number of methods with a body in one interface.
pub open spec fn default_count(methods: &Chain<InterfaceMethod>) -> u32
    decreases methods,
{
    match methods {
        Chain::Nil => 0u32,
        Chain::Cons(head, tail) => {
            if head.body.is_some() {
                default_count(tail).wrapping_add(1)
            } else {
                default_count(tail)
            }
        },
    }
}

/// The number of interface defaults of a source module.
pub open spec fn interface_default_count(interfaces: &Chain<InterfaceDef>) -> u32
    decreases interfaces,
{
    match interfaces {
        Chain::Nil => 0u32,
        Chain::Cons(head, tail) => default_count(&head.methods).wrapping_add(interface_default_count(tail)),
    }
}

/// The number of methods of classes.
pub open spec fn class_method_count(classes: &Chain<ClassDef>) -> u32
    decreases classes,
{
    match classes {
        Chain::Nil => 0u32,
        Chain::Cons(head, tail) => count(&head.methods).wrapping_add(class_method_count(tail)),
    }
}

/// The number of methods of enums.
pub open spec fn enum_method_count(enums: &Chain<EnumDef>) -> u32
    decreases enums,
{
    match enums {
        Chain::Nil => 0u32,
        Chain::Cons(head, tail) => count(&head.methods).wrapping_add(enum_method_count(tail)),
    }
}

/// The number of methods of a source module.
pub open spec fn method_count(module: &Module) -> u32
{
    class_method_count(&module.classes).wrapping_add(enum_method_count(&module.enums))
}

/// The number of functions that a check reserves before any method.
pub open spec fn reserved_count(module: &Module, core: &Module) -> u32
{
    let funcs = count(&module.funcs).wrapping_add(count(&core.funcs));
    funcs.wrapping_add(interface_default_count(&core.interfaces).wrapping_add(interface_default_count(&module.interfaces)))
}

/// The number of functions that the compiled core of a check gives.
pub open spec fn compiled_funcs(options: &CheckOptions) -> u32
{
    match compiled_core(options) {
        Some(core) => count(&core.tables.funcs),
        None => 0u32,
    }
}

/// The number of functions that the core gives before those of other
/// modules: its compiled ones, or its methods.
pub open spec fn core_method_count(core: &Module, options: &CheckOptions) -> u32
{
    compiled_funcs(options).wrapping_add(method_count(core))
}

/// The index of the first function of another module.
pub open spec fn import_func_start(module: &Module, core: &Module, options: &CheckOptions) -> u32
{
    reserved_count(module, core).wrapping_add(core_method_count(core, options))
}

/// What a module demands of other modules, and which table indices their
/// declarations get.
pub open spec fn plan_imports(module: &Module, options: &CheckOptions) -> Result<ImportPlan, Halt>
{
    let nothing = empty_module();
    let core = core_source(options, &nothing);
    match predeclare(options, module, core) {
        Err(stop) => Err(stop),
        Ok(cx) => {
            match resolve_uses(&cx, Uses { entries: Chain::Nil, reserves: Chain::Nil }, &options.imports, &module.uses) {
                (_, Err(stop)) => Err(Halt::Source(stop)),
                (uses, Ok(_)) => {
                    Ok(ImportPlan {
                        class_start: cx.import_start,
                        interface_start: cx.import_interface_start,
                        core_funcs: reserved_count(module, core),
                        import_funcs: import_func_start(module, core, options),
                        reserves: uses.reserves,
                    })
                },
            }
        },
    }
}

/// The tables with the `use` lines of a module and the names that they
/// bind.
pub open spec fn with_uses(cx: Ctx, uses: Chain<UseEntry>, tables: &Imported) -> Ctx
{
    Ctx {
        metas: concat(cx.metas, tables.metas),
        user_types: concat(cx.user_types, tables.types),
        interfaces: concat(cx.interfaces, tables.interfaces),
        user_interfaces: concat(cx.user_interfaces, tables.interface_names),
        uses: uses,
        ..cx
    }
}

/// The position of one core requirement.
pub open spec fn core_requirement(cx: &Ctx, interface: u32, name: &str) -> Result<u32, Stop>
{
    match find_method(&interface_at(cx, interface).methods, &chain_of(name@)) {
        Some(at) => Ok(at),
        None => Err(named(Problem::CoreMissing, &chain_of(name@), nowhere())),
    }
}

/// One behind an index, where there is one.
pub open spec fn next_index(index: u32) -> u32
{
    if index == u32::MAX {
        index
    } else {
        (index + 1) as u32
    }
}

/// The core definitions with a fixed role. The two arms of `Option` stand
/// behind it.
pub open spec fn core_ids(cx: &Ctx) -> Result<CoreIds, Stop>
{
    let option_class = match find_literal(&cx.core_types, "Option") {
        Some(class) => class,
        None => u32::MAX,
    };
    match core_interface(cx, "PartialEq", nowhere()) {
        Err(stop) => Err(stop),
        Ok(partial_eq) => {
            match core_requirement(cx, partial_eq, "__eq__") {
                Err(stop) => Err(stop),
                Ok(eq_method) => {
                    match core_interface(cx, "Hashable", nowhere()) {
                        Err(stop) => Err(stop),
                        Ok(hashable) => {
                            match core_requirement(cx, hashable, "__hash__") {
                                Err(stop) => Err(stop),
                                Ok(hash_method) => {
                                    Ok(CoreIds {
                                        option_class: option_class,
                                        some_class: next_index(option_class),
                                        none_class: next_index(next_index(option_class)),
                                        partial_eq_interface: partial_eq,
                                        partial_eq_method: eq_method,
                                        hashable_interface: hashable,
                                        hashable_method: hash_method,
                                    })
                                },
                            }
                        },
                    }
                },
            }
        },
    }
}

/// Whether a function name is already taken.
pub open spec fn function_taken(cx: &Ctx, name: &Text, is_core: bool) -> bool
{
    if is_core {
        find_id(&cx.core_func_index, name).is_some() || find_id(&cx.core_types, name).is_some()
    } else {
        find_id(&cx.func_index, name).is_some() || find_id(&cx.user_types, name).is_some()
    }
}

/// The tables with one more top-level function.
pub open spec fn with_function(cx: Ctx, name: &Text, index: u32, sig: FnSig, is_core: bool) -> Ctx
{
    let entry = NameEntry { name: *name, id: index };
    let sigs = append(cx.sigs, sig);
    if is_core {
        Ctx { core_func_index: append(cx.core_func_index, entry), sigs: sigs, ..cx }
    } else {
        Ctx { func_index: append(cx.func_index, entry), sigs: sigs, ..cx }
    }
}

/// Predeclare one top-level function signature.
pub open spec fn predeclare_function(cx: Ctx, st: Decl, func: &FuncDef, is_core: bool) -> (Decl, Result<Ctx, Stop>)
{
    if function_taken(&cx, &func.name, is_core) {
        (st, Err(named(Problem::DuplicateDefinition, &func.name, func.name_span)))
    } else {
        let generics = split_generics(&func.generics);
        let open = no_bounds(count(&generics.types));
        let env = TyEnv { type_names: generics.types, type_bounds: open, effect_names: generics.effects, core_scope: is_core, ..empty_env() };
        match resolve_generic_bounds(&cx, &env, st, &func.generics) {
            (st, Err(stop)) => (st, Err(stop)),
            (st, Ok(bounds)) => {
                let scope = TyEnv { type_bounds: bounds, ..env };
                match resolve_sig(&cx, &scope, st, &func.params, &func.ret, &func.row) {
                    (st, Err(stop)) => (st, Err(stop)),
                    (st, Ok(sig)) => {
                        let index = st.next_func;
                        (Decl { next_func: index.wrapping_add(1), ..st }, Ok(with_function(cx, &func.name, index, sig, is_core)))
                    },
                }
            },
        }
    }
}

/// Predeclare the top-level functions of a source module.
pub open spec fn predeclare_functions(cx: Ctx, st: Decl, funcs: &Chain<FuncDef>, is_core: bool) -> (Decl, Result<Ctx, Stop>)
    decreases funcs,
{
    match funcs {
        Chain::Nil => (st, Ok(cx)),
        Chain::Cons(head, tail) => {
            match predeclare_function(cx, st, head, is_core) {
                (st, Err(stop)) => (st, Err(stop)),
                (st, Ok(next)) => {
                    predeclare_functions(next, st, tail, is_core)
                },
            }
        },
    }
}

/// The signature of an interface default: `Self` is its first type
/// parameter, and `self` its first parameter.
pub open spec fn default_sig(
    contract: &InterfaceInfo,
    requirement: &InterfaceMethodSig,
    interface: u32,
) -> FnSig
{
    let application = InterfaceUse { interface: interface, type_args: variables(&contract.type_params, 1u32), row_args: row_variables(&contract.effect_params, 0u32) };
    let bounds = concat(contract.type_bounds, requirement.own_type_bounds);
    FnSig {
        type_params: cons(chain_of("Self"@), concat(contract.type_params, requirement.own_type_params)),
        type_bounds: cons(one(application), bounds),
        effect_params: concat(contract.effect_params, requirement.own_effect_params),
        params: cons(Ty::Var(0), requirement.params),
        param_muts: cons(requirement.mut_self, requirement.param_muts),
        param_names: cons(chain_of("self"@), requirement.param_names),
        ret: requirement.ret,
        row: requirement.row,
    }
}

/// The tables with the function of one interface default.
pub open spec fn with_default_func(
    cx: Ctx,
    interface: u32,
    at: u32,
    requirement: InterfaceMethodSig,
    func: u32,
    sig: FnSig,
) -> Ctx
{
    let info = *interface_at(&cx, interface);
    let methods = set_nth(info.methods, at, InterfaceMethodSig { default_func: Some(func), ..requirement });
    let sigs = append(cx.sigs, sig);
    with_interface(Ctx { sigs: sigs, ..cx }, interface, InterfaceInfo { methods: methods, ..info })
}

/// One requirement of an interface.
pub open spec fn requirement_at(cx: &Ctx, interface: u32, at: u32) -> Option<InterfaceMethodSig>
{
    match nth(&interface_at(cx, interface).methods, at) {
        Some(found) => Some(*found),
        None => None,
    }
}

/// Reserve the defaults of one interface.
pub open spec fn reserve_defaults_of(
    cx: Ctx,
    st: Decl,
    interface: u32,
    methods: &Chain<InterfaceMethod>,
    at: u32,
) -> (Decl, Ctx)
    decreases methods,
{
    match methods {
        Chain::Nil => (st, cx),
        Chain::Cons(head, tail) => {
            match (head.body.is_some(), requirement_at(&cx, interface, at)) {
                (true, Some(requirement)) => {
                    let sig = default_sig(interface_at(&cx, interface), &requirement, interface);
                    let next = with_default_func(cx, interface, at, requirement, st.next_func, sig);
                    reserve_defaults_of(next, Decl { next_func: st.next_func.wrapping_add(1), ..st }, interface, tail, at.wrapping_add(1))
                },
                (true, None) => reserve_defaults_of(cx, Decl { next_func: st.next_func.wrapping_add(1), ..st }, interface, tail, at.wrapping_add(1)),
                (false, _) => reserve_defaults_of(cx, st, interface, tail, at.wrapping_add(1)),
            }
        },
    }
}

/// Reserve one function for each interface default of a source module.
pub open spec fn reserve_interface_defaults(cx: Ctx, st: Decl, interfaces: &Chain<InterfaceDef>, is_core: bool) -> (Decl, Ctx)
    decreases interfaces,
{
    match interfaces {
        Chain::Nil => (st, cx),
        Chain::Cons(head, tail) => {
            let interface = declared_interface(&cx, &head.name, is_core);
            match reserve_defaults_of(cx, st, interface, &head.methods, 0u32) {
                (rest, next) => reserve_interface_defaults(next, rest, tail, is_core),
            }
        },
    }
}

/// One unresolved entry for each registered class.
pub open spec fn unresolved_classes(metas: &Chain<ClassMeta>) -> Chain<ClassInfo>
    decreases metas,
{
    match metas {
        Chain::Nil => Chain::Nil,
        Chain::Cons(_, tail) => cons(unresolved_class(), unresolved_classes(tail)),
    }
}

/// The class table with the declared classes of another module.
pub open spec fn with_classes(classes: Chain<ClassInfo>, items: &Chain<ClassInfo>, at: u32) -> Chain<ClassInfo>
    decreases items,
{
    match items {
        Chain::Nil => classes,
        Chain::Cons(head, tail) => with_classes(set_nth(classes, at, **head), tail, at.wrapping_add(1)),
    }
}

/// A signature table that reaches to one index.
pub open spec fn padded_sigs(sigs: Chain<FnSig>, missing: u32) -> Chain<FnSig>
    decreases missing,
{
    if missing == 0 {
        sigs
    } else {
        padded_sigs(append(sigs, empty_sig()), (missing - 1) as u32)
    }
}

/// The signatures of imported functions.
pub open spec fn imported_sigs(funcs: &Chain<ImportedFunc>) -> Chain<FnSig>
    decreases funcs,
{
    match funcs {
        Chain::Nil => Chain::Nil,
        Chain::Cons(head, tail) => cons(head.sig, imported_sigs(tail)),
    }
}

/// The names of imported functions. An empty name binds nothing.
pub open spec fn imported_names(funcs: &Chain<ImportedFunc>, at: u32) -> Chain<NameEntry>
    decreases funcs,
{
    match funcs {
        Chain::Nil => Chain::Nil,
        Chain::Cons(head, tail) => {
            let rest = imported_names(tail, at.wrapping_add(1));
            if head.name.is_empty() {
                rest
            } else {
                cons(NameEntry { name: head.name, id: at }, rest)
            }
        },
    }
}

/// Fill in the declarations of another module.
pub open spec fn adopt(cx: Ctx, st: Decl, tables: &Imported, first_class: u32, is_core: bool) -> (Decl, Ctx)
{
    let at = st.next_func;
    let known = count(&cx.sigs);
    let missing = if known < at { (at - known) as u32 } else { 0u32 };
    let sigs = concat(padded_sigs(cx.sigs, missing), imported_sigs(&tables.funcs));
    let classes = with_classes(cx.classes, &tables.classes, first_class);
    let names = imported_names(&tables.funcs, at);
    let rest = Decl { next_func: at.wrapping_add(count(&tables.funcs)), ..st };
    if is_core {
        (rest, Ctx { classes: classes, sigs: sigs, core_func_index: concat(cx.core_func_index, names), ..cx })
    } else {
        (rest, Ctx { classes: classes, sigs: sigs, func_index: concat(cx.func_index, names), ..cx })
    }
}

/// Fill in the declarations of the compiled core.
pub open spec fn adopt_core(cx: Ctx, st: Decl, options: &CheckOptions) -> (Decl, Ctx)
{
    match compiled_core(options) {
        Some(core) => adopt(cx, st, &core.tables, 0u32, true),
        None => (st, cx),
    }
}

/// Resolve parents and interfaces: the core first.
pub open spec fn declare_interfaces(cx: Ctx, st: Decl, module: &Module, core: &Module) -> (Decl, Result<Ctx, Halt>)
{
    let (st, linked_core) = link_class_parents(cx, st, &core.classes, true);
    match halted(linked_core, true) {
        Err(stop) => (st, Err(stop)),
        Ok(core_cx) => {
            let (st, linked) = link_class_parents(core_cx, st, &module.classes, false);
            match halted(linked, false) {
                Err(stop) => (st, Err(stop)),
                Ok(linked_cx) => {
                    let (st, resolved_core) = resolve_all_interfaces(linked_cx, st, &core.interfaces, true);
                    match halted(resolved_core, true) {
                        Err(stop) => (st, Err(stop)),
                        Ok(core_done) => {
                            let (st, resolved) = resolve_all_interfaces(core_done, st, &module.interfaces, false);
                            match halted(resolved, false) {
                                Err(stop) => (st, Err(stop)),
                                Ok(done) => {
                                    let indexed = index_interface_defaults(done);
                                    match halted(core_ids(&indexed), true) {
                                        Err(stop) => (st, Err(stop)),
                                        Ok(ids) => {
                                            (st, Ok(Ctx { core: ids, ..indexed }))
                                        },
                                    }
                                },
                            }
                        },
                    }
                },
            }
        },
    }
}

/// Predeclare functions and reserve interface defaults. Module functions
/// have the first indices.
pub open spec fn declare_functions(cx: Ctx, st: Decl, module: &Module, core: &Module) -> (Decl, Result<Ctx, Halt>)
{
    let (st, declared) = predeclare_functions(cx, st, &module.funcs, false);
    match halted(declared, false) {
        Err(stop) => (st, Err(stop)),
        Ok(module_cx) => {
            let (st, declared_core) = predeclare_functions(module_cx, st, &core.funcs, true);
            match halted(declared_core, true) {
                Err(stop) => (st, Err(stop)),
                Ok(core_cx) => {
                    match reserve_interface_defaults(core_cx, st, &core.interfaces, true) {
                        (core_st, reserved) => {
                            match reserve_interface_defaults(reserved, core_st, &module.interfaces, false) {
                                (rest, done) => (rest, Ok(done)),
                            }
                        },
                    }
                },
            }
        },
    }
}

/// Check what needs the complete class table: frozen classes,
/// conformances and mailboxes.
pub open spec fn check_declared(cx: Ctx, module: &Module, core: &Module) -> Result<Ctx, Halt>
{
    match halted(check_frozen_classes(&cx, &core.classes, true), true) {
        Err(stop) => Err(stop),
        Ok(_core_frozen) => {
            match halted(check_frozen_classes(&cx, &module.classes, false), false) {
                Err(stop) => Err(stop),
                Ok(_frozen) => {
                    let dependencies = interface_self_dependencies(&cx);
                    match halted(check_all_conformances(cx, core, true, &dependencies), true) {
                        Err(stop) => Err(stop),
                        Ok(core_cx) => {
                            match halted(check_all_conformances(core_cx, module, false, &dependencies), false) {
                                Err(stop) => Err(stop),
                                Ok(done) => {
                                    match halted(check_mailbox_types(&done, &module.classes), false) {
                                        Err(stop) => Err(stop),
                                        Ok(_mailboxes) => {
                                            Ok(done)
                                        },
                                    }
                                },
                            }
                        },
                    }
                },
            }
        },
    }
}

/// Resolve the classes of the core, of other modules, and of the module,
/// and reserve the entry function.
pub open spec fn declare_classes(
    cx: Ctx,
    st: Decl,
    module: &Module,
    core: &Module,
    options: &CheckOptions,
) -> (Decl, Result<Declared, Halt>)
{
    let classes = unresolved_classes(&cx.metas);
    let core_at = st.next_func;
    let (st, core_tables) = adopt_core(Ctx { classes: classes, ..cx }, st, options);
    let (st, resolved_core) = resolve_all_classes(core_tables, st, core, true);
    match halted(resolved_core, true) {
        Err(stop) => (st, Err(stop)),
        Ok(core_cx) => {
            let import_at = st.next_func;
            let first_class = core_cx.import_start;
            let (st, import_tables) = adopt(core_cx, st, &options.imported, first_class, false);
            let (st, resolved) = resolve_all_classes(import_tables, st, module, false);
            match halted(resolved, false) {
                Err(stop) => (st, Err(stop)),
                Ok(done) => {
                    match check_declared(done, module, core) {
                        Err(stop) => (st, Err(stop)),
                        Ok(checked) => {
                            let entry = st.next_func;
                            (Decl { next_func: entry.wrapping_add(1), ..st }, Ok(Declared { cx: checked, core_at: core_at, import_at: import_at, entry: entry }))
                        },
                    }
                },
            }
        },
    }
}

/// Resolve every declaration of the module and the core.
pub open spec fn declare(
    cx: Ctx,
    st: Decl,
    module: &Module,
    core: &Module,
    options: &CheckOptions,
) -> (Decl, Result<Declared, Halt>)
{
    match declare_interfaces(cx, st, module, core) {
        (st, Err(stop)) => (st, Err(stop)),
        (st, Ok(interfaces_cx)) => {
            match declare_functions(interfaces_cx, st, module, core) {
                (st, Err(stop)) => (st, Err(stop)),
                (st, Ok(functions_cx)) => {
                    declare_classes(functions_cx, st, module, core, options)
                },
            }
        },
    }
}

/// Resolve the names and every declaration of a module. A map key that
/// names an unresolved class is checked last.
pub open spec fn declare_module(module: &Module, core: &Module, options: &CheckOptions) -> Result<Declared, Halt>
{
    match predeclare(options, module, core) {
        Err(stop) => Err(stop),
        Ok(cx) => {
            match resolve_uses(&cx, Uses { entries: Chain::Nil, reserves: Chain::Nil }, &options.imports, &module.uses) {
                (_, Err(stop)) => Err(Halt::Source(stop)),
                (uses, Ok(_)) => {
                    let bound = with_uses(cx, uses.entries, &options.imported);
                    match declare(bound, Decl { keys: Chain::Nil, next_func: 0, values: Chain::Nil }, module, core, options) {
                        (_, Err(halt)) => Err(halt),
                        (st, Ok(declared)) => {
                            let done = Ctx { defer_map_keys: false, ..declared.cx };
                            match halted(check_deferred_map_keys(&done, &st.keys), false) {
                                Err(stop) => Err(stop),
                                Ok(_keys) => {
                                    Ok(Declared { cx: done, core_at: declared.core_at, import_at: declared.import_at, entry: declared.entry })
                                },
                            }
                        },
                    }
                },
            }
        },
    }
}

/// The functions of another module, at their table indices.
pub open spec fn imported_made(funcs: &Chain<ImportedFunc>, at: u32) -> Chain<MadeFunc>
    decreases funcs,
{
    match funcs {
        Chain::Nil => Chain::Nil,
        Chain::Cons(head, tail) => cons(MadeFunc { index: at, func: head.func }, imported_made(tail, at.wrapping_add(1))),
    }
}

/// The functions of the compiled core, at their table indices.
pub open spec fn compiled_made(options: &CheckOptions, at: u32) -> Chain<MadeFunc>
{
    match compiled_core(options) {
        Some(core) => imported_made(&core.tables.funcs, at),
        None => Chain::Nil,
    }
}

/// The default table before any default is checked.
pub open spec fn empty_defaults(classes: &Chain<ClassInfo>) -> Chain<Chain<FieldDefault>>
    decreases classes,
{
    match classes {
        Chain::Nil => Chain::Nil,
        Chain::Cons(head, tail) => cons(imported_defaults(head), empty_defaults(tail)),
    }
}

/// The defaults of a class of another module. Its provider evaluates them,
/// so each own field stands without one.
pub open spec fn imported_defaults(info: &ClassInfo) -> Chain<FieldDefault>
{
    if info.imported {
        absent_defaults(&info.field_names, info.own_start)
    } else {
        Chain::Nil
    }
}

/// A field without a default for each name behind the first ones.
pub open spec fn absent_defaults(names: &Chain<Text>, inherited: u32) -> Chain<FieldDefault>
    decreases names,
{
    match names {
        Chain::Nil => Chain::Nil,
        Chain::Cons(_, tail) => {
            if inherited == 0 {
                cons(no_default(), absent_defaults(tail, 0u32))
            } else {
                absent_defaults(tail, (inherited - 1) as u32)
            }
        },
    }
}

/// Check the field defaults of the module, then of the core.
pub open spec fn check_every_default(cx: &Ctx, st: Output, module: &Module, core: &Module) -> (Output, Result<Chain<Chain<FieldDefault>>, Halt>)
{
    let (st, found) = check_defaults(cx, st, module, false, empty_defaults(&cx.classes));
    match halted(found, false) {
        Err(stop) => (st, Err(stop)),
        Ok(table) => {
            let (st, core_found) = check_defaults(cx, st, core, true, table);
            match halted(core_found, true) {
                Err(stop) => (st, Err(stop)),
                Ok(full) => {
                    (st, Ok(full))
                },
            }
        },
    }
}

/// Check the bodies of functions, methods and interface defaults: those
/// of the module, then those of the core.
pub open spec fn check_every_body(cx: &Ctx, st: Output, module: &Module, core: &Module) -> (Output, Result<(), Halt>)
{
    let (st, funcs) = check_functions(cx, st, &module.funcs, 0u32, false);
    match halted(funcs, false) {
        Err(stop) => (st, Err(stop)),
        Ok(_funcs) => {
            let (st, core_funcs) = check_functions(cx, st, &core.funcs, count(&module.funcs), true);
            match halted(core_funcs, true) {
                Err(stop) => (st, Err(stop)),
                Ok(_core_funcs) => {
                    let (st, methods) = check_all_methods(cx, st, module, false);
                    match halted(methods, false) {
                        Err(stop) => (st, Err(stop)),
                        Ok(_methods) => {
                            let (st, core_methods) = check_all_methods(cx, st, core, true);
                            match halted(core_methods, true) {
                                Err(stop) => (st, Err(stop)),
                                Ok(_core_methods) => {
                                    let (st, defaults) = check_interface_defaults(cx, st, &module.interfaces, false);
                                    match halted(defaults, false) {
                                        Err(stop) => (st, Err(stop)),
                                        Ok(_defaults) => {
                                            let (st, core_defaults) = check_interface_defaults(cx, st, &core.interfaces, true);
                                            match halted(core_defaults, true) {
                                                Err(stop) => (st, Err(stop)),
                                                Ok(_core_defaults) => {
                                                    (st, Ok(()))
                                                },
                                            }
                                        },
                                    }
                                },
                            }
                        },
                    }
                },
            }
        },
    }
}

/// Check every body of a module. The entry comes last.
pub open spec fn check_bodies(declared: &Declared, st: Output, module: &Module, core: &Module) -> (Output, Result<Chain<Chain<FieldDefault>>, Halt>)
{
    match check_every_default(&declared.cx, st, module, core) {
        (st, Err(stop)) => (st, Err(stop)),
        (st, Ok(table)) => {
            match check_every_body(&declared.cx, st, module, core) {
                (st, Err(stop)) => (st, Err(stop)),
                (st, Ok(_bodies)) => {
                    let (st, entry) = check_entry_func(&declared.cx, st, &module.entry, declared.entry);
                    match halted(entry, false) {
                        Err(stop) => (st, Err(stop)),
                        Ok(_entry) => {
                            (st, Ok(table))
                        },
                    }
                },
            }
        },
    }
}

/// What checking the bodies starts from: the functions of other modules,
/// and the first free index.
pub open spec fn first_output(declared: &Declared, options: &CheckOptions) -> Output
{
    let made = concat(compiled_made(options, declared.core_at), imported_made(&options.imported.funcs, declared.import_at));
    Output { next_func: declared.entry.wrapping_add(1), made: made }
}

/// Check a parsed module.
pub open spec fn check_module_with(module: &Module, options: &CheckOptions) -> Result<HirModule, Halt>
{
    let nothing = empty_module();
    let core = core_source(options, &nothing);
    match declare_module(module, core, options) {
        Err(stop) => Err(stop),
        Ok(declared) => {
            match check_bodies(&declared, first_output(&declared, options), module, core) {
                (_, Err(halt)) => Err(halt),
                (out, Ok(table)) => {
                    let entry = declared.entry;
                    match order_funcs(out.made, 0u32, out.next_func) {
                        Err(stop) => Err(stop),
                        Ok(funcs) => {
                            Ok(assemble(&declared.cx, funcs, &table, entry, module, core, options))
                        },
                    }
                },
            }
        },
    }
}

/// Check a parsed module with the default options.
pub open spec fn check_module(module: &Module, image: Image) -> Result<HirModule, Halt>
{
    check_module_with(module, &default_options(image))
}

} // verus!
