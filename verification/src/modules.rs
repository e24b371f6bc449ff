//! The passes over one module: names, declarations, bodies, and the
//! checked result.

use vstd::prelude::*;
use crate::assembly::{assemble, order_funcs};
use crate::ast::{ClassDef, EnumDef, FuncDef, InterfaceDef, InterfaceMethod, Module, nowhere};
use crate::bodies::{check_all_methods, check_defaults, check_entry_func, check_functions, check_interface_defaults, no_default};
use crate::chain::{Chain, copy_chain};
use crate::classes::{check_deferred_map_keys, check_mailbox_types, link_class_parents, register_type_names, resolve_all_classes};
use crate::conform::{empty_env, no_bounds};
use crate::context::{Absent, ClassInfo, ClassKind, ClassMeta, CoreIds, Ctx, Decl, FnSig, ImportEnv, InterfaceInfo, InterfaceMethodSig, InterfaceUse, NameEntry, Natives, TyEnv, UseEntry, Uses, clone_builtin_types, clone_class_metas, clone_interface_infos, clone_interface_use_lists, clone_knowns, clone_name_entries, clone_texts};
use crate::fulfil::{check_all_conformances, check_frozen_classes, declared_interface, interface_self_dependencies};
use crate::interfaces::{index_interface_defaults, register_interface_names, resolve_all_interfaces, with_interface};
use crate::lists::{append, concat, cons, count, find_id, find_literal, nth, one, set_nth};
use crate::lookup::{core_interface, find_method, interface_at};
use crate::problem::{Problem, Stop};
use crate::program::{CheckOptions, CompiledCore, Declared, FieldDefault, Halt, HirModule, Image, ImportPlan, Imported, ImportedFunc};
use crate::resolve::{named, resolve_generic_bounds, resolve_sig, split_generics, unnamed};
use crate::state::{MadeFunc, Output};
use crate::subst::{row_variables, variables};
use crate::text::{Text, is_text, text};
use crate::types::{Ty, clone_tys};
use crate::uses::resolve_uses;
use crate::model::sound::{made_ok, module_ok};
use crate::model::layout::{class_total, each_has_defaults, laid_tables, lemma_every_default, lemma_hir_classes, lemma_laid_kept, lemma_module_agree, lemma_numbered_linked, lemma_predeclare, lemma_resolve_all, lemma_unresolved, lemma_with_uses, linked, numbered, shapes_kept, table_fits, tables_kept, takes_nothing};
use crate::model::keeps::{kept_decl, numbered_names, took_funcs};
use crate::model;

verus! {

broadcast use {crate::model::keeps::group_kept, crate::model::sound::group_sound};

/// The result of a pass over the core or over the module.
pub fn halted<T>(result: Result<T, Stop>, is_core: bool) -> (r: Result<T, Halt>)
    ensures
        r == model::modules::halted(result, is_core),
{
    match result {
        Ok(value) => Ok(value),
        Err(stop) => {
            if is_core {
                Err(Halt::Core(stop))
            } else {
                Err(Halt::Source(stop))
            }
        },
    }
}

/// A module without declarations.
pub fn empty_module() -> (r: Module)
    ensures
        r == model::modules::empty_module(),
{
    Module { uses: Chain::Nil, interfaces: Chain::Nil, classes: Chain::Nil, enums: Chain::Nil, funcs: Chain::Nil, entry: Chain::Nil }
}

/// Declarations that give nothing.
pub fn nothing_imported() -> (r: Imported)
    ensures
        r == model::modules::nothing_imported(),
{
    Imported {
        metas: Chain::Nil,
        classes: Chain::Nil,
        origins: Chain::Nil,
        types: Chain::Nil,
        interfaces: Chain::Nil,
        interface_names: Chain::Nil,
        funcs: Chain::Nil,
        natives: no_natives(),
    }
}

/// The core classes behind the built-in types, before any is declared.
pub fn no_natives() -> (r: Natives)
    ensures
        r == model::modules::no_natives(),
{
    Natives { unit: None, int: None, float: None, boolean: None, string: None, bytes: None, file: None, list: None, map: None, tuples: Chain::Nil }
}

/// The default options: the prelude, the core from its source, and no
/// other module.
pub fn default_options(image: Image) -> (r: CheckOptions)
    ensures
        r == model::modules::default_options(image),
{
    CheckOptions {
        prelude: true,
        build_core_provider: false,
        image: image,
        path: Chain::Nil,
        imports: ImportEnv { roots: Chain::Nil, modules: Chain::Nil, no_package_roots: true },
        imported: nothing_imported(),
        core: None,
        core_roots: Chain::Nil,
    }
}

/// The compiled core that a check uses. A build of the core itself uses
/// none.
pub fn compiled_core<'a>(options: &'a CheckOptions) -> (r: Option<&'a CompiledCore>)
    ensures
        r == model::modules::compiled_core(options),
{
    match &options.core {
        Some(core) => {
            if options.build_core_provider {
                None
            } else {
                Some(core)
            }
        },
        None => None,
    }
}

/// The core source of a check: none with a compiled core.
pub fn core_source<'a>(options: &'a CheckOptions, nothing: &'a Module) -> (r: &'a Module)
    ensures
        r == model::modules::core_source(options, nothing),
{
    match compiled_core(options) {
        Some(_) => nothing,
        None => &options.image.source,
    }
}

/// The core image owns the module path `core`, and the compiled core must
/// be that module, built for the same operations.
pub fn check_core_choice(options: &CheckOptions) -> (r: Result<(), Stop>)
    ensures
        r == model::modules::check_core_choice(options),
{
    if is_text(&options.path, "core") {
        return Err(unnamed(Problem::CorePath, nowhere()));
    }
    match compiled_core(options) {
        None => Ok(()),
        Some(core) => {
            if !is_text(&core.path, "core") {
                Err(unnamed(Problem::CoreOtherPath, nowhere()))
            } else if !core.same_bundle {
                Err(unnamed(Problem::CoreOtherBundle, nowhere()))
            } else {
                Ok(())
            }
        },
    }
}

/// A class entry before its declaration resolves.
pub fn unresolved_class() -> (r: ClassInfo)
    ensures
        r == model::modules::unresolved_class(),
{
    ClassInfo {
        imported: false,
        source_span: None,
        is_final: false,
        is_frozen: false,
        native_repr: None,
        name: Chain::Nil,
        parent: None,
        type_params: Chain::Nil,
        type_bounds: Chain::Nil,
        conformances: Chain::Nil,
        kind: ClassKind::Normal,
        self_ty: Ty::Unit,
        field_names: Chain::Nil,
        field_tys: Chain::Nil,
        has_default: Chain::Nil,
        own_start: 0,
        methods: Chain::Nil,
        init: None,
        family: None,
        arms: Chain::Nil,
        arm_short: Chain::Nil,
    }
}

/// A signature without parameters.
pub fn empty_sig() -> (r: FnSig)
    ensures
        r == model::modules::empty_sig(),
{
    FnSig {
        type_params: Chain::Nil,
        type_bounds: Chain::Nil,
        effect_params: Chain::Nil,
        params: Chain::Nil,
        param_muts: Chain::Nil,
        param_names: Chain::Nil,
        ret: Ty::Unit,
        row: Chain::Nil,
    }
}

/// An interface without members.
pub fn empty_interface() -> (r: InterfaceInfo)
    ensures
        r == model::modules::empty_interface(),
{
    InterfaceInfo {
        origin: None,
        name: Chain::Nil,
        type_params: Chain::Nil,
        effect_params: Chain::Nil,
        generic_is_effect: Chain::Nil,
        parents: Chain::Nil,
        type_bounds: Chain::Nil,
        associated: Chain::Nil,
        methods: Chain::Nil,
    }
}

/// The tables before any declaration.
pub fn start(options: &CheckOptions) -> (r: Ctx)
    ensures
        r == model::modules::start(options),
{
    Ctx {
        bundle: options.image.bundle.clone(),
        builtins: clone_builtin_types(&options.image.builtins),
        metas: Chain::Nil,
        natives: no_natives(),
        classes: Chain::Nil,
        user_types: Chain::Nil,
        core_types: Chain::Nil,
        interfaces: Chain::Nil,
        user_interfaces: Chain::Nil,
        core_interfaces: Chain::Nil,
        interface_defaults: Chain::Nil,
        prelude: options.prelude,
        func_index: Chain::Nil,
        core_func_index: Chain::Nil,
        sigs: Chain::Nil,
        uses: Chain::Nil,
        user_start: 0,
        import_start: 0,
        user_interface_start: 0,
        import_interface_start: 0,
        core: CoreIds { option_class: 0, some_class: 0, none_class: 0, partial_eq_interface: 0, partial_eq_method: 0, hashable_interface: 0, hashable_method: 0 },
        defer_map_keys: true,
        max_interface_index: options.image.max_interface_index,
        answers: clone_knowns(&options.image.answers),
        assoc_values: Chain::Nil,
        absent: Absent {
            class: unresolved_class(),
            interface: empty_interface(),
            meta: ClassMeta { name: Chain::Nil, type_params: 0, kind: ClassKind::Normal, is_final: false, parent: None, parent_args: Chain::Nil },
            sig: empty_sig(),
        },
    }
}

/// The tables with the names of a compiled core.
pub fn with_core_names(cx: Ctx, tables: &Imported) -> (r: Ctx)
    ensures
        r == model::modules::with_core_names(cx, tables),
{
    Ctx {
        metas: clone_class_metas(&tables.metas),
        natives: tables.natives.clone(),
        core_types: clone_name_entries(&tables.types),
        interfaces: clone_interface_infos(&tables.interfaces),
        core_interfaces: clone_name_entries(&tables.interface_names),
        ..cx
    }
}

/// Register the names of the core. It comes first, so that a core class
/// always has a lower index than a module class that inherits it.
pub fn core_names(cx: Ctx, options: &CheckOptions, core: &Module) -> (r: Result<Ctx, Halt>)
    ensures
        r == model::modules::core_names(cx, options, core),
{
    match compiled_core(options) {
        Some(compiled) => Ok(with_core_names(cx, &compiled.tables)),
        None => {
            let next = match halted(register_interface_names(cx, &core.interfaces, true), true) {
                Ok(found) => found,
                Err(stop) => {
                    return Err(stop);
                },
            };
            halted(register_type_names(next, core, true), true)
        },
    }
}

/// Register all type and interface names of the core and the module.
pub fn predeclare(options: &CheckOptions, module: &Module, core: &Module) -> (r: Result<Ctx, Halt>)
    ensures
        r == model::modules::predeclare(options, module, core),
{
    let _choice = match halted(check_core_choice(options), false) {
        Ok(found) => found,
        Err(stop) => {
            return Err(stop);
        },
    };
    let core_cx = match core_names(start(options), options, core) {
        Ok(found) => found,
        Err(stop) => {
            return Err(stop);
        },
    };
    let interface_start = count(&core_cx.interfaces);
    let named_cx = match halted(register_interface_names(Ctx { user_interface_start: interface_start, ..core_cx }, &module.interfaces, false), false) {
        Ok(found) => found,
        Err(stop) => {
            return Err(stop);
        },
    };
    let import_interface_start = count(&named_cx.interfaces);
    let user_start = count(&named_cx.metas);
    let cx = match halted(register_type_names(Ctx { import_interface_start: import_interface_start, user_start: user_start, ..named_cx }, module, false), false) {
        Ok(found) => found,
        Err(stop) => {
            return Err(stop);
        },
    };
    let import_start = count(&cx.metas);
    Ok(Ctx { import_start: import_start, ..cx })
}

/// The number of methods with a body in one interface.
pub fn default_count(methods: &Chain<InterfaceMethod>) -> (r: u32)
    ensures
        r == model::modules::default_count(methods),
    decreases methods,
{
    match methods {
        Chain::Nil => 0u32,
        Chain::Cons(head, tail) => {
            if head.body.is_some() {
                default_count(tail).wrapping_add(1)
            } else {
                default_count(tail)
            }
        },
    }
}

/// The number of interface defaults of a source module.
pub fn interface_default_count(interfaces: &Chain<InterfaceDef>) -> (r: u32)
    ensures
        r == model::modules::interface_default_count(interfaces),
    decreases interfaces,
{
    match interfaces {
        Chain::Nil => 0u32,
        Chain::Cons(head, tail) => default_count(&head.methods).wrapping_add(interface_default_count(tail)),
    }
}

/// The number of methods of classes.
pub fn class_method_count(classes: &Chain<ClassDef>) -> (r: u32)
    ensures
        r == model::modules::class_method_count(classes),
    decreases classes,
{
    match classes {
        Chain::Nil => 0u32,
        Chain::Cons(head, tail) => count(&head.methods).wrapping_add(class_method_count(tail)),
    }
}

/// The number of methods of enums.
pub fn enum_method_count(enums: &Chain<EnumDef>) -> (r: u32)
    ensures
        r == model::modules::enum_method_count(enums),
    decreases enums,
{
    match enums {
        Chain::Nil => 0u32,
        Chain::Cons(head, tail) => count(&head.methods).wrapping_add(enum_method_count(tail)),
    }
}

/// The number of methods of a source module.
pub fn method_count(module: &Module) -> (r: u32)
    ensures
        r == model::modules::method_count(module),
{
    class_method_count(&module.classes).wrapping_add(enum_method_count(&module.enums))
}

/// The number of functions that a check reserves before any method.
pub fn reserved_count(module: &Module, core: &Module) -> (r: u32)
    ensures
        r == model::modules::reserved_count(module, core),
{
    let funcs = count(&module.funcs).wrapping_add(count(&core.funcs));
    funcs.wrapping_add(interface_default_count(&core.interfaces).wrapping_add(interface_default_count(&module.interfaces)))
}

/// The number of functions that the compiled core of a check gives.
pub fn compiled_funcs(options: &CheckOptions) -> (r: u32)
    ensures
        r == model::modules::compiled_funcs(options),
{
    match compiled_core(options) {
        Some(core) => count(&core.tables.funcs),
        None => 0u32,
    }
}

/// The number of functions that the core gives before those of other
/// modules: its compiled ones, or its methods.
pub fn core_method_count(core: &Module, options: &CheckOptions) -> (r: u32)
    ensures
        r == model::modules::core_method_count(core, options),
{
    compiled_funcs(options).wrapping_add(method_count(core))
}

/// The index of the first function of another module.
pub fn import_func_start(module: &Module, core: &Module, options: &CheckOptions) -> (r: u32)
    ensures
        r == model::modules::import_func_start(module, core, options),
{
    reserved_count(module, core).wrapping_add(core_method_count(core, options))
}

/// What a module demands of other modules, and which table indices their
/// declarations get.
pub fn plan_imports(module: &Module, options: &CheckOptions) -> (r: Result<ImportPlan, Halt>)
    ensures
        r == model::modules::plan_imports(module, options),
{
    let nothing = empty_module();
    let core = core_source(options, &nothing);
    let cx = match predeclare(options, module, core) {
        Ok(found) => found,
        Err(stop) => {
            return Err(stop);
        },
    };
    match resolve_uses(&cx, Uses { entries: Chain::Nil, reserves: Chain::Nil }, &options.imports, &module.uses) {
        (_, Err(stop)) => Err(Halt::Source(stop)),
        (uses, Ok(_)) => {
            Ok(ImportPlan {
                class_start: cx.import_start,
                interface_start: cx.import_interface_start,
                core_funcs: reserved_count(module, core),
                import_funcs: import_func_start(module, core, options),
                reserves: uses.reserves,
            })
        },
    }
}

/// The tables with the `use` lines of a module and the names that they
/// bind.
pub fn with_uses(cx: Ctx, uses: Chain<UseEntry>, tables: &Imported) -> (r: Ctx)
    ensures
        r == model::modules::with_uses(cx, uses, tables),
{
    Ctx {
        metas: concat(cx.metas, clone_class_metas(&tables.metas)),
        user_types: concat(cx.user_types, clone_name_entries(&tables.types)),
        interfaces: concat(cx.interfaces, clone_interface_infos(&tables.interfaces)),
        user_interfaces: concat(cx.user_interfaces, clone_name_entries(&tables.interface_names)),
        uses: uses,
        ..cx
    }
}

/// The position of one core requirement.
pub fn core_requirement(cx: &Ctx, interface: u32, name: &str) -> (r: Result<u32, Stop>)
    ensures
        r == model::modules::core_requirement(cx, interface, name),
{
    match find_method(&interface_at(cx, interface).methods, &text(name)) {
        Some(at) => Ok(at),
        None => Err(named(Problem::CoreMissing, &text(name), nowhere())),
    }
}

/// One behind an index, where there is one.
pub fn next_index(index: u32) -> (r: u32)
    ensures
        r == model::modules::next_index(index),
{
    if index == u32::MAX {
        index
    } else {
        (index + 1) as u32
    }
}

/// The core definitions with a fixed role. The two arms of `Option` stand
/// behind it.
pub fn core_ids(cx: &Ctx) -> (r: Result<CoreIds, Stop>)
    ensures
        r == model::modules::core_ids(cx),
{
    let option_class = match find_literal(&cx.core_types, "Option") {
        Some(class) => class,
        None => u32::MAX,
    };
    let partial_eq = match core_interface(cx, "PartialEq", nowhere()) {
        Ok(found) => found,
        Err(stop) => {
            return Err(stop);
        },
    };
    let eq_method = match core_requirement(cx, partial_eq, "__eq__") {
        Ok(found) => found,
        Err(stop) => {
            return Err(stop);
        },
    };
    let hashable = match core_interface(cx, "Hashable", nowhere()) {
        Ok(found) => found,
        Err(stop) => {
            return Err(stop);
        },
    };
    let hash_method = match core_requirement(cx, hashable, "__hash__") {
        Ok(found) => found,
        Err(stop) => {
            return Err(stop);
        },
    };
    Ok(CoreIds {
        option_class: option_class,
        some_class: next_index(option_class),
        none_class: next_index(next_index(option_class)),
        partial_eq_interface: partial_eq,
        partial_eq_method: eq_method,
        hashable_interface: hashable,
        hashable_method: hash_method,
    })
}

/// Whether a function name is already taken.
pub fn function_taken(cx: &Ctx, name: &Text, is_core: bool) -> (r: bool)
    ensures
        r == model::modules::function_taken(cx, name, is_core),
{
    if is_core {
        find_id(&cx.core_func_index, name).is_some() || find_id(&cx.core_types, name).is_some()
    } else {
        find_id(&cx.func_index, name).is_some() || find_id(&cx.user_types, name).is_some()
    }
}

/// The tables with one more top-level function.
pub fn with_function(cx: Ctx, name: &Text, index: u32, sig: FnSig, is_core: bool) -> (r: Ctx)
    ensures
        r == model::modules::with_function(cx, name, index, sig, is_core),
{
    let entry = NameEntry { name: copy_chain(&*name), id: index };
    let sigs = append(cx.sigs, sig);
    if is_core {
        Ctx { core_func_index: append(cx.core_func_index, entry), sigs: sigs, ..cx }
    } else {
        Ctx { func_index: append(cx.func_index, entry), sigs: sigs, ..cx }
    }
}

/// Predeclare one top-level function signature.
pub fn predeclare_function(cx: Ctx, st: Decl, func: &FuncDef, is_core: bool) -> (r: (Decl, Result<Ctx, Stop>))
    ensures
        r == model::modules::predeclare_function(cx, st, func, is_core),
        r.1 matches Ok(next) ==> tables_kept(cx, next),
        r.1 is Ok ==> took_funcs(st, r.0, 1),
        r.1 matches Ok(next) ==> next.func_index == (if is_core { cx.func_index } else { model::lists::append(cx.func_index, (NameEntry { name: func.name, id: st.next_func })) }),
{
    if function_taken(&cx, &func.name, is_core) {
        return (st, Err(named(Problem::DuplicateDefinition, &func.name, func.name_span)));
    }
    let generics = split_generics(&func.generics);
    let open = no_bounds(count(&generics.types));
    let env = TyEnv { type_names: generics.types, type_bounds: open, effect_names: generics.effects, core_scope: is_core, ..empty_env() };
    let (st, out) = resolve_generic_bounds(&cx, &env, st, &func.generics);
    let bounds = match out {
        Ok(found) => found,
        Err(stop) => {
            return (st, Err(stop));
        },
    };
    let scope = TyEnv { type_bounds: bounds, ..env };
    let (st, out) = resolve_sig(&cx, &scope, st, &func.params, &func.ret, &func.row);
    let sig = match out {
        Ok(found) => found,
        Err(stop) => {
            return (st, Err(stop));
        },
    };
    let index = st.next_func;
    (Decl { next_func: index.wrapping_add(1), ..st }, Ok(with_function(cx, &func.name, index, sig, is_core)))
}

/// Predeclare the top-level functions of a source module.
pub fn predeclare_functions(cx: Ctx, st: Decl, funcs: &Chain<FuncDef>, is_core: bool) -> (r: (Decl, Result<Ctx, Stop>))
    ensures
        r == model::modules::predeclare_functions(cx, st, funcs, is_core),
        r.1 matches Ok(next) ==> tables_kept(cx, next),
        r.1 is Ok ==> took_funcs(st, r.0, model::lists::count(funcs)),
        r.1 matches Ok(next) ==> next.func_index == (if is_core { cx.func_index } else { model::lists::concat(cx.func_index, numbered_names(*funcs, st.next_func)) }),
    decreases funcs,
{
    proof {
        broadcast use {crate::model::keeps::lemma_concat_none, crate::model::keeps::lemma_concat_append};
    }
    match funcs {
        Chain::Nil => (st, Ok(cx)),
        Chain::Cons(head, tail) => {
            let (st, out) = predeclare_function(cx, st, head, is_core);
            let next = match out {
                Ok(found) => found,
                Err(stop) => {
                    return (st, Err(stop));
                },
            };
            predeclare_functions(next, st, tail, is_core)
        },
    }
}

/// The signature of an interface default: `Self` is its first type
/// parameter, and `self` its first parameter.
pub fn default_sig(
    contract: &InterfaceInfo,
    requirement: &InterfaceMethodSig,
    interface: u32,
) -> (r: FnSig)
    ensures
        r == model::modules::default_sig(contract, requirement, interface),
{
    let application = InterfaceUse { interface: interface, type_args: variables(&contract.type_params, 1u32), row_args: row_variables(&contract.effect_params, 0u32) };
    let bounds = concat(clone_interface_use_lists(&contract.type_bounds), clone_interface_use_lists(&requirement.own_type_bounds));
    FnSig {
        type_params: cons(text("Self"), concat(clone_texts(&contract.type_params), clone_texts(&requirement.own_type_params))),
        type_bounds: cons(one(application), bounds),
        effect_params: concat(clone_texts(&contract.effect_params), clone_texts(&requirement.own_effect_params)),
        params: cons(Ty::Var(0), clone_tys(&requirement.params)),
        param_muts: cons(requirement.mut_self, copy_chain(&requirement.param_muts)),
        param_names: cons(text("self"), clone_texts(&requirement.param_names)),
        ret: requirement.ret.clone(),
        row: copy_chain(&requirement.row),
    }
}

/// The tables with the function of one interface default.
pub fn with_default_func(
    cx: Ctx,
    interface: u32,
    at: u32,
    requirement: InterfaceMethodSig,
    func: u32,
    sig: FnSig,
) -> (r: Ctx)
    ensures
        r == model::modules::with_default_func(cx, interface, at, requirement, func, sig),
{
    let info = (*interface_at(&cx, interface)).clone();
    let methods = set_nth(info.methods, at, InterfaceMethodSig { default_func: Some(func), ..requirement });
    let sigs = append(cx.sigs, sig);
    with_interface(Ctx { sigs: sigs, ..cx }, interface, InterfaceInfo { methods: methods, ..info })
}

/// One requirement of an interface.
pub fn requirement_at(cx: &Ctx, interface: u32, at: u32) -> (r: Option<InterfaceMethodSig>)
    ensures
        r == model::modules::requirement_at(cx, interface, at),
{
    match nth(&interface_at(cx, interface).methods, at) {
        Some(found) => Some((*found).clone()),
        None => None,
    }
}

/// Reserve the defaults of one interface.
pub fn reserve_defaults_of(
    cx: Ctx,
    st: Decl,
    interface: u32,
    methods: &Chain<InterfaceMethod>,
    at: u32,
) -> (r: (Decl, Ctx))
    ensures
        r == model::modules::reserve_defaults_of(cx, st, interface, methods, at),
        tables_kept(cx, r.1),
        r.1.func_index == cx.func_index,
        took_funcs(st, r.0, model::modules::default_count(methods)),
    decreases methods,
{
    match methods {
        Chain::Nil => (st, cx),
        Chain::Cons(head, tail) => {
            match (head.body.is_some(), requirement_at(&cx, interface, at)) {
                (true, Some(requirement)) => {
                    let sig = default_sig(interface_at(&cx, interface), &requirement, interface);
                    let next = with_default_func(cx, interface, at, requirement, st.next_func, sig);
                    reserve_defaults_of(next, Decl { next_func: st.next_func.wrapping_add(1), ..st }, interface, tail, at.wrapping_add(1))
                },
                (true, None) => reserve_defaults_of(cx, Decl { next_func: st.next_func.wrapping_add(1), ..st }, interface, tail, at.wrapping_add(1)),
                (false, _) => reserve_defaults_of(cx, st, interface, tail, at.wrapping_add(1)),
            }
        },
    }
}

/// Reserve one function for each interface default of a source module.
pub fn reserve_interface_defaults(cx: Ctx, st: Decl, interfaces: &Chain<InterfaceDef>, is_core: bool) -> (r: (Decl, Ctx))
    ensures
        r == model::modules::reserve_interface_defaults(cx, st, interfaces, is_core),
        tables_kept(cx, r.1),
        r.1.func_index == cx.func_index,
        took_funcs(st, r.0, model::modules::interface_default_count(interfaces)),
    decreases interfaces,
{
    match interfaces {
        Chain::Nil => (st, cx),
        Chain::Cons(head, tail) => {
            let interface = declared_interface(&cx, &head.name, is_core);
            match reserve_defaults_of(cx, st, interface, &head.methods, 0u32) {
                (rest, next) => reserve_interface_defaults(next, rest, tail, is_core),
            }
        },
    }
}

/// One unresolved entry for each registered class.
pub fn unresolved_classes(metas: &Chain<ClassMeta>) -> (r: Chain<ClassInfo>)
    ensures
        r == model::modules::unresolved_classes(metas),
    decreases metas,
{
    match metas {
        Chain::Nil => Chain::Nil,
        Chain::Cons(_, tail) => cons(unresolved_class(), unresolved_classes(tail)),
    }
}

/// The class table with the declared classes of another module.
pub fn with_classes(classes: Chain<ClassInfo>, items: &Chain<ClassInfo>, at: u32) -> (r: Chain<ClassInfo>)
    ensures
        r == model::modules::with_classes(classes, items, at),
    decreases items,
{
    match items {
        Chain::Nil => classes,
        Chain::Cons(head, tail) => with_classes(set_nth(classes, at, (**head).clone()), tail, at.wrapping_add(1)),
    }
}

/// A signature table that reaches to one index.
pub fn padded_sigs(sigs: Chain<FnSig>, missing: u32) -> (r: Chain<FnSig>)
    ensures
        r == model::modules::padded_sigs(sigs, missing),
    decreases missing,
{
    if missing == 0 {
        sigs
    } else {
        padded_sigs(append(sigs, empty_sig()), (missing - 1) as u32)
    }
}

/// The signatures of imported functions.
pub fn imported_sigs(funcs: &Chain<ImportedFunc>) -> (r: Chain<FnSig>)
    ensures
        r == model::modules::imported_sigs(funcs),
    decreases funcs,
{
    match funcs {
        Chain::Nil => Chain::Nil,
        Chain::Cons(head, tail) => cons(head.sig.clone(), imported_sigs(tail)),
    }
}

/// The names of imported functions. An empty name binds nothing.
pub fn imported_names(funcs: &Chain<ImportedFunc>, at: u32) -> (r: Chain<NameEntry>)
    ensures
        r == model::modules::imported_names(funcs, at),
    decreases funcs,
{
    match funcs {
        Chain::Nil => Chain::Nil,
        Chain::Cons(head, tail) => {
            let rest = imported_names(tail, at.wrapping_add(1));
            if head.name.is_empty() {
                rest
            } else {
                cons(NameEntry { name: copy_chain(&head.name), id: at }, rest)
            }
        },
    }
}

/// Fill in the declarations of another module.
pub fn adopt(cx: Ctx, st: Decl, tables: &Imported, first_class: u32, is_core: bool) -> (r: (Decl, Ctx))
    ensures
        r == model::modules::adopt(cx, st, tables, first_class, is_core),
        took_funcs(st, r.0, model::lists::count(&tables.funcs)),
{
    let at = st.next_func;
    let known = count(&cx.sigs);
    let missing = if known < at { (at - known) as u32 } else { 0u32 };
    let sigs = concat(padded_sigs(cx.sigs, missing), imported_sigs(&tables.funcs));
    let classes = with_classes(cx.classes, &tables.classes, first_class);
    let names = imported_names(&tables.funcs, at);
    let rest = Decl { next_func: at.wrapping_add(count(&tables.funcs)), ..st };
    if is_core {
        (rest, Ctx { classes: classes, sigs: sigs, core_func_index: concat(cx.core_func_index, names), ..cx })
    } else {
        (rest, Ctx { classes: classes, sigs: sigs, func_index: concat(cx.func_index, names), ..cx })
    }
}

/// Fill in the declarations of the compiled core.
pub fn adopt_core(cx: Ctx, st: Decl, options: &CheckOptions) -> (r: (Decl, Ctx))
    ensures
        r == model::modules::adopt_core(cx, st, options),
        took_funcs(st, r.0, model::modules::compiled_funcs(options)),
{
    match compiled_core(options) {
        Some(core) => adopt(cx, st, &core.tables, 0u32, true),
        None => (st, cx),
    }
}

/// Resolve parents and interfaces: the core first.
pub fn declare_interfaces(cx: Ctx, st: Decl, module: &Module, core: &Module) -> (r: (Decl, Result<Ctx, Halt>))
    ensures
        r == model::modules::declare_interfaces(cx, st, module, core),
        kept_decl(st, r.0),
        r.1 matches Ok(next) ==> linked(cx, next),
{
    let (st, linked_core) = link_class_parents(cx, st, &core.classes, true);
    let core_cx = match halted(linked_core, true) {
        Ok(found) => found,
        Err(stop) => {
            return (st, Err(stop));
        },
    };
    let (st, linked) = link_class_parents(core_cx, st, &module.classes, false);
    let linked_cx = match halted(linked, false) {
        Ok(found) => found,
        Err(stop) => {
            return (st, Err(stop));
        },
    };
    let (st, resolved_core) = resolve_all_interfaces(linked_cx, st, &core.interfaces, true);
    let core_done = match halted(resolved_core, true) {
        Ok(found) => found,
        Err(stop) => {
            return (st, Err(stop));
        },
    };
    let (st, resolved) = resolve_all_interfaces(core_done, st, &module.interfaces, false);
    let done = match halted(resolved, false) {
        Ok(found) => found,
        Err(stop) => {
            return (st, Err(stop));
        },
    };
    let indexed = index_interface_defaults(done);
    let ids = match halted(core_ids(&indexed), true) {
        Ok(found) => found,
        Err(stop) => {
            return (st, Err(stop));
        },
    };
    (st, Ok(Ctx { core: ids, ..indexed }))
}

/// Predeclare functions and reserve interface defaults. Module functions
/// have the first indices.
pub fn declare_functions(cx: Ctx, st: Decl, module: &Module, core: &Module) -> (r: (Decl, Result<Ctx, Halt>))
    ensures
        r == model::modules::declare_functions(cx, st, module, core),
        r.1 matches Ok(next) ==> tables_kept(cx, next),
        r.1 matches Ok(done) ==> done.func_index == model::lists::concat(cx.func_index, numbered_names(module.funcs, st.next_func)),
        r.1 is Ok ==> took_funcs(st, r.0, model::modules::reserved_count(module, core)),
{
    let (st, declared) = predeclare_functions(cx, st, &module.funcs, false);
    let module_cx = match halted(declared, false) {
        Ok(found) => found,
        Err(stop) => {
            return (st, Err(stop));
        },
    };
    let (st, declared_core) = predeclare_functions(module_cx, st, &core.funcs, true);
    let core_cx = match halted(declared_core, true) {
        Ok(found) => found,
        Err(stop) => {
            return (st, Err(stop));
        },
    };
    match reserve_interface_defaults(core_cx, st, &core.interfaces, true) {
        (core_st, reserved) => {
            match reserve_interface_defaults(reserved, core_st, &module.interfaces, false) {
                (rest, done) => (rest, Ok(done)),
            }
        },
    }
}

/// Check what needs the complete class table: frozen classes,
/// conformances and mailboxes.
pub fn check_declared(cx: Ctx, module: &Module, core: &Module) -> (r: Result<Ctx, Halt>)
    ensures
        r == model::modules::check_declared(cx, module, core),
        r matches Ok(next) ==> shapes_kept(cx, next),
{
    let _core_frozen = match halted(check_frozen_classes(&cx, &core.classes, true), true) {
        Ok(found) => found,
        Err(stop) => {
            return Err(stop);
        },
    };
    let _frozen = match halted(check_frozen_classes(&cx, &module.classes, false), false) {
        Ok(found) => found,
        Err(stop) => {
            return Err(stop);
        },
    };
    let dependencies = interface_self_dependencies(&cx);
    let core_cx = match halted(check_all_conformances(cx, core, true, &dependencies), true) {
        Ok(found) => found,
        Err(stop) => {
            return Err(stop);
        },
    };
    let done = match halted(check_all_conformances(core_cx, module, false, &dependencies), false) {
        Ok(found) => found,
        Err(stop) => {
            return Err(stop);
        },
    };
    let _mailboxes = match halted(check_mailbox_types(&done, &module.classes), false) {
        Ok(found) => found,
        Err(stop) => {
            return Err(stop);
        },
    };
    Ok(done)
}

/// Resolve the classes of the core, of other modules, and of the module,
/// and reserve the entry function.
pub fn declare_classes(
    cx: Ctx,
    st: Decl,
    module: &Module,
    core: &Module,
    options: &CheckOptions,
) -> (r: (Decl, Result<Declared, Halt>))
    ensures
        r == model::modules::declare_classes(cx, st, module, core, options),
        takes_nothing(*options) && numbered(cx, *module, *core) ==> (r.1 matches Ok(found) ==> laid_tables(found.cx, *module, *core)),
        r.1 matches Ok(found) ==> found.core_at == st.next_func && found.import_at == st.next_func.wrapping_add(model::modules::core_method_count(core, options)),
{
    proof {
        reveal(numbered);
        reveal(laid_tables);
        reveal(takes_nothing);
    }
    let classes = unresolved_classes(&cx.metas);
    let core_at = st.next_func;
    let ghost before = cx;
    proof {
        lemma_unresolved(before.metas);
    }
    let (st, core_tables) = adopt_core(Ctx { classes: classes, ..cx }, st, options);
    let ghost split = class_total(*core) as int;
    proof {
        if takes_nothing(*options) && numbered(before, *module, *core) {
            lemma_resolve_all(core_tables, st, *core, true, 0);
        }
    }
    let (st, resolved_core) = resolve_all_classes(core_tables, st, core, true);
    let core_cx = match halted(resolved_core, true) {
        Ok(found) => found,
        Err(stop) => {
            return (st, Err(stop));
        },
    };
    let import_at = st.next_func;
    let first_class = core_cx.import_start;
    let (st, import_tables) = adopt(core_cx, st, &options.imported, first_class, false);
    let ghost between = import_tables.classes@;
    proof {
        if takes_nothing(*options) && numbered(before, *module, *core) {
            lemma_resolve_all(import_tables, st, *module, false, split);
        }
    }
    let (st, resolved) = resolve_all_classes(import_tables, st, module, false);
    let done = match halted(resolved, false) {
        Ok(found) => found,
        Err(stop) => {
            return (st, Err(stop));
        },
    };
    proof {
        if takes_nothing(*options) && numbered(before, *module, *core) {
            lemma_module_agree(between, done.classes@, *core, 0, split);
        }
    }
    let ghost laid = done.classes@;
    let checked = match check_declared(done, module, core) {
        Ok(found) => found,
        Err(stop) => {
            return (st, Err(stop));
        },
    };
    proof {
        if takes_nothing(*options) && numbered(before, *module, *core) {
            lemma_module_agree(laid, checked.classes@, *core, 0, laid.len() as int);
            lemma_module_agree(laid, checked.classes@, *module, split, laid.len() as int);
        }
    }
    let entry = st.next_func;
    (Decl { next_func: entry.wrapping_add(1), ..st }, Ok(Declared { cx: checked, core_at: core_at, import_at: import_at, entry: entry }))
}

/// Resolve every declaration of the module and the core.
pub fn declare(
    cx: Ctx,
    st: Decl,
    module: &Module,
    core: &Module,
    options: &CheckOptions,
) -> (r: (Decl, Result<Declared, Halt>))
    ensures
        r == model::modules::declare(cx, st, module, core, options),
        takes_nothing(*options) && numbered(cx, *module, *core) ==> (r.1 matches Ok(found) ==> laid_tables(found.cx, *module, *core)),
        r.1 matches Ok(found) ==> found.core_at == st.next_func.wrapping_add(model::modules::reserved_count(module, core)) && found.import_at == found.core_at.wrapping_add(model::modules::core_method_count(core, options)),
{
    let ghost before = cx;
    let (st, out) = declare_interfaces(cx, st, module, core);
    let interfaces_cx = match out {
        Ok(found) => found,
        Err(stop) => {
            return (st, Err(stop));
        },
    };
    proof {
        lemma_numbered_linked(before, interfaces_cx, *module, *core);
    }
    let ghost between = interfaces_cx;
    let (st, out) = declare_functions(interfaces_cx, st, module, core);
    let functions_cx = match out {
        Ok(found) => found,
        Err(stop) => {
            return (st, Err(stop));
        },
    };
    proof {
        lemma_numbered_linked(between, functions_cx, *module, *core);
    }
    declare_classes(functions_cx, st, module, core, options)
}

/// Resolve the names and every declaration of a module. A map key that
/// names an unresolved class is checked last.
pub fn declare_module(module: &Module, core: &Module, options: &CheckOptions) -> (r: Result<Declared, Halt>)
    ensures
        r == model::modules::declare_module(module, core, options),
        takes_nothing(*options) && class_total(*core) + class_total(*module) <= u32::MAX ==> (r matches Ok(found) ==> laid_tables(found.cx, *module, *core)),
        r matches Ok(found) ==> found.core_at == model::modules::reserved_count(module, core) && found.import_at == model::modules::import_func_start(module, core, options),
{
    proof {
        if takes_nothing(*options) && class_total(*core) + class_total(*module) <= u32::MAX {
            lemma_predeclare(*options, *module, *core);
        }
    }
    let cx = match predeclare(options, module, core) {
        Ok(found) => found,
        Err(stop) => {
            return Err(stop);
        },
    };
    let ghost named = cx;
    match resolve_uses(&cx, Uses { entries: Chain::Nil, reserves: Chain::Nil }, &options.imports, &module.uses) {
        (_, Err(stop)) => Err(Halt::Source(stop)),
        (uses, Ok(_)) => {
            let ghost entries = uses.entries;
            let bound = with_uses(cx, uses.entries, &options.imported);
            proof {
                if takes_nothing(*options) {
                    lemma_with_uses(named, entries, *options);
                    lemma_numbered_linked(named, bound, *module, *core);
                }
            }
            match declare(bound, Decl { keys: Chain::Nil, next_func: 0, values: Chain::Nil }, module, core, options) {
                (_, Err(halt)) => Err(halt),
                (st, Ok(declared)) => {
                    let ghost laid = declared.cx;
                    let done = Ctx { defer_map_keys: false, ..declared.cx };
                    proof {
                        lemma_laid_kept(laid, done, *module, *core);
                    }
                    let _keys = match halted(check_deferred_map_keys(&done, &st.keys), false) {
                        Ok(found) => found,
                        Err(stop) => {
                            return Err(stop);
                        },
                    };
                    Ok(Declared { cx: done, core_at: declared.core_at, import_at: declared.import_at, entry: declared.entry })
                },
            }
        },
    }
}

/// The functions of another module, at their table indices.
pub fn imported_made(funcs: &Chain<ImportedFunc>, at: u32) -> (r: Chain<MadeFunc>)
    ensures
        r == model::modules::imported_made(funcs, at),
    decreases funcs,
{
    match funcs {
        Chain::Nil => Chain::Nil,
        Chain::Cons(head, tail) => cons(MadeFunc { index: at, func: head.func.clone() }, imported_made(tail, at.wrapping_add(1))),
    }
}

/// The functions of the compiled core, at their table indices.
pub fn compiled_made(options: &CheckOptions, at: u32) -> (r: Chain<MadeFunc>)
    ensures
        r == model::modules::compiled_made(options, at),
{
    match compiled_core(options) {
        Some(core) => imported_made(&core.tables.funcs, at),
        None => Chain::Nil,
    }
}

/// The default table before any default is checked.
pub fn empty_defaults(classes: &Chain<ClassInfo>) -> (r: Chain<Chain<FieldDefault>>)
    ensures
        r == model::modules::empty_defaults(classes),
    decreases classes,
{
    match classes {
        Chain::Nil => Chain::Nil,
        Chain::Cons(head, tail) => cons(imported_defaults(head), empty_defaults(tail)),
    }
}

/// The defaults of a class of another module. Its provider evaluates them,
/// so each own field stands without one.
pub fn imported_defaults(info: &ClassInfo) -> (r: Chain<FieldDefault>)
    ensures
        r == model::modules::imported_defaults(info),
{
    if info.imported {
        absent_defaults(&info.field_names, info.own_start)
    } else {
        Chain::Nil
    }
}

/// A field without a default for each name behind the first ones.
pub fn absent_defaults(names: &Chain<Text>, inherited: u32) -> (r: Chain<FieldDefault>)
    ensures
        r == model::modules::absent_defaults(names, inherited),
    decreases names,
{
    match names {
        Chain::Nil => Chain::Nil,
        Chain::Cons(_, tail) => {
            if inherited == 0 {
                cons(no_default(), absent_defaults(tail, 0u32))
            } else {
                absent_defaults(tail, (inherited - 1) as u32)
            }
        },
    }
}

/// Check the field defaults of the module, then of the core.
pub fn check_every_default(cx: &Ctx, st: Output, module: &Module, core: &Module) -> (r: (Output, Result<Chain<Chain<FieldDefault>>, Halt>))
    ensures
        r == model::modules::check_every_default(cx, st, module, core),
        made_ok(cx, st.made) ==> made_ok(cx, r.0.made),
        laid_tables(*cx, *module, *core) ==> (r.1 matches Ok(table) ==> table_fits(*cx, table)),
{
    proof {
        if laid_tables(*cx, *module, *core) {
            lemma_every_default(*cx, st, *module, *core);
        }
    }
    let (st, found) = check_defaults(cx, st, module, false, empty_defaults(&cx.classes));
    let table = match halted(found, false) {
        Ok(found) => found,
        Err(stop) => {
            return (st, Err(stop));
        },
    };
    let (st, core_found) = check_defaults(cx, st, core, true, table);
    let full = match halted(core_found, true) {
        Ok(found) => found,
        Err(stop) => {
            return (st, Err(stop));
        },
    };
    (st, Ok(full))
}

/// Check the bodies of functions, methods and interface defaults: those
/// of the module, then those of the core.
pub fn check_every_body(cx: &Ctx, st: Output, module: &Module, core: &Module) -> (r: (Output, Result<(), Halt>))
    ensures
        r == model::modules::check_every_body(cx, st, module, core),
        made_ok(cx, st.made) ==> made_ok(cx, r.0.made),
{
    let (st, funcs) = check_functions(cx, st, &module.funcs, 0u32, false);
    let _funcs = match halted(funcs, false) {
        Ok(found) => found,
        Err(stop) => {
            return (st, Err(stop));
        },
    };
    let (st, core_funcs) = check_functions(cx, st, &core.funcs, count(&module.funcs), true);
    let _core_funcs = match halted(core_funcs, true) {
        Ok(found) => found,
        Err(stop) => {
            return (st, Err(stop));
        },
    };
    let (st, methods) = check_all_methods(cx, st, module, false);
    let _methods = match halted(methods, false) {
        Ok(found) => found,
        Err(stop) => {
            return (st, Err(stop));
        },
    };
    let (st, core_methods) = check_all_methods(cx, st, core, true);
    let _core_methods = match halted(core_methods, true) {
        Ok(found) => found,
        Err(stop) => {
            return (st, Err(stop));
        },
    };
    let (st, defaults) = check_interface_defaults(cx, st, &module.interfaces, false);
    let _defaults = match halted(defaults, false) {
        Ok(found) => found,
        Err(stop) => {
            return (st, Err(stop));
        },
    };
    let (st, core_defaults) = check_interface_defaults(cx, st, &core.interfaces, true);
    let _core_defaults = match halted(core_defaults, true) {
        Ok(found) => found,
        Err(stop) => {
            return (st, Err(stop));
        },
    };
    (st, Ok(()))
}

/// Check every body of a module. The entry comes last.
pub fn check_bodies(declared: &Declared, st: Output, module: &Module, core: &Module) -> (r: (Output, Result<Chain<Chain<FieldDefault>>, Halt>))
    ensures
        r == model::modules::check_bodies(declared, st, module, core),
        laid_tables(declared.cx, *module, *core) ==> (r.1 matches Ok(table) ==> table_fits(declared.cx, table)),
        made_ok(&declared.cx, st.made) ==> made_ok(&declared.cx, r.0.made),
{
    let (st, out) = check_every_default(&declared.cx, st, module, core);
    let table = match out {
        Ok(found) => found,
        Err(stop) => {
            return (st, Err(stop));
        },
    };
    let (st, out) = check_every_body(&declared.cx, st, module, core);
    let _bodies = match out {
        Ok(found) => found,
        Err(stop) => {
            return (st, Err(stop));
        },
    };
    let (st, entry) = check_entry_func(&declared.cx, st, &module.entry, declared.entry);
    let _entry = match halted(entry, false) {
        Ok(found) => found,
        Err(stop) => {
            return (st, Err(stop));
        },
    };
    (st, Ok(table))
}

/// What checking the bodies starts from: the functions of other modules,
/// and the first free index.
pub fn first_output(declared: &Declared, options: &CheckOptions) -> (r: Output)
    ensures
        r == model::modules::first_output(declared, options),
{
    let made = concat(compiled_made(options, declared.core_at), imported_made(&options.imported.funcs, declared.import_at));
    Output { next_func: declared.entry.wrapping_add(1), made: made }
}

/// Check a parsed module.
pub fn check_module_with(module: &Module, options: &CheckOptions) -> (r: Result<HirModule, Halt>)
    ensures
        r == model::modules::check_module_with(module, options),
        takes_nothing(*options) && class_total(*model::modules::core_source(options, &model::modules::empty_module())) + class_total(*module) <= u32::MAX ==> (r matches Ok(done) ==> each_has_defaults(done.classes)),
        r matches Ok(done) ==> module_ok(*module, *options, done),
{
    let nothing = empty_module();
    let core = core_source(options, &nothing);
    let declared = match declare_module(module, core, options) {
        Ok(found) => found,
        Err(stop) => {
            return Err(stop);
        },
    };
    match check_bodies(&declared, first_output(&declared, options), module, core) {
        (_, Err(halt)) => Err(halt),
        (out, Ok(table)) => {
            let entry = declared.entry;
            proof {
                if table_fits(declared.cx, table) {
                    lemma_hir_classes(declared.cx, declared.cx.classes, options.imported.origins, table, 0u32, options.path);
                }
            }
            let funcs = match order_funcs(out.made, 0u32, out.next_func) {
                Ok(found) => found,
                Err(stop) => {
                    return Err(stop);
                },
            };
            Ok(assemble(&declared.cx, funcs, &table, entry, module, core, options))
        },
    }
}

/// Check a parsed module with the default options.
pub fn check_module(module: &Module, image: Image) -> (r: Result<HirModule, Halt>)
    ensures
        r == model::modules::check_module(module, image),
        r matches Ok(done) ==> module_ok(*module, model::modules::default_options(image), done),
{
    check_module_with(module, &default_options(image))
}

} // verus!
