//! The passes over a module: what an accepted module has passed.

use vstd::prelude::*;
use crate::ast::{ClassDef, FieldDef, FuncDef, Module};
use crate::chain::Chain;
use crate::context::{ClassInfo, Ctx, Decl, InterfaceInfo, InterfaceMethodSig, NameEntry, Params, TyEnv};
use crate::laws::bodies::{law_entry_func, recorded_last};
use crate::laws::classes::{is_new_name, law_mailbox_types, mailbox_fits};
use crate::laws::lists::{law_append, law_concat, law_find_id, law_nth};
use crate::laws::rows::{canonical, law_canonical_row};
use crate::laws::written::{keeps_parameters, law_resolve_sig, of_written_kind};
use crate::model::bodies::{check_all_methods, check_function, check_functions, check_interface_defaults};
use crate::model::conform::{empty_env, no_bounds};
use crate::model::fulfil::{check_frozen_classes, check_frozen_fields, declared_class};
use crate::model::lists::count;
use crate::model::lookup::{class_at, type_always_frozen};
use crate::model::modules::{check_bodies, check_core_choice, check_declared, check_every_body, check_every_default, compiled_core, default_sig, function_taken, halted, predeclare_function};
use crate::model::resolve::{resolve_generic_bounds, resolve_row_items, resolve_sig, split_generics};
use crate::problem::Stop;
use crate::program::{CheckOptions, Declared, Halt};
use crate::state::Output;
use crate::text::Text;
use crate::types::Ty;

verus! {

/// Whether a frozen class keeps what it promises: it has no parent, and
/// each of its fields holds a value that is always frozen.
pub open spec fn is_frozen_well(cx: &Ctx, declaration: ClassDef, is_core: bool) -> bool {
    let info = class_at(cx, declared_class(cx, &declaration.name, is_core));
    declaration.is_frozen ==> {
        &&& declaration.parent is None
        &&& info.own_start + declaration.fields@.len() <= u32::MAX ==> forall|i: int| info.own_start <= i < info.own_start + declaration.fields@.len() ==> frozen_at(cx, *info, i)
    }
}

/// Whether a field holds a value that is always frozen.
pub open spec fn frozen_at(cx: &Ctx, info: ClassInfo, at: int) -> bool {
    0 <= at < info.field_tys@.len() && type_always_frozen(cx, &info.field_tys@[at], true)
}

proof fn lemma_frozen_fields(cx: &Ctx, info: &ClassInfo, fields: &Chain<FieldDef>, at: u32)
    requires
        at + fields@.len() <= u32::MAX,
        check_frozen_fields(cx, info, fields, at) is Ok,
    ensures
        forall|i: int| at <= i < at + fields@.len() ==> #[trigger] frozen_at(cx, *info, i),
    decreases fields,
{
    if let Chain::Cons(_, tail) = fields {
        law_nth(&info.field_tys, at);
        lemma_frozen_fields(cx, info, tail, (at + 1) as u32);
        assert(frozen_at(cx, *info, at as int));
    }
}

/// Every accepted frozen class keeps what it promises.
pub proof fn law_frozen_classes(cx: &Ctx, classes: &Chain<ClassDef>, is_core: bool)
    requires
        check_frozen_classes(cx, classes, is_core) is Ok,
    ensures
        forall|i: int| 0 <= i < classes@.len() ==> is_frozen_well(cx, #[trigger] classes@[i], is_core),
    decreases classes,
{
    if let Chain::Cons(head, tail) = classes {
        law_frozen_classes(cx, tail, is_core);
        assert(is_frozen_well(cx, **head, is_core)) by {
            if head.is_frozen {
                let info = class_at(cx, declared_class(cx, &head.name, is_core));
                if info.own_start + head.fields@.len() <= u32::MAX {
                    lemma_frozen_fields(cx, info, &head.fields, info.own_start);
                }
            }
        }
        assert forall|i: int| 0 <= i < classes@.len() implies is_frozen_well(cx, #[trigger] classes@[i], is_core) by {
            if i > 0 {
                assert(classes@[i] == tail@[i - 1]);
            }
        }
    }
}

/// The declarations of an accepted module keep the rules of frozen classes
/// and of mailboxes.
pub proof fn law_check_declared(cx: Ctx, module: &Module, core: &Module)
    requires
        check_declared(cx, module, core) is Ok,
    ensures
        forall|i: int| 0 <= i < module.classes@.len() ==> is_frozen_well(&cx, #[trigger] module.classes@[i], false),
        forall|i: int| 0 <= i < core.classes@.len() ==> is_frozen_well(&cx, #[trigger] core.classes@[i], true),
        forall|i: int| 0 <= i < module.classes@.len() ==> mailbox_fits(&check_declared(cx, module, core)->Ok_0, #[trigger] module.classes@[i]),
{
    law_frozen_classes(&cx, &core.classes, true);
    law_frozen_classes(&cx, &module.classes, false);
    law_mailbox_types(&check_declared(cx, module, core)->Ok_0, &module.classes);
}

/// A problem of the core is told apart from one of the module.
pub proof fn law_halted<T>(result: Result<T, Stop>, is_core: bool)
    ensures
        halted(result, is_core) is Ok <==> result is Ok,
        result matches Ok(value) ==> halted(result, is_core) == Ok::<T, Halt>(value),
        result matches Err(stop) ==> halted(result, is_core) == Err::<T, Halt>(if is_core {
            Halt::Core(stop)
        } else {
            Halt::Source(stop)
        }),
{
}

/// A check uses a compiled core only where it does not build the core, and
/// only one that is the core, built for the same operations.
pub proof fn law_core_choice(options: &CheckOptions)
    ensures
        options.build_core_provider ==> compiled_core(options) is None,
        check_core_choice(options) is Ok <==> options.path@ != "core"@ && (compiled_core(options) matches Some(core) ==> core.path@ == "core"@ && core.same_bundle),
{
}

/// A function name is taken by a function or a type of the same source.
pub proof fn law_function_taken(cx: &Ctx, name: &Text, is_core: bool)
    ensures
        function_taken(cx, name, is_core) <==> !is_new_name(if is_core {
            cx.core_func_index
        } else {
            cx.func_index
        }, *name) || !is_new_name(if is_core {
            cx.core_types
        } else {
            cx.user_types
        }, *name),
{
    law_find_id(&cx.core_func_index, name);
    law_find_id(&cx.core_types, name);
    law_find_id(&cx.func_index, name);
    law_find_id(&cx.user_types, name);
}

/// A top-level function takes a name of its own, the next number, and the
/// signature that is written.
pub proof fn law_predeclare_function(cx: Ctx, st: Decl, func: &FuncDef, is_core: bool)
    requires
        predeclare_function(cx, st, func, is_core).1 is Ok,
    ensures
        !function_taken(&cx, &func.name, is_core),
        ({
            let next = predeclare_function(cx, st, func, is_core).1->Ok_0;
            let entry = NameEntry { name: func.name, id: predeclare_function(cx, st, func, is_core).0.next_func.wrapping_sub(1) };
            &&& next.sigs@.len() == cx.sigs@.len() + 1
            &&& next.sigs@.drop_last() == cx.sigs@
            &&& is_core ==> next.core_func_index@ == cx.core_func_index@.push(entry) && next.func_index == cx.func_index
            &&& !is_core ==> next.func_index@ == cx.func_index@.push(entry) && next.core_func_index == cx.core_func_index
            &&& keeps_parameters(func.params, Params { types: next.sigs@.last().params, muts: next.sigs@.last().param_muts, names: next.sigs@.last().param_names })
            &&& func.ret is None ==> next.sigs@.last().ret == Ty::Unit
            &&& func.ret matches Some(ty) ==> of_written_kind(ty, next.sigs@.last().ret)
            &&& canonical(next.sigs@.last().row)
            &&& next.sigs@.last().type_params == split_generics(&func.generics).types
            &&& next.sigs@.last().effect_params == split_generics(&func.generics).effects
        }),
{
    let generics = split_generics(&func.generics);
    let env = TyEnv { type_names: generics.types, type_bounds: no_bounds(count(&generics.types)), effect_names: generics.effects, core_scope: is_core, ..empty_env() };
    let (st1, bounds) = resolve_generic_bounds(&cx, &env, st, &func.generics);
    let scope = TyEnv { type_bounds: bounds->Ok_0, ..env };
    let (st2, resolved) = resolve_sig(&cx, &scope, st1, &func.params, &func.ret, &func.row);
    let sig = resolved->Ok_0;
    law_resolve_sig(&cx, &scope, st1, &func.params, &func.ret, &func.row);
    law_canonical_row(resolve_row_items(&cx, &scope, &func.row)->Ok_0);
    law_append(cx.sigs, sig);
    let entry = NameEntry { name: func.name, id: st2.next_func };
    law_append(cx.core_func_index, entry);
    law_append(cx.func_index, entry);
    let next = predeclare_function(cx, st, func, is_core).1->Ok_0;
    assert(next.sigs@.drop_last() =~= cx.sigs@);
}

/// An interface default takes its receiver first, of the type that
/// conforms, and keeps the requirement behind it.
pub proof fn law_default_sig(contract: &InterfaceInfo, requirement: &InterfaceMethodSig, interface: u32)
    ensures
        default_sig(contract, requirement, interface).params@ == seq![Ty::Var(0)] + requirement.params@,
        default_sig(contract, requirement, interface).param_muts@ == seq![requirement.mut_self] + requirement.param_muts@,
        default_sig(contract, requirement, interface).ret == requirement.ret,
        default_sig(contract, requirement, interface).row == requirement.row,
        default_sig(contract, requirement, interface).param_names@.skip(1) == requirement.param_names@,
        default_sig(contract, requirement, interface).type_params@.skip(1) == contract.type_params@ + requirement.own_type_params@,
        default_sig(contract, requirement, interface).type_bounds@.skip(1) == contract.type_bounds@ + requirement.own_type_bounds@,
        default_sig(contract, requirement, interface).type_bounds@[0]@.len() == 1,
        default_sig(contract, requirement, interface).type_bounds@[0]@[0].interface == interface,
        default_sig(contract, requirement, interface).effect_params@ == contract.effect_params@ + requirement.own_effect_params@,
{
    let sig = default_sig(contract, requirement, interface);
    law_concat(contract.type_params, requirement.own_type_params);
    law_concat(contract.type_bounds, requirement.own_type_bounds);
    law_concat(contract.effect_params, requirement.own_effect_params);
    reveal_with_fuel(Chain::items, 3);
    assert(sig.params@ =~= seq![Ty::Var(0)] + requirement.params@);
    assert(sig.param_muts@ =~= seq![requirement.mut_self] + requirement.param_muts@);
    assert(sig.param_names@.skip(1) =~= requirement.param_names@);
    assert(sig.type_params@.skip(1) =~= contract.type_params@ + requirement.own_type_params@);
    assert(sig.type_bounds@.skip(1) =~= contract.type_bounds@ + requirement.own_type_bounds@);
}

/// Whether every body of a module is accepted in some state of the check.
pub open spec fn bodies_accepted(cx: &Ctx, module: Module, first: u32, is_core: bool) -> bool {
    &&& exists|st: Output| (#[trigger] check_functions(cx, st, &module.funcs, first, is_core)).1 is Ok
    &&& exists|st: Output| (#[trigger] check_all_methods(cx, st, &module, is_core)).1 is Ok
    &&& exists|st: Output| (#[trigger] check_interface_defaults(cx, st, &module.interfaces, is_core)).1 is Ok
}

/// Where the bodies of a check are accepted, those of the module and those
/// of the core are: functions, methods and interface defaults.
pub proof fn law_every_body(cx: &Ctx, st: Output, module: &Module, core: &Module)
    requires
        check_every_body(cx, st, module, core).1 is Ok,
    ensures
        bodies_accepted(cx, *module, 0u32, false),
        bodies_accepted(cx, *core, count(&module.funcs), true),
{
    let st1 = check_functions(cx, st, &module.funcs, 0u32, false).0;
    let st2 = check_functions(cx, st1, &core.funcs, count(&module.funcs), true).0;
    let st3 = check_all_methods(cx, st2, module, false).0;
    let st4 = check_all_methods(cx, st3, core, true).0;
    let st5 = check_interface_defaults(cx, st4, &module.interfaces, false).0;
    assert(check_functions(cx, st, &module.funcs, 0u32, false).1 is Ok);
    assert(check_functions(cx, st1, &core.funcs, count(&module.funcs), true).1 is Ok);
    assert(check_all_methods(cx, st2, module, false).1 is Ok);
    assert(check_all_methods(cx, st3, core, true).1 is Ok);
    assert(check_interface_defaults(cx, st4, &module.interfaces, false).1 is Ok);
    assert(check_interface_defaults(cx, st5, &core.interfaces, true).1 is Ok);
}

/// Whether one function of a list is accepted in some state of the check.
pub open spec fn function_accepted(cx: &Ctx, func: FuncDef, index: u32, is_core: bool) -> bool {
    exists|st: Output| (#[trigger] check_function(cx, st, &func, index, is_core)).1 is Ok
}

/// Where the functions of a module are accepted, each of them is, under its
/// own number.
pub proof fn law_each_function(cx: &Ctx, st: Output, funcs: &Chain<FuncDef>, at: u32, is_core: bool)
    requires
        at + funcs@.len() <= u32::MAX,
        check_functions(cx, st, funcs, at, is_core).1 is Ok,
    ensures
        forall|i: int| 0 <= i < funcs@.len() ==> function_accepted(cx, #[trigger] funcs@[i], (at + i) as u32, is_core),
    decreases funcs,
{
    if let Chain::Cons(head, tail) = funcs {
        let (next, first) = check_function(cx, st, &**head, at, is_core);
        assert(check_function(cx, st, &**head, at, is_core).1 is Ok);
        law_each_function(cx, next, tail, (at + 1) as u32, is_core);
        assert forall|i: int| 0 <= i < funcs@.len() implies function_accepted(cx, #[trigger] funcs@[i], (at + i) as u32, is_core) by {
            if i > 0 {
                assert(funcs@[i] == tail@[i - 1]);
                assert((at + i) as u32 == ((at + 1) + (i - 1)) as u32);
            }
        }
    }
}

/// A checked module has accepted bodies, an accepted entry, and as many
/// functions as the check has numbered.
pub proof fn law_check_bodies(declared: &Declared, st: Output, module: &Module, core: &Module)
    requires
        check_bodies(declared, st, module, core).1 is Ok,
    ensures
        bodies_accepted(&declared.cx, *module, 0u32, false),
        bodies_accepted(&declared.cx, *core, count(&module.funcs), true),
        recorded_last(check_bodies(declared, st, module, core).0, declared.entry),
{
    let (st1, _table) = check_every_default(&declared.cx, st, module, core);
    law_every_body(&declared.cx, st1, module, core);
    let st2 = check_every_body(&declared.cx, st1, module, core).0;
    law_entry_func(&declared.cx, st2, &module.entry, declared.entry);
}

} // verus!
