//! Name resolution and class order.

use vstd::prelude::*;
use crate::ast::{ArmDef, ClassDef, EnumDef, InterfaceDef, Module, Span};
use crate::chain::Chain;
use crate::context::{ClassKind, ClassMeta, Ctx, NameEntry, TyEnv};
use crate::model::classes::{declare_class, new_meta, register_arms, register_classes, register_core_native_class, register_enums, register_type_names};
use crate::model::interfaces::{register_interface_names, unresolved_interface};
use crate::model::lists::{append, cons, count, find_id};
use crate::model::lookup::{ancestor_args, arm_named, class_at, class_extends, ctor_families, families_in, find_arm, insert_all_sorted, insert_sorted, lookup_interface, lookup_type};
use crate::model::modules::{core_names, predeclare, start};
use crate::model::names::{dotted, is_prelude_ctor};
use crate::model::resolve::split_generics;
use crate::program::CheckOptions;
use crate::text::Text;
use crate::types::Ty;

verus! {

/// The prelude controls unqualified names of a module only: the core
/// resolves its own names without it, and without a look at the module.
pub proof fn law_core_names(cx: &Ctx, name: &Text, env: &TyEnv)
    requires
        env.core_scope,
    ensures
        lookup_type(cx, name, env) == find_id(&cx.core_types, name),
        lookup_interface(cx, name, env) == find_id(&cx.core_interfaces, name),
        ctor_families(cx, env, name) == families_in(cx, &cx.core_types, name),
{
}

proof fn lemma_insert_sorted(ids: Chain<u32>, id: u32, other: u32)
    ensures
        insert_sorted(ids, id)@.contains(other) <==> other == id || ids@.contains(other),
    decreases ids,
{
    let out = insert_sorted(ids, id);
    match ids {
        Chain::Nil => {
            assert(out@ =~= seq![id]);
            assert(out@[0] == id);
        },
        Chain::Cons(head, tail) => {
            assert(ids@ =~= seq![*head] + tail@);
            if id <= *head {
                assert(out@ =~= seq![id] + ids@);
                lemma_prefixed(id, ids@, other);
            } else {
                lemma_insert_sorted(*tail, id, other);
                assert(out@ =~= seq![*head] + insert_sorted(*tail, id)@);
                lemma_prefixed(*head, insert_sorted(*tail, id)@, other);
                lemma_prefixed(*head, tail@, other);
            }
        },
    }
}

proof fn lemma_prefixed(first: u32, rest: Seq<u32>, other: u32)
    ensures
        (seq![first] + rest).contains(other) <==> other == first || rest.contains(other),
{
    let all = seq![first] + rest;
    assert(all[0] == first);
    if rest.contains(other) {
        let i = rest.index_of(other);
        assert(all[i + 1] == other);
    }
    if all.contains(other) && other != first {
        let i = all.index_of(other);
        assert(rest[i - 1] == other);
    }
}

proof fn lemma_insert_all_sorted(ids: Chain<u32>, more: Chain<u32>, other: u32)
    ensures
        insert_all_sorted(ids, more)@.contains(other) <==> ids@.contains(other) || more@.contains(other),
    decreases more,
{
    match more {
        Chain::Nil => {
            assert(more@ =~= Seq::<u32>::empty());
        },
        Chain::Cons(head, tail) => {
            lemma_insert_sorted(ids, *head, other);
            lemma_insert_all_sorted(insert_sorted(ids, *head), *tail, other);
            assert(more@ =~= seq![*head] + tail@);
            lemma_prefixed(*head, tail@, other);
        },
    }
}

/// Whether a name table has an enum that declares one arm name.
pub open spec fn declares_arm(cx: &Ctx, entries: Seq<NameEntry>, family: u32, ctor: &Text) -> bool {
    &&& exists|i: int| 0 <= i < entries.len() && (#[trigger] entries[i]).id == family
    &&& class_at(cx, family).kind == ClassKind::EnumParent
    &&& find_arm(cx, family, ctor) is Some
}

proof fn lemma_families_in(cx: &Ctx, entries: &Chain<NameEntry>, ctor: &Text, family: u32)
    ensures
        families_in(cx, entries, ctor)@.contains(family) <==> declares_arm(cx, entries@, family, ctor),
    decreases entries,
{
    match entries {
        Chain::Nil => {
            assert(families_in(cx, entries, ctor)@ =~= Seq::<u32>::empty());
        },
        Chain::Cons(head, tail) => {
            let rest = families_in(cx, tail, ctor);
            lemma_families_in(cx, tail, ctor, family);
            lemma_insert_sorted(rest, head.id, family);
            assert(entries@ =~= seq![**head] + tail@);
            assert(entries@[0] == **head);
            if declares_arm(cx, tail@, family, ctor) {
                let i = choose|i: int| 0 <= i < tail@.len() && (#[trigger] tail@[i]).id == family;
                assert(entries@[i + 1].id == family);
            }
            if declares_arm(cx, entries@, family, ctor) && head.id != family {
                let i = choose|i: int| 0 <= i < entries@.len() && (#[trigger] entries@[i]).id == family;
                assert(tail@[i - 1].id == family);
            }
        },
    }
}

/// An unqualified constructor name stands for the arms of that name in
/// the enums of the module, and, where the prelude lists it, for those of
/// every core enum.
pub proof fn law_constructor_families(cx: &Ctx, env: &TyEnv, ctor: &Text, family: u32)
    requires
        !env.core_scope,
    ensures
        ctor_families(cx, env, ctor)@.contains(family) <==> declares_arm(cx, cx.user_types@, family, ctor)
            || (cx.prelude && is_prelude_ctor(ctor) && declares_arm(cx, cx.core_types@, family, ctor)),
{
    let families = families_in(cx, &cx.user_types, ctor);
    lemma_families_in(cx, &cx.user_types, ctor, family);
    lemma_families_in(cx, &cx.core_types, ctor, family);
    lemma_insert_all_sorted(families, families_in(cx, &cx.core_types, ctor), family);
}

/// The tables with the prelude chosen anew.
pub open spec fn with_prelude(cx: Ctx, prelude: bool) -> Ctx {
    Ctx { prelude, ..cx }
}

/// A result with the prelude of its tables chosen anew.
pub open spec fn prelude_of<E>(found: Result<Ctx, E>, prelude: bool) -> Result<Ctx, E> {
    match found {
        Ok(cx) => Ok(with_prelude(cx, prelude)),
        Err(stop) => Err(stop),
    }
}

proof fn lemma_arm_named_prelude(cx: &Ctx, arms: &Chain<u32>, short: &Text, prelude: bool)
    ensures
        arm_named(&with_prelude(*cx, prelude), arms, short) == arm_named(cx, arms, short),
    decreases arms,
{
    match arms {
        Chain::Nil => {},
        Chain::Cons(_, tail) => lemma_arm_named_prelude(cx, tail, short, prelude),
    }
}

proof fn lemma_families_prelude(cx: &Ctx, entries: &Chain<NameEntry>, ctor: &Text, prelude: bool)
    ensures
        families_in(&with_prelude(*cx, prelude), entries, ctor) == families_in(cx, entries, ctor),
    decreases entries,
{
    match entries {
        Chain::Nil => {},
        Chain::Cons(head, tail) => {
            lemma_arm_named_prelude(cx, &class_at(cx, head.id).arms, ctor, prelude);
            lemma_families_prelude(cx, tail, ctor, prelude);
        },
    }
}

/// Whether the prelude is in use changes no name of the core.
pub proof fn law_core_without_prelude(cx: &Ctx, name: &Text, env: &TyEnv, prelude: bool)
    requires
        env.core_scope,
    ensures
        lookup_type(&with_prelude(*cx, prelude), name, env) == lookup_type(cx, name, env),
        lookup_interface(&with_prelude(*cx, prelude), name, env) == lookup_interface(cx, name, env),
        ctor_families(&with_prelude(*cx, prelude), env, name) == ctor_families(cx, env, name),
{
    lemma_families_prelude(cx, &cx.core_types, name, prelude);
}

proof fn lemma_interfaces_prelude(cx: Ctx, interfaces: &Chain<InterfaceDef>, is_core: bool, prelude: bool)
    ensures
        register_interface_names(with_prelude(cx, prelude), interfaces, is_core)
            == prelude_of(register_interface_names(cx, interfaces, is_core), prelude),
    decreases interfaces,
{
    match interfaces {
        Chain::Nil => {},
        Chain::Cons(head, tail) => {
            let entry = NameEntry { name: head.name, id: count(&cx.interfaces) };
            let table = append(cx.interfaces, unresolved_interface(head));
            if is_core {
                let next = Ctx { interfaces: table, core_interfaces: append(cx.core_interfaces, entry), ..cx };
                lemma_interfaces_prelude(next, tail, is_core, prelude);
            } else {
                let next = Ctx { interfaces: table, user_interfaces: append(cx.user_interfaces, entry), ..cx };
                lemma_interfaces_prelude(next, tail, is_core, prelude);
            }
        },
    }
}

proof fn lemma_class_prelude(cx: Ctx, name: Text, meta: ClassMeta, is_core: bool, span: Span, prelude: bool)
    ensures
        declare_class(with_prelude(cx, prelude), name, meta, is_core, span)
            == prelude_of(declare_class(cx, name, meta, is_core, span), prelude),
{
}

proof fn lemma_classes_prelude(cx: Ctx, classes: &Chain<ClassDef>, is_core: bool, prelude: bool)
    ensures
        register_classes(with_prelude(cx, prelude), classes, is_core)
            == prelude_of(register_classes(cx, classes, is_core), prelude),
    decreases classes,
{
    match classes {
        Chain::Nil => {},
        Chain::Cons(head, tail) => {
            let generics = split_generics(&head.generics);
            let id = count(&cx.metas);
            let meta = new_meta(&head.name, count(&generics.types), ClassKind::Normal, head.is_final);
            lemma_class_prelude(cx, head.name, meta, is_core, head.name_span, prelude);
            match declare_class(cx, head.name, meta, is_core, head.name_span) {
                Err(_) => {},
                Ok(next) => {
                    if is_core {
                        let natives = register_core_native_class(next.natives, &head.name, id);
                        lemma_classes_prelude(Ctx { natives, ..next }, tail, is_core, prelude);
                    } else {
                        lemma_classes_prelude(next, tail, is_core, prelude);
                    }
                },
            }
        },
    }
}

proof fn lemma_arms_prelude(cx: Ctx, arms: &Chain<ArmDef>, family: &Text, type_params: u32, parent: u32, seen: Chain<Text>, is_core: bool, prelude: bool)
    ensures
        register_arms(with_prelude(cx, prelude), arms, family, type_params, parent, seen, is_core)
            == prelude_of(register_arms(cx, arms, family, type_params, parent, seen, is_core), prelude),
    decreases arms,
{
    match arms {
        Chain::Nil => {},
        Chain::Cons(head, tail) => {
            let full = dotted(family, &head.name);
            let meta = ClassMeta { parent: Some(parent), ..new_meta(&full, type_params, ClassKind::EnumCase, false) };
            lemma_class_prelude(cx, full, meta, is_core, head.name_span, prelude);
            match declare_class(cx, full, meta, is_core, head.name_span) {
                Err(_) => {},
                Ok(next) => {
                    let more = cons(head.name, seen);
                    lemma_arms_prelude(next, tail, family, type_params, parent, more, is_core, prelude);
                },
            }
        },
    }
}

proof fn lemma_enums_prelude(cx: Ctx, enums: &Chain<EnumDef>, is_core: bool, prelude: bool)
    ensures
        register_enums(with_prelude(cx, prelude), enums, is_core)
            == prelude_of(register_enums(cx, enums, is_core), prelude),
    decreases enums,
{
    match enums {
        Chain::Nil => {},
        Chain::Cons(head, tail) => {
            let arity = count(&split_generics(&head.generics).types);
            let parent = count(&cx.metas);
            let meta = new_meta(&head.name, arity, ClassKind::EnumParent, false);
            lemma_class_prelude(cx, head.name, meta, is_core, head.name_span, prelude);
            match declare_class(cx, head.name, meta, is_core, head.name_span) {
                Err(_) => {},
                Ok(named) => {
                    lemma_arms_prelude(named, &head.arms, &head.name, arity, parent, Chain::Nil, is_core, prelude);
                    match register_arms(named, &head.arms, &head.name, arity, parent, Chain::Nil, is_core) {
                        Err(_) => {},
                        Ok(next) => lemma_enums_prelude(next, tail, is_core, prelude),
                    }
                },
            }
        },
    }
}

proof fn lemma_types_prelude(cx: Ctx, module: &Module, is_core: bool, prelude: bool)
    ensures
        register_type_names(with_prelude(cx, prelude), module, is_core)
            == prelude_of(register_type_names(cx, module, is_core), prelude),
{
    lemma_classes_prelude(cx, &module.classes, is_core, prelude);
    if let Ok(next) = register_classes(cx, &module.classes, is_core) {
        lemma_enums_prelude(next, &module.enums, is_core, prelude);
    }
}

/// Two checks that differ in the prelude alone register the same names,
/// of the core and of the module, at the same indices.
pub proof fn law_names_without_prelude(options: &CheckOptions, module: &Module, source: &Module, prelude: bool)
    ensures
        predeclare(&CheckOptions { prelude, ..*options }, module, source)
            == prelude_of(predeclare(options, module, source), prelude),
{
    let other = CheckOptions { prelude, ..*options };
    let cx = start(options);
    assert(start(&other) == with_prelude(cx, prelude));
    lemma_interfaces_prelude(cx, &source.interfaces, true, prelude);
    if let Ok(next) = register_interface_names(cx, &source.interfaces, true) {
        lemma_types_prelude(next, source, true, prelude);
    }
    assert(core_names(start(&other), &other, source) == prelude_of(core_names(cx, options, source), prelude));
    if let Ok(core_cx) = core_names(cx, options, source) {
        let first = Ctx { user_interface_start: count(&core_cx.interfaces), ..core_cx };
        lemma_interfaces_prelude(first, &module.interfaces, false, prelude);
        if let Ok(named) = register_interface_names(first, &module.interfaces, false) {
            let second = Ctx { import_interface_start: count(&named.interfaces), user_start: count(&named.metas), ..named };
            lemma_types_prelude(second, module, false, prelude);
        }
    }
}

/// A name that the module declares hides the same name of the core.
pub proof fn law_module_names_first(cx: &Ctx, name: &Text, env: &TyEnv)
    requires
        !env.core_scope,
    ensures
        find_id(&cx.user_types, name) is Some ==> lookup_type(cx, name, env) == find_id(&cx.user_types, name),
        find_id(&cx.user_interfaces, name) is Some ==> lookup_interface(cx, name, env) == find_id(&cx.user_interfaces, name),
{
}

/// Without the prelude a module sees no name of the core.
pub proof fn law_without_prelude(cx: &Ctx, name: &Text, env: &TyEnv)
    requires
        !env.core_scope,
        !cx.prelude,
    ensures
        lookup_type(cx, name, env) == find_id(&cx.user_types, name),
        lookup_interface(cx, name, env) == find_id(&cx.user_interfaces, name),
{
}

/// Every class extends itself.
pub proof fn law_extends_same(cx: &Ctx, class: u32)
    ensures
        class_extends(cx, class, class),
{
}

/// An ancestor never stands behind its descendant in the class table.
pub proof fn law_extends_order(cx: &Ctx, class: u32, ancestor: u32)
    requires
        class_extends(cx, class, ancestor),
    ensures
        ancestor <= class,
    decreases class,
{
    if class != ancestor {
        let parent = crate::model::lookup::meta_at(cx, class).parent->0;
        law_extends_order(cx, parent, ancestor);
    }
}

/// Extending is transitive.
pub proof fn law_extends_further(cx: &Ctx, a: u32, b: u32, c: u32)
    requires
        class_extends(cx, a, b),
        class_extends(cx, b, c),
    ensures
        class_extends(cx, a, c),
    decreases a,
{
    if a != b {
        let parent = crate::model::lookup::meta_at(cx, a).parent->0;
        law_extends_further(cx, parent, b, c);
        law_extends_order(cx, parent, b);
        law_extends_order(cx, b, c);
    }
}

/// Two classes that extend each other are the same class.
pub proof fn law_extends_antisymmetric(cx: &Ctx, a: u32, b: u32)
    requires
        class_extends(cx, a, b),
        class_extends(cx, b, a),
    ensures
        a == b,
{
    law_extends_order(cx, a, b);
    law_extends_order(cx, b, a);
}

/// A class has arguments for exactly the classes that it extends.
pub proof fn law_ancestor_args(cx: &Ctx, class: u32, args: Chain<Ty>, ancestor: u32)
    ensures
        ancestor_args(cx, class, args, ancestor) is Some <==> class_extends(cx, class, ancestor),
    decreases class,
{
    if class != ancestor {
        match crate::model::lookup::meta_at(cx, class).parent {
            Some(parent) => {
                if parent < class {
                    law_ancestor_args(cx, parent, crate::model::lookup::parent_arguments(cx, class, &args), ancestor);
                }
            },
            None => {},
        }
    }
}

} // verus!
