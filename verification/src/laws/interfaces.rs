//! Interface declarations and `use` lines: what an accepted one has.

use vstd::prelude::*;
use crate::abi::{Bundle, OpDef};
use crate::ast::{AssociatedType, InterfaceMethod, Param, Span, UseDecl};
use crate::chain::Chain;
use crate::context::{AssociatedInfo, Ctx, Decl, ExportKind, ImportEnv, ImportExport, InterfaceMethodSig, InterfaceUse, Reserve, TyEnv, UseBinding, UseEntry, Uses};
use crate::laws::lists::{law_append, law_holds_id};
use crate::laws::rows::{canonical, law_canonical_row};
use crate::laws::written::{each_once, keeps_parameter, law_resolve_type, of_written_kind};
use crate::model::conform::{empty_bounds, find_bound};
use crate::model::interfaces::{associated_names, check_parents, repeated_parent, resolve_requirement, resolve_requirement_params, resolve_requirements, resolve_type_premises};
use crate::model::lists::{append, concat, cons, count, find_id, truncate};
use crate::model::lookup::{associated_position, find_method};
use crate::model::names::{camel_member, starts_upper};
use crate::model::resolve::{generic_bounds_from, resolve_param_type, resolve_row_items, split_generics};
use crate::model::uses::{before_last_dot, bind_export, bind_interface, bind_type, find_export, find_module, fixed_member, fixed_member_from, reserves_name, resolve_definition_use, resolve_sys_member_use};
use crate::text::Text;
use crate::types::Ty;

verus! {

/// An interface extends neither itself nor another one twice.
pub proof fn law_check_parents(parents: &Chain<InterfaceUse>, interface: u32, span: Span)
    ensures
        check_parents(parents, interface, span) is Ok ==> each_once(*parents) && forall|i: int| 0 <= i < parents@.len() ==> (#[trigger] parents@[i]).interface != interface,
{
    lemma_not_bound(parents, interface);
    lemma_repeated(parents, Chain::Nil);
}

proof fn lemma_not_bound(bounds: &Chain<InterfaceUse>, interface: u32)
    ensures
        find_bound(bounds, interface) is None ==> forall|i: int| 0 <= i < bounds@.len() ==> (#[trigger] bounds@[i]).interface != interface,
    decreases bounds,
{
    if let Chain::Cons(_, tail) = bounds {
        lemma_not_bound(tail, interface);
        if find_bound(bounds, interface) is None {
            assert forall|i: int| 0 <= i < bounds@.len() implies (#[trigger] bounds@[i]).interface != interface by {
                if i > 0 {
                    assert(bounds@[i] == tail@[i - 1]);
                }
            }
        }
    }
}

proof fn lemma_repeated(parents: &Chain<InterfaceUse>, seen: Chain<u32>)
    ensures
        repeated_parent(parents, seen) is None ==> each_once(*parents) && forall|i: int| 0 <= i < parents@.len() ==> !seen@.contains((#[trigger] parents@[i]).interface),
    decreases parents,
{
    if let Chain::Cons(head, tail) = parents {
        let more = cons(head.interface, seen);
        law_holds_id(&seen, head.interface);
        lemma_repeated(tail, more);
        assert(more@ =~= seq![head.interface] + seen@);
        assert(parents@ =~= seq![**head] + tail@);
        if repeated_parent(parents, seen) is None {
            assert forall|i: int| 0 <= i < parents@.len() implies !seen@.contains((#[trigger] parents@[i]).interface) by {
                if i > 0 {
                    assert(parents@[i] == tail@[i - 1]);
                    if seen@.contains(parents@[i].interface) {
                        let j = seen@.index_of(parents@[i].interface);
                        assert(more@[j + 1] == parents@[i].interface);
                    }
                }
            }
            assert forall|i: int, j: int| 0 <= i < j < parents@.len() implies (#[trigger] parents@[i]).interface != (#[trigger] parents@[j]).interface by {
                assert(parents@[j] == tail@[j - 1]);
                if i == 0 {
                    assert(more@[0] == head.interface);
                    assert(!more@.contains(tail@[j - 1].interface));
                } else {
                    assert(parents@[i] == tail@[i - 1]);
                }
            }
        }
    }
}

/// Whether the associated types of an interface have names of their own.
pub open spec fn associated_apart(items: Chain<AssociatedInfo>) -> bool {
    forall|i: int, j: int| 0 <= i < j < items@.len() ==> (#[trigger] items@[i]).name != (#[trigger] items@[j]).name
}

proof fn lemma_no_position(items: &Chain<AssociatedInfo>, name: &Text)
    ensures
        associated_position(items, name) is None ==> forall|i: int| 0 <= i < items@.len() ==> (#[trigger] items@[i]).name != *name,
    decreases items,
{
    if let Chain::Cons(_, tail) = items {
        lemma_no_position(tail, name);
        if associated_position(items, name) is None {
            assert forall|i: int| 0 <= i < items@.len() implies (#[trigger] items@[i]).name != *name by {
                if i > 0 {
                    assert(items@[i] == tail@[i - 1]);
                }
            }
        }
    }
}

/// The associated types of an accepted interface are those that are
/// written, in order, each name once.
pub proof fn law_associated_names(items: &Chain<AssociatedType>, found: Chain<AssociatedInfo>)
    requires
        associated_apart(found),
        associated_names(items, found) is Ok,
    ensures
        associated_apart(associated_names(items, found)->Ok_0),
        associated_names(items, found)->Ok_0@.len() == found@.len() + items@.len(),
        forall|i: int| 0 <= i < found@.len() ==> associated_names(items, found)->Ok_0@[i] == #[trigger] found@[i],
        forall|i: int| 0 <= i < items@.len() ==> associated_names(items, found)->Ok_0@[found@.len() + i].name == (#[trigger] items@[i]).name,
    decreases items,
{
    if let Chain::Cons(head, tail) = items {
        let info = AssociatedInfo { name: head.name, bounds: Chain::Nil };
        lemma_no_position(&found, &head.name);
        law_append(found, info);
        let more = append(found, info);
        assert(associated_apart(more));
        law_associated_names(tail, more);
        let done = associated_names(items, found)->Ok_0;
        assert forall|i: int| 0 <= i < found@.len() implies done@[i] == #[trigger] found@[i] by {
            assert(more@[i] == found@[i]);
        }
        assert forall|i: int| 0 <= i < items@.len() implies done@[found@.len() + i].name == (#[trigger] items@[i]).name by {
            if i > 0 {
                assert(items@[i] == tail@[i - 1]);
            } else {
                assert(done@[found@.len() as int] == more@[found@.len() as int]);
            }
        }
    }
}

/// Whether a requirement is the written one.
pub open spec fn keeps_requirement(method: InterfaceMethod, sig: InterfaceMethodSig) -> bool {
    &&& sig.name == method.name
    &&& sig.mut_self == method.mut_self
    &&& sig.params@.len() == method.params@.len()
    &&& sig.param_muts@.len() == method.params@.len()
    &&& sig.param_names@.len() == method.params@.len()
    &&& forall|i: int| 0 <= i < method.params@.len() ==> keeps_parameter(#[trigger] method.params@[i], sig.param_names@[i], sig.param_muts@[i], sig.params@[i])
    &&& method.ret is None ==> sig.ret == Ty::Unit
    &&& method.ret matches Some(ty) ==> of_written_kind(ty, sig.ret)
    &&& canonical(sig.row)
    &&& sig.own_type_params == split_generics(&method.generics).types
    &&& sig.own_effect_params == split_generics(&method.generics).effects
    &&& sig.default_binding is Some <==> method.body is Some
    &&& sig.default_func is None
}

proof fn lemma_requirement_params(cx: &Ctx, env: &TyEnv, st: Decl, params: &Chain<Param>)
    requires
        resolve_requirement_params(cx, env, st, params).1 is Ok,
    ensures
        ({
            let found = resolve_requirement_params(cx, env, st, params).1->Ok_0;
            &&& found.types@.len() == params@.len()
            &&& found.muts@.len() == params@.len()
            &&& found.names@.len() == params@.len()
            &&& forall|i: int| 0 <= i < params@.len() ==> keeps_parameter(#[trigger] params@[i], found.names@[i], found.muts@[i], found.types@[i])
        }),
    decreases params,
{
    if let Chain::Cons(head, tail) = params {
        let (next, ty) = resolve_param_type(cx, env, st, &**head);
        lemma_requirement_params(cx, env, next, tail);
        let found = resolve_requirement_params(cx, env, st, params).1->Ok_0;
        let rest = resolve_requirement_params(cx, env, next, tail).1->Ok_0;
        assert(found.names@ =~= seq![head.name] + rest.names@);
        assert(found.muts@ =~= seq![head.mutable] + rest.muts@);
        assert(found.types@ =~= seq![ty->Ok_0] + rest.types@);
        assert forall|i: int| 0 <= i < params@.len() implies keeps_parameter(#[trigger] params@[i], found.names@[i], found.muts@[i], found.types@[i]) by {
            if i > 0 {
                assert(params@[i] == tail@[i - 1]);
            }
        }
    }
}

/// Resolution keeps a requirement of an interface.
pub proof fn law_requirement(cx: &Ctx, env: &TyEnv, st: Decl, method: &InterfaceMethod, interface_name: &Text)
    requires
        resolve_requirement(cx, env, st, method, interface_name).1 is Ok,
    ensures
        keeps_requirement(*method, resolve_requirement(cx, env, st, method, interface_name).1->Ok_0),
{
    let own = split_generics(&method.generics);
    let outer = count(&env.type_names);
    let inner = TyEnv {
        type_names: concat(env.type_names, own.types),
        type_bounds: concat(env.type_bounds, empty_bounds(&own.types)),
        effect_names: concat(env.effect_names, own.effects),
        ..*env
    };
    let (st1, own_bounds) = generic_bounds_from(cx, &inner, st, &method.generics, outer.wrapping_add(1));
    let inner = TyEnv { type_bounds: concat(truncate(inner.type_bounds, outer), own_bounds->Ok_0), ..inner };
    let (st2, _premises) = resolve_type_premises(cx, &inner, st1, &method.premises);
    let (st3, _params) = resolve_requirement_params(cx, &inner, st2, &method.params);
    lemma_requirement_params(cx, &inner, st2, &method.params);
    if let Some(ty) = &method.ret {
        law_resolve_type(cx, &inner, st3, ty);
    }
    law_canonical_row(resolve_row_items(cx, &inner, &method.row)->Ok_0);
}

/// Whether the requirements of an interface are the written ones, each name
/// once.
pub open spec fn requirements_apart(items: Chain<InterfaceMethodSig>) -> bool {
    forall|i: int, j: int| 0 <= i < j < items@.len() ==> (#[trigger] items@[i]).name != (#[trigger] items@[j]).name
}

proof fn lemma_no_method(items: &Chain<InterfaceMethodSig>, name: &Text)
    ensures
        find_method(items, name) is None ==> forall|i: int| 0 <= i < items@.len() ==> (#[trigger] items@[i]).name != *name,
    decreases items,
{
    if let Chain::Cons(_, tail) = items {
        lemma_no_method(tail, name);
        if find_method(items, name) is None {
            assert forall|i: int| 0 <= i < items@.len() implies (#[trigger] items@[i]).name != *name by {
                if i > 0 {
                    assert(items@[i] == tail@[i - 1]);
                }
            }
        }
    }
}

/// The requirements of an accepted interface are the written ones, in
/// order, each name once.
pub proof fn law_requirements(cx: &Ctx, env: &TyEnv, st: Decl, methods: &Chain<InterfaceMethod>, interface_name: &Text, found: Chain<InterfaceMethodSig>)
    requires
        requirements_apart(found),
        resolve_requirements(cx, env, st, methods, interface_name, found).1 is Ok,
    ensures
        requirements_apart(resolve_requirements(cx, env, st, methods, interface_name, found).1->Ok_0),
        resolve_requirements(cx, env, st, methods, interface_name, found).1->Ok_0@.len() == found@.len() + methods@.len(),
        forall|i: int| 0 <= i < found@.len() ==> resolve_requirements(cx, env, st, methods, interface_name, found).1->Ok_0@[i] == #[trigger] found@[i],
        forall|i: int| 0 <= i < methods@.len() ==> keeps_requirement(#[trigger] methods@[i], resolve_requirements(cx, env, st, methods, interface_name, found).1->Ok_0@[found@.len() + i]),
    decreases methods,
{
    if let Chain::Cons(head, tail) = methods {
        let (next, resolved) = resolve_requirement(cx, env, st, &**head, interface_name);
        let sig = resolved->Ok_0;
        law_requirement(cx, env, st, &**head, interface_name);
        lemma_no_method(&found, &head.name);
        law_append(found, sig);
        let more = append(found, sig);
        assert(requirements_apart(more));
        law_requirements(cx, env, next, tail, interface_name, more);
        let done = resolve_requirements(cx, env, st, methods, interface_name, found).1->Ok_0;
        assert forall|i: int| 0 <= i < found@.len() implies done@[i] == #[trigger] found@[i] by {
            assert(more@[i] == found@[i]);
        }
        assert forall|i: int| 0 <= i < methods@.len() implies keeps_requirement(#[trigger] methods@[i], done@[found@.len() + i]) by {
            if i > 0 {
                assert(methods@[i] == tail@[i - 1]);
                assert(done@[found@.len() + i] == done@[more@.len() + (i - 1)]);
            } else {
                assert(done@[found@.len() as int] == more@[found@.len() as int]);
            }
        }
    }
}

/// An imported type takes a name that is new in the module, exactly.
pub proof fn law_bind_type(cx: &Ctx, st: Uses, reserve: Reserve, span: Span)
    ensures
        bind_type(cx, st, reserve, span).1 is Ok <==> find_id(&cx.user_types, &reserve.bound) is None && !is_reserved(st.reserves, ExportKind::Class, reserve.bound),
        bind_type(cx, st, reserve, span).1 is Ok ==> bind_type(cx, st, reserve, span).0.reserves@ == st.reserves@.push(reserve),
        bind_type(cx, st, reserve, span).1 is Err ==> bind_type(cx, st, reserve, span).0 == st,
{
    lemma_reserves(&st.reserves, ExportKind::Class, &reserve.bound);
    law_append(st.reserves, reserve);
}

/// An imported interface takes a name that is new in the module, exactly.
pub proof fn law_bind_interface(cx: &Ctx, st: Uses, reserve: Reserve, span: Span)
    ensures
        bind_interface(cx, st, reserve, span).1 is Ok <==> find_id(&cx.user_interfaces, &reserve.bound) is None && !is_reserved(st.reserves, ExportKind::Interface, reserve.bound),
        bind_interface(cx, st, reserve, span).1 is Ok ==> bind_interface(cx, st, reserve, span).0.reserves@ == st.reserves@.push(reserve),
        bind_interface(cx, st, reserve, span).1 is Err ==> bind_interface(cx, st, reserve, span).0 == st,
{
    lemma_reserves(&st.reserves, ExportKind::Interface, &reserve.bound);
    law_append(st.reserves, reserve);
}

/// Whether an import has taken a name for one kind of definition.
pub open spec fn is_reserved(reserves: Chain<Reserve>, kind: ExportKind, bound: Text) -> bool {
    exists|i: int| 0 <= i < reserves@.len() && (#[trigger] reserves@[i]).kind == kind && reserves@[i].bound == bound
}

proof fn lemma_reserves(reserves: &Chain<Reserve>, kind: ExportKind, bound: &Text)
    ensures
        reserves_name(reserves, kind, bound) <==> is_reserved(*reserves, kind, *bound),
    decreases reserves,
{
    if let Chain::Cons(head, tail) = reserves {
        lemma_reserves(tail, kind, bound);
        assert(reserves@[0] == **head);
        if is_reserved(**tail, kind, *bound) {
            let i = choose|i: int| 0 <= i < tail@.len() && (#[trigger] tail@[i]).kind == kind && tail@[i].bound == *bound;
            assert(reserves@[i + 1] == tail@[i]);
        }
        if is_reserved(*reserves, kind, *bound) && !(head.kind == kind && head.bound == *bound) {
            let i = choose|i: int| 0 <= i < reserves@.len() && (#[trigger] reserves@[i]).kind == kind && reserves@[i].bound == *bound;
            assert(tail@[i - 1] == reserves@[i]);
        }
    }
}

/// An export is reserved under its bound name with its module, its kind and
/// its own name.
pub proof fn law_bind_export(cx: &Ctx, st: Uses, bound: Text, module: &Text, export: &ImportExport, decl: &UseDecl)
    ensures
        bind_export(cx, st, bound, module, export, decl).1 is Ok ==> bind_export(cx, st, bound, module, export, decl).0.reserves@ == st.reserves@.push(
            Reserve { kind: export.kind, bound: bound, module: *module, name: export.name, span: decl.span },
        ),
        bind_export(cx, st, bound, module, export, decl).0.entries == st.entries,
{
    law_append(st.reserves, Reserve { kind: export.kind, bound: bound, module: *module, name: export.name, span: decl.span });
}

/// A `use` of a `sys` member names an operation that the manifest fixes, in
/// snake case, or the machine constructor.
pub proof fn law_sys_member_use(cx: &Ctx, group: Text, member: &Text, span: Span)
    ensures
        resolve_sys_member_use(cx, group, member, span) matches Ok(found) ==> found == (UseBinding::SysMember { group: group, member: *member }) && ((group@ == "Vm"@ && member@ == "Vm"@) || (
        !starts_upper(member) && fixed_member(&cx.bundle, &group, &camel_member(member)) is Some)),
{
}

/// A fixed operation is found at a slot where the manifest has it.
pub proof fn law_fixed_member(bundle: &Bundle, group: &Text, member: &Text)
    requires
        bundle.ops@.len() <= u32::MAX,
    ensures
        fixed_member(bundle, group, member) matches Some(slot) ==> slot < bundle.ops@.len() && bundle.ops@[slot as int].fixed && bundle.ops@[slot as int].group == *group
            && bundle.ops@[slot as int].member == *member,
{
    lemma_fixed(&bundle.ops, group, member, 0u32);
}

proof fn lemma_fixed(ops: &Chain<OpDef>, group: &Text, member: &Text, at: u32)
    requires
        at + ops@.len() <= u32::MAX,
    ensures
        fixed_member_from(ops, group, member, at) matches Some(slot) ==> at <= slot < at + ops@.len() && ops@[slot - at].fixed && ops@[slot - at].group == *group && ops@[slot - at].member
            == *member,
    decreases ops,
{
    if let Chain::Cons(head, tail) = ops {
        assert(ops@[0] == **head);
        if !(head.fixed && head.group == *group && head.member == *member) {
            lemma_fixed(tail, group, member, (at + 1) as u32);
            if let Some(slot) = fixed_member_from(ops, group, member, at) {
                assert(ops@[slot - at] == tail@[slot - at - 1]);
            }
        }
    }
}

/// A definition that a `use` line names is an export of the module before
/// its last segment.
pub proof fn law_definition_use(cx: &Ctx, st: Uses, env: &ImportEnv, decl: &UseDecl, root: &Text, rest: &Chain<Text>, full: &Text, bound: &Text)
    requires
        resolve_definition_use(cx, st, env, decl, root, rest, full, bound).1 is Ok,
    ensures
        before_last_dot(full) matches Some(path) && resolve_definition_use(cx, st, env, decl, root, rest, full, bound).1->Ok_0 == (UseEntry {
            name: *bound,
            binding: UseBinding::ModulePath(path),
        }) && (find_module(&env.modules, &path) matches Some(module) && (find_export(&module.exports, bound) matches Some(export) && resolve_definition_use(
            cx,
            st,
            env,
            decl,
            root,
            rest,
            full,
            bound,
        ).0.reserves@ == st.reserves@.push(Reserve { kind: export.kind, bound: *bound, module: path, name: export.name, span: decl.span }))),
{
    let path = before_last_dot(full)->0;
    let module = find_module(&env.modules, &path)->0;
    let export = find_export(&module.exports, bound)->0;
    law_bind_export(cx, st, *bound, &path, export, decl);
}

} // verus!
