//! What written names mean, and what an image names.

use vstd::prelude::*;
use crate::abi::PrimKind;
use crate::ast::{ClassDef, Span, TypeExpr};
use crate::chain::Chain;
use crate::context::{AssocSlot, Ctx, Decl, InterfaceUse, TyEnv};
use crate::hir::{HPattern, HirFunc};
use crate::laws::lists::{law_append, law_nth};
use crate::laws::lookups::law_associated_position;
use crate::laws::requests::{law_mailbox_part, leaves_holder};
use crate::model::assembly::{exports_func, internal_exports, is_method, named_funcs};
use crate::model::branches::check_else_needed;
use crate::model::classes::check_class_mailbox;
use crate::model::conform::project;
use crate::model::fulfil::declared_class;
use crate::model::infer::filled_rows;
use crate::model::lists::{append, cons, find_literal, holds_id, nth, one};
use crate::model::lookup::{associated_position, associated_walk, check_mailbox_type, interface_associated, interface_at, meta_at, push_parents};
use crate::model::patterns::{first_test, hpat_to_apat};
use crate::model::resolve::{bounds_with_associated, check_key_type, projection, resolve_one, resolve_self_associated, resolve_two, resolve_type};
use crate::model::scope::{slot_in, slot_in_scopes};
use crate::model::system::primitive_type;
use crate::problem::Stop;
use crate::program::{DefKind, FuncBinding, HirExport, Key};
use crate::state::{BlockMode, ScopeEntry};
use crate::text::Text;
use crate::types::{Row, RowElem, Ty};

verus! {

/// Whether a place is an associated type of this name.
pub open spec fn names_associated(cx: &Ctx, slot: AssocSlot, name: Text) -> bool {
    slot.assoc < interface_at(cx, slot.interface).associated@.len() && interface_at(cx, slot.interface).associated@[slot.assoc as int].name == name
}

/// A bound that has an associated type of a name is found at its place.
pub proof fn law_bounds_with_associated(cx: &Ctx, bounds: &Chain<InterfaceUse>, name: &Text)
    requires
        forall|interface: u32| (#[trigger] interface_at(cx, interface)).associated@.len() <= u32::MAX,
    ensures
        forall|i: int|
            0 <= i < bounds_with_associated(cx, bounds, name)@.len() ==> names_associated(cx, #[trigger] bounds_with_associated(cx, bounds, name)@[i], *name) && bounded_by(
                bounds@,
                bounds_with_associated(cx, bounds, name)@[i].interface,
            ),
        bounds_with_associated(cx, bounds, name)@.len() <= bounds@.len(),
    decreases bounds,
{
    if let Chain::Cons(head, tail) = bounds {
        law_bounds_with_associated(cx, tail, name);
        law_associated_position(&interface_at(cx, head.interface).associated, name);
        let found = bounds_with_associated(cx, bounds, name)@;
        let rest = bounds_with_associated(cx, tail, name)@;
        assert(bounds@[0] == **head);
        assert forall|i: int| 0 <= i < found.len() implies names_associated(cx, #[trigger] found[i], *name) && bounded_by(bounds@, found[i].interface) by {
            let from = if associated_position(&interface_at(cx, head.interface).associated, name) is Some { i - 1 } else { i };
            if from >= 0 {
                assert(found[i] == rest[from]);
                let k = choose|k: int| 0 <= k < tail@.len() && (#[trigger] tail@[k]).interface == rest[from].interface;
                assert(bounds@[k + 1] == tail@[k]);
            }
        }
    }
}

/// Whether a bound is to this interface.
pub open spec fn bounded_by(bounds: Seq<InterfaceUse>, interface: u32) -> bool {
    exists|k: int| 0 <= k < bounds.len() && (#[trigger] bounds[k]).interface == interface
}

/// An associated type of a variable is one that a bound of the variable
/// declares under the written name.
pub proof fn law_projection(cx: &Ctx, env: &TyEnv, base: Ty, variable: u32, name: &Text, span: Span)
    requires
        forall|interface: u32| (#[trigger] interface_at(cx, interface)).associated@.len() <= u32::MAX,
        projection(cx, env, base, variable, name, span) is Ok,
    ensures
        variable < env.type_bounds@.len(),
        exists|slot: AssocSlot| #[trigger]
            names_associated(cx, slot, *name) && bounded_by(env.type_bounds@[variable as int]@, slot.interface) && projection(cx, env, base, variable, name, span) == Ok::<Ty, Stop>(
                project(cx, base, slot.interface, slot.assoc),
            ),
{
    law_nth(&env.type_bounds, variable);
    let bounds = nth(&env.type_bounds, variable)->Some_0;
    law_bounds_with_associated(cx, bounds, name);
    let found = bounds_with_associated(cx, bounds, name);
    if let Chain::Cons(head, _) = found {
        assert(found@[0] == *head);
        assert(names_associated(cx, *head, *name));
    }
}

/// Every associated type that a walk over an interface and its parents
/// finds has the written name.
pub proof fn law_associated_walk(cx: &Ctx, name: &Text, stack: Chain<u32>, seen: Chain<u32>, found: Chain<AssocSlot>, steps: u32)
    requires
        forall|interface: u32| (#[trigger] interface_at(cx, interface)).associated@.len() <= u32::MAX,
        forall|i: int| 0 <= i < found@.len() ==> names_associated(cx, #[trigger] found@[i], *name),
    ensures
        forall|i: int| 0 <= i < associated_walk(cx, name, stack, seen, found, steps)@.len() ==> names_associated(cx, #[trigger] associated_walk(cx, name, stack, seen, found, steps)@[i], *name),
    decreases steps,
{
    if steps > 0 {
        if let Chain::Cons(current, rest) = stack {
            if holds_id(&seen, *current) {
                law_associated_walk(cx, name, *rest, seen, found, (steps - 1) as u32);
            } else {
                let contract = interface_at(cx, *current);
                let more = push_parents(&contract.parents, *rest);
                law_associated_position(&contract.associated, name);
                match associated_position(&contract.associated, name) {
                    Some(at) => {
                        let slot = AssocSlot { interface: *current, assoc: at };
                        law_append(found, slot);
                        law_associated_walk(cx, name, more, cons(*current, seen), append(found, slot), (steps - 1) as u32);
                    },
                    None => law_associated_walk(cx, name, more, cons(*current, seen), found, (steps - 1) as u32),
                }
            }
        }
    }
}

/// An associated type of `Self` is one that the interface or a parent
/// declares under the written name.
pub proof fn law_self_associated(cx: &Ctx, env: &TyEnv, name: &Text, span: Span)
    requires
        forall|interface: u32| (#[trigger] interface_at(cx, interface)).associated@.len() <= u32::MAX,
        resolve_self_associated(cx, env, name, span) is Ok,
    ensures
        env.self_interface is Some,
        exists|slot: AssocSlot| #[trigger]
            names_associated(cx, slot, *name) && resolve_self_associated(cx, env, name, span) == Ok::<Ty, Stop>(project(cx, Ty::Var(0), slot.interface, slot.assoc)),
{
    let interface = env.self_interface->Some_0;
    law_associated_walk(cx, name, one(interface), Chain::Nil, Chain::Nil, 0xffff_ffffu32);
    let found = interface_associated(cx, interface, name);
    if let Chain::Cons(head, _) = found {
        assert(found@[0] == *head);
        assert(names_associated(cx, *head, *name));
    }
}

/// Whether a written type resolves to a type, in some state of the
/// declarations.
pub open spec fn means(cx: &Ctx, env: &TyEnv, written: TypeExpr, ty: Ty) -> bool {
    exists|st: Decl| #[trigger] resolve_type(cx, env, st, &written).1 == Ok::<Ty, Stop>(ty)
}

/// A map type has the key and the value that it is written with, and a
/// handle type its mailbox and its result, in this order.
pub proof fn law_resolve_two(cx: &Ctx, env: &TyEnv, st: Decl, name: &Text, args: &Chain<TypeExpr>, is_map: bool, span: Span)
    requires
        resolve_two(cx, env, st, name, args, is_map, span).1 is Ok,
    ensures
        args@.len() == 2,
        is_map ==> (resolve_two(cx, env, st, name, args, is_map, span).1->Ok_0 matches Ty::MapOf(key, value) && means(cx, env, args@[0], *key) && means(cx, env, args@[1], *value)),
        !is_map ==> (resolve_two(cx, env, st, name, args, is_map, span).1->Ok_0 matches Ty::Handle(mailbox, result) && means(cx, env, args@[0], *mailbox) && means(cx, env, args@[1], *result)),
{
    reveal_with_fuel(Chain::items, 4);
    if let Chain::Cons(first, rest) = args {
        if let Chain::Cons(second, _) = &**rest {
            assert(args@[0] == **first);
            assert(args@[1] == **second);
            let (next, found) = resolve_type(cx, env, st, &**first);
            assert(means(cx, env, **first, found->Ok_0));
            if is_map {
                let after = check_key_type(cx, env, next, &found->Ok_0, first.span).0;
                let (last, value) = resolve_type(cx, env, after, &**second);
                assert(means(cx, env, **second, value->Ok_0));
            } else {
                let (last, value) = resolve_type(cx, env, next, &**second);
                assert(means(cx, env, **second, value->Ok_0));
            }
        }
    }
}

/// A built-in type of one argument is given one.
pub proof fn law_resolve_one(cx: &Ctx, env: &TyEnv, st: Decl, name: &Text, args: &Chain<TypeExpr>, span: Span)
    requires
        resolve_one(cx, env, st, name, args, span).1 is Ok,
    ensures
        args@.len() == 1,
        means(cx, env, args@[0], resolve_one(cx, env, st, name, args, span).1->Ok_0),
{
    reveal_with_fuel(Chain::items, 3);
    if let Chain::Cons(first, _) = args {
        assert(args@[0] == **first);
        assert(resolve_type(cx, env, st, &**first).1 == Ok::<Ty, Stop>(resolve_one(cx, env, st, name, args, span).1->Ok_0));
    }
}

/// A name means its innermost binding.
pub proof fn law_slot_in_scopes(scopes: &Chain<Chain<ScopeEntry>>, name: &Text)
    ensures
        slot_in_scopes(scopes, name) is None <==> forall|i: int| 0 <= i < scopes@.len() ==> slot_in(&#[trigger] scopes@[i], name) is None,
        slot_in_scopes(scopes, name) matches Some(slot) ==> exists|i: int|
            0 <= i < scopes@.len() && slot_in(&#[trigger] scopes@[i], name) == Some(slot) && forall|j: int| 0 <= j < i ==> slot_in(&#[trigger] scopes@[j], name) is None,
    decreases scopes,
{
    if let Chain::Cons(head, tail) = scopes {
        law_slot_in_scopes(tail, name);
        assert(scopes@[0] == **head);
        if slot_in(&**head, name) is None {
            if let Some(slot) = slot_in_scopes(tail, name) {
                let i = choose|i: int|
                    0 <= i < tail@.len() && slot_in(&#[trigger] tail@[i], name) == Some(slot) && forall|j: int| 0 <= j < i ==> slot_in(&#[trigger] tail@[j], name) is None;
                assert(scopes@[i + 1] == tail@[i]);
                assert forall|j: int| 0 <= j < i + 1 implies slot_in(&#[trigger] scopes@[j], name) is None by {
                    if j > 0 {
                        assert(scopes@[j] == tail@[j - 1]);
                    }
                }
            } else {
                assert forall|i: int| 0 <= i < scopes@.len() implies slot_in(&#[trigger] scopes@[i], name) is None by {
                    if i > 0 {
                        assert(scopes@[i] == tail@[i - 1]);
                    }
                }
            }
        }
    }
}

/// A found effect argument stays as it is; an open one stands for itself.
pub proof fn law_filled_rows(rows: &Chain<Option<Row>>, at: u32)
    requires
        at + rows@.len() <= u32::MAX,
    ensures
        filled_rows(rows, at)@.len() == rows@.len(),
        forall|i: int| 0 <= i < rows@.len() ==> match #[trigger] rows@[i] {
            Some(row) => filled_rows(rows, at)@[i] == row,
            None => filled_rows(rows, at)@[i] == one(RowElem::Var((at + i) as u32)),
        },
    decreases rows,
{
    if let Chain::Cons(head, tail) = rows {
        law_filled_rows(tail, (at + 1) as u32);
        let found = filled_rows(rows, at)@;
        let rest = filled_rows(tail, (at + 1) as u32)@;
        assert forall|i: int| 0 <= i < rows@.len() implies match #[trigger] rows@[i] {
            Some(row) => found[i] == row,
            None => found[i] == one(RowElem::Var((at + i) as u32)),
        } by {
            if i > 0 {
                assert(rows@[i] == tail@[i - 1]);
                assert(found[i] == rest[i - 1]);
            }
        }
    }
}

/// The mailbox of a class under the process class can leave its holder.
pub proof fn law_class_mailbox(cx: &Ctx, declaration: &ClassDef)
    requires
        check_class_mailbox(cx, declaration) is Ok,
    ensures
        ({
            let meta = meta_at(cx, declared_class(cx, &declaration.name, false));
            declaration.parent matches Some(clause) ==> clause.args@.len() > 0 && meta.parent is Some && meta.parent == find_literal(&cx.core_types, "Proc") && meta.parent_args@.len() > 0
                ==> leaves_holder(cx, meta.parent_args@[0])
        }),
{
    let meta = meta_at(cx, declared_class(cx, &declaration.name, false));
    law_nth(&meta.parent_args, 0u32);
    if let Some(clause) = &declaration.parent {
        if let Chain::Cons(written, _) = &clause.args {
            if meta.parent_args@.len() > 0 && check_mailbox_type(cx, &meta.parent_args@[0], written.span) is Ok {
                law_mailbox_part(cx, &meta.parent_args@[0], written.span);
            }
        }
    }
}

/// A conditional that must give a value has an `else`, unless the value is
/// the unit.
pub proof fn law_else_needed(mode: &BlockMode, has_else: bool, span: Span)
    ensures
        check_else_needed(mode, has_else, span) is Ok <==> has_else || (*mode matches BlockMode::Value(ty) ==> ty == Ty::Unit),
{
}

/// The test of a constructor pattern is its first part that tests
/// something.
pub proof fn law_first_test(pats: &Chain<HPattern>)
    ensures
        first_test(pats) is Wild <==> forall|i: int| 0 <= i < pats@.len() ==> hpat_to_apat(&#[trigger] pats@[i]) is Wild,
        !(first_test(pats) is Wild) ==> exists|i: int|
            0 <= i < pats@.len() && hpat_to_apat(&#[trigger] pats@[i]) == first_test(pats) && forall|j: int| 0 <= j < i ==> hpat_to_apat(&#[trigger] pats@[j]) is Wild,
    decreases pats,
{
    if let Chain::Cons(head, tail) = pats {
        law_first_test(tail);
        assert(pats@[0] == **head);
        if hpat_to_apat(&**head) is Wild {
            if first_test(tail) is Wild {
                assert forall|i: int| 0 <= i < pats@.len() implies hpat_to_apat(&#[trigger] pats@[i]) is Wild by {
                    if i > 0 {
                        assert(pats@[i] == tail@[i - 1]);
                    }
                }
            } else {
                let i = choose|i: int|
                    0 <= i < tail@.len() && hpat_to_apat(&#[trigger] tail@[i]) == first_test(tail) && forall|j: int| 0 <= j < i ==> hpat_to_apat(&#[trigger] tail@[j]) is Wild;
                assert(pats@[i + 1] == tail@[i]);
                assert forall|j: int| 0 <= j < i + 1 implies hpat_to_apat(&#[trigger] pats@[j]) is Wild by {
                    if j > 0 {
                        assert(pats@[j] == tail@[j - 1]);
                    }
                }
            }
        }
    }
}

/// Two primitives of the manifest never have one type.
pub proof fn law_primitive_types(a: PrimKind, b: PrimKind)
    ensures
        primitive_type(a) == primitive_type(b) ==> a == b,
{
}

/// Whether a binding names a function of this module at its place.
pub open spec fn binds_own(funcs: Seq<HirFunc>, path: Text, at: int, binding: FuncBinding) -> bool {
    &&& at <= binding.func < at + funcs.len()
    &&& !funcs[binding.func - at].imported
    &&& binding.key == Key { module: path, name: funcs[binding.func - at].name }
}

/// Every named function is one of the module, under its own name.
pub proof fn law_named_funcs(funcs: &Chain<HirFunc>, path: &Text, at: u32, total: u32)
    requires
        at + funcs@.len() <= u32::MAX,
    ensures
        forall|i: int| 0 <= i < named_funcs(funcs, path, at, total)@.len() ==> binds_own(funcs@, *path, at as int, #[trigger] named_funcs(funcs, path, at, total)@[i]),
        forall|k: int| 0 <= k < funcs@.len() && k < total && !(#[trigger] funcs@[k]).imported ==> named_funcs(funcs, path, at, total)@.contains(
            FuncBinding { key: Key { module: *path, name: funcs@[k].name }, func: (at + k) as u32 },
        ),
    decreases funcs,
{
    if let Chain::Cons(head, tail) = funcs {
        if total != 0 {
            law_named_funcs(tail, path, (at + 1) as u32, (total - 1) as u32);
            let found = named_funcs(funcs, path, at, total)@;
            let rest = named_funcs(tail, path, (at + 1) as u32, (total - 1) as u32)@;
            assert(funcs@[0] == **head);
            assert forall|i: int| 0 <= i < found.len() implies binds_own(funcs@, *path, at as int, #[trigger] found[i]) by {
                let from = if head.imported { i } else { i - 1 };
                if from >= 0 {
                    assert(found[i] == rest[from]);
                    assert(binds_own(tail@, *path, at + 1, rest[from]));
                    assert(funcs@[found[i].func - at] == tail@[found[i].func - at - 1]);
                }
            }
            assert forall|k: int| 0 <= k < funcs@.len() && k < total && !(#[trigger] funcs@[k]).imported implies found.contains(
                FuncBinding { key: Key { module: *path, name: funcs@[k].name }, func: (at + k) as u32 },
            ) by {
                let binding = FuncBinding { key: Key { module: *path, name: funcs@[k].name }, func: (at + k) as u32 };
                if k == 0 {
                    assert(found[0] == binding);
                } else {
                    assert(funcs@[k] == tail@[k - 1]);
                    let i = rest.index_of(binding);
                    let to = if head.imported { i } else { i + 1 };
                    assert(found[to] == binding);
                }
            }
        }
    }
}

/// The internal exports are of core functions that are no methods and that
/// have no export yet.
pub proof fn law_internal_exports(cx: &Ctx, exports: &Chain<HirExport>, funcs: &Chain<HirFunc>, at: u32, ordinal: u32)
    requires
        at + funcs@.len() <= u32::MAX,
    ensures
        forall|i: int|
            0 <= i < internal_exports(cx, exports, funcs, at, ordinal)@.len() ==> is_internal(cx, *exports, funcs@, at as int, #[trigger] internal_exports(cx, exports, funcs, at, ordinal)@[i]),
        forall|k: int|
            0 <= k < funcs@.len() && (#[trigger] funcs@[k]).core && !is_method(&cx.classes, cx.user_start, (at + k) as u32) && !exports_func(exports, (at + k) as u32) ==> exports_at(
                internal_exports(cx, exports, funcs, at, ordinal)@,
                (at + k) as u32,
            ),
    decreases funcs,
{
    if let Chain::Cons(head, tail) = funcs {
        let next: u32 = if head.core { ordinal.wrapping_add(1) } else { ordinal };
        law_internal_exports(cx, exports, tail, (at + 1) as u32, next);
        let found = internal_exports(cx, exports, funcs, at, ordinal)@;
        let rest = internal_exports(cx, exports, tail, (at + 1) as u32, next)@;
        let kept = !head.core || is_method(&cx.classes, cx.user_start, at) || exports_func(exports, at);
        assert(funcs@[0] == **head);
        assert forall|i: int| 0 <= i < found.len() implies is_internal(cx, *exports, funcs@, at as int, #[trigger] found[i]) by {
            let from = if kept { i } else { i - 1 };
            if from >= 0 {
                assert(found[i] == rest[from]);
                assert(is_internal(cx, *exports, tail@, at + 1, rest[from]));
                assert(funcs@[found[i].def - at] == tail@[found[i].def - at - 1]);
            }
        }
        assert forall|k: int|
            0 <= k < funcs@.len() && (#[trigger] funcs@[k]).core && !is_method(&cx.classes, cx.user_start, (at + k) as u32) && !exports_func(exports, (at + k) as u32) implies exports_at(
            found,
            (at + k) as u32,
        ) by {
            if k == 0 {
                assert(found[0].def == at);
            } else {
                assert(funcs@[k] == tail@[k - 1]);
                assert(exports_at(rest, (at + k) as u32));
                let i = choose|i: int| 0 <= i < rest.len() && (#[trigger] rest[i]).def == (at + k) as u32;
                let to = if kept { i } else { i + 1 };
                assert(found[to] == rest[i]);
            }
        }
    }
}

/// Whether an export of a list is of this function.
pub open spec fn exports_at(exports: Seq<HirExport>, func: u32) -> bool {
    exists|i: int| 0 <= i < exports.len() && (#[trigger] exports[i]).def == func
}

/// Whether an export is of a core function that nothing else exports.
pub open spec fn is_internal(cx: &Ctx, exports: Chain<HirExport>, funcs: Seq<HirFunc>, at: int, found: HirExport) -> bool {
    &&& found.kind == DefKind::Function
    &&& at <= found.def < at + funcs.len()
    &&& funcs[found.def - at].core
    &&& !is_method(&cx.classes, cx.user_start, found.def)
    &&& !exports_func(&exports, found.def)
}

} // verus!
