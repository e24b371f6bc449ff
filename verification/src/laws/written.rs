//! Written types, rows and signatures: what their resolution keeps.

use vstd::prelude::*;
use crate::abi::{GroupDef, OpDef};
use crate::ast::{InterfaceRef, Param, RowArg, RowItem, Span, TypeExpr, TypeExprKind};
use crate::chain::Chain;
use crate::context::{BuiltinType, Ctx, Decl, FnSig, InterfaceUse, Params, PendingKey, TyEnv};
use crate::laws::lists::{law_append, law_count, law_holds_name, law_position};
use crate::laws::rows::{canonical, elements, law_canonical_row};
use crate::model::classes::check_deferred_map_keys;
use crate::model::conform::{find_bound, type_conformance};
use crate::model::lists::{append, cons, find_literal};
use crate::model::lookup::{interface_at, lookup_interface, lookup_type, meta_at, nominal_class, type_for_nominal};
use crate::model::names::dotted;
use crate::model::resolve::{check_key_type, count_effects, count_types, empty_rows, find_builtin, group_row, is_text_class, is_unresolved, op_row, resolve_apply, resolve_bounds_after, resolve_class_apply, resolve_interface_bounds, resolve_interface_use, resolve_one, resolve_param_type, resolve_parameters, resolve_params_after, resolve_plain_name, resolve_row, resolve_row_args, resolve_row_item, resolve_row_items, resolve_sig, resolve_two, resolve_type, resolve_types};
use crate::problem::Stop;
use crate::text::Text;
use crate::types::{Row, RowElem, Ty};

verus! {

/// The row element that a name stands for: an effect parameter before a
/// group, and a group before an operation.
pub open spec fn stands_for(cx: &Ctx, env: &TyEnv, name: Text, elem: RowElem) -> bool {
    match elem {
        RowElem::Var(at) => at < env.effect_names@.len() && env.effect_names@[at as int] == name,
        RowElem::Op(row) => {
            &&& !env.effect_names@.contains(name)
            &&& has_group(cx.bundle.groups, name) ==> is_group(cx.bundle.groups, name, row)
            &&& !has_group(cx.bundle.groups, name) ==> is_operation(cx.bundle.ops, name, row)
        },
    }
}

/// Whether a group has a name.
pub open spec fn has_group(groups: Chain<GroupDef>, name: Text) -> bool {
    exists|i: int| 0 <= i < groups@.len() && #[trigger] groups@[i].name == name
}

/// Whether a group has a name and a row number.
pub open spec fn is_group(groups: Chain<GroupDef>, name: Text, row: u32) -> bool {
    exists|i: int| 0 <= i < groups@.len() && #[trigger] groups@[i].name == name && groups@[i].row == row
}

/// Whether an operation has a full name and a row number.
pub open spec fn is_operation(ops: Chain<OpDef>, name: Text, row: u32) -> bool {
    exists|i: int| 0 <= i < ops@.len() && #[trigger] dotted(&ops@[i].group, &ops@[i].member) == name && ops@[i].row == row
}

proof fn lemma_group_row(groups: &Chain<GroupDef>, name: &Text)
    ensures
        group_row(groups, name) is Some <==> has_group(*groups, *name),
        group_row(groups, name) matches Some(row) ==> is_group(*groups, *name, row),
    decreases groups,
{
    if let Chain::Cons(head, tail) = groups {
        lemma_group_row(tail, name);
        assert(groups@[0] == **head);
        assert(forall|i: int| 0 <= i < tail@.len() ==> groups@[i + 1] == #[trigger] tail@[i]);
        if head.name != *name {
            if has_group(**tail, *name) {
                let i = choose|i: int| 0 <= i < tail@.len() && #[trigger] tail@[i].name == *name;
                assert(groups@[i + 1].name == *name);
            }
            if has_group(*groups, *name) {
                let i = choose|i: int| 0 <= i < groups@.len() && #[trigger] groups@[i].name == *name;
                assert(tail@[i - 1].name == *name);
            }
            if let Some(row) = group_row(tail, name) {
                let i = choose|i: int| 0 <= i < tail@.len() && #[trigger] tail@[i].name == *name && tail@[i].row == row;
                assert(groups@[i + 1].name == *name && groups@[i + 1].row == row);
            }
        }
    }
}

proof fn lemma_op_row(ops: &Chain<OpDef>, name: &Text)
    ensures
        op_row(ops, name) matches Some(row) ==> is_operation(*ops, *name, row),
    decreases ops,
{
    if let Chain::Cons(head, tail) = ops {
        lemma_op_row(tail, name);
        assert(ops@[0] == **head);
        assert(forall|i: int| 0 <= i < tail@.len() ==> ops@[i + 1] == #[trigger] tail@[i]);
        if dotted(&head.group, &head.member) == *name {
            assert(dotted(&ops@[0].group, &ops@[0].member) == *name);
        } else if let Some(row) = op_row(tail, name) {
            let i = choose|i: int| 0 <= i < tail@.len() && #[trigger] dotted(&tail@[i].group, &tail@[i].member) == *name && tail@[i].row == row;
            assert(dotted(&ops@[i + 1].group, &ops@[i + 1].member) == *name && ops@[i + 1].row == row);
        }
    }
}

/// A written effect is an effect parameter of the scope, or what the
/// manifest has under its name.
pub proof fn law_row_item(cx: &Ctx, env: &TyEnv, item: &RowItem)
    requires
        env.effect_names@.len() <= u32::MAX,
    ensures
        resolve_row_item(cx, env, item) matches Ok(elem) ==> stands_for(cx, env, item.name, elem),
        env.effect_names@.contains(item.name) ==> resolve_row_item(cx, env, item) is Ok,
{
    law_position(&env.effect_names, &item.name);
    lemma_group_row(&cx.bundle.groups, &item.name);
    lemma_op_row(&cx.bundle.ops, &item.name);
}

/// Whether an element is one that a list of written effects names.
pub open spec fn written_in(cx: &Ctx, env: &TyEnv, items: Chain<RowItem>, elem: RowElem) -> bool {
    exists|i: int| 0 <= i < items@.len() && stands_for(cx, env, (#[trigger] items@[i]).name, elem)
}

proof fn lemma_row_items(cx: &Ctx, env: &TyEnv, items: &Chain<RowItem>)
    requires
        env.effect_names@.len() <= u32::MAX,
    ensures
        resolve_row_items(cx, env, items) matches Ok(row) ==> row@.len() == items@.len()
            && forall|i: int| 0 <= i < row@.len() ==> stands_for(cx, env, items@[i].name, #[trigger] row@[i]),
    decreases items,
{
    if let Chain::Cons(head, tail) = items {
        lemma_row_items(cx, env, tail);
        law_row_item(cx, env, &**head);
        if let Ok(row) = resolve_row_items(cx, env, items) {
            let rest = resolve_row_items(cx, env, tail)->Ok_0;
            assert(items@[0] == **head);
            assert forall|i: int| 0 <= i < row@.len() implies stands_for(cx, env, items@[i].name, #[trigger] row@[i]) by {
                if i > 0 {
                    assert(row@[i] == rest@[i - 1]);
                    assert(items@[i] == tail@[i - 1]);
                }
            }
        }
    }
}

/// A resolved row is canonical and holds exactly what is written.
pub proof fn law_resolve_row(cx: &Ctx, env: &TyEnv, items: &Chain<RowItem>)
    requires
        env.effect_names@.len() <= u32::MAX,
        resolve_row(cx, env, items) is Ok,
    ensures
        canonical(resolve_row(cx, env, items)->Ok_0),
        forall|elem: RowElem| #[trigger] elements(resolve_row(cx, env, items)->Ok_0).contains(elem) ==> written_in(cx, env, *items, elem),
        forall|i: int| 0 <= i < items@.len() ==> names_element(cx, env, (#[trigger] items@[i]).name, resolve_row(cx, env, items)->Ok_0),
{
    lemma_row_items(cx, env, items);
    let row = resolve_row_items(cx, env, items)->Ok_0;
    law_canonical_row(row);
    let done = resolve_row(cx, env, items)->Ok_0;
    assert forall|elem: RowElem| #[trigger] elements(done).contains(elem) implies written_in(cx, env, *items, elem) by {
        assert(row@.contains(elem));
        let i = row@.index_of(elem);
        assert(stands_for(cx, env, items@[i].name, row@[i]));
    }
    assert forall|i: int| 0 <= i < items@.len() implies names_element(cx, env, (#[trigger] items@[i]).name, done) by {
        assert(stands_for(cx, env, items@[i].name, row@[i]));
        assert(row@.contains(row@[i]));
        assert(elements(done).contains(row@[i]));
    }
}

/// Whether a row holds an element that a name stands for.
pub open spec fn names_element(cx: &Ctx, env: &TyEnv, name: Text, row: Row) -> bool {
    exists|elem: RowElem| #[trigger] elements(row).contains(elem) && stands_for(cx, env, name, elem)
}

/// Whether the values of a type can be keys of a map.
pub open spec fn is_key(cx: &Ctx, env: &TyEnv, key: Ty) -> bool {
    ||| key is Bool || key is Int || key is Float || key is Str || key is Bytes
    ||| nominal_class(cx, &key) matches Some(found) && is_text_class(cx, found.class)
    ||| find_literal(&cx.core_interfaces, "Hashable") matches Some(hashable) && type_conformance(cx, env, &key, hashable) is Some
}

/// An accepted key type is one, or it waits, unless no class is open any
/// more; nothing else changes.
pub proof fn law_key_type(cx: &Ctx, env: &TyEnv, st: Decl, key: &Ty, span: Span)
    ensures
        check_key_type(cx, env, st, key, span).1 is Ok && !(cx.defer_map_keys && is_unresolved(cx, key)) ==> is_key(cx, env, *key),
        find_literal(&cx.core_interfaces, "Hashable") is Some && is_key(cx, env, *key) ==> check_key_type(cx, env, st, key, span).1 is Ok,
        cx.defer_map_keys && is_unresolved(cx, key) ==> check_key_type(cx, env, st, key, span).0.keys@ == st.keys@.push(PendingKey { env: *env, key: *key, span: span }),
        !(cx.defer_map_keys && is_unresolved(cx, key)) ==> check_key_type(cx, env, st, key, span).0 == st,
        check_key_type(cx, env, st, key, span).0.next_func == st.next_func,
{
    law_append(st.keys, PendingKey { env: *env, key: *key, span: span });
}

/// Each key that waited is a key once all classes are there.
pub proof fn law_deferred_keys(cx: &Ctx, keys: &Chain<PendingKey>)
    requires
        !cx.defer_map_keys,
        check_deferred_map_keys(cx, keys) is Ok,
    ensures
        forall|i: int| 0 <= i < keys@.len() ==> is_key(cx, &(#[trigger] keys@[i]).env, keys@[i].key),
    decreases keys,
{
    if let Chain::Cons(head, tail) = keys {
        law_key_type(cx, &head.env, Decl { keys: Chain::Nil, next_func: 0, values: Chain::Nil }, &head.key, head.span);
        law_deferred_keys(cx, tail);
        assert forall|i: int| 0 <= i < keys@.len() implies is_key(cx, &(#[trigger] keys@[i]).env, keys@[i].key) by {
            if i > 0 {
                assert(keys@[i] == tail@[i - 1]);
            }
        }
    }
}

/// A bare name stands for the type parameter of that name where there is
/// one, for a built-in type where there is one of that name, and else for a
/// class that takes no arguments.
pub proof fn law_plain_name(cx: &Ctx, env: &TyEnv, name: &Text, span: Span)
    requires
        env.type_names@.len() <= u32::MAX,
        env.type_offset + env.type_names@.len() <= u32::MAX,
        resolve_plain_name(cx, env, name, span) is Ok,
    ensures
        env.type_names@.contains(*name) ==> (resolve_plain_name(cx, env, name, span)->Ok_0 matches Ty::Var(at)
            && env.type_offset <= at < env.type_offset + env.type_names@.len() && env.type_names@[at - env.type_offset] == *name),
        !env.type_names@.contains(*name) && find_builtin(&cx.builtins, name) is None ==> (lookup_type(cx, name, env) matches Some(class)
            && meta_at(cx, class).type_params == 0 && resolve_plain_name(cx, env, name, span)->Ok_0 == type_for_nominal(cx, class, Chain::Nil)),
        forall|i: int| #[trigger] first_builtin(cx.builtins, i, *name) && !env.type_names@.contains(*name)
            ==> resolve_plain_name(cx, env, name, span)->Ok_0 == cx.builtins@[i].ty,
{
    law_position(&env.type_names, name);
    lemma_builtin(&cx.builtins, name);
}

/// Whether a built-in type is the first of its name.
pub open spec fn first_builtin(items: Chain<BuiltinType>, at: int, name: Text) -> bool {
    &&& 0 <= at < items@.len()
    &&& items@[at].name == name
    &&& forall|i: int| 0 <= i < at ==> items@[i].name != name
}

proof fn lemma_builtin(items: &Chain<BuiltinType>, name: &Text)
    ensures
        forall|i: int| #[trigger] first_builtin(*items, i, *name) ==> find_builtin(items, name) == Some(&items@[i].ty),
    decreases items,
{
    if let Chain::Cons(head, tail) = items {
        lemma_builtin(tail, name);
        assert(items@[0] == **head);
        assert forall|i: int| #[trigger] first_builtin(*items, i, *name) implies find_builtin(items, name) == Some(&items@[i].ty) by {
            if i > 0 {
                assert(items@[0].name != *name);
                assert forall|j: int| 0 <= j < i - 1 implies tail@[j].name != *name by {
                    assert(items@[j + 1] == tail@[j]);
                }
                assert(items@[i] == tail@[i - 1]);
                assert(first_builtin(**tail, i - 1, *name));
            }
        }
    }
}

/// Whether types are what written types resolve to, each by itself.
pub open spec fn as_many(written: Chain<TypeExpr>, found: Chain<Ty>) -> bool {
    found@.len() == written@.len()
}

/// As many types come out of resolution as were written.
pub proof fn law_resolve_types(cx: &Ctx, env: &TyEnv, st: Decl, items: &Chain<TypeExpr>)
    ensures
        resolve_types(cx, env, st, items).1 matches Ok(found) ==> as_many(*items, found),
    decreases items,
{
    if let Chain::Cons(head, tail) = items {
        let (next, _first) = resolve_type(cx, env, st, head);
        law_resolve_types(cx, env, next, tail);
    }
}

/// A class takes as many type arguments as it has type parameters.
pub proof fn law_class_apply(cx: &Ctx, env: &TyEnv, st: Decl, name: &Text, args: &Chain<TypeExpr>, span: Span)
    requires
        args@.len() <= u32::MAX,
        resolve_class_apply(cx, env, st, name, args, span).1 is Ok,
    ensures
        lookup_type(cx, name, env) matches Some(class) && meta_at(cx, class).type_params == args@.len()
            && resolve_types(cx, env, st, args).1 is Ok
            && resolve_class_apply(cx, env, st, name, args, span).1->Ok_0 == type_for_nominal(cx, class, resolve_types(cx, env, st, args).1->Ok_0),
{
    law_count(args);
}

/// Whether a type is of the kind that is written: a list for a list, a map
/// for a map, a tuple for a tuple, a function for a function with the same
/// changeable parameters.
pub open spec fn of_written_kind(ty: TypeExpr, found: Ty) -> bool {
    match ty.kind {
        TypeExprKind::Unit => found == Ty::Unit,
        TypeExprKind::Name(_) => true,
        TypeExprKind::Apply(name, args) => {
            &&& name@ == "List"@ ==> found is ListOf && args@.len() == 1
            &&& name@ == "Map"@ ==> found is MapOf && args@.len() == 2
            &&& name@ == "Handle"@ ==> found is Handle && args@.len() == 2
            &&& name@ == "Run"@ ==> found is Run && args@.len() == 1
            &&& name@ == "Wait"@ ==> found is Wait && args@.len() == 1
            &&& name@ == "RunSnapshot"@ ==> found is RunSnapshot && args@.len() == 1
            &&& name@ != "Vm"@
        },
        TypeExprKind::ListShort(_) => found is ListOf,
        TypeExprKind::MapShort(_, _) => found is MapOf,
        TypeExprKind::Tuple(elements) => found matches Ty::Tuple(items) && items@.len() == elements@.len(),
        TypeExprKind::Fn(params, muts, _, _) => found matches Ty::Fn(found_params, found_muts, _, _) && found_params@.len() == params@.len() && found_muts == muts,
    }
}

/// A written type resolves to a type of its kind.
pub proof fn law_resolve_type(cx: &Ctx, env: &TyEnv, st: Decl, ty: &TypeExpr)
    requires
        resolve_type(cx, env, st, ty).1 is Ok,
    ensures
        of_written_kind(*ty, resolve_type(cx, env, st, ty).1->Ok_0),
{
    reveal_with_fuel(resolve_type, 4);
    reveal_with_fuel(resolve_apply, 4);
    reveal_with_fuel(resolve_one, 4);
    reveal_with_fuel(resolve_two, 4);
    match &ty.kind {
        TypeExprKind::Tuple(elements) => law_resolve_types(cx, env, st, elements),
        TypeExprKind::Fn(params, _, _, _) => law_resolve_types(cx, env, st, params),
        TypeExprKind::Apply(name, args) => {
            reveal_strlit("List");
            reveal_strlit("Map");
            reveal_strlit("Handle");
            reveal_strlit("Run");
            reveal_strlit("Wait");
            reveal_strlit("RunSnapshot");
            reveal_strlit("Vm");
            assert("List"@.len() == 4 && "Map"@.len() == 3 && "Run"@.len() == 3 && "Wait"@.len() == 4 && "Handle"@.len() == 6 && "RunSnapshot"@.len() == 11);
            assert("Map"@[0] == 'M' && "Run"@[0] == 'R' && "List"@[0] == 'L' && "Wait"@[0] == 'W');
            lemma_length(args);
        },
        _ => {},
    }
}

proof fn lemma_length<T>(items: &Chain<T>)
    ensures
        items matches Chain::Cons(_, tail) ==> (**tail is Nil ==> items@.len() == 1),
        items matches Chain::Cons(_, tail) ==> (**tail matches Chain::Cons(_, more) ==> (*more is Nil ==> items@.len() == 2)),
{
    reveal_with_fuel(Chain::items, 4);
}

/// The parts of a written map and of a written function stand in their
/// places: the key before the value, the result beside the parameters.
pub proof fn law_resolve_parts(cx: &Ctx, env: &TyEnv, st: Decl, ty: &TypeExpr)
    requires
        resolve_type(cx, env, st, ty).1 is Ok,
    ensures
        ty.kind matches TypeExprKind::ListShort(element) ==> (resolve_type(cx, env, st, &*element).1 matches Ok(found)
            && resolve_type(cx, env, st, ty).1->Ok_0 == Ty::ListOf(Box::new(found))),
        ty.kind matches TypeExprKind::MapShort(key, value) ==> (resolve_type(cx, env, st, &*key).1 matches Ok(found)
            && check_key_type(cx, env, resolve_type(cx, env, st, &*key).0, &found, key.span).1 is Ok
            && (resolve_type(cx, env, st, ty).1->Ok_0 matches Ty::MapOf(first, second) && *first == found
            && resolve_type(cx, env, check_key_type(cx, env, resolve_type(cx, env, st, &*key).0, &found, key.span).0, &*value).1 == Ok::<Ty, Stop>(*second))),
        ty.kind matches TypeExprKind::Fn(params, muts, ret, row) ==> (resolve_type(cx, env, st, ty).1->Ok_0 matches Ty::Fn(found_params, _, found_ret, found_row)
            && resolve_types(cx, env, st, &params).1 == Ok::<Chain<Ty>, Stop>(found_params)
            && resolve_type(cx, env, resolve_types(cx, env, st, &params).0, &*ret).1 == Ok::<Ty, Stop>(*found_ret)
            && resolve_row(cx, env, &row) == Ok::<Row, Stop>(found_row)),
{
    reveal_with_fuel(resolve_type, 2);
}

/// Whether the parameters of a callable are those that are written: the
/// same names, each once, with the same rights.
pub open spec fn keeps_parameters(written: Chain<Param>, found: Params) -> bool {
    &&& found.types@.len() == written@.len()
    &&& found.muts@.len() == written@.len()
    &&& found.names@.len() == written@.len()
    &&& found.names@.no_duplicates()
    &&& forall|i: int| 0 <= i < written@.len() ==> keeps_parameter(#[trigger] written@[i], found.names@[i], found.muts@[i], found.types@[i])
}

/// Whether one parameter is the written one: only a function can escape,
/// and one that does not is a callback.
pub open spec fn keeps_parameter(written: Param, name: Text, mutable: bool, ty: Ty) -> bool {
    &&& name == written.name
    &&& mutable == written.mutable
    &&& written.escaping ==> ty is Fn
    &&& !written.escaping ==> !(ty is Fn)
}

proof fn lemma_params(cx: &Ctx, env: &TyEnv, st: Decl, params: &Chain<Param>, seen: Chain<Text>)
    requires
        resolve_params_after(cx, env, st, params, seen).1 is Ok,
    ensures
        keeps_parameters(*params, resolve_params_after(cx, env, st, params, seen).1->Ok_0),
        forall|i: int| 0 <= i < params@.len() ==> !seen@.contains((#[trigger] params@[i]).name),
    decreases params,
{
    if let Chain::Cons(head, tail) = params {
        let found = resolve_params_after(cx, env, st, params, seen).1->Ok_0;
        law_holds_name(&seen, &head.name);
        let (next, ty) = resolve_param_type(cx, env, st, &**head);
        let more = cons(head.name, seen);
        lemma_params(cx, env, next, tail, more);
        let rest = resolve_params_after(cx, env, next, tail, more).1->Ok_0;
        assert(more@ =~= seq![head.name] + seen@);
        assert(params@ =~= seq![**head] + tail@);
        assert(found.names@ =~= seq![head.name] + rest.names@);
        assert(found.muts@ =~= seq![head.mutable] + rest.muts@);
        assert(found.types@ =~= seq![ty->Ok_0] + rest.types@);
        assert forall|i: int| 0 <= i < params@.len() implies keeps_parameter(#[trigger] params@[i], found.names@[i], found.muts@[i], found.types@[i]) by {
            if i > 0 {
                assert(params@[i] == tail@[i - 1]);
            }
        }
        assert forall|i: int| 0 <= i < params@.len() implies !seen@.contains((#[trigger] params@[i]).name) by {
            if i > 0 {
                assert(params@[i] == tail@[i - 1]);
                if seen@.contains(params@[i].name) {
                    let j = seen@.index_of(params@[i].name);
                    assert(more@[j + 1] == params@[i].name);
                }
            }
        }
        assert forall|i: int, j: int| 0 <= i < j < found.names@.len() implies found.names@[i] != found.names@[j] by {
            assert(keeps_parameter(params@[j], found.names@[j], found.muts@[j], found.types@[j]));
            if i == 0 {
                assert(params@[j] == tail@[j - 1]);
                assert(more@[0] == head.name);
                assert(!more@.contains(tail@[j - 1].name));
            } else {
                assert(rest.names@[i - 1] != rest.names@[j - 1]);
            }
        }
    }
}

/// Resolution keeps the parameters of a callable.
pub proof fn law_parameters(cx: &Ctx, env: &TyEnv, st: Decl, params: &Chain<Param>)
    requires
        resolve_parameters(cx, env, st, params).1 is Ok,
    ensures
        keeps_parameters(*params, resolve_parameters(cx, env, st, params).1->Ok_0),
{
    lemma_params(cx, env, st, params, Chain::Nil);
}

/// Whether a signature is the written one.
pub open spec fn keeps_signature(cx: &Ctx, env: &TyEnv, params: Chain<Param>, ret: Option<TypeExpr>, row: Chain<RowItem>, sig: FnSig) -> bool {
    &&& keeps_parameters(params, Params { types: sig.params, muts: sig.param_muts, names: sig.param_names })
    &&& ret is None ==> sig.ret == Ty::Unit
    &&& ret matches Some(ty) ==> of_written_kind(ty, sig.ret)
    &&& resolve_row(cx, env, &row) == Ok::<Row, Stop>(sig.row)
    &&& sig.type_params == env.type_names
    &&& sig.type_bounds == env.type_bounds
    &&& sig.effect_params == env.effect_names
}

/// Resolution keeps a signature: its parameters, its result and its row.
pub proof fn law_resolve_sig(cx: &Ctx, env: &TyEnv, st: Decl, params: &Chain<Param>, ret: &Option<TypeExpr>, row: &Chain<RowItem>)
    requires
        resolve_sig(cx, env, st, params, ret, row).1 is Ok,
    ensures
        keeps_signature(cx, env, *params, *ret, *row, resolve_sig(cx, env, st, params, ret, row).1->Ok_0),
{
    law_parameters(cx, env, st, params);
    let next = resolve_parameters(cx, env, st, params).0;
    if let Some(ty) = ret {
        law_resolve_type(cx, env, next, ty);
    }
}

/// An interface takes as many type arguments as it has type parameters, and
/// no effect argument or as many as it has effect parameters; the missing
/// ones are empty rows.
pub proof fn law_interface_use(cx: &Ctx, env: &TyEnv, st: Decl, reference: &InterfaceRef)
    requires
        resolve_interface_use(cx, env, st, reference).1 is Ok,
    ensures
        lookup_interface(cx, &reference.name, env) == Some(resolve_interface_use(cx, env, st, reference).1->Ok_0.interface),
        resolve_interface_use(cx, env, st, reference).1->Ok_0.type_args@.len() == reference.type_args@.len(),
        reference.type_args@.len() <= u32::MAX ==> reference.type_args@.len() == count_types(&interface_at(cx, resolve_interface_use(cx, env, st, reference).1->Ok_0.interface).generic_is_effect),
        reference.row_args@.len() == 0 ==> resolve_interface_use(cx, env, st, reference).1->Ok_0.row_args@.len()
            == count_effects(&interface_at(cx, resolve_interface_use(cx, env, st, reference).1->Ok_0.interface).generic_is_effect),
        reference.row_args@.len() > 0 ==> resolve_interface_use(cx, env, st, reference).1->Ok_0.row_args@.len() == reference.row_args@.len(),
{
    law_count(&reference.type_args);
    law_resolve_types(cx, env, st, &reference.type_args);
    lemma_row_args(cx, env, &reference.row_args);
    let interface = lookup_interface(cx, &reference.name, env)->0;
    lemma_empty_rows(count_effects(&interface_at(cx, interface).generic_is_effect));
}

proof fn lemma_row_args(cx: &Ctx, env: &TyEnv, items: &Chain<RowArg>)
    ensures
        resolve_row_args(cx, env, items) matches Ok(rows) ==> rows@.len() == items@.len(),
    decreases items,
{
    if let Chain::Cons(_, tail) = items {
        lemma_row_args(cx, env, tail);
    }
}

proof fn lemma_empty_rows(total: u32)
    ensures
        empty_rows(total)@.len() == total,
    decreases total,
{
    if total > 0 {
        lemma_empty_rows((total - 1) as u32);
    }
}

/// The bounds of a parameter name each interface once, in the written
/// order.
pub proof fn law_interface_bounds(cx: &Ctx, env: &TyEnv, st: Decl, references: &Chain<InterfaceRef>)
    requires
        resolve_interface_bounds(cx, env, st, references).1 is Ok,
    ensures
        resolve_interface_bounds(cx, env, st, references).1->Ok_0@.len() == references@.len(),
        each_once(resolve_interface_bounds(cx, env, st, references).1->Ok_0),
        forall|i: int| 0 <= i < references@.len() ==> lookup_interface(cx, &(#[trigger] references@[i]).name, env) == Some(resolve_interface_bounds(cx, env, st, references).1->Ok_0@[i].interface),
{
    lemma_bounds(cx, env, st, references, Chain::Nil);
}

/// Whether no two bounds are of one interface.
pub open spec fn each_once(bounds: Chain<InterfaceUse>) -> bool {
    forall|i: int, j: int| 0 <= i < j < bounds@.len() ==> (#[trigger] bounds@[i]).interface != (#[trigger] bounds@[j]).interface
}

proof fn lemma_find_bound(bounds: &Chain<InterfaceUse>, interface: u32)
    ensures
        find_bound(bounds, interface) is None ==> forall|i: int| 0 <= i < bounds@.len() ==> (#[trigger] bounds@[i]).interface != interface,
    decreases bounds,
{
    if let Chain::Cons(_, tail) = bounds {
        lemma_find_bound(tail, interface);
        if find_bound(bounds, interface) is None {
            assert forall|i: int| 0 <= i < bounds@.len() implies (#[trigger] bounds@[i]).interface != interface by {
                if i > 0 {
                    assert(bounds@[i] == tail@[i - 1]);
                }
            }
        }
    }
}

proof fn lemma_bounds(cx: &Ctx, env: &TyEnv, st: Decl, references: &Chain<InterfaceRef>, bounds: Chain<InterfaceUse>)
    requires
        each_once(bounds),
        resolve_bounds_after(cx, env, st, references, bounds).1 is Ok,
    ensures
        each_once(resolve_bounds_after(cx, env, st, references, bounds).1->Ok_0),
        resolve_bounds_after(cx, env, st, references, bounds).1->Ok_0@.len() == bounds@.len() + references@.len(),
        forall|i: int| 0 <= i < bounds@.len() ==> resolve_bounds_after(cx, env, st, references, bounds).1->Ok_0@[i] == #[trigger] bounds@[i],
        forall|i: int| 0 <= i < references@.len() ==> lookup_interface(cx, &(#[trigger] references@[i]).name, env) == Some(resolve_bounds_after(cx, env, st, references, bounds).1->Ok_0@[bounds@.len() + i].interface),
    decreases references,
{
    if let Chain::Cons(head, tail) = references {
        let (next, found) = resolve_interface_use(cx, env, st, &**head);
        let application = found->Ok_0;
        law_interface_use(cx, env, st, &**head);
        lemma_find_bound(&bounds, application.interface);
        law_append(bounds, application);
        let more = append(bounds, application);
        lemma_bounds(cx, env, next, tail, more);
        let done = resolve_bounds_after(cx, env, st, references, bounds).1->Ok_0;
        assert(more@[bounds@.len() as int] == application);
        assert forall|i: int| 0 <= i < bounds@.len() implies done@[i] == #[trigger] bounds@[i] by {
            assert(more@[i] == bounds@[i]);
        }
        assert forall|i: int| 0 <= i < references@.len() implies lookup_interface(cx, &(#[trigger] references@[i]).name, env) == Some(done@[bounds@.len() + i].interface) by {
            if i > 0 {
                assert(references@[i] == tail@[i - 1]);
            } else {
                assert(done@[bounds@.len() as int] == more@[bounds@.len() as int]);
            }
        }
    }
}

} // verus!
