//! What a loop walks, what its breaks leave, and what calls build.

use vstd::prelude::*;
use crate::ast::{BinOp, Span, TypeExpr};
use crate::chain::{Chain, chain_of};
use crate::context::{ClassKind, Ctx, TyEnv};
use crate::hir::{HExpr, HForKind, HKind, HStmt};
use crate::laws::conformance::{is_bound_method, law_bound_method_in};
use crate::laws::lists::{law_append, law_count, law_nth};
use crate::laws::operators::lemma_two;
use crate::model::answers::compatible;
use crate::model::blocks::{add_gap, check_bare_break, check_item, item_pair, iterate_list, iterate_map, option_item, record_break};
use crate::model::calls::{call_zero_method, check_key_now, check_map_key, constructed_type, resolve_all_now, resolve_builder, resolve_declared, resolve_now};
use crate::model::conform::{associated_bounds, bound_method, copied_bounds, instantiate_interface_method, premise_bounds, variable_bounds};
use crate::model::endings::never_completes;
use crate::model::exprs::{field_inited, tuple_equality};
use crate::model::infer::elements_comparable;
use crate::model::lists::{concat, count, two};
use crate::model::lookup::{class_at, class_of, interface_at, lookup_type, nominal_class};
use crate::model::scope::{add_local, hidden_local, module_func};
use crate::model::subst::contains_var;
use crate::problem::{Diag, Stop};
use crate::state::{BranchType, Callee, Checker, LocalVar, LoopMode};
use crate::text::Text;
use crate::types::Ty;

verus! {

/// A break is recorded where it completes and its loop has a value; the
/// record is its type, behind those of the breaks before it.
pub proof fn law_record_break(st: Checker, mode: &LoopMode, value: Option<HExpr>, span: Span)
    ensures
        record_break(st, mode, value, span).1 == HStmt::Break(value),
        *mode is UnitOnly || (value matches Some(found) && never_completes(&found)) ==> record_break(st, mode, value, span).0 == st,
        !(*mode is UnitOnly) && (value matches Some(found) ==> !never_completes(&found)) && st.loops is Cons ==> (record_break(st, mode, value, span).0.loops matches Chain::Cons(after, rest)
            && (st.loops matches Chain::Cons(before, outer) && rest == outer && after.breaks@ == before.breaks@.push(
            BranchType {
                ty: (match value {
                    Some(found) => found.ty,
                    None => Ty::Unit,
                }),
                mutable: (match value {
                    Some(found) => found.mutable,
                    None => true,
                }),
                span: span,
            },
        ) && after.mode == before.mode && after.gap == before.gap && after.walked == before.walked)),
{
    if let Chain::Cons(head, _) = st.loops {
        let unit = BranchType { ty: Ty::Unit, mutable: true, span: span };
        law_append(head.breaks, unit);
        if let Some(found) = value {
            law_append(head.breaks, BranchType { ty: found.ty, mutable: found.mutable, span: span });
        }
    }
}

/// A break without a value leaves a loop of units, or one whose value
/// nothing fixes.
pub proof fn law_bare_break(st: Checker, mode: LoopMode, span: Span)
    ensures
        check_bare_break(st, mode, span).1 is Ok <==> (mode matches LoopMode::Value(ty) ==> ty == Ty::Unit),
        check_bare_break(st, mode, span).1 matches Ok(found) ==> found == HStmt::Break(None),
{
    law_record_break(st, &mode, None, span);
}

/// The first break that a sibling must decide is kept.
pub proof fn law_add_gap(st: Checker, diag: Diag)
    ensures
        st.loops matches Chain::Cons(before, outer) ==> (add_gap(st, diag).loops matches Chain::Cons(after, rest) && rest == outer && after.gap == (if before.gap is Some {
            before.gap
        } else {
            Some(diag)
        }) && after.breaks == before.breaks && after.mode == before.mode),
{
}

/// A walked list gives its elements, a walked map its keys and values; a
/// binding changes them where the source can be changed.
pub proof fn law_iterate(st: Checker, source: &HExpr, key: &Ty, value: &Ty, bindings: u32)
    ensures
        iterate_list(st, source, value).1.types@ == seq![*value],
        iterate_list(st, source, value).1.mutable == source.mutable,
        iterate_list(st, source, value).1.kind matches HForKind::List { source_slot, index_slot, epoch_slot, element } && element == *value && (st.locals@.len() + 3 <= u32::MAX
            ==> source_slot != index_slot && index_slot != epoch_slot && source_slot != epoch_slot),
        bindings == 2 ==> iterate_map(st, source, key, value, bindings).1.types@ == seq![*key, *value],
        bindings != 2 ==> iterate_map(st, source, key, value, bindings).1.types@ == seq![Ty::Tuple(two(*key, *value))],
        iterate_map(st, source, key, value, bindings).1.mutable == source.mutable,
        iterate_map(st, source, key, value, bindings).1.kind matches HForKind::Entries { source_slot, index_slot, epoch_slot, key: first, value: second, .. } && first == *key && second == *value && (
        st.locals@.len() + 3 <= u32::MAX ==> source_slot != index_slot && index_slot != epoch_slot && source_slot != epoch_slot),
{
    lemma_two(*key, *value);
    lemma_two(*value, *key);
    lemma_two(Ty::Tuple(two(*key, *value)), *key);
    let (a, first) = hidden_local(st, source.ty, source.mutable);
    let (b, second) = hidden_local(a, Ty::Int, true);
    lemma_hidden(st, source.ty, source.mutable);
    lemma_hidden(a, Ty::Int, true);
    lemma_hidden(b, Ty::Int, true);
}

proof fn lemma_hidden(st: Checker, ty: Ty, mutable: bool)
    ensures
        st.locals@.len() < u32::MAX ==> hidden_local(st, ty, mutable).1 == st.locals@.len() && hidden_local(st, ty, mutable).0.locals@.len() == st.locals@.len() + 1,
{
    law_count(&st.locals);
    lemma_locals(st, ty, mutable);
}

proof fn lemma_locals(st: Checker, ty: Ty, mutable: bool)
    ensures
        add_local(st, ty, mutable).locals@.len() == st.locals@.len() + 1,
{
    law_append(st.locals, LocalVar { ty: ty, mutable: mutable });
}

/// Two bindings of a loop take the two parts of a pair.
pub proof fn law_item_pair(item: &Ty, span: Span)
    ensures
        item_pair(item, span) matches Ok(parts) ==> *item == Ty::Tuple(parts) && (parts@.len() <= u32::MAX ==> parts@.len() == 2),
        *item matches Ty::Tuple(parts) ==> (parts@.len() == 2 ==> item_pair(item, span) == Ok::<Chain<Ty>, Stop>(parts)),
{
    if let Ty::Tuple(parts) = item {
        law_count(parts);
    }
}

/// The item of an option is its one argument.
pub proof fn law_option_item(cx: &Ctx, ty: &Ty)
    ensures
        option_item(cx, ty) matches Some(item) ==> (nominal_class(cx, ty) matches Some(nominal) && nominal.class == cx.core.option_class && nominal.args@ == seq![item]),
{
    reveal_with_fuel(Chain::items, 3);
    if let Some(nominal) = nominal_class(cx, ty) {
        if let Chain::Cons(item, rest) = nominal.args {
            lemma_two(*item, *item);
        }
    }
}

/// Where a source names no variable, its items are those that it
/// promises.
pub proof fn law_check_item(cx: &Ctx, source: &Ty, item: &Ty, promised: &Ty, span: Span)
    requires
        check_item(cx, source, item, promised, span) is Ok,
        !contains_var(source),
    ensures
        compatible(cx, item, promised) == Ok::<bool, Stop>(true),
        compatible(cx, promised, item) == Ok::<bool, Stop>(true),
{
}

/// A builder has the types that it is written with, and the key of a map
/// can be one.
pub proof fn law_resolve_builder(cx: &Ctx, env: &TyEnv, name: &Text, name_span: Span, type_args: &Chain<TypeExpr>)
    ensures
        resolve_builder(cx, env, name, name_span, type_args) matches Ok(Some(callee)) ==> match callee {
            Callee::ListCtor(element) => name@ == "List"@ && count(type_args) == 1 && (type_args matches Chain::Cons(written, _) && (resolve_all_now(cx, env, type_args) matches Ok(found) && found@.len() > 0
                && found@[0] == element)),
            Callee::MapCtor(key, value) => name@ == "Map"@ && type_args@.len() == 2 && resolve_now(cx, env, &type_args@[0]) == Ok::<Ty, Stop>(key) && resolve_now(cx, env, &type_args@[1]) == Ok::<
                Ty,
                Stop,
            >(value) && check_key_now(cx, env, &key, type_args@[0].span) is Ok,
            _ => false,
        },
{
    reveal_with_fuel(Chain::items, 4);
    if let Chain::Cons(key, rest) = type_args {
        if let Chain::Cons(value, more) = &**rest {
            assert(type_args@[0] == **key);
            assert(type_args@[1] == **value);
        }
    }
}

/// A constructed arm has the type of its enum, unless a type was expected.
pub proof fn law_constructed_type(family: Option<u32>, expects: bool, targs: &Chain<Ty>, ret: Ty)
    ensures
        family is None || expects ==> constructed_type(family, expects, targs, ret) == ret,
        family matches Some(parent) ==> !expects ==> (constructed_type(family, expects, targs, ret) == Ty::Class(parent) <==> targs@.len() == 0) && (constructed_type(
            family,
            expects,
            targs,
            ret,
        ) == Ty::Inst(parent, *targs) <==> targs@.len() > 0),
{
}

/// The key of a constructed map can be one.
pub proof fn law_map_key(cx: &Ctx, env: &TyEnv, targs: &Chain<Ty>, type_args: &Chain<TypeExpr>, name_span: Span, span: Span)
    requires
        check_map_key(cx, env, targs, type_args, name_span, span) is Ok,
    ensures
        targs@.len() > 0,
        check_key_now(cx, env, &targs@[0], if type_args@.len() > 0 { type_args@[0].span } else { name_span }) is Ok,
{
}

/// A name that a module declares is called before a builder of the same
/// name; an enum is never constructed.
pub proof fn law_resolve_declared(cx: &Ctx, env: &TyEnv, name: &Text, name_span: Span, type_args: &Chain<TypeExpr>)
    ensures
        module_func(cx, env, name) matches Some(func) ==> resolve_declared(cx, env, name, name_span, type_args) == Ok::<Option<Callee>, Stop>(Some(Callee::Func(func))),
        resolve_declared(cx, env, name, name_span, type_args) matches Ok(Some(Callee::Class(class))) ==> lookup_type(cx, name, env) == Some(class) && class_at(cx, class).kind == ClassKind::Normal,
        resolve_declared(cx, env, name, name_span, type_args) matches Ok(Some(Callee::Func(func))) ==> module_func(cx, env, name) == Some(func),
{
    law_resolve_builder(cx, env, name, name_span, type_args);
}

/// A tuple equality compares sides of one type, whose elements compare.
pub proof fn law_tuple_equality(cx: &Ctx, op: BinOp, left: HExpr, right: HExpr, operand: Ty, span: Span)
    requires
        tuple_equality(cx, op, left, right, operand, span) is Ok,
    ensures
        left.ty == right.ty || left.ty == Ty::Never || right.ty == Ty::Never,
        operand matches Ty::Tuple(items) && elements_comparable(cx, &items) == Ok::<bool, Stop>(true),
        *tuple_equality(cx, op, left, right, operand, span)->Ok_0.kind == (HKind::Binary { op: op, operand_ty: operand, left: left, right: right }),
        tuple_equality(cx, op, left, right, operand, span)->Ok_0.ty == Ty::Bool,
{
}

/// Outside an initializer every field is assigned; inside one, those that
/// it has assigned.
pub proof fn law_field_inited(st: &Checker, field: u32)
    ensures
        st.ctor is None ==> field_inited(st, field),
        st.ctor matches Some(c) ==> (field_inited(st, field) <==> field < c.state.inited@.len() && c.state.inited@[field as int]),
{
    if let Some(c) = &st.ctor {
        law_nth(&c.state.inited, field);
    }
}

/// A method without arguments that an interface gives is reached through
/// a bound of the receiver, whose right it needs.
pub proof fn law_zero_method(cx: &Ctx, st: Checker, recv: HExpr, name: &str, span: Span)
    requires
        class_of(cx, &recv.ty) is None,
        call_zero_method(cx, st, recv, name, span).1 is Ok,
    ensures
        bound_method(cx, &st.env, &recv.ty, &chain_of(name@), span) matches Ok(Some(method)) && (*call_zero_method(cx, st, recv, name, span).1->Ok_0.kind matches HKind::InterfaceCall {
            recv: kept,
            interface,
            method: at,
            args,
            ..
        } && kept == recv && interface == method.interface && at == method.method && args@.len() == 0) && instantiate_interface_method(&recv.ty, &method.application, &method.sig).params@.len() == 0 && (
        instantiate_interface_method(&recv.ty, &method.application, &method.sig).mut_self ==> recv.mutable),
{
}

/// A method of a bound is one of an interface that bounds the type.
pub proof fn law_bound_method(cx: &Ctx, env: &TyEnv, ty: &Ty, name: &Text, span: Span)
    requires
        forall|interface: u32| (#[trigger] interface_at(cx, interface)).methods@.len() <= u32::MAX,
    ensures
        bound_method(cx, env, ty, name, span) matches Ok(Some(method)) ==> match *ty {
            Ty::Var(index) => index >= env.type_offset && is_bound_method(cx, concat(copied_bounds(variable_bounds(env, index)), premise_bounds(&env.extra_bounds, ty)), *name, method),
            Ty::Projection(_, interface, assoc) => is_bound_method(
                cx,
                concat(copied_bounds(associated_bounds(cx, interface, assoc)), premise_bounds(&env.extra_bounds, ty)),
                *name,
                method,
            ),
            _ => false,
        },
{
    match ty {
        Ty::Var(index) => {
            let all = concat(copied_bounds(variable_bounds(env, *index)), premise_bounds(&env.extra_bounds, ty));
            law_bound_method_in(cx, &all, None, name, span, all);
        },
        Ty::Projection(_, interface, assoc) => {
            let all = concat(copied_bounds(associated_bounds(cx, *interface, *assoc)), premise_bounds(&env.extra_bounds, ty));
            law_bound_method_in(cx, &all, None, name, span, all);
        },
        _ => {},
    }
}

} // verus!
