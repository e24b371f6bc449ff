//! Members of values: which one a name reaches, and with what.

use vstd::prelude::*;
use crate::ast::{Expr, ExprKind, MapEntry, Span, TypeExpr};
use crate::chain::{Chain, chain_of};
use crate::context::{Answer, BoundMethod, ClassKind, Ctx, MethodFound, Nominal, Query, TyEnv};
use crate::hir::{HExpr, HKind, NativeOp};
use crate::laws::arguments::{admitted, law_check_args_simple, law_poly_call};
use crate::laws::bodies::law_resolve_value;
use crate::laws::capabilities::{law_declared_method, law_interface_method};
use crate::laws::fitting::{arguments_fit, law_synth_each};
use crate::laws::lists::law_nth;
use crate::laws::machines::performs;
use crate::laws::manifest::law_frozen;
use crate::laws::operators::{comes_from, synthesis};
use crate::model::answers::recall;
use crate::model::calls::{check_declared_method, check_interface_method, check_key_now, check_poly_call, fixed_rows, method_signature, requirement_signature};
use crate::model::conform::{default_method, find_method_owner};
use crate::model::control::{check_file_method, check_native_method};
use crate::model::exprs::{check_class_method, ctor_field, field_ty_at, join_key, synth_expr, synth_keys, synth_list, synth_map, synth_tuple, types_of};
use crate::model::infer::{fixed_types, open_rows, open_types};
use crate::model::lists::{concat, cons, count, falses, find_id, nth, one, two};
use crate::model::lookup::{class_at, find_field, interface_at, lookup_type};
use crate::model::scope::{enum_qualifier, guard_argument, guard_walked, lookup_slot, module_func, sys_in_scope, use_binding, walked_values};
use crate::model::subst::contains_callback;
use crate::model::system::{file_op, list_method, map_method, native_method, op_reply};
use crate::model::uses::find_use;
use crate::problem::Stop;
use crate::state::{Checker, PolyOut, Signature, Solution};
use crate::text::Text;
use crate::types::Ty;

verus! {

/// Whether a call goes by a signature: its arguments are admitted, and its
/// type is the result that they give.
pub open spec fn goes_by(cx: &Ctx, sig: Signature, args: Chain<Expr>, given: Chain<HExpr>, ty: Ty) -> bool {
    exists|called: PolyOut| #[trigger] admitted(cx, sig, args, called) && called.args == given && called.ret == ty
}

/// A method call goes by the signature of the method: its arguments fit,
/// its type arguments conform, and its type is the result of the method.
pub proof fn law_method_call(
    cx: &Ctx,
    st: Checker,
    recv: HExpr,
    class: u32,
    class_args: &Chain<Ty>,
    found: MethodFound,
    name: &Text,
    name_span: Span,
    type_args: &Chain<TypeExpr>,
    args: &Chain<Expr>,
    expected: Option<&Ty>,
    span: Span,
)
    requires
        args@.len() <= u32::MAX,
        found.sig.params@.len() <= u32::MAX,
        check_declared_method(cx, st, recv, class, class_args, found, name, name_span, type_args, args, expected, span).1 is Ok,
    ensures
        ({
            let call = check_declared_method(cx, st, recv, class, class_args, found, name, name_span, type_args, args, expected, span).1->Ok_0;
            match *call.kind {
                HKind::Call { args: handed, .. } => handed matches Chain::Cons(_, given) && goes_by(cx, method_signature(&class_at(cx, class).type_params, &found.sig), *args, *given, call.ty),
                HKind::MethodCall { args: given, .. } => goes_by(cx, method_signature(&class_at(cx, class).type_params, &found.sig), *args, given, call.ty),
                _ => false,
            }
        }),
{
    let info = class_at(cx, class);
    let sig = method_signature(&info.type_params, &found.sig);
    let own_start = count(&info.type_params);
    let pre = Solution { types: concat(fixed_types(class_args), open_types(&found.sig.own_type_params)), rows: open_rows(sig.effects) };
    law_poly_call(cx, st, name, &sig, pre, own_start, type_args, args, expected, span);
    let called = check_poly_call(cx, st, name, &sig, pre, own_start, type_args, args, expected, span).1->Ok_0;
    assert(admitted(cx, sig, *args, called));
}

/// A call through an interface goes by the signature of the requirement.
pub proof fn law_interface_call(
    cx: &Ctx,
    st: Checker,
    recv: HExpr,
    bound: BoundMethod,
    name: &Text,
    name_span: Span,
    type_args: &Chain<TypeExpr>,
    args: &Chain<Expr>,
    expected: Option<&Ty>,
    span: Span,
)
    requires
        args@.len() <= u32::MAX,
        nth(&interface_at(cx, bound.interface).methods, bound.method) matches Some(requirement) && requirement.params@.len() <= u32::MAX,
        check_interface_method(cx, st, recv, bound, name, name_span, type_args, args, expected, span).1 is Ok,
    ensures
        ({
            let call = check_interface_method(cx, st, recv, bound, name, name_span, type_args, args, expected, span).1->Ok_0;
            let requirement = *nth(&interface_at(cx, bound.interface).methods, bound.method)->0;
            *call.kind matches HKind::InterfaceCall { args: given, .. } && exists|ret: Ty| #[trigger] goes_by(
                cx,
                requirement_signature(interface_at(cx, bound.interface), &requirement),
                *args,
                given,
                ret,
            )
        }),
{
    let info = interface_at(cx, bound.interface);
    let requirement = *nth(&info.methods, bound.method)->0;
    let sig = requirement_signature(info, &requirement);
    let own_start = count(&info.type_params).wrapping_add(1);
    let pre = Solution {
        types: cons(Some(recv.ty), concat(fixed_types(&bound.application.type_args), open_types(&requirement.own_type_params))),
        rows: concat(fixed_rows(&bound.application.row_args), open_rows(count(&requirement.own_effect_params))),
    };
    law_poly_call(cx, st, name, &sig, pre, own_start, type_args, args, expected, span);
    let called = check_poly_call(cx, st, name, &sig, pre, own_start, type_args, args, expected, span).1->Ok_0;
    assert(admitted(cx, sig, *args, called));
    assert(goes_by(cx, sig, *args, called.args, called.ret));
}

/// A method that the class of a value has, or inherits, answers before any
/// default of an interface.
pub proof fn law_class_method(
    cx: &Ctx,
    st: Checker,
    recv: HExpr,
    nominal: Nominal,
    name: &Text,
    name_span: Span,
    type_args: &Chain<TypeExpr>,
    args: &Chain<Expr>,
    expected: Option<&Ty>,
    span: Span,
)
    requires
        check_class_method(cx, st, recv, nominal, name, name_span, type_args, args, expected, span).1 is Ok,
    ensures
        find_method_owner(cx, nominal.class, name) matches Some(found) ==> (found.sig.mut_self ==> recv.mutable) && match *check_class_method(
            cx,
            st,
            recv,
            nominal,
            name,
            name_span,
            type_args,
            args,
            expected,
            span,
        ).1->Ok_0.kind {
            HKind::Call { func, args: handed, .. } => func == found.sig.func && handed@.len() > 0 && handed@[0] == recv,
            HKind::MethodCall { recv: kept, selector, .. } => kept == recv && selector == *name,
            _ => false,
        },
        find_method_owner(cx, nominal.class, name) is None ==> match *check_class_method(cx, st, recv, nominal, name, name_span, type_args, args, expected, span).1->Ok_0.kind {
            HKind::InterfaceCall { recv: kept, selector, .. } => kept == recv && selector == *name,
            HKind::Native { op, args: handed } => handed@ == seq![recv] && args@.len() == 0 && ((op == NativeOp::Freeze && name@ == "freeze"@) || (op == NativeOp::Digest && name@ == "digest"@)),
            _ => false,
        },
{
    match find_method_owner(cx, nominal.class, name) {
        Some(found) => law_declared_method(cx, st, recv, nominal.class, &nominal.args, found, name, name_span, type_args, args, expected, span),
        None => {
            law_frozen(recv);
            if let Ok(Some(method)) = default_method(cx, &st.env, &recv.ty, name, name_span) {
                law_interface_method(cx, st, recv, method, name, name_span, type_args, args, expected, span);
            }
        },
    }
}

/// A method of a list is one of these; only adding an element changes the
/// list.
pub proof fn law_list_method(cx: &Ctx, item: &Ty, name: &Text)
    ensures
        list_method(cx, item, name) matches Some(found) ==> {
            &&& found.needs_mut <==> name@ == "push"@
            &&& name@ == "push"@ ==> found.op == NativeOp::ListPush && found.params@ == seq![*item] && found.ret == Ty::Unit
            &&& name@ == "at"@ ==> found.op == NativeOp::ListAt && found.params@ == seq![Ty::Int] && found.ret == *item
            &&& name@ == "get"@ ==> found.op == NativeOp::ListGet && found.params@ == seq![Ty::Int]
            &&& name@ == "len"@ ==> found.op == NativeOp::ListLen && found.params@.len() == 0 && found.ret == Ty::Int
        },
{
    reveal_with_fuel(Chain::items, 3);
    reveal_strlit("push");
    reveal_strlit("at");
    reveal_strlit("get");
    reveal_strlit("len");
    assert("push"@.len() == 4 && "at"@.len() == 2 && "get"@.len() == 3 && "len"@.len() == 3);
    assert("get"@[0] == 'g' && "len"@[0] == 'l');
    assert(one(*item)@ =~= seq![*item]);
    assert(one(Ty::Int)@ =~= seq![Ty::Int]);
}

/// A method of a map is one of these; only setting an entry changes the
/// map.
pub proof fn law_map_method(cx: &Ctx, key: Ty, value: &Ty, name: &Text)
    ensures
        map_method(cx, key, value, name) matches Some(found) ==> {
            &&& found.needs_mut <==> name@ == "put"@
            &&& name@ == "put"@ ==> found.op == NativeOp::MapPut && found.params@ == seq![key, *value] && found.ret == Ty::Unit
            &&& name@ == "at"@ ==> found.op == NativeOp::MapAt && found.params@ == seq![key] && found.ret == *value
            &&& name@ == "get"@ ==> found.op == NativeOp::MapGet && found.params@ == seq![key]
            &&& name@ == "has"@ ==> found.op == NativeOp::MapHas && found.params@ == seq![key] && found.ret == Ty::Bool
        },
{
    reveal_with_fuel(Chain::items, 4);
    reveal_strlit("put");
    reveal_strlit("at");
    reveal_strlit("get");
    reveal_strlit("has");
    assert("put"@.len() == 3 && "at"@.len() == 2 && "get"@.len() == 3 && "has"@.len() == 3);
    assert("get"@[0] == 'g' && "put"@[0] == 'p' && "has"@[0] == 'h');
    assert(one(key)@ =~= seq![key]);
    assert(two(key, *value)@ =~= seq![key, *value]);
}

/// The arguments of a native method fit its parameters.
pub proof fn law_native_arguments(cx: &Ctx, st: Checker, recv: HExpr, name: &Text, name_span: Span, args: &Chain<Expr>, span: Span)
    requires
        recv.ty != Ty::FileHandle,
        native_method(cx, &recv.ty, name) matches Ok(Some(native)) && native.params@.len() <= u32::MAX,
        args@.len() <= u32::MAX,
        check_native_method(cx, st, recv, name, name_span, args, span).1 is Ok,
    ensures
        args@.len() == native_method(cx, &recv.ty, name)->Ok_0->Some_0.params@.len(),
        *check_native_method(cx, st, recv, name, name_span, args, span).1->Ok_0.kind matches HKind::Native { args: handed, .. } && (handed matches Chain::Cons(_, given) && arguments_fit(
            cx,
            native_method(cx, &recv.ty, name)->Ok_0->Some_0.params@,
            given@,
        )),
{
    let native = native_method(cx, &recv.ty, name)->Ok_0->Some_0;
    law_check_args_simple(cx, st, args, &native.params, &falses(&native.params), &native.names, name, span);
}

/// A method of a file performs the file operation of its name, with the
/// file first.
pub proof fn law_file_method(cx: &Ctx, st: Checker, recv: HExpr, name: &Text, name_span: Span, args: &Chain<Expr>, span: Span)
    requires
        check_file_method(cx, st, recv, name, name_span, args, span).1 is Ok,
    ensures
        file_op(cx.bundle.slots, name) matches Some(op) && performs(check_file_method(cx, st, recv, name, name_span, args, span).1->Ok_0, op, recv, op_reply(cx, op, span)->Ok_0),
        name@ == "read"@ ==> file_op(cx.bundle.slots, name) == Some(cx.bundle.slots.fs_read),
        name@ == "write"@ ==> file_op(cx.bundle.slots, name) == Some(cx.bundle.slots.fs_write),
        name@ == "close"@ ==> file_op(cx.bundle.slots, name) == Some(cx.bundle.slots.fs_close),
{
    reveal_strlit("read");
    reveal_strlit("write");
    reveal_strlit("seek");
    reveal_strlit("flush");
    reveal_strlit("close");
    assert("read"@.len() == 4 && "write"@.len() == 5 && "seek"@.len() == 4 && "flush"@.len() == 5 && "close"@.len() == 5);
    assert("read"@[0] == 'r' && "write"@[0] == 'w' && "seek"@[0] == 's' && "flush"@[0] == 'f' && "close"@[0] == 'c');
}

/// An initializer reads a field of `self` only once it is set.
pub proof fn law_ctor_field(cx: &Ctx, st: &Checker, class: u32, name: &Text, span: Span)
    ensures
        ctor_field(cx, st, class, name, span) matches Ok(found) ==> (find_field(cx, class, name) matches Some(field) && (st.ctor matches Some(c) ==> field < c.state.inited@.len()
            && c.state.inited@[field as int]) && (*found.kind matches HKind::FieldGet { recv, field: read } && *recv.kind == HKind::Local(0) && read == field) && found.ty == field_ty_at(
            cx,
            class,
            field,
        )),
{
    if let Some(field) = find_field(cx, class, name) {
        if let Some(c) = st.ctor {
            law_nth(&c.state.inited, field);
        }
    }
}

/// A qualifier names an enum that no local and no function hides.
pub proof fn law_enum_qualifier(cx: &Ctx, st: &Checker, recv: &Expr)
    ensures
        enum_qualifier(cx, st, recv) matches Some(family) ==> class_at(cx, family).kind == ClassKind::EnumParent && (*recv.kind matches ExprKind::Name(name) && lookup_slot(st, &name) is None
            && module_func(cx, &st.env, &name) is None && lookup_type(cx, &name, &st.env) == Some(family)),
{
}

/// A `use` line is read only where nothing of the module has the name.
pub proof fn law_use_binding(cx: &Ctx, st: Checker, name: &Text)
    ensures
        use_binding(cx, st, name).1 matches Ok(Some(binding)) ==> {
            &&& !st.env.core_scope
            &&& lookup_slot(&st, name) is None
            &&& find_id(&cx.func_index, name) is None
            &&& lookup_type(cx, name, &use_binding(cx, st, name).0.env) is None
            &&& find_use(&cx.uses, name) == Some(&binding)
        },
{
}

/// The operation root is hidden by a local of its name.
pub proof fn law_sys_in_scope(st: Checker)
    ensures
        lookup_slot(&st, &chain_of("sys"@)) is Some ==> sys_in_scope(st).1 == Ok::<bool, Stop>(false),
        lookup_slot(&st, &chain_of("sys"@)) is None && !st.is_closure ==> sys_in_scope(st).1 == Ok::<bool, Stop>(true),
{
    law_resolve_value(st, &chain_of("sys"@));
}

/// A value that a loop walks is changed inside the loop only where that is
/// known to leave the walk as it is.
pub proof fn law_guard_walked(cx: &Ctx, st: &Checker, value: &HExpr, span: Span)
    ensures
        guard_walked(cx, st, value, span) is Ok ==> walked_values(&st.loops)@.len() == 0 || recall(&cx.answers, &Query::Changes(walked_values(&st.loops), *value)) == Some(&Answer::No),
        forall|mutable: bool| mutable ==> #[trigger] guard_argument(cx, st, value, mutable, span) == guard_walked(cx, st, value, span),
{
}

/// A tuple literal holds no callback, and has the types of its elements.
pub proof fn law_tuple_literal(cx: &Ctx, st: Checker, items: &Chain<Expr>, span: Span)
    requires
        synth_tuple(cx, st, items, span).1 is Ok,
    ensures
        !contains_callback(&synth_tuple(cx, st, items, span).1->Ok_0.ty),
        *synth_tuple(cx, st, items, span).1->Ok_0.kind matches HKind::TupleLit(found) && found@.len() == items@.len() && synth_tuple(cx, st, items, span).1->Ok_0.ty == Ty::Tuple(types_of(&found)),
{
    law_synth_each(cx, st, items);
}

/// A list literal alone has an element, and holds no callback.
pub proof fn law_list_literal(cx: &Ctx, st: Checker, items: &Chain<Expr>, span: Span)
    requires
        synth_list(cx, st, items, span).1 is Ok,
    ensures
        items@.len() > 0,
        synth_list(cx, st, items, span).1->Ok_0.ty is ListOf,
        !contains_callback(&synth_list(cx, st, items, span).1->Ok_0.ty),
        *synth_list(cx, st, items, span).1->Ok_0.kind is ListLit,
{
}

/// A map literal alone has an entry, and holds no callback.
pub proof fn law_map_literal(cx: &Ctx, st: Checker, entries: &Chain<MapEntry>, span: Span)
    requires
        synth_map(cx, st, entries, span).1 is Ok,
    ensures
        entries@.len() > 0,
        synth_map(cx, st, entries, span).1->Ok_0.ty is MapOf,
        !contains_callback(&synth_map(cx, st, entries, span).1->Ok_0.ty),
        *synth_map(cx, st, entries, span).1->Ok_0.kind is MapLit,
{
}

/// Whether a value can be a key in some scope and at some place.
pub open spec fn keyed(cx: &Ctx, key: HExpr) -> bool {
    exists|env: TyEnv, span: Span| #[trigger] check_key_now(cx, &env, &key.ty, span) is Ok
}

/// The keys of a map literal are keys, one for each entry, in order.
pub proof fn law_synth_keys(cx: &Ctx, st: Checker, entries: &Chain<MapEntry>, joined: Option<Ty>)
    ensures
        synth_keys(cx, st, entries, joined).1 matches Ok(found) ==> found.items@.len() == entries@.len() && forall|i: int|
            0 <= i < entries@.len() ==> keyed(cx, #[trigger] found.items@[i]) && comes_from(cx, entries@[i].key, found.items@[i]),
    decreases entries,
{
    if let Chain::Cons(head, tail) = entries {
        let (next, first) = synth_expr(cx, st, &head.key);
        if first is Ok {
            let key = first->Ok_0;
            let both = join_key(cx, joined, &key.ty, head.key.span);
            if both is Ok {
                law_synth_keys(cx, next, tail, Some(both->Ok_0));
            }
            if let Ok(found) = synth_keys(cx, st, entries, joined).1 {
                let rest = synth_keys(cx, next, tail, Some(both->Ok_0)).1->Ok_0;
                assert(check_key_now(cx, &next.env, &key.ty, head.key.span) is Ok);
                assert(keyed(cx, key));
                assert(comes_from(cx, head.key, key)) by {
                    reveal(synthesis);
                    assert(synthesis(cx, st, &head.key).1 == first);
                }
                assert forall|i: int| 0 <= i < entries@.len() implies keyed(cx, #[trigger] found.items@[i]) && comes_from(cx, entries@[i].key, found.items@[i]) by {
                    if i > 0 {
                        assert(found.items@[i] == rest.items@[i - 1]);
                        assert(entries@[i] == tail@[i - 1]);
                    }
                }
            }
        }
    }
}

} // verus!
