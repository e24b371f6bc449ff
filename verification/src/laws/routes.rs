//! Where a written call or name goes, and what it is refused for.

use vstd::prelude::*;
use crate::abi::GroupDef;
use crate::ast::{Expr, ExprKind, GenericParam, InterfaceDef, Span, TypeExpr, UseDecl};
use crate::chain::Chain;
use crate::context::{BoundMethod, Ctx, Decl, TyEnv, UseBinding};
use crate::hir::{HExpr, HKind};
use crate::laws::reflection::law_extend_scope;
use crate::model::branches::{effect_params, reflect_scope, reflect_type};
use crate::model::calls::{call_intrinsic, operator_hook};
use crate::model::conform::bound_method;
use crate::model::control::{check_control_method, control_method};
use crate::model::exprs::{check_value_method, function_value, synth_global};
use crate::model::interfaces::resolve_interface;
use crate::model::lists::count;
use crate::model::lookup::class_of;
use crate::model::names::behind;
use crate::model::scope::{ctor_guard_loop, module_func, use_binding};
use crate::model::system::{check_sys_value, find_intrinsic, is_control_type};
use crate::model::uses::{resolve_sys_member_use, resolve_sys_use, sys_group_name};
use crate::problem::Stop;
use crate::state::{BlockMode, Checker, CtorState, OperatorHook};
use crate::text::Text;
use crate::types::Ty;

verus! {

/// The hook of an operator takes as many operands as are written.
pub proof fn law_operator_operands(cx: &Ctx, st: Checker, recv: HExpr, hook: OperatorHook, name: &str, operands: &Chain<Expr>, span: Span)
    requires
        count(&hook.found.sig.params) != count(operands),
    ensures
        operator_hook(cx, st, recv, hook, name, operands, span).1 is Err,
        operator_hook(cx, st, recv, hook, name, operands, span).0 == st,
{
}

/// A descriptor case without an expected type has that of its last arm,
/// which must give a value.
pub proof fn law_reflect_type(mode: &BlockMode, fallback: &Ty, span: Span)
    ensures
        *mode is Synth ==> (reflect_type(mode, fallback, span) is Ok <==> *fallback != Ty::Never),
        *mode is Synth && reflect_type(mode, fallback, span) is Ok ==> reflect_type(mode, fallback, span)->Ok_0 == *fallback,
        *mode matches BlockMode::Value(ty) ==> reflect_type(mode, fallback, span) == Ok::<Ty, Stop>(ty),
        *mode is Discard ==> reflect_type(mode, fallback, span) == Ok::<Ty, Stop>(Ty::Unit),
{
}

/// A refinement binds one effect parameter at most, and keeps the names of
/// its scope.
pub proof fn law_reflect_scope(cx: &Ctx, env: &TyEnv, generics: &Chain<GenericParam>, span: Span)
    requires
        reflect_scope(cx, env, generics, span) is Ok,
    ensures
        effect_params(generics) <= 1,
        reflect_scope(cx, env, generics, span)->Ok_0.type_names@.len() >= env.type_names@.len(),
        forall|i: int| 0 <= i < env.type_names@.len() ==> reflect_scope(cx, env, generics, span)->Ok_0.type_names@[i] == #[trigger] env.type_names@[i],
{
    law_extend_scope(*env, generics);
}

/// A method of the machine surface is one of a value of it, and takes no
/// type arguments.
pub proof fn law_control_method(
    cx: &Ctx,
    st: Checker,
    recv: HExpr,
    name: &Text,
    name_span: Span,
    type_args: &Chain<TypeExpr>,
    args: &Chain<Expr>,
    span: Span,
)
    ensures
        !is_control_type(&recv.ty) ==> check_control_method(cx, st, recv, name, name_span, type_args, args, span) == (st, Ok::<Option<HExpr>, Stop>(None)),
        is_control_type(&recv.ty) && type_args@.len() > 0 ==> check_control_method(cx, st, recv, name, name_span, type_args, args, span).1 is Err,
        is_control_type(&recv.ty) && check_control_method(cx, st, recv, name, name_span, type_args, args, span).1 is Ok ==> check_control_method(
            cx,
            st,
            recv,
            name,
            name_span,
            type_args,
            args,
            span,
        ).1->Ok_0 is Some,
{
}

/// A pending call gives its arguments, a request the name of its
/// operation, and a fault its code; they give nothing else.
pub proof fn law_inspect(cx: &Ctx, st: Checker, recv: HExpr, name: &Text, name_span: Span, args: &Chain<Expr>, span: Span)
    requires
        control_method(cx, st, recv, name, name_span, args, span).1 is Ok,
    ensures
        ({
            let found = control_method(cx, st, recv, name, name_span, args, span).1->Ok_0;
            &&& recv.ty matches Ty::PendingCall(call_args, _) ==> name@ == "args"@ && found.ty == *call_args && *found.kind == HKind::CallArgs(recv) && count(args) == 0
            &&& recv.ty is Request ==> name@ == "op_name"@ && found.ty == Ty::Str && *found.kind == HKind::RequestOpName(recv) && count(args) == 0
            &&& recv.ty is Fault ==> name@ == "code"@ && found.ty == Ty::Str && *found.kind == HKind::FaultCodeGet(recv) && count(args) == 0
        }),
{
}

/// A bare name that is no local is a member of the system that a `use`
/// line binds, or a function of the module.
pub proof fn law_global(cx: &Ctx, st: Checker, name: &Text, span: Span)
    requires
        synth_global(cx, st, name, span).1 is Ok,
    ensures
        name@ != "sys"@,
        match use_binding(cx, st, name).1 {
            Ok(Some(UseBinding::SysMember { group, member })) => check_sys_value(cx, &group, &member, span) == Ok::<HExpr, Stop>(synth_global(cx, st, name, span).1->Ok_0),
            Ok(None) => module_func(cx, &use_binding(cx, st, name).0.env, name) matches Some(func) && function_value(cx, func, name, span) == Ok::<HExpr, Stop>(
                synth_global(cx, st, name, span).1->Ok_0,
            ),
            _ => false,
        },
{
}

/// An intrinsic is called by its written name, with operands that fit its
/// parameters and no type arguments.
pub proof fn law_call_intrinsic(cx: &Ctx, st: Checker, type_args: &Chain<TypeExpr>, args: &Chain<Expr>, span: Span)
    requires
        call_intrinsic(cx, st, type_args, args, span).1 is Ok,
    ensures
        type_args@.len() == 0,
        args matches Chain::Cons(first, _) && (*first.kind matches ExprKind::Str(name) && (find_intrinsic(&cx.bundle.intrinsics, &name, 0u32) matches Some(slot) && (*call_intrinsic(
            cx,
            st,
            type_args,
            args,
            span,
        ).1->Ok_0.kind matches HKind::Intrinsic { slot: kept, .. } && kept == slot))),
{
}

/// A value that has no declared method takes no type arguments in a call.
pub proof fn law_value_method(
    cx: &Ctx,
    st: Checker,
    recv: HExpr,
    name: &Text,
    name_span: Span,
    type_args: &Chain<TypeExpr>,
    args: &Chain<Expr>,
    expected: Option<&Ty>,
    span: Span,
)
    requires
        type_args@.len() > 0,
        is_control_type(&recv.ty) || (class_of(cx, &recv.ty) is None && bound_method(cx, &st.env, &recv.ty, name, name_span) == Ok::<Option<BoundMethod>, Stop>(None)),
    ensures
        check_value_method(cx, st, recv, name, name_span, type_args, args, expected, span).1 is Err,
{
    law_control_method(cx, st, recv, name, name_span, type_args, args, span);
}

/// Inside a loop an initializer does not call that of its superclass.
pub proof fn law_guard_loop(st: &Checker, before: &Option<CtorState>, span: Span)
    ensures
        st.ctor matches Some(c) ==> (*before matches Some(state) ==> (ctor_guard_loop(st, before, span) is Ok <==> c.state.super_done == state.super_done)),
        st.ctor is None ==> ctor_guard_loop(st, before, span) is Ok,
{
}

/// An accepted interface has no more methods than an image can number.
pub proof fn law_interface_size(cx: Ctx, st: Decl, declaration: &InterfaceDef, is_core: bool)
    requires
        count(&declaration.methods) > cx.max_interface_index + 1,
    ensures
        resolve_interface(cx, st, declaration, is_core).1 is Err,
{
}

/// A `use` line of the system names a group, or a member of one; nothing
/// stands behind the member.
pub proof fn law_sys_use(cx: &Ctx, rest: &Chain<Text>, decl: &UseDecl)
    requires
        resolve_sys_use(cx, rest, decl) is Ok,
    ensures
        1 <= rest@.len() <= 2,
        sys_group_name(&cx.bundle.groups, &rest@[0]) matches Some(group) && if rest@.len() == 1 {
            resolve_sys_use(cx, rest, decl)->Ok_0 == UseBinding::SysGroup(group)
        } else {
            resolve_sys_member_use(cx, group, &rest@[1], decl.name_span) == Ok::<UseBinding, Stop>(resolve_sys_use(cx, rest, decl)->Ok_0)
        },
{
    reveal_with_fuel(Chain::items, 4);
    if let Chain::Cons(surface, behind) = rest {
        assert(rest@[0] == **surface);
        if let Chain::Cons(member, _) = &**behind {
            assert(rest@[1] == **member);
        }
    }
}

proof fn lemma_group(groups: &Chain<GroupDef>, surface: &Text)
    ensures
        sys_group_name(groups, surface) matches Some(name) ==> exists|i: int| 0 <= i < groups@.len() && (#[trigger] groups@[i]).surface == *surface && groups@[i].name == name,
        sys_group_name(groups, surface) is None ==> forall|i: int| 0 <= i < groups@.len() ==> (#[trigger] groups@[i]).surface != *surface,
    decreases groups,
{
    if let Chain::Cons(head, tail) = groups {
        lemma_group(tail, surface);
        assert(groups@[0] == **head);
        if head.surface != *surface {
            if let Some(name) = sys_group_name(tail, surface) {
                let i = choose|i: int| 0 <= i < tail@.len() && (#[trigger] tail@[i]).surface == *surface && tail@[i].name == name;
                assert(groups@[i + 1] == tail@[i]);
            } else {
                assert forall|i: int| 0 <= i < groups@.len() implies (#[trigger] groups@[i]).surface != *surface by {
                    if i > 0 {
                        assert(groups@[i] == tail@[i - 1]);
                    }
                }
            }
        }
    }
}

/// A group of the system is the one of its written name.
pub proof fn law_sys_group(groups: &Chain<GroupDef>, surface: &Text)
    ensures
        sys_group_name(groups, surface) is Some <==> exists|i: int| 0 <= i < groups@.len() && (#[trigger] groups@[i]).surface == *surface,
        sys_group_name(groups, surface) matches Some(name) ==> exists|i: int| 0 <= i < groups@.len() && (#[trigger] groups@[i]).surface == *surface && groups@[i].name == name,
{
    lemma_group(groups, surface);
}

} // verus!
