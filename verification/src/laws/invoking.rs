//! Calls by name: what a called name stands for.

use vstd::prelude::*;
use crate::ast::{CaseArm, Expr, Span, TypeExpr};
use crate::chain::Chain;
use crate::context::{ClassInfo, ClassKind, Ctx, FnSig, InterfaceInfo, InterfaceMethodSig, MethodSig, NativeRepr, TyEnv};
use crate::hir::{HExpr, HKind};
use crate::laws::arguments::{admitted, law_poly_call};
use crate::laws::lists::{law_concat, law_falses};
use crate::laws::operators::synthesis;
use crate::model::branches::{check_case_value, check_enclosing_result, check_propagate, result_arguments};
use crate::model::calls::{arm_signature, call_named, check_poly_call, class_signature, construct_arm, construct_class, function_signature, method_signature, requirement_signature, resolve_callee, synth_call_value, unsolved};
use crate::model::desugar::propagate_arms;
use crate::model::exprs::{check_super_init, function_value, set_first, super_done, super_init_problem, synth_expr, synth_name};
use crate::model::lists::{find_id, two};
use crate::model::lookup::{class_at, core_id, lookup_type, sig_at};
use crate::model::scope::{local_mutable, local_ty, lookup_slot, module_func};
use crate::model::system::{construct_problem, is_machine_made, is_opaque_syntax};
use crate::problem::Stop;
use crate::state::{BlockMode, Callee, Checker, PolyOut, RetKind, Signature};
use crate::text::Text;
use crate::types::Ty;

verus! {

/// A function stands as a value alone where nothing has to be inferred for
/// it; its type is that of its signature.
pub proof fn law_function_value(cx: &Ctx, func: u32, name: &Text, span: Span)
    ensures
        function_value(cx, func, name, span) is Ok <==> sig_at(cx, func).type_params@.len() == 0 && sig_at(cx, func).effect_params@.len() == 0,
        function_value(cx, func, name, span) matches Ok(found) ==> {
            &&& found.ty matches Ty::Fn(params, muts, ret, row) && params == sig_at(cx, func).params && muts == sig_at(cx, func).param_muts && *ret == sig_at(cx, func).ret
                && row == sig_at(cx, func).row
            &&& *found.kind matches HKind::MakeClosure { func: made, captures } && made == func && captures@.len() == 0
        },
{
}

/// A bare name is the local of that name where there is one.
pub proof fn law_local_value(cx: &Ctx, st: Checker, name: &Text, span: Span)
    requires
        lookup_slot(&st, name) is Some,
    ensures
        synth_name(cx, st, name, span).1 matches Ok(found) && *found.kind == HKind::Local(lookup_slot(&st, name)->0) && found.ty == local_ty(&st, lookup_slot(&st, name)->0)
            && found.mutable == local_mutable(&st, lookup_slot(&st, name)->0),
        synth_name(cx, st, name, span).0 == st,
{
}

/// A called name is the local of that name where there is one, then the
/// function of the module, then the class.
pub proof fn law_resolve_callee(cx: &Ctx, st: Checker, name: &Text, name_span: Span, type_args: &Chain<TypeExpr>, expected: Option<&Ty>, span: Span)
    requires
        resolve_callee(cx, st, name, name_span, type_args, expected, span).1 is Ok,
    ensures
        lookup_slot(&st, name) matches Some(slot) ==> (resolve_callee(cx, st, name, name_span, type_args, expected, span).1->Ok_0 matches Callee::Value(found)
            && *found.kind == HKind::Local(slot) && found.ty == local_ty(&st, slot)),
        lookup_slot(&st, name) is None && !st.is_closure && !st.env.core_scope ==> (find_id(&cx.func_index, name) matches Some(func)
            ==> resolve_callee(cx, st, name, name_span, type_args, expected, span).1->Ok_0 == Callee::Func(func)),
        lookup_slot(&st, name) is None && !st.is_closure && module_func(cx, &st.env, name) is None ==> (lookup_type(cx, name, &st.env) matches Some(class)
            ==> class_at(cx, class).kind != ClassKind::EnumParent && (class_at(cx, class).kind == ClassKind::Normal
            ==> resolve_callee(cx, st, name, name_span, type_args, expected, span).1->Ok_0 == Callee::Class(class))),
{
}

/// Whether a called value is one of a function type, or an operation.
pub open spec fn is_callable(ty: Ty) -> bool {
    ty is Fn || ty is Callback || (ty matches Ty::Op(_, inner) && *inner is Fn)
}

/// What calling a value of one type gives.
pub open spec fn result_of(ty: Ty) -> Ty {
    match ty {
        Ty::Fn(_, _, ret, _) => *ret,
        Ty::Callback(_, _, ret, _) => *ret,
        Ty::Op(_, inner) => match *inner {
            Ty::Fn(_, _, ret, _) => *ret,
            _ => ty,
        },
        _ => ty,
    }
}

/// A value is called alone where it is a function or an operation; the call
/// keeps it and gives its result.
pub proof fn law_call_value(cx: &Ctx, st: Checker, callee: HExpr, args: &Chain<Expr>, callee_span: Span, span: Span)
    requires
        synth_call_value(cx, st, callee, args, callee_span, span).1 is Ok,
    ensures
        is_callable(callee.ty),
        synth_call_value(cx, st, callee, args, callee_span, span).1->Ok_0.ty == result_of(callee.ty),
        *synth_call_value(cx, st, callee, args, callee_span, span).1->Ok_0.kind matches HKind::CallValue { callee: kept, .. } && kept == callee,
{
}

/// What calling a plain name gives.
#[verifier::opaque]
pub open spec fn named_call(cx: &Ctx, st: Checker, name: Text, name_span: Span, type_args: Chain<TypeExpr>, args: Chain<Expr>, expected: Option<&Ty>, span: Span) -> (
    Checker,
    Result<HExpr, Stop>,
) {
    call_named(cx, st, &name, name_span, &type_args, &args, expected, span)
}

proof fn lemma_called_func(cx: &Ctx, st: Checker, name: Text, name_span: Span, type_args: Chain<TypeExpr>, args: Chain<Expr>, expected: Option<&Ty>, span: Span, func: u32)
    requires
        !(st.env.core_scope && name@ == "intrinsic"@),
        resolve_callee(cx, st, &name, name_span, &type_args, expected, span).1 == Ok::<Callee, Stop>(Callee::Func(func)),
    ensures
        named_call(cx, st, name, name_span, type_args, args, expected, span).1 matches Ok(found) ==> {
            let next = resolve_callee(cx, st, &name, name_span, &type_args, expected, span).0;
            let sig = function_signature(sig_at(cx, func));
            let called = check_poly_call(cx, next, &name, &sig, unsolved(&sig), 0u32, &type_args, &args, expected, span).1;
            &&& called is Ok
            &&& found.ty == called->Ok_0.ret
            &&& *found.kind == (HKind::Call { func: func, targs: called->Ok_0.targs, rowargs: called->Ok_0.rowargs, args: called->Ok_0.args })
        },
{
    reveal(named_call);
}

/// Whether an expression calls one function with arguments that its
/// signature admits.
pub open spec fn calls_function(cx: &Ctx, func: u32, args: Chain<Expr>, found: HExpr) -> bool {
    *found.kind matches HKind::Call { func: kept, targs, rowargs, args: given } && kept == func && admitted(
        cx,
        function_signature(sig_at(cx, func)),
        args,
        PolyOut { targs: targs, rowargs: rowargs, args: given, ret: found.ty },
    )
}

/// A call of a name that stands for a function of the module calls that
/// function, with arguments that its signature admits.
pub proof fn law_call_function(cx: &Ctx, st: Checker, name: &Text, name_span: Span, type_args: &Chain<TypeExpr>, args: &Chain<Expr>, expected: Option<&Ty>, span: Span, func: u32)
    requires
        !st.env.core_scope,
        !st.is_closure,
        lookup_slot(&st, name) is None,
        find_id(&cx.func_index, name) == Some(func),
        args@.len() <= u32::MAX,
        sig_at(cx, func).params@.len() <= u32::MAX,
        call_named(cx, st, name, name_span, type_args, args, expected, span).1 is Ok,
    ensures
        calls_function(cx, func, *args, call_named(cx, st, name, name_span, type_args, args, expected, span).1->Ok_0),
{
    let sig = function_signature(sig_at(cx, func));
    let next = resolve_callee(cx, st, name, name_span, type_args, expected, span).0;
    lemma_called_func(cx, st, *name, name_span, *type_args, *args, expected, span, func);
    law_poly_call(cx, next, name, &sig, unsolved(&sig), 0u32, type_args, args, expected, span);
    reveal(named_call);
}

/// The signature that a call of a function goes by is the declared one.
pub proof fn law_function_signature(sig: &FnSig)
    ensures
        function_signature(sig).params == sig.params,
        function_signature(sig).muts == sig.param_muts,
        function_signature(sig).names == sig.param_names,
        function_signature(sig).ret == sig.ret,
        function_signature(sig).row == sig.row,
        function_signature(sig).type_names == sig.type_params,
        function_signature(sig).type_bounds == sig.type_bounds,
{
}

/// A class is constructed as its initializer says: with its parameters, its
/// row and the type of the class; without one it takes nothing and performs
/// nothing.
pub proof fn law_class_signature(info: &ClassInfo)
    ensures
        class_signature(info).ret == info.self_ty,
        class_signature(info).type_names == info.type_params,
        class_signature(info).type_bounds == info.type_bounds,
        info.init matches Some(init) ==> class_signature(info).params == init.params && class_signature(info).muts == init.param_muts && class_signature(info).names == init.param_names
            && class_signature(info).row == init.row,
        info.init is None ==> class_signature(info).params@.len() == 0 && class_signature(info).row@.len() == 0,
{
}

/// An enum arm is constructed from its fields, and performs nothing.
pub proof fn law_arm_signature(info: &ClassInfo)
    ensures
        arm_signature(info).params == info.field_tys,
        arm_signature(info).names == info.field_names,
        arm_signature(info).ret == info.self_ty,
        arm_signature(info).row@.len() == 0,
        arm_signature(info).type_bounds == info.type_bounds,
        arm_signature(info).muts@.len() == info.field_tys@.len(),
        forall|i: int| 0 <= i < info.field_tys@.len() ==> !#[trigger] arm_signature(info).muts@[i],
{
    law_falses(&info.field_tys);
}

/// A method is called with the class parameters before its own, and with
/// its own parameters, result and row.
pub proof fn law_method_signature(class_names: &Chain<Text>, sig: &MethodSig)
    ensures
        method_signature(class_names, sig).params == sig.params,
        method_signature(class_names, sig).muts == sig.param_muts,
        method_signature(class_names, sig).names == sig.param_names,
        method_signature(class_names, sig).ret == sig.ret,
        method_signature(class_names, sig).row == sig.row,
        method_signature(class_names, sig).type_names@ == class_names@ + sig.own_type_params@,
        method_signature(class_names, sig).type_bounds@ == sig.class_type_bounds@ + sig.own_type_bounds@,
{
    law_concat(*class_names, sig.own_type_params);
    law_concat(sig.class_type_bounds, sig.own_type_bounds);
}

/// An interface method is called with `Self` before the interface
/// parameters and its own.
pub proof fn law_requirement_signature(info: &InterfaceInfo, sig: &InterfaceMethodSig)
    ensures
        requirement_signature(info, sig).params == sig.params,
        requirement_signature(info, sig).muts == sig.param_muts,
        requirement_signature(info, sig).names == sig.param_names,
        requirement_signature(info, sig).ret == sig.ret,
        requirement_signature(info, sig).row == sig.row,
        requirement_signature(info, sig).type_names@.skip(1) == info.type_params@ + sig.own_type_params@,
        requirement_signature(info, sig).type_bounds@.skip(1) == info.type_bounds@ + sig.own_type_bounds@,
{
    law_concat(info.type_params, sig.own_type_params);
    law_concat(info.type_bounds, sig.own_type_bounds);
    assert(requirement_signature(info, sig).type_names@.skip(1) =~= info.type_params@ + sig.own_type_params@);
    assert(requirement_signature(info, sig).type_bounds@.skip(1) =~= info.type_bounds@ + sig.own_type_bounds@);
}

/// A class that the machine makes, or whose values only the core image
/// makes, is not constructed by name.
pub proof fn law_construct_problem(cx: &Ctx, env: &TyEnv, class: u32)
    ensures
        construct_problem(cx, env, class) is None ==> !is_machine_made(class_at(cx, class).native_repr) && (env.core_scope || !is_opaque_syntax(cx, class)),
        is_machine_made(class_at(cx, class).native_repr) ==> construct_problem(cx, env, class) is Some,
{
}

/// Constructing a class makes a value of that class, with arguments that
/// its initializer admits; bytes are made of one text.
pub proof fn law_construct_class(cx: &Ctx, st: Checker, class: u32, name: &Text, name_span: Span, type_args: &Chain<TypeExpr>, args: &Chain<Expr>, expected: Option<&Ty>, span: Span)
    requires
        args@.len() <= u32::MAX,
        class_signature(class_at(cx, class)).params@.len() <= u32::MAX,
        !(class_at(cx, class).native_repr == Some(NativeRepr::Bytes)),
        construct_class(cx, st, class, name, name_span, type_args, args, expected, span).1 is Ok,
    ensures
        construct_problem(cx, &st.env, class) is None,
        *construct_class(cx, st, class, name, name_span, type_args, args, expected, span).1->Ok_0.kind matches HKind::Construct { class: made, .. } && made == class,
        constructs(cx, class_signature(class_at(cx, class)), *args, construct_class(cx, st, class, name, name_span, type_args, args, expected, span).1->Ok_0),
{
    let sig = class_signature(class_at(cx, class));
    law_poly_call(cx, st, name, &sig, unsolved(&sig), 0u32, type_args, args, expected, span);
    let called = check_poly_call(cx, st, name, &sig, unsolved(&sig), 0u32, type_args, args, expected, span).1->Ok_0;
    assert(admitted(cx, sig, *args, called));
}

/// Whether the arguments of a construction are admitted by a signature.
pub open spec fn constructs(cx: &Ctx, sig: Signature, args: Chain<Expr>, found: HExpr) -> bool {
    *found.kind matches HKind::Construct { targs, args: given, .. } && exists|called: PolyOut| #[trigger] admitted(cx, sig, args, called) && called.targs == targs && called.args == given
}

/// Constructing an arm makes a value of that arm, with one argument for
/// each field. Without an expected type the value is of the whole enum.
pub proof fn law_construct_arm(cx: &Ctx, st: Checker, arm: u32, explicit: &Chain<TypeExpr>, args: &Chain<Expr>, expected: Option<&Ty>, span: Span)
    requires
        args@.len() <= u32::MAX,
        class_at(cx, arm).field_tys@.len() <= u32::MAX,
        construct_arm(cx, st, arm, explicit, args, expected, span).1 is Ok,
    ensures
        *construct_arm(cx, st, arm, explicit, args, expected, span).1->Ok_0.kind matches HKind::Construct { class: made, .. } && made == arm,
        constructs(cx, arm_signature(class_at(cx, arm)), *args, construct_arm(cx, st, arm, explicit, args, expected, span).1->Ok_0),
        args@.len() == class_at(cx, arm).field_tys@.len(),
        class_at(cx, arm).family matches Some(family) ==> (expected is None ==> (construct_arm(cx, st, arm, explicit, args, expected, span).1->Ok_0.ty == Ty::Class(family)
            || (construct_arm(cx, st, arm, explicit, args, expected, span).1->Ok_0.ty matches Ty::Inst(parent, _) && parent == family))),
{
    let info = class_at(cx, arm);
    let sig = arm_signature(info);
    law_poly_call(cx, st, &info.arm_short, &sig, unsolved(&sig), 0u32, explicit, args, expected, span);
    let called = check_poly_call(cx, st, &info.arm_short, &sig, unsolved(&sig), 0u32, explicit, args, expected, span).1->Ok_0;
    assert(admitted(cx, sig, *args, called));
}

/// The parent initializer runs inside an initializer that needs it, and
/// once.
pub proof fn law_super_init_problem(st: &Checker)
    ensures
        super_init_problem(st) is None <==> (st.ctor matches Some(c) && c.needs_super && !c.state.super_done),
{
}

/// The parent initializer sets the fields that it inherits, and no other.
pub proof fn law_super_done(st: Checker, inherited: u32)
    ensures
        st.ctor is None ==> super_done(st, inherited) == st,
        st.ctor matches Some(c) ==> (super_done(st, inherited).ctor matches Some(after) && after.state.super_done && after.class == c.class && after.needs_super == c.needs_super
            && after.state.inited@.len() == c.state.inited@.len() && (forall|i: int|
            0 <= i < c.state.inited@.len() ==> #[trigger] after.state.inited@[i] == (i < inherited || c.state.inited@[i]))),
{
    if let Some(c) = st.ctor {
        lemma_set_first(c.state.inited, inherited);
    }
}

proof fn lemma_set_first(flags: Chain<bool>, total: u32)
    ensures
        set_first(flags, total)@.len() == flags@.len(),
        forall|i: int| 0 <= i < flags@.len() ==> #[trigger] set_first(flags, total)@[i] == (i < total || flags@[i]),
    decreases flags,
{
    if let Chain::Cons(_, tail) = flags {
        if total != 0 {
            lemma_set_first(*tail, (total - 1) as u32);
            assert forall|i: int| 0 <= i < flags@.len() implies #[trigger] set_first(flags, total)@[i] == (i < total || flags@[i]) by {
                if i > 0 {
                    assert(set_first(flags, total)@[i] == set_first(*tail, (total - 1) as u32)@[i - 1]);
                    assert(flags@[i] == tail@[i - 1]);
                }
            }
        }
    }
}

/// A call of the parent initializer calls it on `self`, under the type
/// arguments of the parent.
pub proof fn law_super_init(cx: &Ctx, st: Checker, parent: u32, parent_args: &Chain<Ty>, args: &Chain<Expr>, span: Span)
    requires
        check_super_init(cx, st, parent, parent_args, args, span).1 is Ok,
    ensures
        super_init_problem(&st) is None,
        class_at(cx, parent).init matches Some(init) && (*check_super_init(cx, st, parent, parent_args, args, span).1->Ok_0.kind matches HKind::Call { func, targs, args: given, .. }
            && func == init.func && targs == *parent_args && given@.len() > 0 && *given@[0].kind == HKind::Local(0)),
        check_super_init(cx, st, parent, parent_args, args, span).0.ctor matches Some(c) ==> c.state.super_done,
        check_super_init(cx, st, parent, parent_args, args, span).1->Ok_0.ty == Ty::Unit,
{
}

/// Propagation stands in a callable that gives a `Result` with the same
/// error, and takes a `Result` apart.
pub proof fn law_enclosing_result(ret: &RetKind, result_class: u32, error: &Ty, span: Span)
    ensures
        check_enclosing_result(ret, result_class, error, span) is Ok <==> (*ret matches RetKind::Known(ty) && (result_arguments(&ty, result_class) matches Some(found) && found.1 == *error)),
{
}

/// The two arguments of a `Result` are its first and its second.
pub proof fn law_result_arguments(ty: &Ty, result_class: u32)
    ensures
        result_arguments(ty, result_class) matches Some(found) ==> (*ty matches Ty::Inst(class, args) && class == result_class && args@ == seq![found.0, found.1]),
        forall|ok: Ty, error: Ty| *ty == Ty::Inst(result_class, #[trigger] two(ok, error)) ==> result_arguments(ty, result_class) == Some((ok, error)),
{
    reveal_with_fuel(Chain::items, 4);
    if let Ty::Inst(class, args) = *ty {
        if let Some(found) = result_arguments(ty, result_class) {
            assert(args@ =~= seq![found.0, found.1]);
        }
    }
}

/// A propagated `Result` gives its first argument.
pub proof fn law_propagate(cx: &Ctx, st: Checker, value: &Expr, span: Span)
    requires
        check_propagate(cx, st, value, span).1 is Ok,
    ensures
        core_id(cx, "Result", span) matches Ok(result_class) && (synthesis(cx, st, value).1 matches Ok(source) && (result_arguments(&source.ty, result_class) matches Some(found)
            && check_propagate(cx, st, value, span).1->Ok_0.ty == found.0
            && check_enclosing_result(&synthesis(cx, st, value).0.ret, result_class, &found.1, span) is Ok)),
{
    reveal(synthesis);
    let (next, source) = synth_expr(cx, st, value);
    let result_class = core_id(cx, "Result", span)->Ok_0;
    let found = result_arguments(&source->Ok_0.ty, result_class)->0;
    law_case_type_of(cx, next, source->Ok_0, &propagate_arms(span), found.0, span);
}

/// A case over a value that a type is expected of has that type.
pub proof fn law_case_type_of(cx: &Ctx, st: Checker, scrut: HExpr, arms: &Chain<CaseArm>, ty: Ty, span: Span)
    ensures
        check_case_value(cx, st, scrut, arms, &BlockMode::Value(ty), span).1 matches Ok(found) ==> found.ty == ty,
{
}

} // verus!
