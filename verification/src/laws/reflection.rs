//! Descriptor cases: what a refinement matches.

use vstd::prelude::*;
use crate::ast::{CaseArm, GenericParam, Pattern, Span, Stmt, TypeExpr};
use crate::chain::Chain;
use crate::context::{Ctx, TyEnv};
use crate::hir::{HExpr, HKind, ReflectKind};
use crate::laws::lists::{law_append, law_count, law_holds_name};
use crate::model::branches::{check_reflect_arm, check_reflect_case_value, check_reflect_shape, effect_params, extend_scope, is_wildcard, last_arm, refines_before_last, reflect_binding, reflect_kind, reflected};
use crate::model::calls::resolve_now;
use crate::model::lists::{append, count};
use crate::model::lookup::core_class;
use crate::problem::Stop;
use crate::state::{BlockMode, Checker};
use crate::text::Text;
use crate::types::Ty;

verus! {

proof fn lemma_last_arm(arms: &Chain<CaseArm>)
    ensures
        last_arm(arms) is None <==> arms@.len() == 0,
        last_arm(arms) matches Some(last) ==> *last == arms@.last(),
    decreases arms,
{
    if let Chain::Cons(_, tail) = arms {
        lemma_last_arm(tail);
    }
}

proof fn lemma_refines(arms: &Chain<CaseArm>)
    ensures
        refines_before_last(arms) ==> forall|i: int| 0 <= i < arms@.len() - 1 ==> (#[trigger] arms@[i]).pattern.kind is Reflect,
    decreases arms,
{
    if let Chain::Cons(_, tail) = arms {
        lemma_refines(tail);
        if refines_before_last(arms) {
            assert forall|i: int| 0 <= i < arms@.len() - 1 implies (#[trigger] arms@[i]).pattern.kind is Reflect by {
                if i > 0 {
                    assert(arms@[i] == tail@[i - 1]);
                }
            }
        }
    }
}

/// A descriptor case refines in every arm but the last, which takes
/// whatever is left.
pub proof fn law_reflect_shape(arms: &Chain<CaseArm>, span: Span)
    requires
        arms@.len() <= u32::MAX,
        check_reflect_shape(arms, span) is Ok,
    ensures
        arms@.len() >= 2,
        is_wildcard(&arms@.last().pattern),
        forall|i: int| 0 <= i < arms@.len() - 1 ==> (#[trigger] arms@[i]).pattern.kind is Reflect,
{
    law_count(arms);
    lemma_last_arm(arms);
    lemma_refines(arms);
}

/// What a refinement matches is a function, unless it is a constant; only a
/// class leaves its signature out, and binds one type then.
pub proof fn law_reflected(cx: &Ctx, env: &TyEnv, kind: ReflectKind, generics: &Chain<GenericParam>, signature: &Option<TypeExpr>, first_type: u32, span: Span)
    requires
        reflected(cx, env, kind, generics, signature, first_type, span) is Ok,
    ensures
        *signature matches Some(written) ==> resolve_now(cx, env, &written) == Ok::<Ty, Stop>(reflected(cx, env, kind, generics, signature, first_type, span)->Ok_0.match_ty) && (kind
            != ReflectKind::Constant ==> reflected(cx, env, kind, generics, signature, first_type, span)->Ok_0.match_ty is Fn) && reflected(
            cx,
            env,
            kind,
            generics,
            signature,
            first_type,
            span,
        )->Ok_0.kind == kind,
        *signature is None ==> kind == ReflectKind::Class && count(generics) == 1 && effect_params(generics) == 0 && reflected(
            cx,
            env,
            kind,
            generics,
            signature,
            first_type,
            span,
        )->Ok_0.match_ty == Ty::Var(first_type),
{
}

/// Whether the names of a scope are those of another with more behind them,
/// none of them twice.
pub open spec fn extends_scope(before: TyEnv, after: TyEnv) -> bool {
    &&& before.type_names@.len() <= after.type_names@.len()
    &&& before.effect_names@.len() <= after.effect_names@.len()
    &&& before.type_names@.no_duplicates() ==> after.type_names@.no_duplicates()
    &&& before.effect_names@.no_duplicates() ==> after.effect_names@.no_duplicates()
    &&& forall|i: int| 0 <= i < before.type_names@.len() ==> after.type_names@[i] == #[trigger] before.type_names@[i]
    &&& forall|i: int| 0 <= i < before.effect_names@.len() ==> after.effect_names@[i] == #[trigger] before.effect_names@[i]
}

/// The parameters of a refinement stand behind those of the scope, each
/// name once.
pub proof fn law_extend_scope(env: TyEnv, generics: &Chain<GenericParam>)
    requires
        extend_scope(env, generics) is Ok,
    ensures
        extends_scope(env, extend_scope(env, generics)->Ok_0),
    decreases generics,
{
    if let Chain::Cons(head, tail) = generics {
        law_holds_name(&env.effect_names, &head.name);
        law_holds_name(&env.type_names, &head.name);
        law_append(env.effect_names, head.name);
        law_append(env.type_names, head.name);
        let next = if head.is_effect {
            TyEnv { effect_names: append(env.effect_names, head.name), ..env }
        } else {
            TyEnv { type_names: append(env.type_names, head.name), type_bounds: append(env.type_bounds, Chain::Nil), ..env }
        };
        law_extend_scope(next, tail);
        let done = extend_scope(env, generics)->Ok_0;
        assert forall|i: int| 0 <= i < env.type_names@.len() implies done.type_names@[i] == #[trigger] env.type_names@[i] by {
            assert(next.type_names@[i] == env.type_names@[i]);
        }
        assert forall|i: int| 0 <= i < env.effect_names@.len() implies done.effect_names@[i] == #[trigger] env.effect_names@[i] by {
            assert(next.effect_names@[i] == env.effect_names@[i]);
        }
    }
}

/// A refinement arm tests an open descriptor alone, with a word that is
/// known.
pub proof fn law_reflect_arm(
    cx: &Ctx,
    st: Checker,
    descriptor: &Ty,
    kind_name: &Text,
    generics: &Chain<GenericParam>,
    signature: &Option<TypeExpr>,
    binding: &Pattern,
    body: &Chain<Stmt>,
    mode: &BlockMode,
    span: Span,
)
    requires
        check_reflect_arm(cx, st, descriptor, kind_name, generics, signature, binding, body, mode, span).1 is Ok,
    ensures
        reflect_kind(kind_name) is Some,
        core_class(cx, "OpenCode", span) == Ok::<Ty, Stop>(*descriptor),
        reflect_binding(binding) is Ok,
        check_reflect_arm(cx, st, descriptor, kind_name, generics, signature, binding, body, mode, span).1->Ok_0.arm.pattern == st.out.next_func,
{
}

/// A descriptor case does not stand inside an initializer.
pub proof fn law_reflect_case(cx: &Ctx, st: Checker, scrut: HExpr, arms: &Chain<CaseArm>, mode: &BlockMode, span: Span)
    requires
        check_reflect_case_value(cx, st, scrut, arms, mode, span).1 is Ok,
    ensures
        st.ctor is None,
        check_reflect_shape(arms, span) is Ok,
        *check_reflect_case_value(cx, st, scrut, arms, mode, span).1->Ok_0.kind matches HKind::ReflectCase { scrut: kept, .. } && kept == scrut,
{
}

} // verus!
