//! Patterns: what they test and what they bind.

use vstd::prelude::*;
use crate::ast::{Pattern, PatternKind, Span};
use crate::chain::Chain;
use crate::context::{ClassKind, Ctx, Nominal};
use crate::hir::HPattern;
use crate::laws::lists::{law_append, law_count, law_holds_name};
use crate::laws::scopes::law_bind_name;
use crate::model::lists::count;
use crate::model::lookup::{class_at, class_of, family_of, find_arm, lookup_type};
use crate::model::patterns::{bind_pattern, call_pattern, check_arm_shape, check_pattern, check_patterns, class_pattern, ctor_pattern, is_call_test, nominal_pattern, pattern_descriptor};
use crate::model::scope::{hidden_local, lookup_slot};
use crate::model::subst::{substitute, substitute_all};
use crate::model::system::{op_args_type, op_reply};
use crate::state::{Checker, LocalVar};
use crate::text::Text;
use crate::types::Ty;

verus! {

/// A pattern names an arm that its scrutinee can hold, and has one part for
/// each field, or no parts where there is no field.
pub proof fn law_arm_shape(cx: &Ctx, arm: u32, scrut: u32, parts: u32, has_parens: bool, span: Span)
    ensures
        check_arm_shape(cx, arm, scrut, parts, has_parens, span) is Ok <==> (class_at(cx, scrut).kind == ClassKind::EnumCase ==> arm == scrut) && (if has_parens {
            parts == count(&class_at(cx, arm).field_tys)
        } else {
            count(&class_at(cx, arm).field_tys) == 0
        }),
{
}

/// A name that a pattern binds is new in the pattern, and gets the next
/// slot, with the type and the right of what it matches.
pub proof fn law_bind_pattern(st: Checker, name: &Text, ty: &Ty, mutable: bool, span: Span)
    requires
        st.locals@.len() <= u32::MAX,
    ensures
        bind_pattern(st, name, ty, mutable, span).1 is Ok <==> !st.binds@.contains(*name),
        bind_pattern(st, name, ty, mutable, span).1 matches Ok(found) ==> {
            let done = bind_pattern(st, name, ty, mutable, span).0;
            &&& found == HPattern::Bind(st.locals@.len() as u32)
            &&& done.locals@ == st.locals@.push(LocalVar { ty: *ty, mutable: mutable })
            &&& done.binds@ == st.binds@.push(*name)
            &&& lookup_slot(&done, name) == Some(st.locals@.len() as u32)
        },
{
    law_holds_name(&st.binds, name);
    law_count(&st.locals);
    law_append(st.locals, LocalVar { ty: *ty, mutable: mutable });
    law_append(st.binds, *name);
    let (more, slot) = hidden_local(st, *ty, mutable);
    law_bind_name(more, name, slot, name);
}

/// Whether a checked pattern tests what is written, on a scrutinee of a
/// type that can hold it.
pub open spec fn tests(pat: PatternKind, ty: Ty, found: HPattern) -> bool {
    match pat {
        PatternKind::Wildcard => found == HPattern::Wildcard,
        PatternKind::Int(value) => ty == Ty::Int && found == HPattern::Int(value),
        PatternKind::Bool(value) => ty == Ty::Bool && found == HPattern::Bool(value),
        PatternKind::Str(value) => ty == Ty::Str && found == HPattern::Str(value),
        PatternKind::Tuple(items) => if items@.len() == 0 {
            ty == Ty::Unit && found == HPattern::Wildcard
        } else {
            ty matches Ty::Tuple(tys) && found matches HPattern::Tuple { elems, elem_tys } && elem_tys == tys && (tys@.len() <= u32::MAX && items@.len() <= u32::MAX ==> elems@.len()
                == items@.len() && tys@.len() == items@.len())
        },
        PatternKind::Name(_) => found is Bind || (found matches HPattern::Ctor { args, .. } && args@.len() == 0),
        PatternKind::Ctor { .. } => found is Ctor || (ty == Ty::Request && found is Project),
        PatternKind::Reflect { .. } => false,
    }
}

/// A checked pattern tests what is written.
pub proof fn law_check_pattern(cx: &Ctx, st: Checker, pat: &Pattern, ty: &Ty, mutable: bool)
    requires
        check_pattern(cx, st, pat, ty, mutable).1 is Ok,
    ensures
        tests(pat.kind, *ty, check_pattern(cx, st, pat, ty, mutable).1->Ok_0),
{
    match &pat.kind {
        PatternKind::Tuple(items) => {
            if let Ty::Tuple(tys) = ty {
                law_count(items);
                law_count(tys);
                law_patterns_length(cx, st, items, tys, mutable);
            }
        },
        PatternKind::Ctor { qualifier, name, args, has_parens } => {
            lemma_call_kind(cx, st, args, mutable, pat.span);
            lemma_nominal_kind(cx, st, qualifier, name, args, *has_parens, ty, mutable, pat.span);
        },
        _ => {},
    }
}

proof fn lemma_call_kind(cx: &Ctx, st: Checker, args: &Chain<Pattern>, mutable: bool, span: Span)
    ensures
        call_pattern(cx, st, args, mutable, span).1 matches Ok(found) ==> found is Project,
{
}

proof fn lemma_class_kind(cx: &Ctx, st: Checker, scrut: &Nominal, qualified: bool, name: &Text, args: &Chain<Pattern>, has_parens: bool, ty: &Ty, mutable: bool, span: Span)
    ensures
        class_pattern(cx, st, scrut, qualified, name, args, has_parens, ty, mutable, span).1 matches Ok(found) ==> found is Ctor,
{
}

proof fn lemma_arm_kind(cx: &Ctx, st: Checker, arm: u32, scrut: &Nominal, args: &Chain<Pattern>, has_parens: bool, mutable: bool, span: Span)
    ensures
        ctor_pattern(cx, st, arm, scrut, args, has_parens, mutable, span).1 matches Ok(found) ==> found is Ctor,
{
}

proof fn lemma_nominal_kind(cx: &Ctx, st: Checker, qualifier: &Option<Text>, name: &Text, args: &Chain<Pattern>, has_parens: bool, ty: &Ty, mutable: bool, span: Span)
    ensures
        nominal_pattern(cx, st, qualifier, name, args, has_parens, ty, mutable, span).1 matches Ok(found) ==> found is Ctor,
{
    if let Some(scrut) = class_of(cx, ty) {
        lemma_class_kind(cx, st, &scrut, qualifier.is_some(), name, args, has_parens, ty, mutable, span);
        if let Some(family) = family_of(cx, scrut.class) {
            if let Some(arm) = find_arm(cx, family, name) {
                lemma_arm_kind(cx, st, arm, &scrut, args, has_parens, mutable, span);
            }
        }
    }
}

/// As many patterns come out as there are parts to match.
pub proof fn law_patterns_length(cx: &Ctx, st: Checker, pats: &Chain<Pattern>, tys: &Chain<Ty>, mutable: bool)
    ensures
        check_patterns(cx, st, pats, tys, mutable).1 matches Ok(found) ==> (pats@.len() == tys@.len() ==> found@.len() == pats@.len()) && found@.len() <= pats@.len(),
    decreases pats,
{
    if let (Chain::Cons(pat, pats_rest), Chain::Cons(ty, tys_rest)) = (pats, tys) {
        let next = check_pattern(cx, st, &**pat, &**ty, mutable).0;
        law_patterns_length(cx, next, pats_rest, tys_rest, mutable);
    }
}

/// An arm pattern names the arm and matches its fields, read under the type
/// arguments of the scrutinee.
pub proof fn law_ctor_pattern(cx: &Ctx, st: Checker, arm: u32, scrut: &Nominal, args: &Chain<Pattern>, has_parens: bool, mutable: bool, span: Span)
    requires
        ctor_pattern(cx, st, arm, scrut, args, has_parens, mutable, span).1 is Ok,
    ensures
        check_arm_shape(cx, arm, scrut.class, count(args), has_parens, span) is Ok,
        ctor_pattern(cx, st, arm, scrut, args, has_parens, mutable, span).1->Ok_0 matches HPattern::Ctor { class, ty, field_tys, .. } && class == arm
            && field_tys == substitute_all(&class_at(cx, arm).field_tys, &scrut.args, &Chain::Nil) && ty == substitute(&class_at(cx, arm).self_ty, &scrut.args, &Chain::Nil),
{
}

/// A class pattern names the class of its scrutinee and matches all of its
/// fields.
pub proof fn law_class_pattern(
    cx: &Ctx,
    st: Checker,
    scrut: &Nominal,
    qualified: bool,
    name: &Text,
    args: &Chain<Pattern>,
    has_parens: bool,
    ty: &Ty,
    mutable: bool,
    span: Span,
)
    requires
        class_pattern(cx, st, scrut, qualified, name, args, has_parens, ty, mutable, span).1 is Ok,
    ensures
        !qualified,
        has_parens,
        lookup_type(cx, name, &st.env) == Some(scrut.class),
        count(args) == count(&class_at(cx, scrut.class).field_tys),
        class_pattern(cx, st, scrut, qualified, name, args, has_parens, ty, mutable, span).1->Ok_0 matches HPattern::Ctor { class, field_tys, .. } && class == scrut.class
            && field_tys == substitute_all(&class_at(cx, scrut.class).field_tys, &scrut.args, &Chain::Nil),
{
}

/// Whether a callable has the locals that it had, and each further one can
/// be changed exactly where `mutable` says so.
pub open spec fn binds_as(before: Checker, after: Checker, mutable: bool) -> bool {
    &&& before.locals@.len() <= after.locals@.len()
    &&& forall|i: int| 0 <= i < before.locals@.len() ==> after.locals@[i] == #[trigger] before.locals@[i]
    &&& forall|i: int| before.locals@.len() <= i < after.locals@.len() ==> (#[trigger] after.locals@[i]).mutable == mutable
}

proof fn lemma_binds_further(a: Checker, b: Checker, c: Checker, mutable: bool)
    requires
        binds_as(a, b, mutable),
        binds_as(b, c, mutable),
    ensures
        binds_as(a, c, mutable),
{
    assert forall|i: int| 0 <= i < a.locals@.len() implies c.locals@[i] == #[trigger] a.locals@[i] by {
        assert(b.locals@[i] == a.locals@[i]);
    }
    assert forall|i: int| a.locals@.len() <= i < c.locals@.len() implies (#[trigger] c.locals@[i]).mutable == mutable by {
        if i < b.locals@.len() {
            assert(c.locals@[i] == b.locals@[i]);
        }
    }
}

proof fn lemma_bind_right(st: Checker, name: &Text, ty: &Ty, mutable: bool, span: Span)
    ensures
        binds_as(st, bind_pattern(st, name, ty, mutable, span).0, mutable),
{
    law_append(st.locals, LocalVar { ty: *ty, mutable: mutable });
}

/// What a pattern binds can be changed exactly where its scrutinee can:
/// a read-only value gives read-only parts.
pub proof fn law_pattern_rights(cx: &Ctx, st: Checker, pat: &Pattern, ty: &Ty, mutable: bool)
    ensures
        binds_as(st, check_pattern(cx, st, pat, ty, mutable).0, mutable),
    decreases pat, 3int,
{
    match &pat.kind {
        PatternKind::Tuple(items) => {
            if let Ty::Tuple(tys) = ty {
                law_patterns_rights(cx, st, items, tys, mutable);
            }
        },
        PatternKind::Name(name) => lemma_bind_right(st, name, ty, mutable, pat.span),
        PatternKind::Ctor { qualifier, name, args, has_parens } => {
            if is_call_test(qualifier, name, *has_parens, ty) {
                lemma_call_rights(cx, st, args, mutable, pat.span);
            } else {
                lemma_nominal_rights(cx, st, qualifier, name, args, *has_parens, ty, mutable, pat.span);
            }
        },
        _ => {},
    }
}

/// The same holds of a list of patterns.
pub proof fn law_patterns_rights(cx: &Ctx, st: Checker, pats: &Chain<Pattern>, tys: &Chain<Ty>, mutable: bool)
    ensures
        binds_as(st, check_patterns(cx, st, pats, tys, mutable).0, mutable),
    decreases pats, 0int,
{
    if let (Chain::Cons(pat, pats_rest), Chain::Cons(ty, tys_rest)) = (pats, tys) {
        let next = check_pattern(cx, st, &**pat, &**ty, mutable).0;
        law_pattern_rights(cx, st, &**pat, &**ty, mutable);
        law_patterns_rights(cx, next, pats_rest, tys_rest, mutable);
        lemma_binds_further(st, next, check_patterns(cx, next, pats_rest, tys_rest, mutable).0, mutable);
    }
}

proof fn lemma_call_rights(cx: &Ctx, st: Checker, args: &Chain<Pattern>, mutable: bool, span: Span)
    ensures
        binds_as(st, call_pattern(cx, st, args, mutable, span).0, mutable),
    decreases args, 1int,
{
    if let Chain::Cons(descriptor, behind_op) = args {
        if let Chain::Cons(call, behind_call) = &**behind_op {
            if let Chain::Cons(inner, _) = &**behind_call {
                if let Ok(op) = pattern_descriptor(cx, &**descriptor) {
                    let args_ty = op_args_type(cx, op, span)->Ok_0;
                    let reply_ty = op_reply(cx, op, span)->Ok_0;
                    let call_ty = Ty::PendingCall(Box::new(args_ty), Box::new(reply_ty));
                    let next = check_pattern(cx, st, &**call, &call_ty, mutable).0;
                    law_pattern_rights(cx, st, &**call, &call_ty, mutable);
                    law_pattern_rights(cx, next, &**inner, &args_ty, mutable);
                    lemma_binds_further(st, next, check_pattern(cx, next, &**inner, &args_ty, mutable).0, mutable);
                }
            }
        }
    }
}

proof fn lemma_nominal_rights(cx: &Ctx, st: Checker, qualifier: &Option<Text>, name: &Text, args: &Chain<Pattern>, has_parens: bool, ty: &Ty, mutable: bool, span: Span)
    ensures
        binds_as(st, nominal_pattern(cx, st, qualifier, name, args, has_parens, ty, mutable, span).0, mutable),
    decreases args, 2int,
{
    if let Some(scrut) = class_of(cx, ty) {
        match family_of(cx, scrut.class) {
            None => {
                let tys = substitute_all(&class_at(cx, scrut.class).field_tys, &scrut.args, &Chain::Nil);
                law_patterns_rights(cx, st, args, &tys, mutable);
                lemma_class_rights(cx, st, &scrut, qualifier.is_some(), name, args, has_parens, ty, mutable, span);
            },
            Some(family) => {
                if let Some(arm) = find_arm(cx, family, name) {
                    lemma_arm_rights(cx, st, arm, &scrut, args, has_parens, mutable, span);
                }
            },
        }
    }
}

proof fn lemma_class_rights(cx: &Ctx, st: Checker, scrut: &Nominal, qualified: bool, name: &Text, args: &Chain<Pattern>, has_parens: bool, ty: &Ty, mutable: bool, span: Span)
    ensures
        binds_as(st, class_pattern(cx, st, scrut, qualified, name, args, has_parens, ty, mutable, span).0, mutable),
    decreases args, 1int,
{
    let tys = substitute_all(&class_at(cx, scrut.class).field_tys, &scrut.args, &Chain::Nil);
    law_patterns_rights(cx, st, args, &tys, mutable);
}

proof fn lemma_arm_rights(cx: &Ctx, st: Checker, arm: u32, scrut: &Nominal, args: &Chain<Pattern>, has_parens: bool, mutable: bool, span: Span)
    ensures
        binds_as(st, ctor_pattern(cx, st, arm, scrut, args, has_parens, mutable, span).0, mutable),
    decreases args, 1int,
{
    let tys = substitute_all(&class_at(cx, arm).field_tys, &scrut.args, &Chain::Nil);
    law_patterns_rights(cx, st, args, &tys, mutable);
}

} // verus!
