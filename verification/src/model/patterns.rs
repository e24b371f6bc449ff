//! Patterns and the coverage of cases.
//!
//! The functions here state what the functions of the same name compute.

use vstd::prelude::*;
use crate::ast::{CaseArm, Pattern, PatternKind, Span};
use crate::chain::{Chain, chain_of};
use crate::context::{APat, ClassKind, Ctx, Nominal};
use crate::hir::{HPattern, Projection};
use crate::model::answers::useful;
use crate::model::lists::{append, concat, cons, count, holds_name, nth, one, set_nth, two};
use crate::model::lookup::{class_at, class_of, core_inst, family_of, find_arm, is_id, lookup_type};
use crate::model::names::dotted;
use crate::model::resolve::{named, unnamed};
use crate::model::scope::{bind_name, hidden_local};
use crate::model::subst::{substitute, substitute_all};
use crate::model::system::{exact_target, expected_arm, op_args_type, op_reply};
use crate::problem::{Diag, Problem, Stop};
use crate::state::Checker;
use crate::text::Text;
use crate::types::Ty;

verus! {

/// The problem of a pattern that cannot match its scrutinee.
pub open spec fn pattern_mismatch(what: &str, ty: &Ty, span: Span) -> Stop
{
    Stop::Fail(Diag { problem: Problem::PatternMismatch { ty: *ty }, subject: chain_of(what@), span: span })
}

/// Resolve one exact operation named in pattern position, such as
/// `Fs.Read`.
pub open spec fn pattern_descriptor(cx: &Ctx, pat: &Pattern) -> Result<u32, Stop>
{
    match &pat.kind {
        PatternKind::Ctor { qualifier: Some(group), name, args, has_parens } => {
            if *has_parens || !args.is_empty() {
                Err(unnamed(Problem::CallNeedsOperation, pat.span))
            } else {
                match exact_target(&cx.bundle.ops, group, name, 0u32) {
                    Some(target) => Ok(target.slot),
                    None => Err(Stop::Fail(Diag { problem: Problem::NotAnOperation, subject: dotted(group, name), span: pat.span })),
                }
            }
        },
        _ => Err(unnamed(Problem::CallNeedsOperation, pat.span)),
    }
}

/// Whether a pattern is the operation test of a request.
pub open spec fn is_call_test(qualifier: &Option<Text>, name: &Text, has_parens: bool, ty: &Ty) -> bool
{
    qualifier.is_none() && has_parens && ((*name)@ == "Call"@) && (*ty == Ty::Request)
}

/// Bind one name of a pattern to a fresh local.
pub open spec fn bind_pattern(st: Checker, name: &Text, ty: &Ty, mutable: bool, span: Span) -> (Checker, Result<HPattern, Stop>)
{
    if holds_name(&st.binds, name) {
        (st, Err(named(Problem::PatternNameTwice, name, span)))
    } else {
        let (st, slot) = hidden_local(st, *ty, mutable);
        let st = bind_name(st, name, slot);
        (Checker { binds: append(st.binds, *name), ..st }, Ok(HPattern::Bind(slot)))
    }
}

/// Check the patterns of a list against types, position by position.
pub open spec fn check_patterns(
    cx: &Ctx,
    st: Checker,
    pats: &Chain<Pattern>,
    tys: &Chain<Ty>,
    mutable: bool,
) -> (Checker, Result<Chain<HPattern>, Stop>)
    decreases pats, 0int,
{
    match (pats, tys) {
        (Chain::Cons(pat, pats_rest), Chain::Cons(ty, tys_rest)) => {
            match check_pattern(cx, st, pat, ty, mutable) {
                (st, Err(stop)) => (st, Err(stop)),
                (st, Ok(first)) => {
                    match check_patterns(cx, st, pats_rest, tys_rest, mutable) {
                        (st, Err(stop)) => (st, Err(stop)),
                        (st, Ok(rest)) => {
                            (st, Ok(cons(first, rest)))
                        },
                    }
                },
            }
        },
        _ => (st, Ok(Chain::Nil)),
    }
}

/// Require a pattern to name an arm that the scrutinee can hold, with as
/// many parts as the arm has fields. A case-typed scrutinee matches its
/// own arm only.
pub open spec fn check_arm_shape(
    cx: &Ctx,
    arm: u32,
    scrut: u32,
    parts: u32,
    has_parens: bool,
    span: Span,
) -> Result<(), Stop>
{
    let info = class_at(cx, arm);
    let fields = count(&info.field_tys);
    if class_at(cx, scrut).kind == ClassKind::EnumCase && arm != scrut {
        Err(named(Problem::ArmNeverMatches { class: scrut }, &info.arm_short, span))
    } else if !has_parens && fields != 0 {
        Err(named(Problem::ArmNeedsFields { expected: fields }, &info.arm_short, span))
    } else if has_parens && parts != fields {
        Err(named(Problem::ArmPatternCount { expected: fields, found: parts }, &info.arm_short, span))
    } else {
        Ok(())
    }
}

/// Check a constructor pattern of one enum arm.
pub open spec fn ctor_pattern(
    cx: &Ctx,
    st: Checker,
    arm: u32,
    scrut: &Nominal,
    args: &Chain<Pattern>,
    has_parens: bool,
    mutable: bool,
    span: Span,
) -> (Checker, Result<HPattern, Stop>)
    decreases args, 1int,
{
    match check_arm_shape(cx, arm, scrut.class, count(args), has_parens, span) {
        Err(stop) => (st, Err(stop)),
        Ok(_shape) => {
            let info = class_at(cx, arm);
            let tys = substitute_all(&info.field_tys, &scrut.args, &Chain::Nil);
            match check_patterns(cx, st, args, &tys, mutable) {
                (st, Err(stop)) => (st, Err(stop)),
                (st, Ok(sub)) => {
                    (st, Ok(HPattern::Ctor { class: arm, ty: substitute(&info.self_ty, &scrut.args, &Chain::Nil), args: sub, field_tys: tys }))
                },
            }
        },
    }
}

/// Check a constructor pattern of an ordinary class: it names the
/// scrutinee class and binds the whole field layout.
pub open spec fn class_pattern(
    cx: &Ctx,
    st: Checker,
    scrut: &Nominal,
    qualified: bool,
    name: &Text,
    args: &Chain<Pattern>,
    has_parens: bool,
    ty: &Ty,
    mutable: bool,
    span: Span,
) -> (Checker, Result<HPattern, Stop>)
    decreases args, 1int,
{
    let info = class_at(cx, scrut.class);
    let fields = count(&info.field_tys);
    if qualified || !is_id(lookup_type(cx, name, &st.env), scrut.class) {
        (st, Err(named(Problem::ClassPatternName { class: scrut.class }, name, span)))
    } else if !has_parens || count(args) != fields {
        (st, Err(named(Problem::ClassPatternCount { expected: fields, found: count(args) }, name, span)))
    } else {
        let tys = substitute_all(&info.field_tys, &scrut.args, &Chain::Nil);
        match check_patterns(cx, st, args, &tys, mutable) {
            (st, Err(stop)) => (st, Err(stop)),
            (st, Ok(sub)) => {
                (st, Ok(HPattern::Ctor { class: scrut.class, ty: *ty, args: sub, field_tys: tys }))
            },
        }
    }
}

/// Check `Call(Op, call, args)` on a request: one operation test that
/// binds the call and its arguments.
pub open spec fn call_pattern(
    cx: &Ctx,
    st: Checker,
    args: &Chain<Pattern>,
    mutable: bool,
    span: Span,
) -> (Checker, Result<HPattern, Stop>)
    decreases args, 1int,
{
    match args {
        Chain::Cons(descriptor, behind_op) => {
            match &**behind_op {
                Chain::Cons(call, behind_call) => {
                    match &**behind_call {
                        Chain::Cons(inner, more) => {
                            if !more.is_empty() {
                                (st, Err(unnamed(Problem::CallPatternCount { found: count(args) }, span)))
                            } else {
                                match pattern_descriptor(cx, descriptor) {
                                    Err(stop) => (st, Err(stop)),
                                    Ok(op) => {
                                        match op_args_type(cx, op, span) {
                                            Err(stop) => (st, Err(stop)),
                                            Ok(args_ty) => {
                                                match op_reply(cx, op, span) {
                                                    Err(stop) => (st, Err(stop)),
                                                    Ok(reply_ty) => {
                                                        let call_ty = Ty::PendingCall(Box::new(args_ty), Box::new(reply_ty));
                                                        match core_inst(cx, "Option", one(call_ty), span) {
                                                            Err(stop) => (st, Err(stop)),
                                                            Ok(option_ty) => {
                                                                let some_ty = substitute(&class_at(cx, cx.core.some_class).self_ty, &one(call_ty), &Chain::Nil);
                                                                match check_pattern(cx, st, call, &call_ty, mutable) {
                                                                    (st, Err(stop)) => (st, Err(stop)),
                                                                    (st, Ok(call_pat)) => {
                                                                        match check_pattern(cx, st, inner, &args_ty, mutable) {
                                                                            (st, Err(stop)) => (st, Err(stop)),
                                                                            (st, Ok(args_pat)) => {
                                                                                let projected = HPattern::Project { projection: Projection::CallArgs, ty: args_ty, inner: Box::new(args_pat) };
                                                                                let both = HPattern::And(two(call_pat, projected));
                                                                                let found = HPattern::Ctor { class: cx.core.some_class, ty: some_ty, args: one(both), field_tys: one(call_ty) };
                                                                                (st, Ok(HPattern::Project { projection: Projection::AsCall(op), ty: option_ty, inner: Box::new(found) }))
                                                                            },
                                                                        }
                                                                    },
                                                                }
                                                            },
                                                        }
                                                    },
                                                }
                                            },
                                        }
                                    },
                                }
                            }
                        },
                        Chain::Nil => (st, Err(unnamed(Problem::CallPatternCount { found: 2 }, span))),
                    }
                },
                Chain::Nil => (st, Err(unnamed(Problem::CallPatternCount { found: 1 }, span))),
            }
        },
        Chain::Nil => (st, Err(unnamed(Problem::CallPatternCount { found: 0 }, span))),
    }
}

/// Check a constructor pattern of a class or an enum.
pub open spec fn nominal_pattern(
    cx: &Ctx,
    st: Checker,
    qualifier: &Option<Text>,
    name: &Text,
    args: &Chain<Pattern>,
    has_parens: bool,
    ty: &Ty,
    mutable: bool,
    span: Span,
) -> (Checker, Result<HPattern, Stop>)
    decreases args, 2int,
{
    match class_of(cx, ty) {
        None => (st, Err(unnamed(Problem::NoConstructors { ty: *ty }, span))),
        Some(scrut) => {
            match family_of(cx, scrut.class) {
                None => class_pattern(cx, st, &scrut, qualifier.is_some(), name, args, has_parens, ty, mutable, span),
                Some(family) => {
                    let fits = match qualifier {
                        Some(written) => is_id(lookup_type(cx, written, &st.env), family),
                        None => true,
                    };
                    if !fits {
                        (st, Err(Stop::Fail(Diag { problem: Problem::WrongQualifier { family: family }, subject: written_text(qualifier), span: span })))
                    } else {
                        match find_arm(cx, family, name) {
                            None => (st, Err(named(Problem::NoArm { family: family }, name, span))),
                            Some(arm) => ctor_pattern(cx, st, arm, &scrut, args, has_parens, mutable, span),
                        }
                    }
                },
            }
        },
    }
}

/// A written name, or the empty name.
pub open spec fn written_text(written: &Option<Text>) -> Text
{
    match written {
        Some(found) => *found,
        None => Chain::Nil,
    }
}

/// Check a bare name in pattern position: an arm of the scrutinee enum,
/// or a new local.
pub open spec fn name_pattern(
    cx: &Ctx,
    st: Checker,
    name: &Text,
    ty: &Ty,
    mutable: bool,
    span: Span,
) -> (Checker, Result<HPattern, Stop>)
{
    match (class_of(cx, ty), expected_arm(cx, Some(ty), name)) {
        (Some(scrut), Some(arm)) => {
            match check_arm_shape(cx, arm, scrut.class, 0u32, false, span) {
                Err(stop) => (st, Err(stop)),
                Ok(_shape) => {
                    (st, Ok(HPattern::Ctor { class: arm, ty: substitute(&class_at(cx, arm).self_ty, &scrut.args, &Chain::Nil), args: Chain::Nil, field_tys: Chain::Nil }))
                },
            }
        },
        _ => bind_pattern(st, name, ty, mutable, span),
    }
}

/// Check one pattern against a scrutinee type.
pub open spec fn check_pattern(cx: &Ctx, st: Checker, pat: &Pattern, ty: &Ty, mutable: bool) -> (Checker, Result<HPattern, Stop>)
    decreases pat, 3int,
{
    match &pat.kind {
        PatternKind::Wildcard => (st, Ok(HPattern::Wildcard)),
        PatternKind::Tuple(items) => {
            if items.is_empty() {
                if (*ty == Ty::Unit) {
                    (st, Ok(HPattern::Wildcard))
                } else {
                    (st, Err(pattern_mismatch("a unit", ty, pat.span)))
                }
            } else {
                match ty {
                    Ty::Tuple(tys) => {
                        if count(tys) != count(items) {
                            (st, Err(unnamed(Problem::TuplePatternCount { expected: count(tys), found: count(items), ty: *ty }, pat.span)))
                        } else {
                            match check_patterns(cx, st, items, tys, mutable) {
                                (st, Err(stop)) => (st, Err(stop)),
                                (st, Ok(elems)) => {
                                    (st, Ok(HPattern::Tuple { elems: elems, elem_tys: *tys }))
                                },
                            }
                        }
                    },
                    _ => (st, Err(pattern_mismatch("a tuple", ty, pat.span))),
                }
            }
        },
        PatternKind::Int(value) => {
            if (*ty == Ty::Int) {
                (st, Ok(HPattern::Int(*value)))
            } else {
                (st, Err(pattern_mismatch("an integer literal", ty, pat.span)))
            }
        },
        PatternKind::Bool(value) => {
            if (*ty == Ty::Bool) {
                (st, Ok(HPattern::Bool(*value)))
            } else {
                (st, Err(pattern_mismatch("a Bool literal", ty, pat.span)))
            }
        },
        PatternKind::Str(value) => {
            if (*ty == Ty::Str) {
                (st, Ok(HPattern::Str(*value)))
            } else {
                (st, Err(pattern_mismatch("a string literal", ty, pat.span)))
            }
        },
        PatternKind::Name(name) => name_pattern(cx, st, name, ty, mutable, pat.span),
        PatternKind::Ctor { qualifier, name, args, has_parens } => {
            if is_call_test(qualifier, name, *has_parens, ty) {
                call_pattern(cx, st, args, mutable, pat.span)
            } else {
                nominal_pattern(cx, st, qualifier, name, args, *has_parens, ty, mutable, pat.span)
            }
        },
        PatternKind::Reflect { kind, generics: _, signature: _, binding: _ } => (st, Err(named(Problem::UnknownReflection, kind, pat.span))),
    }
}

/// The abstract form of each pattern.
pub open spec fn hpats_to_apats(pats: &Chain<HPattern>) -> Chain<APat>
    decreases pats,
{
    match pats {
        Chain::Nil => Chain::Nil,
        Chain::Cons(head, tail) => cons(hpat_to_apat(head), hpats_to_apats(tail)),
    }
}

/// The first pattern of a list that tests something.
pub open spec fn first_test(pats: &Chain<HPattern>) -> APat
    decreases pats,
{
    match pats {
        Chain::Nil => APat::Wild,
        Chain::Cons(head, tail) => {
            match hpat_to_apat(head) {
                APat::Wild => first_test(tail),
                found => found,
            }
        },
    }
}

/// What a checked pattern tests. An operation test keeps its identity
/// only: a request arm never reads as exhaustive and never hides a later
/// arm.
pub open spec fn hpat_to_apat(pat: &HPattern) -> APat
    decreases pat,
{
    match pat {
        HPattern::Wildcard => APat::Wild,
        HPattern::Bind(_) => APat::Wild,
        HPattern::Tuple { elems, elem_tys: _ } => APat::Tuple(hpats_to_apats(elems)),
        HPattern::Project { projection, ty: _, inner } => {
            match *projection {
                Projection::AsCall(op) => APat::Call(op),
                Projection::CallArgs => hpat_to_apat(inner),
            }
        },
        HPattern::And(parts) => first_test(parts),
        HPattern::Int(value) => APat::Int(*value),
        HPattern::Bool(value) => APat::Bool(*value),
        HPattern::Str(value) => APat::Str(*value),
        HPattern::Ctor { class, ty: _, args, field_tys: _ } => APat::Ctor(*class, hpats_to_apats(args)),
    }
}

/// One wildcard for each element.
pub open spec fn wilds<T>(items: &Chain<T>) -> Chain<APat>
    decreases items,
{
    match items {
        Chain::Nil => Chain::Nil,
        Chain::Cons(_, tail) => cons(APat::Wild, wilds(tail)),
    }
}

/// A pattern for each other arm of an enum.
pub open spec fn sibling_patterns(cx: &Ctx, arms: &Chain<u32>, class: u32) -> Chain<APat>
    decreases arms,
{
    match arms {
        Chain::Nil => Chain::Nil,
        Chain::Cons(head, tail) => {
            let rest = sibling_patterns(cx, tail, class);
            if **head == class {
                rest
            } else {
                cons(APat::Ctor(**head, wilds(&class_at(cx, **head).field_tys)), rest)
            }
        },
    }
}

/// The type of a field: a class argument for a bare type parameter.
pub open spec fn field_type(ty: &Ty, args: &Chain<Ty>) -> Ty
{
    match ty {
        Ty::Var(index) => {
            match nth(args, *index) {
                Some(found) => *found,
                None => *ty,
            }
        },
        _ => *ty,
    }
}

/// Patterns of one field, as patterns of its class.
pub open spec fn wrap_field(inner: Chain<APat>, class: u32, fields: &Chain<Ty>, at: u32) -> Chain<APat>
    decreases inner,
{
    match inner {
        Chain::Nil => Chain::Nil,
        Chain::Cons(head, tail) => cons(APat::Ctor(class, set_nth(wilds(fields), at, *head)), wrap_field(*tail, class, fields, at)),
    }
}

/// The values that the field types exclude.
pub open spec fn impossible_fields(
    cx: &Ctx,
    class: u32,
    rest: &Chain<Ty>,
    fields: &Chain<Ty>,
    args: &Chain<Ty>,
    at: u32,
    steps: u32,
) -> Chain<APat>
    decreases steps, rest,
{
    match rest {
        Chain::Nil => Chain::Nil,
        Chain::Cons(head, tail) => {
            if steps == 0 {
                Chain::Nil
            } else {
                let inner = impossible_at(cx, &field_type(head, args), (steps - 1) as u32);
                concat(wrap_field(inner, class, fields, at), impossible_fields(cx, class, tail, fields, args, at.wrapping_add(1), steps))
            }
        },
    }
}

/// The values that a type excludes, up to a depth.
pub open spec fn impossible_at(cx: &Ctx, ty: &Ty, steps: u32) -> Chain<APat>
    decreases steps, Chain::<u32>::Nil,
{
    match class_of(cx, ty) {
        None => Chain::Nil,
        Some(nominal) => {
            let info = class_at(cx, nominal.class);
            match (info.kind, info.family) {
                (ClassKind::EnumCase, Some(family)) => {
                    let siblings = sibling_patterns(cx, &class_at(cx, family).arms, nominal.class);
                    if steps == 0 {
                        siblings
                    } else {
                        concat(siblings, impossible_fields(cx, nominal.class, &info.field_tys, &info.field_tys, &nominal.args, 0u32, (steps - 1) as u32))
                    }
                },
                _ => Chain::Nil,
            }
        },
    }
}

/// The patterns that cover every value outside a static type. An
/// arm-typed position excludes its sibling arms, at the top level and
/// inside every arm-typed field.
pub open spec fn impossible_patterns(cx: &Ctx, ty: &Ty) -> Chain<APat>
{
    impossible_at(cx, ty, 0xffff_ffffu32)
}

/// The work limit of the coverage analysis of one case.
pub open spec fn pattern_budget() -> u64
{
    1_000_000u64
}

/// Require each arm behind the first to match a value that no earlier
/// arm matches. The arms of a case share one work limit; what they leave
/// of it stands behind their patterns.
pub open spec fn check_reachable(
    cx: &Ctx,
    arms: &Chain<CaseArm>,
    rows: &Chain<APat>,
    earlier: Chain<APat>,
    budget: u64,
) -> Result<(Chain<APat>, u64), Stop>
    decreases arms,
{
    match (arms, rows) {
        (Chain::Cons(arm, arms_rest), Chain::Cons(row, rows_rest)) => {
            match check_arm_useful(cx, &earlier, row, budget, arm.span) {
                Err(stop) => Err(stop),
                Ok(left) => {
                    check_reachable(cx, arms_rest, rows_rest, append(earlier, **row), left)
                },
            }
        },
        _ => Ok((earlier, budget)),
    }
}

/// Require an arm to match a new value, and give the work that is left.
pub open spec fn check_arm_useful(cx: &Ctx, earlier: &Chain<APat>, row: &APat, budget: u64, span: Span) -> Result<u64, Stop>
{
    if earlier.is_empty() {
        Ok(budget)
    } else {
        match useful(cx, earlier, row, budget) {
            Err(stop) => Err(stop),
            Ok(found) => {
                match found {
                    None => Err(unnamed(Problem::PatternWorkLimit, span)),
                    Some((true, left)) => Ok(left),
                    Some((false, _)) => Err(unnamed(Problem::ArmUnreachable, span)),
                }
            },
        }
    }
}

/// Prove exhaustiveness and reject unreachable arms. Values outside the
/// static scrutinee type cannot occur, so they count as covered.
pub open spec fn analyze_arms(
    cx: &Ctx,
    ty: &Ty,
    arms: &Chain<CaseArm>,
    pats: &Chain<HPattern>,
    span: Span,
) -> Result<(), Stop>
{
    match check_reachable(cx, arms, &hpats_to_apats(pats), Chain::Nil, pattern_budget()) {
        Err(stop) => Err(stop),
        Ok(reached) => {
            let covered = concat(reached.0, impossible_patterns(cx, ty));
            match useful(cx, &covered, &APat::Wild, reached.1) {
                Err(stop) => Err(stop),
                Ok(missing) => {
                    match missing {
                        None => Err(unnamed(Problem::PatternWorkLimit, span)),
                        Some((true, _)) => Err(unnamed(Problem::NotExhaustive { ty: *ty }, span)),
                        Some((false, _)) => Ok(()),
                    }
                },
            }
        },
    }
}

} // verus!
