//! Cases: what an accepted case has proved of its arms, and what its
//! patterns match.

use vstd::prelude::*;
use crate::ast::{CaseArm, Expr, Pattern, PatternKind, Span};
use crate::chain::Chain;
use crate::context::{APat, Answer, Ctx, Query};
use crate::hir::{HArm, HExpr, HKind, HPattern, HStmt};
use crate::laws::lists::{law_append, law_concat, law_count};
use crate::model::answers::{recall, useful};
use crate::model::branches::{any_reflect, check_case, check_case_arm, check_case_value, gather_arms, is_synth, pair_arms, settle_arms, try_arms};
use crate::model::exprs::synth_expr;
use crate::model::lists::{append, concat, count};
use crate::model::lookup::class_at;
use crate::model::patterns::{analyze_arms, check_arm_useful, check_pattern, check_patterns, check_reachable, hpat_to_apat, hpats_to_apats, impossible_patterns, pattern_budget, sibling_patterns, wilds};
use crate::model::scope::{ctor_state, hidden_local};
use crate::problem::{Diag, Problem, Stop};
use crate::state::{ArmOut, BlockMode, Checker, CtorState};
use crate::text::Text;
use crate::types::Ty;

verus! {

/// Whether the answer to one coverage question is known.
pub open spec fn answered(cx: &Ctx, earlier: Chain<APat>, pattern: APat, budget: u64, holds: bool, left: u64) -> bool {
    recall(&cx.answers, &Query::Useful(earlier, pattern, budget)) == Some(&Answer::Weighed(holds, left))
}

/// Whether it is known that a pattern matches something that earlier
/// patterns leave, or that it matches nothing more.
pub open spec fn known_useful(cx: &Ctx, earlier: Chain<APat>, pattern: APat, holds: bool) -> bool {
    exists|budget: u64, left: u64| #[trigger] answered(cx, earlier, pattern, budget, holds, left)
}

/// Whether patterns are known to match every value of a type: behind them
/// and the values that the type excludes, a wildcard matches nothing.
pub open spec fn covers(cx: &Ctx, ty: Ty, patterns: Chain<HPattern>) -> bool {
    known_useful(cx, concat(hpats_to_apats(&patterns), impossible_patterns(cx, &ty)), APat::Wild, false)
}

/// Whether each pattern behind the first is known to match a value that the
/// earlier ones leave.
pub open spec fn all_reached(cx: &Ctx, rows: Seq<APat>) -> bool {
    forall|i: int| 0 < i < rows.len() ==> exists|earlier: Chain<APat>|
        earlier@ == #[trigger] rows.take(i) && known_useful(cx, earlier, rows[i], true)
}

/// Whether the rows from one position on are each known to match something
/// new.
spec fn reached_from(cx: &Ctx, rows: Seq<APat>, from: int) -> bool {
    forall|i: int| from <= i < rows.len() && 0 < i ==> exists|earlier: Chain<APat>|
        earlier@ == #[trigger] rows.take(i) && known_useful(cx, earlier, rows[i], true)
}

proof fn lemma_arm_useful(cx: &Ctx, earlier: Chain<APat>, row: APat, budget: u64, span: Span)
    ensures
        check_arm_useful(cx, &earlier, &row, budget, span) is Ok ==> earlier is Nil || known_useful(cx, earlier, row, true),
        earlier is Cons && useful(cx, &earlier, &row, budget) == Ok::<Option<(bool, u64)>, Stop>(Some((false, 0))) ==> check_arm_useful(
            cx,
            &earlier,
            &row,
            budget,
            span,
        ) is Err,
{
    if earlier is Cons {
        if let Ok(left) = check_arm_useful(cx, &earlier, &row, budget, span) {
            assert(answered(cx, earlier, row, budget, true, left));
        }
    }
}

proof fn lemma_reachable(cx: &Ctx, arms: Chain<CaseArm>, rows: Chain<APat>, earlier: Chain<APat>, budget: u64)
    requires
        arms@.len() == rows@.len(),
    ensures
        check_reachable(cx, &arms, &rows, earlier, budget) matches Ok(done) ==> done.0 == concat(earlier, rows) && reached_from(
            cx,
            earlier@ + rows@,
            earlier@.len() as int,
        ),
    decreases arms,
{
    match (arms, rows) {
        (Chain::Cons(arm, arms_rest), Chain::Cons(row, rows_rest)) => {
            lemma_arm_useful(cx, earlier, *row, budget, arm.span);
            if let Ok(left) = check_arm_useful(cx, &earlier, &*row, budget, arm.span) {
                let next = append(earlier, *row);
                law_append(earlier, *row);
                lemma_reachable(cx, *arms_rest, *rows_rest, next, left);
                let all = earlier@ + rows@;
                assert(next@ + rows_rest@ =~= all);
                crate::chain::chain_view_of(concat(next, *rows_rest));
                crate::chain::chain_view_of(concat(earlier, rows));
                law_concat(next, *rows_rest);
                law_concat(earlier, rows);
                if check_reachable(cx, &arms, &rows, earlier, budget) is Ok {
                    assert forall|i: int| earlier@.len() <= i < all.len() && 0 < i implies exists|before: Chain<APat>|
                        before@ == #[trigger] all.take(i) && known_useful(cx, before, all[i], true) by {
                        if i == earlier@.len() {
                            assert(all.take(i) =~= earlier@);
                            assert(all[i] == *row);
                            assert(earlier is Cons);
                            assert(earlier@ == all.take(i) && known_useful(cx, earlier, all[i], true));
                        }
                    }
                }
            }
        },
        _ => {
            assert(earlier@ + rows@ =~= earlier@);
            crate::chain::chain_view_of(concat(earlier, rows));
            crate::chain::chain_view_of(earlier);
            law_concat(earlier, rows);
        },
    }
}

proof fn lemma_rows(patterns: Chain<HPattern>)
    ensures
        hpats_to_apats(&patterns)@.len() == patterns@.len(),
        forall|i: int| 0 <= i < patterns@.len() ==> #[trigger] hpats_to_apats(&patterns)@[i] == hpat_to_apat(&patterns@[i]),
    decreases patterns,
{
    match patterns {
        Chain::Nil => {},
        Chain::Cons(head, tail) => {
            lemma_rows(*tail);
            assert forall|i: int| 0 <= i < patterns@.len() implies #[trigger] hpats_to_apats(&patterns)@[i] == hpat_to_apat(&patterns@[i]) by {
                if i > 0 {
                    assert(hpats_to_apats(&patterns)@[i] == hpats_to_apats(&*tail)@[i - 1]);
                    assert(patterns@[i] == tail@[i - 1]);
                }
            }
        },
    }
}

/// An accepted analysis has proved that the patterns match every value of
/// the type, and that each one matches a value that the earlier ones leave.
pub proof fn law_analyze_arms(cx: &Ctx, ty: &Ty, arms: &Chain<CaseArm>, patterns: &Chain<HPattern>, span: Span)
    requires
        arms@.len() == patterns@.len(),
    ensures
        analyze_arms(cx, ty, arms, patterns, span) is Ok ==> covers(cx, *ty, *patterns) && all_reached(cx, hpats_to_apats(patterns)@),
{
    let rows = hpats_to_apats(patterns);
    lemma_rows(*patterns);
    lemma_reachable(cx, *arms, rows, Chain::Nil, pattern_budget());
    assert(Chain::<APat>::Nil@ + rows@ =~= rows@);
    if analyze_arms(cx, ty, arms, patterns, span) is Ok {
        let done = check_reachable(cx, arms, &rows, Chain::Nil, pattern_budget())->Ok_0;
        assert(concat(Chain::Nil, rows) == rows);
        let covered = concat(rows, impossible_patterns(cx, ty));
        let left = (useful(cx, &covered, &APat::Wild, done.1)->Ok_0->Some_0).1;
        assert(answered(cx, covered, APat::Wild, done.1, false, left));
        assert forall|i: int| 0 < i < rows@.len() implies exists|earlier: Chain<APat>|
            earlier@ == #[trigger] rows@.take(i) && known_useful(cx, earlier, rows@[i], true) by {
            assert((Chain::<APat>::Nil@ + rows@).take(i) == rows@.take(i));
        }
    }
}

/// A case that is known to leave a value is refused for that.
pub proof fn law_uncovered(cx: &Ctx, ty: &Ty, arms: &Chain<CaseArm>, patterns: &Chain<HPattern>, span: Span, rows: Chain<APat>, budget: u64, left: u64)
    requires
        check_reachable(cx, arms, &hpats_to_apats(patterns), Chain::Nil, pattern_budget()) == Ok::<(Chain<APat>, u64), Stop>((rows, budget)),
        answered(cx, concat(rows, impossible_patterns(cx, ty)), APat::Wild, budget, true, left),
    ensures
        analyze_arms(cx, ty, arms, patterns, span) == Err::<(), Stop>(
            Stop::Fail(Diag { problem: Problem::NotExhaustive { ty: *ty }, subject: Chain::Nil, span }),
        ),
{
}

/// The patterns of checked arms.
pub open spec fn patterns_of(arms: Chain<HArm>) -> Chain<HPattern>
    decreases arms,
{
    match arms {
        Chain::Nil => Chain::Nil,
        Chain::Cons(head, tail) => Chain::Cons(Box::new(head.pattern), Box::new(patterns_of(*tail))),
    }
}

proof fn lemma_paired(patterns: Chain<HPattern>, bodies: Chain<Chain<HStmt>>)
    requires
        patterns@.len() == bodies@.len(),
    ensures
        patterns_of(pair_arms(patterns, bodies)) == patterns,
        pair_arms(patterns, bodies)@.len() == patterns@.len(),
    decreases patterns,
{
    match (patterns, bodies) {
        (Chain::Cons(_, patterns_rest), Chain::Cons(_, bodies_rest)) => lemma_paired(*patterns_rest, *bodies_rest),
        _ => {},
    }
}

/// Whether each of a list is there.
pub open spec fn all_there<T>(items: Chain<Option<T>>) -> bool
    decreases items,
{
    match items {
        Chain::Nil => true,
        Chain::Cons(head, tail) => *head is Some && all_there(*tail),
    }
}

pub proof fn lemma_gathered(found: Chain<Option<ArmOut>>)
    ensures
        gather_arms(found).patterns@.len() == gather_arms(found).bodies@.len(),
        all_there(found) ==> gather_arms(found).patterns@.len() == found@.len(),
    decreases found,
{
    match found {
        Chain::Nil => {},
        Chain::Cons(_, tail) => lemma_gathered(*tail),
    }
}

/// What checking each arm gives.
#[verifier::opaque]
spec fn tried(cx: &Ctx, st: Checker, arms: Chain<CaseArm>, ty: Ty, mutable: bool, mode: BlockMode, entry: Option<CtorState>, defer: bool) -> (
    Checker,
    Result<crate::state::Tried<ArmOut>, Stop>,
) {
    try_arms(cx, st, &arms, &ty, mutable, &mode, &entry, defer)
}

proof fn lemma_tried(cx: &Ctx, st: Checker, arms: Chain<CaseArm>, ty: Ty, mutable: bool, mode: BlockMode, entry: Option<CtorState>, defer: bool)
    ensures
        tried(cx, st, arms, ty, mutable, mode, entry, defer).1 matches Ok(found) ==> found.found@.len() == arms@.len() && (found.gap is None
            || !defer ==> all_there(found.found)),
    decreases arms,
{
    reveal(tried);
    match arms {
        Chain::Nil => {},
        Chain::Cons(head, tail) => {
            let next = check_case_arm(cx, st, &*head, &ty, mutable, &mode, &entry).0;
            lemma_tried(cx, next, *tail, ty, mutable, mode, entry, defer);
        },
    }
}

proof fn lemma_settled(cx: &Ctx, st: Checker, arms: Chain<CaseArm>, ty: Ty, mutable: bool, mode: BlockMode, entry: Option<CtorState>)
    ensures
        settle_arms(cx, st, &arms, &ty, mutable, &mode, &entry).1 matches Ok(found) ==> found.found@.len() == arms@.len() && all_there(found.found),
{
    reveal(tried);
    let defer = is_synth(&mode);
    lemma_tried(cx, st, arms, ty, mutable, mode, entry, defer);
    let (next, first) = tried(cx, st, arms, ty, mutable, mode, entry, defer);
    if let Ok(found) = settle_arms(cx, st, &arms, &ty, mutable, &mode, &entry).1 {
        if let Some(hint) = found.hint {
            lemma_tried(cx, next, arms, ty, mutable, BlockMode::Value(hint), entry, false);
        }
    }
}

/// Whether a checked case has one arm for each written arm, and these are
/// known to match every value of its scrutinee.
pub open spec fn exhaustive(cx: &Ctx, found: HExpr, arms: Chain<CaseArm>) -> bool {
    *found.kind matches HKind::Case { scrut, arms: checked, .. } && checked@.len() == arms@.len() && covers(cx, scrut.ty, patterns_of(checked))
        && all_reached(cx, hpats_to_apats(&patterns_of(checked))@)
}

/// An accepted case matches every value of its scrutinee.
pub proof fn law_case_value(cx: &Ctx, st: Checker, scrut: HExpr, arms: &Chain<CaseArm>, mode: &BlockMode, span: Span)
    requires
        !any_reflect(arms),
    ensures
        check_case_value(cx, st, scrut, arms, mode, span).1 matches Ok(found) ==> exhaustive(cx, found, *arms) && (*found.kind matches HKind::Case {
            scrut: kept,
            ..
        } && kept == scrut),
{
    if let Ok(found) = check_case_value(cx, st, scrut, arms, mode, span).1 {
        let (st1, _) = hidden_local(st, scrut.ty, scrut.mutable);
        let entry = ctor_state(&st1);
        lemma_settled(cx, st1, *arms, scrut.ty, scrut.mutable, *mode, entry);
        let settled = settle_arms(cx, st1, arms, &scrut.ty, scrut.mutable, mode, &entry).1->Ok_0;
        lemma_gathered(settled.found);
        let gathered = gather_arms(settled.found);
        lemma_paired(gathered.patterns, gathered.bodies);
        law_analyze_arms(cx, &scrut.ty, arms, &gathered.patterns, span);
    }
}

/// An accepted case expression matches every value of its scrutinee.
pub proof fn law_case(cx: &Ctx, st: Checker, scrut: &Expr, arms: &Chain<CaseArm>, mode: &BlockMode, span: Span)
    requires
        !any_reflect(arms),
    ensures
        check_case(cx, st, scrut, arms, mode, span).1 matches Ok(found) ==> exhaustive(cx, found, *arms),
{
    let (next, value) = synth_expr(cx, st, scrut);
    if let Ok(checked) = value {
        law_case_value(cx, next, checked, arms, mode, span);
    }
}

/// A value that a pattern can match.
pub enum Sample {
    Int(i64),
    Bool(bool),
    Str(Text),
    Tuple(Chain<Sample>),
    Made(u32, Chain<Sample>),
}

/// Whether a pattern binds and tests parts of a value alone.
pub open spec fn structural(pattern: HPattern) -> bool
    decreases pattern,
{
    match pattern {
        HPattern::Tuple { elems, .. } => all_structural(elems),
        HPattern::Ctor { args, .. } => all_structural(args),
        HPattern::Project { .. } => false,
        HPattern::And(_) => false,
        _ => true,
    }
}

/// Whether each pattern does.
pub open spec fn all_structural(patterns: Chain<HPattern>) -> bool
    decreases patterns,
{
    match patterns {
        Chain::Nil => true,
        Chain::Cons(head, tail) => structural(*head) && all_structural(*tail),
    }
}

/// Whether a checked pattern matches a value.
pub open spec fn matches_value(pattern: HPattern, value: Sample) -> bool
    decreases pattern,
{
    match pattern {
        HPattern::Wildcard => true,
        HPattern::Bind(_) => true,
        HPattern::Int(n) => value == Sample::Int(n),
        HPattern::Bool(b) => value == Sample::Bool(b),
        HPattern::Str(s) => value == Sample::Str(s),
        HPattern::Tuple { elems, .. } => value matches Sample::Tuple(items) && match_values(elems, items),
        HPattern::Ctor { class, args, .. } => value matches Sample::Made(made, items) && made == class && match_values(args, items),
        _ => false,
    }
}

/// Whether checked patterns match values, position by position.
pub open spec fn match_values(patterns: Chain<HPattern>, values: Chain<Sample>) -> bool
    decreases patterns,
{
    match (patterns, values) {
        (Chain::Nil, Chain::Nil) => true,
        (Chain::Cons(p, ps), Chain::Cons(v, vs)) => matches_value(*p, *v) && match_values(*ps, *vs),
        _ => false,
    }
}

/// Whether the abstract form of a pattern matches a value.
pub open spec fn matches_abstract(pattern: APat, value: Sample) -> bool
    decreases pattern,
{
    match pattern {
        APat::Wild => true,
        APat::Int(n) => value == Sample::Int(n),
        APat::Bool(b) => value == Sample::Bool(b),
        APat::Str(s) => value == Sample::Str(s),
        APat::Tuple(elems) => value matches Sample::Tuple(items) && match_abstracts(elems, items),
        APat::Ctor(class, args) => value matches Sample::Made(made, items) && made == class && match_abstracts(args, items),
        _ => false,
    }
}

/// Whether abstract forms match values, position by position.
pub open spec fn match_abstracts(patterns: Chain<APat>, values: Chain<Sample>) -> bool
    decreases patterns,
{
    match (patterns, values) {
        (Chain::Nil, Chain::Nil) => true,
        (Chain::Cons(p, ps), Chain::Cons(v, vs)) => matches_abstract(*p, *v) && match_abstracts(*ps, *vs),
        _ => false,
    }
}

/// The coverage analysis sees of a pattern exactly the values that it
/// matches.
pub proof fn law_abstract_pattern(pattern: HPattern, value: Sample)
    requires
        structural(pattern),
    ensures
        matches_abstract(hpat_to_apat(&pattern), value) == matches_value(pattern, value),
    decreases pattern,
{
    match (pattern, value) {
        (HPattern::Tuple { elems, .. }, Sample::Tuple(items)) => law_abstract_patterns(elems, items),
        (HPattern::Ctor { args, .. }, Sample::Made(_, items)) => law_abstract_patterns(args, items),
        _ => {},
    }
}

/// The coverage analysis sees of patterns exactly what they match.
pub proof fn law_abstract_patterns(patterns: Chain<HPattern>, values: Chain<Sample>)
    requires
        all_structural(patterns),
    ensures
        match_abstracts(hpats_to_apats(&patterns), values) == match_values(patterns, values),
    decreases patterns,
{
    match (patterns, values) {
        (Chain::Cons(p, ps), Chain::Cons(v, vs)) => {
            law_abstract_pattern(*p, *v);
            law_abstract_patterns(*ps, *vs);
        },
        _ => {},
    }
}

/// Whether a written pattern names nothing: literals, wildcards and tuples
/// of them.
pub open spec fn nameless(pattern: Pattern) -> bool
    decreases pattern,
{
    match pattern.kind {
        PatternKind::Wildcard | PatternKind::Int(_) | PatternKind::Bool(_) | PatternKind::Str(_) => true,
        PatternKind::Tuple(items) => items is Cons && items@.len() <= u32::MAX && all_nameless(items),
        _ => false,
    }
}

/// Whether written patterns name nothing.
pub open spec fn all_nameless(patterns: Chain<Pattern>) -> bool
    decreases patterns,
{
    match patterns {
        Chain::Nil => true,
        Chain::Cons(head, tail) => nameless(*head) && all_nameless(*tail),
    }
}

/// Whether a written pattern matches a value.
pub open spec fn written_matches(pattern: Pattern, value: Sample) -> bool
    decreases pattern,
{
    match pattern.kind {
        PatternKind::Wildcard => true,
        PatternKind::Int(n) => value == Sample::Int(n),
        PatternKind::Bool(b) => value == Sample::Bool(b),
        PatternKind::Str(s) => value == Sample::Str(s),
        PatternKind::Tuple(items) => value matches Sample::Tuple(values) && written_match(items, values),
        _ => false,
    }
}

/// Whether written patterns match values, position by position.
pub open spec fn written_match(patterns: Chain<Pattern>, values: Chain<Sample>) -> bool
    decreases patterns,
{
    match (patterns, values) {
        (Chain::Nil, Chain::Nil) => true,
        (Chain::Cons(p, ps), Chain::Cons(v, vs)) => written_matches(*p, *v) && written_match(*ps, *vs),
        _ => false,
    }
}

/// A checked pattern matches what the written one matches.
pub proof fn law_pattern_kept(cx: &Ctx, st: Checker, pattern: Pattern, ty: Ty, mutable: bool, value: Sample)
    requires
        nameless(pattern),
    ensures
        check_pattern(cx, st, &pattern, &ty, mutable).1 matches Ok(found) ==> matches_value(found, value) == written_matches(pattern, value),
    decreases pattern,
{
    match (pattern.kind, ty, value) {
        (PatternKind::Tuple(items), Ty::Tuple(tys), Sample::Tuple(values)) => {
            law_count(&items);
            law_count(&tys);
            if count(&tys) == count(&items) {
                law_patterns_kept(cx, st, items, tys, mutable, values);
            }
        },
        _ => {},
    }
}

/// Checked patterns match what the written ones match.
pub proof fn law_patterns_kept(cx: &Ctx, st: Checker, patterns: Chain<Pattern>, tys: Chain<Ty>, mutable: bool, values: Chain<Sample>)
    requires
        all_nameless(patterns),
        patterns@.len() <= tys@.len(),
    ensures
        check_patterns(cx, st, &patterns, &tys, mutable).1 matches Ok(found) ==> match_values(found, values)
            == written_match(patterns, values),
    decreases patterns,
{
    match (patterns, tys) {
        (Chain::Cons(p, ps), Chain::Cons(ty, rest)) => {
            let next = check_pattern(cx, st, &*p, &*ty, mutable).0;
            if let Chain::Cons(v, vs) = values {
                law_pattern_kept(cx, st, *p, *ty, mutable, *v);
                law_patterns_kept(cx, next, *ps, *rest, mutable, *vs);
            }
        },
        _ => {},
    }
}

/// The values that an arm type excludes are those of its siblings.
pub proof fn law_siblings(cx: &Ctx, arms: Chain<u32>, class: u32, other: u32)
    ensures
        sibling_patterns(cx, &arms, class)@.contains(APat::Ctor(other, wilds(&class_at(cx, other).field_tys))) <==> arms@.contains(other)
            && other != class,
    decreases arms,
{
    let wanted = APat::Ctor(other, wilds(&class_at(cx, other).field_tys));
    match arms {
        Chain::Nil => {},
        Chain::Cons(head, tail) => {
            law_siblings(cx, *tail, class, other);
            let rest = sibling_patterns(cx, &*tail, class);
            let all = sibling_patterns(cx, &arms, class);
            let first = APat::Ctor(*head, wilds(&class_at(cx, *head).field_tys));
            assert(arms@ =~= seq![*head] + tail@);
            assert(arms@.contains(other) <==> *head == other || tail@.contains(other)) by {
                if tail@.contains(other) {
                    let i = choose|i: int| 0 <= i < tail@.len() && tail@[i] == other;
                    assert(arms@[i + 1] == other);
                }
                if *head == other {
                    assert(arms@[0] == other);
                }
            }
            if *head != class {
                assert(all@ =~= seq![first] + rest@);
                assert(all@.contains(wanted) <==> first == wanted || rest@.contains(wanted)) by {
                    if rest@.contains(wanted) {
                        let i = choose|i: int| 0 <= i < rest@.len() && rest@[i] == wanted;
                        assert(all@[i + 1] == wanted);
                    }
                    if first == wanted {
                        assert(all@[0] == wanted);
                    }
                }
            }
        },
    }
}

} // verus!
