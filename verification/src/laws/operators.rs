//! Checked operators: each computes what its source writes.

use vstd::prelude::*;
use crate::ast::{BinOp, Expr, ExprKind, Span};
use crate::chain::Chain;
use crate::context::Ctx;
use crate::hir::{HExpr, HKind};
use crate::model::answers::compatible;
use crate::model::exprs::{check_expr, equality, synth_arith, synth_binary, synth_expr, synth_logic, synth_not, synth_unary};
use crate::model::lists::{one, two};
use crate::model::sound::{core_method, primitive_name};
use crate::model::system::{find_operator_hook, hook_name, primitive_operator};
use crate::problem::Stop;
use crate::state::Checker;
use crate::types::Ty;

verus! {

/// What checking an expression against a type gives.
#[verifier::opaque]
pub open spec fn checking(cx: &Ctx, st: Checker, expr: &Expr, expected: &Ty) -> (Checker, Result<HExpr, Stop>) {
    check_expr(cx, st, expr, expected)
}

/// What checking an expression alone gives.
#[verifier::opaque]
pub open spec fn synthesis(cx: &Ctx, st: Checker, expr: &Expr) -> (Checker, Result<HExpr, Stop>) {
    synth_expr(cx, st, expr)
}

/// The truth value of a checked expression that no name decides.
pub open spec fn truth(found: HExpr) -> Option<bool>
    decreases found,
{
    match *found.kind {
        HKind::Bool(value) => Some(value),
        HKind::And(left, right) => match (truth(left), truth(right)) {
            (Some(a), Some(b)) => Some(a && b),
            _ => None,
        },
        HKind::Or(left, right) => match (truth(left), truth(right)) {
            (Some(a), Some(b)) => Some(a || b),
            _ => None,
        },
        _ => None,
    }
}

/// The truth value of a written expression that no name decides.
pub open spec fn written_truth(expr: Expr) -> Option<bool>
    decreases expr,
{
    match *expr.kind {
        ExprKind::Bool(value) => Some(value),
        ExprKind::And(left, right) => match (written_truth(left), written_truth(right)) {
            (Some(a), Some(b)) => Some(a && b),
            _ => None,
        },
        ExprKind::Or(left, right) => match (written_truth(left), written_truth(right)) {
            (Some(a), Some(b)) => Some(a || b),
            _ => None,
        },
        _ => None,
    }
}

/// `and` and `or` check both operands as truth values, the left one first,
/// and keep the operator and the order of the operands.
pub proof fn law_logic(cx: &Ctx, st: Checker, left: &Expr, right: &Expr, both: bool)
    ensures
        ({
            let (middle, first) = checking(cx, st, left, &Ty::Bool);
            let (_, second) = checking(cx, middle, right, &Ty::Bool);
            let found = synth_logic(cx, st, left, right, both).1;
            &&& found is Ok <==> first is Ok && second is Ok
            &&& found is Ok ==> found->Ok_0.ty == Ty::Bool && *found->Ok_0.kind == (if both {
                HKind::And(first->Ok_0, second->Ok_0)
            } else {
                HKind::Or(first->Ok_0, second->Ok_0)
            })
        }),
{
    reveal(checking);
}

proof fn lemma_written_logic(cx: &Ctx, st: Checker, expr: &Expr)
    ensures
        *expr.kind matches ExprKind::And(left, right) ==> synthesis(cx, st, expr) == synth_logic(cx, st, &left, &right, true),
        *expr.kind matches ExprKind::Or(left, right) ==> synthesis(cx, st, expr) == synth_logic(cx, st, &left, &right, false),
{
    reveal(synthesis);
}

proof fn lemma_literal(cx: &Ctx, st: Checker, expr: &Expr)
    ensures
        *expr.kind matches ExprKind::Unit ==> (synthesis(cx, st, expr).1 matches Ok(found) && found.ty == Ty::Unit && *found.kind == HKind::Unit),
        *expr.kind matches ExprKind::Int(value) ==> (synthesis(cx, st, expr).1 matches Ok(found) && found.ty == Ty::Int && *found.kind == HKind::Int(
            value,
        )),
        *expr.kind matches ExprKind::Float(value) ==> (synthesis(cx, st, expr).1 matches Ok(found) && found.ty == Ty::Float && *found.kind
            == HKind::Float(value)),
        *expr.kind matches ExprKind::Str(value) ==> (synthesis(cx, st, expr).1 matches Ok(found) && found.ty == Ty::Str && *found.kind == HKind::Str(
            value,
        )),
        *expr.kind matches ExprKind::Bytes(value) ==> (synthesis(cx, st, expr).1 matches Ok(found) && found.ty == Ty::Bytes && *found.kind
            == HKind::Bytes(value)),
        *expr.kind matches ExprKind::Bool(value) ==> (synthesis(cx, st, expr).1 matches Ok(found) && found.ty == Ty::Bool && *found.kind
            == HKind::Bool(value)),
{
    reveal(synthesis);
}

/// Whether an expression is checked alone and then compared with what is
/// expected of it.
pub open spec fn plain(expr: Expr) -> bool {
    match *expr.kind {
        ExprKind::Unit | ExprKind::Int(_) | ExprKind::Float(_) | ExprKind::Str(_) | ExprKind::Bytes(_) | ExprKind::Bool(_) => true,
        ExprKind::And(_, _) | ExprKind::Or(_, _) | ExprKind::Not(_) | ExprKind::Neg(_) | ExprKind::Invert(_) => true,
        ExprKind::Binary { .. } | ExprKind::Index { .. } | ExprKind::Is { .. } | ExprKind::Cast { .. } => true,
        ExprKind::Interp(_) | ExprKind::SelfRef | ExprKind::CallExpr { .. } | ExprKind::SuperCall { .. } | ExprKind::Propagate(_) => true,
        _ => false,
    }
}

/// A plain expression checked against a type is the expression checked
/// alone, where its type is compatible with the expected one.
pub proof fn law_plain(cx: &Ctx, st: Checker, expr: &Expr, expected: &Ty)
    requires
        plain(*expr),
    ensures
        checking(cx, st, expr, expected).0 == synthesis(cx, st, expr).0,
        checking(cx, st, expr, expected).1 matches Ok(found) ==> synthesis(cx, st, expr).1 == Ok::<HExpr, Stop>(found) && compatible(
            cx,
            expected,
            &found.ty,
        ) == Ok::<bool, Stop>(true),
        synthesis(cx, st, expr).1 matches Ok(found) && compatible(cx, expected, &found.ty) == Ok::<bool, Stop>(true) ==> checking(
            cx,
            st,
            expr,
            expected,
        ).1 == synthesis(cx, st, expr).1,
{
    reveal(checking);
    reveal(synthesis);
}

proof fn lemma_written_both(cx: &Ctx, st: Checker, expr: &Expr, left: Expr, right: Expr, both: bool)
    requires
        *expr.kind == (if both {
            ExprKind::And(left, right)
        } else {
            ExprKind::Or(left, right)
        }),
    ensures
        synthesis(cx, st, expr).1 matches Ok(found) ==> {
            let (middle, first) = checking(cx, st, &left, &Ty::Bool);
            let second = checking(cx, middle, &right, &Ty::Bool).1;
            &&& first is Ok
            &&& second is Ok
            &&& *found.kind == (if both {
                HKind::And(first->Ok_0, second->Ok_0)
            } else {
                HKind::Or(first->Ok_0, second->Ok_0)
            })
        },
{
    lemma_written_logic(cx, st, expr);
    law_logic(cx, st, &left, &right, both);
}

proof fn lemma_truth(cx: &Ctx, st: Checker, expr: &Expr)
    requires
        written_truth(*expr) is Some,
    ensures
        synthesis(cx, st, expr).1 matches Ok(found) ==> truth(found) == written_truth(*expr),
    decreases expr,
{
    match *expr.kind {
        ExprKind::And(left, right) => {
            let middle = checking(cx, st, &left, &Ty::Bool).0;
            lemma_written_both(cx, st, expr, left, right, true);
            lemma_truth(cx, st, &left);
            lemma_truth(cx, middle, &right);
            law_plain(cx, st, &left, &Ty::Bool);
            law_plain(cx, middle, &right, &Ty::Bool);
        },
        ExprKind::Or(left, right) => {
            let middle = checking(cx, st, &left, &Ty::Bool).0;
            lemma_written_both(cx, st, expr, left, right, false);
            lemma_truth(cx, st, &left);
            lemma_truth(cx, middle, &right);
            law_plain(cx, st, &left, &Ty::Bool);
            law_plain(cx, middle, &right, &Ty::Bool);
        },
        _ => lemma_literal(cx, st, expr),
    }
}

/// A written combination of truth values, checked in any state and against
/// any type, computes what it says.
pub proof fn law_truth(cx: &Ctx, st: Checker, expr: &Expr, expected: &Ty)
    requires
        written_truth(*expr) is Some,
    ensures
        synth_expr(cx, st, expr).1 matches Ok(found) ==> truth(found) == written_truth(*expr),
        check_expr(cx, st, expr, expected).1 matches Ok(found) ==> truth(found) == written_truth(*expr),
{
    lemma_truth(cx, st, expr);
    law_plain(cx, st, expr, expected);
    reveal(checking);
    reveal(synthesis);
}

/// The value of a literal.
pub open spec fn literal_of(expr: Expr) -> Option<HKind> {
    match *expr.kind {
        ExprKind::Unit => Some(HKind::Unit),
        ExprKind::Int(value) => Some(HKind::Int(value)),
        ExprKind::Float(bits) => Some(HKind::Float(bits)),
        ExprKind::Str(value) => Some(HKind::Str(value)),
        ExprKind::Bytes(value) => Some(HKind::Bytes(value)),
        ExprKind::Bool(value) => Some(HKind::Bool(value)),
        _ => None,
    }
}

/// The type of a checked literal.
pub open spec fn literal_type(kind: HKind) -> Ty {
    match kind {
        HKind::Unit => Ty::Unit,
        HKind::Int(_) => Ty::Int,
        HKind::Float(_) => Ty::Float,
        HKind::Str(_) => Ty::Str,
        HKind::Bytes(_) => Ty::Bytes,
        _ => Ty::Bool,
    }
}

/// A literal keeps its value, has the type of its kind, and changes
/// nothing.
pub proof fn law_literal(cx: &Ctx, st: Checker, expr: &Expr)
    requires
        literal_of(*expr) is Some,
    ensures
        synth_expr(cx, st, expr).0 == st,
        synth_expr(cx, st, expr).1 matches Ok(found) && Some(*found.kind) == literal_of(*expr) && found.ty == literal_type(*found.kind),
{
}

/// Each operator calls the method of its own name.
pub proof fn law_hook_names()
    ensures
        hook_name(BinOp::Add)@ == "__add__"@,
        hook_name(BinOp::Sub)@ == "__sub__"@,
        hook_name(BinOp::Mul)@ == "__mul__"@,
        hook_name(BinOp::Div)@ == "__div__"@,
        hook_name(BinOp::Rem)@ == "__rem__"@,
        hook_name(BinOp::Eq)@ == "__eq__"@,
        hook_name(BinOp::Ne)@ == "__ne__"@,
        hook_name(BinOp::Lt)@ == "__lt__"@,
        hook_name(BinOp::Le)@ == "__le__"@,
        hook_name(BinOp::Gt)@ == "__gt__"@,
        hook_name(BinOp::Ge)@ == "__ge__"@,
        hook_name(BinOp::BitAnd)@ == "__and__"@,
        hook_name(BinOp::BitOr)@ == "__or__"@,
        hook_name(BinOp::BitXor)@ == "__xor__"@,
        hook_name(BinOp::Shl)@ == "__shl__"@,
        hook_name(BinOp::Shr)@ == "__shr__"@,
        hook_name(BinOp::Ushr)@ == "__ushr__"@,
{
}

/// Whether a checked expression applies an operator to two operands, in
/// order: the operator itself, or the method of its name on a primitive
/// class.
pub open spec fn applies(cx: &Ctx, op: BinOp, found: HExpr, left: HExpr, right: HExpr) -> bool {
    match *found.kind {
        HKind::Binary { op: kept, left: l, right: r, .. } => kept == op && l == left && r == right && found.ty == Ty::Bool,
        HKind::Call { func, args, .. } => args@ == seq![left, right] && (exists|class: &str|
            primitive_name(class) && #[trigger] core_method(cx, class, hook_name(op)) == Some(func)),
        _ => false,
    }
}

pub proof fn lemma_two<T>(a: T, b: T)
    ensures
        two(a, b)@ == seq![a, b],
        one(a)@ == seq![a],
{
    reveal_with_fuel(Chain::items, 4);
    assert(two(a, b)@ =~= seq![a, b]);
    assert(one(a)@ =~= seq![a]);
}

/// A primitive operator calls the method of its name in the primitive
/// class, with its operands as they are.
pub proof fn law_primitive_operator(cx: &Ctx, class_name: &str, name: &str, args: Chain<HExpr>, span: Span)
    ensures
        primitive_operator(cx, class_name, name, args, span) matches Ok(found) ==> (*found.kind matches HKind::Call { func, args: kept, .. }
            && kept == args && core_method(cx, class_name, name) == Some(func)),
{
}

/// An equality compares its two operands with its own operator, and only
/// where one type is compatible with the other.
pub proof fn law_equality(cx: &Ctx, op: BinOp, left: HExpr, right: HExpr, left_span: Span, right_span: Span)
    ensures
        equality(cx, op, left, right, left_span, right_span) matches Ok(found) ==> applies(cx, op, found, left, right) && (compatible(
            cx,
            &left.ty,
            &right.ty,
        ) == Ok::<bool, Stop>(true) || compatible(cx, &right.ty, &left.ty) == Ok::<bool, Stop>(true)),
{
    lemma_two(left, right);
    let hook = hook_name(op);
    let both = two(left, right);
    law_primitive_operator(cx, "Int", hook, both, left_span);
    law_primitive_operator(cx, "Bool", hook, both, left_span);
    law_primitive_operator(cx, "String", hook, both, left_span);
    law_primitive_operator(cx, "Bytes", hook, both, left_span);
}

/// Whether a value is what an expression gives where it is checked in some
/// state.
pub open spec fn comes_from(cx: &Ctx, expr: Expr, found: HExpr) -> bool {
    ||| exists|st: Checker| (#[trigger] synthesis(cx, st, &expr)).1 == Ok::<HExpr, Stop>(found)
    ||| exists|st: Checker, ty: Ty| (#[trigger] checking(cx, st, &expr, &ty)).1 == Ok::<HExpr, Stop>(found)
}

proof fn lemma_arith(cx: &Ctx, st: Checker, op: BinOp, left: &Expr, right: &Expr, ty: Ty, class: &str)
    requires
        synthesis(cx, st, left).1 matches Ok(l) && find_operator_hook(cx, &l.ty, hook_name(op)) is None && (if op == BinOp::Add && l.ty == Ty::Str {
            ty == Ty::Str && class@ == "String"@
        } else if op == BinOp::Add && l.ty == Ty::Bytes {
            ty == Ty::Bytes && class@ == "Bytes"@
        } else {
            ty == Ty::Int && class@ == "Int"@
        }),
    ensures
        synth_arith(cx, st, op, left, right).1 matches Ok(found) ==> {
            let (middle, first) = synthesis(cx, st, left);
            let second = checking(cx, middle, right, &ty).1;
            second is Ok && exists|name: &str|
                #![trigger core_method(cx, name, hook_name(op))]
                name@ == class@ && (*found.kind matches HKind::Call { func, args, .. } && args == two(first->Ok_0, second->Ok_0)
                    && core_method(cx, name, hook_name(op)) == Some(func))
        },
{
    reveal(synthesis);
    reveal(checking);
    let (middle, first) = synthesis(cx, st, left);
    let l = first->Ok_0;
    if synth_arith(cx, st, op, left, right).1 is Ok {
        let r = checking(cx, middle, right, &ty).1->Ok_0;
        let both = two(l, r);
        if ty == Ty::Str {
            assert(hook_name(op)@ == "__add__"@);
            law_primitive_operator(cx, "String", "__add__", both, left.span);
            assert(core_method(cx, "String", hook_name(op)) == core_method(cx, "String", "__add__"));
        } else if ty == Ty::Bytes {
            assert(hook_name(op)@ == "__add__"@);
            law_primitive_operator(cx, "Bytes", "__add__", both, left.span);
            assert(core_method(cx, "Bytes", hook_name(op)) == core_method(cx, "Bytes", "__add__"));
        } else {
            law_primitive_operator(cx, "Int", hook_name(op), both, left.span);
        }
    }
}

proof fn lemma_equal(cx: &Ctx, st: Checker, op: BinOp, left: &Expr, right: &Expr)
    requires
        op == BinOp::Eq || op == BinOp::Ne,
        synthesis(cx, st, left).1 matches Ok(l) && find_operator_hook(cx, &l.ty, hook_name(op)) is None,
    ensures
        synth_binary(cx, st, op, left, right).1 matches Ok(found) ==> {
            let (middle, first) = synthesis(cx, st, left);
            let second = synthesis(cx, middle, right).1;
            second is Ok && equality(cx, op, first->Ok_0, second->Ok_0, left.span, right.span) == Ok::<HExpr, Stop>(found)
        },
{
    reveal(synthesis);
}

proof fn lemma_not_equal(cx: &Ctx, st: Checker, op: BinOp, left: &Expr, right: &Expr)
    requires
        op != BinOp::Eq,
        op != BinOp::Ne,
    ensures
        synth_binary(cx, st, op, left, right) == synth_arith(cx, st, op, left, right),
{
}

/// An operator whose left operand has no hook of its own applies to the two
/// checked operands, the left one first.
pub proof fn law_binary(cx: &Ctx, st: Checker, op: BinOp, left: &Expr, right: &Expr)
    requires
        synthesis(cx, st, left).1 matches Ok(l) && find_operator_hook(cx, &l.ty, hook_name(op)) is None,
    ensures
        synth_binary(cx, st, op, left, right).1 matches Ok(found) ==> exists|r: HExpr|
            #![trigger comes_from(cx, *right, r)]
            comes_from(cx, *right, r) && applies(cx, op, found, synthesis(cx, st, left).1->Ok_0, r),
{
    let (middle, first) = synthesis(cx, st, left);
    let l = first->Ok_0;
    if op == BinOp::Eq || op == BinOp::Ne {
        lemma_equal(cx, st, op, left, right);
        if synth_binary(cx, st, op, left, right).1 is Ok {
            let r = synthesis(cx, middle, right).1->Ok_0;
            law_equality(cx, op, l, r, left.span, right.span);
            assert(comes_from(cx, *right, r));
        }
    } else {
        lemma_not_equal(cx, st, op, left, right);
        let ty = if op == BinOp::Add && l.ty == Ty::Str {
            Ty::Str
        } else if op == BinOp::Add && l.ty == Ty::Bytes {
            Ty::Bytes
        } else {
            Ty::Int
        };
        let class = if ty == Ty::Str {
            "String"
        } else if ty == Ty::Bytes {
            "Bytes"
        } else {
            "Int"
        };
        lemma_arith(cx, st, op, left, right, ty, class);
        if synth_binary(cx, st, op, left, right).1 is Ok {
            let r = checking(cx, middle, right, &ty).1->Ok_0;
            lemma_two(l, r);
            assert(comes_from(cx, *right, r));
        }
    }
}

/// A negation calls the negation of the truth values on its operand.
pub proof fn law_not(cx: &Ctx, st: Checker, inner: &Expr, span: Span)
    ensures
        synth_not(cx, st, inner, span).1 matches Ok(found) ==> (*found.kind matches HKind::Call { func, args, .. } && core_method(
            cx,
            "Bool",
            "__not__",
        ) == Some(func) && checking(cx, st, inner, &Ty::Bool).1 is Ok && args@ == seq![checking(cx, st, inner, &Ty::Bool).1->Ok_0]),
{
    reveal(checking);
    if let Ok(value) = checking(cx, st, inner, &Ty::Bool).1 {
        lemma_two(value, value);
        law_primitive_operator(cx, "Bool", "__not__", one(value), span);
    }
}

/// A sign or an inversion without a hook calls the integer method of its
/// name on its operand.
pub proof fn law_unary(cx: &Ctx, st: Checker, hook: &str, inner: &Expr, span: Span)
    requires
        synthesis(cx, st, inner).1 matches Ok(value) && find_operator_hook(cx, &value.ty, hook) is None,
    ensures
        synth_unary(cx, st, hook, inner, span).1 matches Ok(found) ==> (*found.kind matches HKind::Call { func, args, .. } && core_method(cx, "Int", hook) == Some(func) && args@ == seq![
            synthesis(cx, st, inner).1->Ok_0,
        ]),
{
    reveal(synthesis);
    if let Ok(value) = synthesis(cx, st, inner).1 {
        lemma_two(value, value);
        law_primitive_operator(cx, "Int", hook, one(value), span);
    }
}

} // verus!
