//! What checking one expression or statement leaves as it was: the scopes
//! and loops around it, the slots and functions before it, and the
//! surroundings of the callable.

use vstd::prelude::*;
use crate::chain::Chain;
use crate::ast::FuncDef;
use crate::context::{Decl, NameEntry};
use crate::model::lists::{append, concat, cons};
use crate::state::{Checker, CtorCtx, LoopContext, MadeFunc, ScopeEntry};

verus! {

/// Whether a list begins with another one.
pub open spec fn extends<T>(a: Chain<T>, b: Chain<T>) -> bool
    decreases a,
{
    match (a, b) {
        (Chain::Nil, _) => true,
        (Chain::Cons(x, xs), Chain::Cons(y, ys)) => x == y && extends(*xs, *ys),
        _ => false,
    }
}

pub broadcast proof fn lemma_extends_same<T>(a: Chain<T>)
    ensures
        #[trigger] extends(a, a),
    decreases a,
{
    match a {
        Chain::Nil => {},
        Chain::Cons(_, xs) => lemma_extends_same(*xs),
    }
}

pub broadcast proof fn lemma_extends_further<T>(a: Chain<T>, b: Chain<T>, c: Chain<T>)
    requires
        #[trigger] extends(a, b),
        #[trigger] extends(b, c),
    ensures
        extends(a, c),
    decreases a,
{
    match (a, b, c) {
        (Chain::Cons(_, xs), Chain::Cons(_, ys), Chain::Cons(_, zs)) => lemma_extends_further(*xs, *ys, *zs),
        _ => {},
    }
}

pub broadcast proof fn lemma_extends_append<T>(a: Chain<T>, item: T)
    ensures
        extends(a, #[trigger] append(a, item)),
    decreases a,
{
    match a {
        Chain::Nil => {},
        Chain::Cons(_, xs) => lemma_extends_append(*xs, item),
    }
}

/// Whether functions have consecutive indices, from one to before another.
pub open spec fn numbered(made: Chain<MadeFunc>, from: u32, to: u32) -> bool
    decreases made,
{
    match made {
        Chain::Nil => from == to,
        Chain::Cons(head, tail) => head.index == from && numbered(*tail, from.wrapping_add(1), to),
    }
}

/// Whether a list of functions begins with another one, and goes on with
/// consecutive indices.
pub open spec fn numbered_after(a: Chain<MadeFunc>, b: Chain<MadeFunc>, from: u32, to: u32) -> bool
    decreases a,
{
    match (a, b) {
        (Chain::Nil, _) => numbered(b, from, to),
        (Chain::Cons(x, xs), Chain::Cons(y, ys)) => x == y && numbered_after(*xs, *ys, from, to),
        _ => false,
    }
}

pub broadcast proof fn lemma_numbered_same(a: Chain<MadeFunc>, from: u32)
    ensures
        #[trigger] numbered_after(a, a, from, from),
    decreases a,
{
    match a {
        Chain::Nil => {},
        Chain::Cons(_, xs) => lemma_numbered_same(*xs, from),
    }
}

pub broadcast proof fn lemma_numbered_further(a: Chain<MadeFunc>, b: Chain<MadeFunc>, c: Chain<MadeFunc>, from: u32, mid: u32, to: u32)
    requires
        #[trigger] numbered_after(a, b, from, mid),
        #[trigger] numbered_after(b, c, mid, to),
    ensures
        numbered_after(a, c, from, to),
    decreases b,
{
    match (a, b, c) {
        (Chain::Cons(_, xs), Chain::Cons(_, ys), Chain::Cons(_, zs)) => lemma_numbered_further(*xs, *ys, *zs, from, mid, to),
        (Chain::Nil, Chain::Cons(_, ys), Chain::Cons(_, zs)) => {
            lemma_numbered_further(Chain::Nil, *ys, *zs, from.wrapping_add(1), mid, to);
        },
        _ => {},
    }
}

pub broadcast proof fn lemma_numbered_next(a: Chain<MadeFunc>, item: MadeFunc)
    ensures
        numbered_after(a, #[trigger] append(a, item), item.index, item.index.wrapping_add(1)),
    decreases a,
{
    match a {
        Chain::Nil => {
            reveal_with_fuel(numbered, 3);
            reveal_with_fuel(numbered_after, 2);
        },
        Chain::Cons(_, xs) => lemma_numbered_next(*xs, item),
    }
}

pub broadcast proof fn lemma_numbered_concat(a: Chain<MadeFunc>, b: Chain<MadeFunc>, from: u32, to: u32)
    requires
        #[trigger] numbered_after(Chain::Nil, b, from, to),
    ensures
        numbered_after(a, #[trigger] concat(a, b), from, to),
    decreases a,
{
    match a {
        Chain::Nil => {},
        Chain::Cons(_, xs) => lemma_numbered_concat(*xs, b, from, to),
    }
}

/// The scopes around the innermost one.
pub open spec fn around<T>(items: Chain<T>) -> Chain<T> {
    match items {
        Chain::Nil => Chain::Nil,
        Chain::Cons(_, rest) => *rest,
    }
}

/// Only the innermost scope may have gained names.
pub open spec fn kept_scopes(a: Chain<Chain<ScopeEntry>>, b: Chain<Chain<ScopeEntry>>) -> bool {
    around(a) == around(b) && (a is Cons ==> b is Cons)
}

/// Only the innermost loop may have gained breaks.
pub open spec fn kept_loops(a: Chain<LoopContext>, b: Chain<LoopContext>) -> bool {
    match (a, b) {
        (Chain::Nil, Chain::Nil) => true,
        (Chain::Cons(x, xs), Chain::Cons(y, ys)) => {
            &&& xs == ys
            &&& x.mode == y.mode
            &&& x.walked == y.walked
            &&& extends(x.breaks, y.breaks)
            &&& x.gap is Some ==> x.gap == y.gap
        },
        _ => false,
    }
}

/// The class under initialization stays the same.
pub open spec fn kept_ctor(a: Option<CtorCtx>, b: Option<CtorCtx>) -> bool {
    match (a, b) {
        (None, None) => true,
        (Some(x), Some(y)) => x.class == y.class && x.needs_super == y.needs_super,
        _ => false,
    }
}

/// What one callable keeps, beside the callables around it.
pub open spec fn kept_here(a: Checker, b: Checker) -> bool {
    &&& extends(a.locals, b.locals)
    &&& kept_scopes(a.scopes, b.scopes)
    &&& extends(a.captures, b.captures)
    &&& !a.is_closure ==> a.captures == b.captures
    &&& a.is_closure == b.is_closure
    &&& kept_loops(a.loops, b.loops)
    &&& a.saw_return ==> b.saw_return
    &&& a.ret == b.ret
    &&& a.self_class == b.self_class
    &&& kept_ctor(a.ctor, b.ctor)
    &&& a.env == b.env
    &&& a.collect_row == b.collect_row
    &&& !a.collect_row ==> a.declared_row == b.declared_row
    &&& numbered_after(a.out.made, b.out.made, a.out.next_func, b.out.next_func)
}

/// What the callables around a closure keep.
pub open spec fn kept_outer(a: Option<Box<Checker>>, b: Option<Box<Checker>>) -> bool
    decreases a,
{
    match (a, b) {
        (None, None) => true,
        (Some(x), Some(y)) => {
            kept_here(*x, *y) && x.declared_row == y.declared_row && kept_outer(x.outer, y.outer)
        },
        _ => false,
    }
}

/// What holds between a checker before and after one expression,
/// statement or pattern.
pub open spec fn kept(a: Checker, b: Checker) -> bool {
    kept_here(a, b) && kept_outer(a.outer, b.outer)
}

pub broadcast proof fn lemma_kept_outer_same(a: Option<Box<Checker>>)
    ensures
        #[trigger] kept_outer(a, a),
    decreases a,
{
    broadcast use {lemma_extends_same, lemma_numbered_same};

    match a {
        None => {},
        Some(x) => lemma_kept_outer_same(x.outer),
    }
}

pub broadcast proof fn lemma_kept_outer_further(a: Option<Box<Checker>>, b: Option<Box<Checker>>, c: Option<Box<Checker>>)
    requires
        #[trigger] kept_outer(a, b),
        #[trigger] kept_outer(b, c),
    ensures
        kept_outer(a, c),
    decreases a,
{
    broadcast use {lemma_extends_further, lemma_numbered_further};

    match (a, b, c) {
        (Some(x), Some(y), Some(z)) => lemma_kept_outer_further(x.outer, y.outer, z.outer),
        _ => {},
    }
}

pub broadcast group group_kept {
    lemma_extends_same,
    lemma_extends_further,
    lemma_extends_append,
    lemma_numbered_same,
    lemma_numbered_further,
    lemma_numbered_next,
    lemma_numbered_concat,
    lemma_kept_outer_same,
    lemma_kept_outer_further,
}

/// What resolving a type or a bound keeps of the collected declarations:
/// the keys before it, and the next function.
pub open spec fn kept_decl(a: Decl, b: Decl) -> bool {
    extends(a.keys, b.keys) && a.next_func == b.next_func
}

/// What declaring functions keeps: the keys before them. They take the
/// next functions.
pub open spec fn took_funcs(a: Decl, b: Decl, taken: u32) -> bool {
    extends(a.keys, b.keys) && b.next_func == a.next_func.wrapping_add(taken)
}

/// The names of functions with consecutive indices.
pub open spec fn numbered_names(funcs: Chain<FuncDef>, at: u32) -> Chain<NameEntry>
    decreases funcs,
{
    match funcs {
        Chain::Nil => Chain::Nil,
        Chain::Cons(head, tail) => cons(
            NameEntry { name: head.name, id: at },
            numbered_names(*tail, at.wrapping_add(1)),
        ),
    }
}

pub broadcast proof fn lemma_concat_none<T>(a: Chain<T>)
    ensures
        #[trigger] concat(a, Chain::Nil) == a,
    decreases a,
{
    match a {
        Chain::Nil => {},
        Chain::Cons(_, xs) => lemma_concat_none(*xs),
    }
}

pub broadcast proof fn lemma_concat_append<T>(a: Chain<T>, item: T, b: Chain<T>)
    ensures
        #[trigger] concat(append(a, item), b) == concat(a, cons(item, b)),
    decreases a,
{
    match a {
        Chain::Nil => {
            reveal_with_fuel(concat, 2);
        },
        Chain::Cons(_, xs) => lemma_concat_append(*xs, item, b),
    }
}

/// Nothing changes where nothing is checked.
pub proof fn law_kept_same(a: Checker)
    ensures
        kept(a, a),
{
    broadcast use group_kept;

}

/// What two steps keep, both together keep.
pub proof fn law_kept_further(a: Checker, b: Checker, c: Checker)
    requires
        kept(a, b),
        kept(b, c),
    ensures
        kept(a, c),
{
    broadcast use group_kept;

}

} // verus!
