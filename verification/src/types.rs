//! The type language: type trees, effect rows and substitution.

use vstd::prelude::*;
use crate::chain::{Chain, copy_chain};
use crate::rows::same_row;

verus! {

/// One element of an effect row: an operation or group of the manifest,
/// or an effect variable.
#[derive(Clone, Copy, PartialEq, Eq, Structural, Debug)]
pub enum RowElem {
    Op(u32),
    Var(u32),
}

/// One effect row.
pub type Row = Chain<RowElem>;

/// One type.
pub enum Ty {
    Unit,
    Bool,
    Int,
    Float,
    Str,
    Bytes,
    Never,
    Digest,
    Fault,
    Request,
    PolicyTable,
    EmptyVm,
    FileHandle,
    ResourceHandle,
    SnapshotImage,
    /// A type parameter, by position.
    Var(u32),
    /// An associated type of the type `base` under one interface.
    Projection(Box<Ty>, u32, u32),
    /// A class without type parameters.
    Class(u32),
    /// A class with its type arguments.
    Inst(u32, Chain<Ty>),
    ListOf(Box<Ty>),
    MapOf(Box<Ty>, Box<Ty>),
    Tuple(Chain<Ty>),
    /// Parameter types, `mut` markers, result and effect row.
    Fn(Chain<Ty>, Chain<bool>, Box<Ty>, Row),
    /// A function that may not escape its call.
    Callback(Chain<Ty>, Chain<bool>, Box<Ty>, Row),
    /// One manifest operation with its function type.
    Op(u32, Box<Ty>),
    Vm(Box<Ty>),
    Run(Box<Ty>),
    Wait(Box<Ty>),
    Snapshot(Box<Ty>),
    RunSnapshot(Box<Ty>),
    /// The argument and reply types of a pending operation call.
    PendingCall(Box<Ty>, Box<Ty>),
    /// The mailbox and result types of a proc handle.
    Handle(Box<Ty>, Box<Ty>),
}

impl Clone for Ty {
    fn clone(&self) -> (r: Ty)
        ensures
            r == *self,
        decreases self,
    {
        match self {
            Ty::Unit => Ty::Unit,
            Ty::Bool => Ty::Bool,
            Ty::Int => Ty::Int,
            Ty::Float => Ty::Float,
            Ty::Str => Ty::Str,
            Ty::Bytes => Ty::Bytes,
            Ty::Never => Ty::Never,
            Ty::Digest => Ty::Digest,
            Ty::Fault => Ty::Fault,
            Ty::Request => Ty::Request,
            Ty::PolicyTable => Ty::PolicyTable,
            Ty::EmptyVm => Ty::EmptyVm,
            Ty::FileHandle => Ty::FileHandle,
            Ty::ResourceHandle => Ty::ResourceHandle,
            Ty::SnapshotImage => Ty::SnapshotImage,
            Ty::Var(i) => Ty::Var(*i),
            Ty::Projection(b, i, a) => Ty::Projection(Box::new((**b).clone()), *i, *a),
            Ty::Class(c) => Ty::Class(*c),
            Ty::Inst(c, args) => Ty::Inst(*c, clone_tys(args)),
            Ty::ListOf(e) => Ty::ListOf(Box::new((**e).clone())),
            Ty::MapOf(k, v) => Ty::MapOf(Box::new((**k).clone()), Box::new((**v).clone())),
            Ty::Tuple(items) => Ty::Tuple(clone_tys(items)),
            Ty::Fn(ps, ms, r, row) => Ty::Fn(
                clone_tys(ps),
                copy_chain(ms),
                Box::new((**r).clone()),
                copy_chain(row),
            ),
            Ty::Callback(ps, ms, r, row) => Ty::Callback(
                clone_tys(ps),
                copy_chain(ms),
                Box::new((**r).clone()),
                copy_chain(row),
            ),
            Ty::Op(o, f) => Ty::Op(*o, Box::new((**f).clone())),
            Ty::Vm(t) => Ty::Vm(Box::new((**t).clone())),
            Ty::Run(t) => Ty::Run(Box::new((**t).clone())),
            Ty::Wait(t) => Ty::Wait(Box::new((**t).clone())),
            Ty::Snapshot(t) => Ty::Snapshot(Box::new((**t).clone())),
            Ty::RunSnapshot(t) => Ty::RunSnapshot(Box::new((**t).clone())),
            Ty::PendingCall(a, r) => Ty::PendingCall(
                Box::new((**a).clone()),
                Box::new((**r).clone()),
            ),
            Ty::Handle(m, r) => Ty::Handle(Box::new((**m).clone()), Box::new((**r).clone())),
        }
    }
}

/// Copy a list of types.
pub fn clone_tys(items: &Chain<Ty>) -> (r: Chain<Ty>)
    ensures
        r == *items,
    decreases items,
{
    match items {
        Chain::Nil => Chain::Nil,
        Chain::Cons(head, tail) => Chain::Cons(Box::new((**head).clone()), Box::new(clone_tys(tail))),
    }
}

/// Compare two lists of `mut` markers.
pub fn same_flags(a: &Chain<bool>, b: &Chain<bool>) -> (r: bool)
    ensures
        r == (*a == *b),
    decreases a,
{
    match (a, b) {
        (Chain::Nil, Chain::Nil) => true,
        (Chain::Cons(x, xs), Chain::Cons(y, ys)) => **x == **y && same_flags(xs, ys),
        _ => false,
    }
}

/// Compare two lists of types.
pub fn same_tys(a: &Chain<Ty>, b: &Chain<Ty>) -> (r: bool)
    ensures
        r == (*a == *b),
    decreases a,
{
    match (a, b) {
        (Chain::Nil, Chain::Nil) => true,
        (Chain::Cons(x, xs), Chain::Cons(y, ys)) => same_ty(x, y) && same_tys(xs, ys),
        _ => false,
    }
}

/// Compare two types.
pub fn same_ty(a: &Ty, b: &Ty) -> (r: bool)
    ensures
        r == (*a == *b),
    decreases a,
{
    match (a, b) {
        (Ty::Unit, Ty::Unit) => true,
        (Ty::Bool, Ty::Bool) => true,
        (Ty::Int, Ty::Int) => true,
        (Ty::Float, Ty::Float) => true,
        (Ty::Str, Ty::Str) => true,
        (Ty::Bytes, Ty::Bytes) => true,
        (Ty::Never, Ty::Never) => true,
        (Ty::Digest, Ty::Digest) => true,
        (Ty::Fault, Ty::Fault) => true,
        (Ty::Request, Ty::Request) => true,
        (Ty::PolicyTable, Ty::PolicyTable) => true,
        (Ty::EmptyVm, Ty::EmptyVm) => true,
        (Ty::FileHandle, Ty::FileHandle) => true,
        (Ty::ResourceHandle, Ty::ResourceHandle) => true,
        (Ty::SnapshotImage, Ty::SnapshotImage) => true,
        (Ty::Var(x), Ty::Var(y)) => *x == *y,
        (Ty::Projection(x, i, k), Ty::Projection(y, j, l)) => *i == *j && *k == *l && same_ty(x, y),
        (Ty::Class(x), Ty::Class(y)) => *x == *y,
        (Ty::Inst(x, xs), Ty::Inst(y, ys)) => *x == *y && same_tys(xs, ys),
        (Ty::Tuple(xs), Ty::Tuple(ys)) => same_tys(xs, ys),
        (Ty::Fn(p, m, x, e), Ty::Fn(q, n, y, f)) => same_tys(p, q) && same_flags(m, n) && same_ty(
            x,
            y,
        ) && same_row(e, f),
        (Ty::Callback(p, m, x, e), Ty::Callback(q, n, y, f)) => same_tys(p, q) && same_flags(m, n)
            && same_ty(x, y) && same_row(e, f),
        (Ty::Op(x, s), Ty::Op(y, t)) => *x == *y && same_ty(s, t),
        (Ty::Vm(x), Ty::Vm(y)) => same_ty(x, y),
        (Ty::Run(x), Ty::Run(y)) => same_ty(x, y),
        (Ty::Wait(x), Ty::Wait(y)) => same_ty(x, y),
        (Ty::Snapshot(x), Ty::Snapshot(y)) => same_ty(x, y),
        (Ty::RunSnapshot(x), Ty::RunSnapshot(y)) => same_ty(x, y),
        (Ty::ListOf(x), Ty::ListOf(y)) => same_ty(x, y),
        (Ty::MapOf(x, s), Ty::MapOf(y, t)) => same_ty(x, y) && same_ty(s, t),
        (Ty::PendingCall(x, s), Ty::PendingCall(y, t)) => same_ty(x, y) && same_ty(s, t),
        (Ty::Handle(x, s), Ty::Handle(y, t)) => same_ty(x, y) && same_ty(s, t),
        _ => false,
    }
}

} // verus!
