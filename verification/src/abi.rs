//! The operation manifest: groups, operations and intrinsics.

use vstd::prelude::*;
use crate::chain::{Chain, copy_chain};
use crate::text::Text;

verus! {

/// The primitive types of the operation manifest.
#[derive(Clone, Copy, PartialEq, Eq, Structural, Debug)]
pub enum PrimKind {
    Unit,
    Bool,
    Int,
    Float,
    Str,
    Bytes,
    FileHandle,
    SnapshotImage,
    Never,
}

/// One type of the operation manifest.
pub enum AbiType {
    Primitive(PrimKind),
    /// A core class by name.
    Core(Text),
    /// A native core class by name.
    Native(Text),
    ListOf(Box<AbiType>),
    MapOf(Box<AbiType>, Box<AbiType>),
    Tuple(Chain<AbiType>),
    /// A generic core class with its arguments.
    Apply(Text, Chain<AbiType>),
    /// A type variable of an intrinsic.
    Var(u32),
    /// A host resource.
    Resource,
}

/// One operation of the manifest.
pub struct OpDef {
    pub group: Text,
    pub member: Text,
    pub fixed: bool,
    pub params: Chain<AbiType>,
    pub reply: AbiType,
    pub row: u32,
}

/// One operation group of the manifest.
pub struct GroupDef {
    pub surface: Text,
    pub name: Text,
    pub row: u32,
}

/// One named intrinsic of the core image.
pub struct IntrinsicDef {
    pub name: Text,
    pub params: Chain<AbiType>,
    pub reply: AbiType,
}

/// The manifest slots of the operations that the language names itself.
#[derive(Clone, Copy, PartialEq, Eq, Structural, Debug)]
pub struct ControlSlots {
    pub vm_new: u32,
    pub vm_snapshot_self: u32,
    pub vm_from_fn: u32,
    pub vm_snapshot_wait_held: u32,
    pub vm_drive_for: u32,
    pub vm_run: u32,
    pub vm_step: u32,
    pub vm_drive: u32,
    pub vm_drive_wait: u32,
    pub vm_snapshot_held: u32,
    pub vm_restore: u32,
    pub vm_table: u32,
    pub vm_handles: u32,
    pub vm_resource: u32,
    pub vm_serve_file: u32,
    pub vm_answer: u32,
    pub vm_reject: u32,
    pub vm_dispatch: u32,
    pub vm_resource_is_open: u32,
    pub vm_resource_close: u32,
    pub vm_resource_kind: u32,
    pub vm_resource_same: u32,
    pub wait_wait: u32,
    pub wait_choose: u32,
    pub wait_cancel: u32,
    pub proc_recv: u32,
    pub proc_recv_wait: u32,
    pub proc_run: u32,
    pub proc_spawn: u32,
    pub proc_send: u32,
    pub proc_close: u32,
    pub proc_done: u32,
    pub proc_snapshot_wait: u32,
    pub proc_pause: u32,
    pub proc_resume: u32,
    pub fs_open: u32,
    pub fs_read: u32,
    pub fs_write: u32,
    pub fs_seek: u32,
    pub fs_flush: u32,
    pub fs_close: u32,
}

/// The operation manifest.
pub struct Bundle {
    pub groups: Chain<GroupDef>,
    pub ops: Chain<OpDef>,
    pub intrinsics: Chain<IntrinsicDef>,
    pub slots: ControlSlots,
}

impl Clone for AbiType {
    fn clone(&self) -> (r: AbiType)
        ensures
            r == *self,
        decreases self,
    {
        match self {
            AbiType::Primitive(x) => AbiType::Primitive(*x),
            AbiType::Core(x) => AbiType::Core(copy_chain(&*x)),
            AbiType::Native(x) => AbiType::Native(copy_chain(&*x)),
            AbiType::ListOf(x) => AbiType::ListOf(Box::new((**x).clone())),
            AbiType::MapOf(x0, x1) => AbiType::MapOf(Box::new((**x0).clone()), Box::new((**x1).clone())),
            AbiType::Tuple(x) => AbiType::Tuple(clone_abi_types(&*x)),
            AbiType::Apply(x0, x1) => AbiType::Apply(copy_chain(&*x0), clone_abi_types(&*x1)),
            AbiType::Var(x) => AbiType::Var(*x),
            AbiType::Resource => AbiType::Resource,
        }
    }
}

impl Clone for OpDef {
    fn clone(&self) -> (r: OpDef)
        ensures
            r == *self,
        decreases self,
    {
        OpDef {
            group: copy_chain(&self.group),
            member: copy_chain(&self.member),
            fixed: self.fixed,
            params: clone_abi_types(&self.params),
            reply: (self.reply).clone(),
            row: self.row,
        }
    }
}

impl Clone for GroupDef {
    fn clone(&self) -> (r: GroupDef)
        ensures
            r == *self,
        decreases self,
    {
        GroupDef {
            surface: copy_chain(&self.surface),
            name: copy_chain(&self.name),
            row: self.row,
        }
    }
}

impl Clone for IntrinsicDef {
    fn clone(&self) -> (r: IntrinsicDef)
        ensures
            r == *self,
        decreases self,
    {
        IntrinsicDef {
            name: copy_chain(&self.name),
            params: clone_abi_types(&self.params),
            reply: (self.reply).clone(),
        }
    }
}

impl Clone for Bundle {
    fn clone(&self) -> (r: Bundle)
        ensures
            r == *self,
        decreases self,
    {
        Bundle {
            groups: clone_group_defs(&self.groups),
            ops: clone_op_defs(&self.ops),
            intrinsics: clone_intrinsic_defs(&self.intrinsics),
            slots: self.slots,
        }
    }
}

pub fn clone_abi_types(items: &Chain<AbiType>) -> (r: Chain<AbiType>)
    ensures
        r == *items,
    decreases items,
{
    match items {
        Chain::Nil => Chain::Nil,
        Chain::Cons(head, tail) => Chain::Cons(
            Box::new((**head).clone()),
            Box::new(clone_abi_types(tail)),
        ),
    }
}

pub fn clone_group_defs(items: &Chain<GroupDef>) -> (r: Chain<GroupDef>)
    ensures
        r == *items,
    decreases items,
{
    match items {
        Chain::Nil => Chain::Nil,
        Chain::Cons(head, tail) => Chain::Cons(
            Box::new((**head).clone()),
            Box::new(clone_group_defs(tail)),
        ),
    }
}

pub fn clone_op_defs(items: &Chain<OpDef>) -> (r: Chain<OpDef>)
    ensures
        r == *items,
    decreases items,
{
    match items {
        Chain::Nil => Chain::Nil,
        Chain::Cons(head, tail) => Chain::Cons(
            Box::new((**head).clone()),
            Box::new(clone_op_defs(tail)),
        ),
    }
}

pub fn clone_intrinsic_defs(items: &Chain<IntrinsicDef>) -> (r: Chain<IntrinsicDef>)
    ensures
        r == *items,
    decreases items,
{
    match items {
        Chain::Nil => Chain::Nil,
        Chain::Cons(head, tail) => Chain::Cons(
            Box::new((**head).clone()),
            Box::new(clone_intrinsic_defs(tail)),
        ),
    }
}

} // verus!
