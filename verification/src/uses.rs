//! The `use` lines of a module.

use vstd::prelude::*;
use crate::abi::{Bundle, GroupDef, OpDef};
use crate::ast::{Span, UseDecl};
use crate::chain::{Chain, copy_chain};
use crate::context::{Ctx, ExportKind, ImportEnv, ImportExport, ImportModule, Reserve, RootEntry, UseBinding, UseEntry, Uses};
use crate::lists::{append, cons, find_id};
use crate::names::{camel_member, dotted, snake_member, starts_upper};
use crate::problem::{Diag, Problem, Stop};
use crate::resolve::{named, unnamed};
use crate::text::{Text, is_text, same_text};
use crate::model;

verus! {

/// The manifest group of one surface name, such as `Io` for `io`.
pub fn sys_group_name(groups: &Chain<GroupDef>, surface: &Text) -> (r: Option<Text>)
    ensures
        r == model::uses::sys_group_name(groups, surface),
    decreases groups,
{
    match groups {
        Chain::Nil => None,
        Chain::Cons(head, tail) => {
            if same_text(&head.surface, &*surface) {
                Some(copy_chain(&head.name))
            } else {
                sys_group_name(tail, surface)
            }
        },
    }
}

/// The slot of a fixed operation from a position on.
pub fn fixed_member_from(ops: &Chain<OpDef>, group: &Text, member: &Text, at: u32) -> (r: Option<u32>)
    ensures
        r == model::uses::fixed_member_from(ops, group, member, at),
    decreases ops,
{
    match ops {
        Chain::Nil => None,
        Chain::Cons(head, tail) => {
            if head.fixed && same_text(&head.group, &*group) && same_text(&head.member, &*member) {
                Some(at)
            } else {
                fixed_member_from(tail, group, member, at.wrapping_add(1))
            }
        },
    }
}

/// The slot of a fixed operation by its manifest names.
pub fn fixed_member(bundle: &Bundle, group: &Text, member: &Text) -> (r: Option<u32>)
    ensures
        r == model::uses::fixed_member(bundle, group, member),
{
    fixed_member_from(&bundle.ops, group, member, 0u32)
}

/// The binding of one name.
pub fn find_use<'a>(entries: &'a Chain<UseEntry>, name: &Text) -> (r: Option<&'a UseBinding>)
    ensures
        r == model::uses::find_use(entries, name),
    decreases entries,
{
    match entries {
        Chain::Nil => None,
        Chain::Cons(head, tail) => {
            if same_text(&head.name, &*name) {
                Some(&head.binding)
            } else {
                find_use(tail, name)
            }
        },
    }
}

/// The module prefix of an import root.
pub fn find_root<'a>(roots: &'a Chain<RootEntry>, name: &Text) -> (r: Option<&'a Text>)
    ensures
        r == model::uses::find_root(roots, name),
    decreases roots,
{
    match roots {
        Chain::Nil => None,
        Chain::Cons(head, tail) => {
            if same_text(&head.name, &*name) {
                Some(&head.prefix)
            } else {
                find_root(tail, name)
            }
        },
    }
}

/// The module of a path.
pub fn find_module<'a>(modules: &'a Chain<ImportModule>, path: &Text) -> (r: Option<&'a ImportModule>)
    ensures
        r == model::uses::find_module(modules, path),
    decreases modules,
{
    match modules {
        Chain::Nil => None,
        Chain::Cons(head, tail) => {
            if same_text(&head.path, &*path) {
                Some(&**head)
            } else {
                find_module(tail, path)
            }
        },
    }
}

/// The export of a name.
pub fn find_export<'a>(exports: &'a Chain<ImportExport>, name: &Text) -> (r: Option<&'a ImportExport>)
    ensures
        r == model::uses::find_export(exports, name),
    decreases exports,
{
    match exports {
        Chain::Nil => None,
        Chain::Cons(head, tail) => {
            if same_text(&head.name, &*name) {
                Some(&**head)
            } else {
                find_export(tail, name)
            }
        },
    }
}

/// A first text, and more segments behind it with dots between.
pub fn join_path(first: Text, rest: &Chain<Text>) -> (r: Text)
    ensures
        r == model::uses::join_path(first, rest),
    decreases rest,
{
    match rest {
        Chain::Nil => first,
        Chain::Cons(head, tail) => join_path(dotted(&first, head), tail),
    }
}

/// The last segment of a path.
pub fn last_segment<'a>(first: &'a Text, rest: &'a Chain<Text>) -> (r: &'a Text)
    ensures
        r == model::uses::last_segment(first, rest),
    decreases rest,
{
    match rest {
        Chain::Nil => first,
        Chain::Cons(head, tail) => last_segment(head, tail),
    }
}

/// The text before the last dot, where there is one.
pub fn before_last_dot(name: &Text) -> (r: Option<Text>)
    ensures
        r == model::uses::before_last_dot(name),
    decreases name,
{
    match name {
        Chain::Nil => None,
        Chain::Cons(head, tail) => {
            match before_last_dot(tail) {
                Some(rest) => Some(cons(**head, rest)),
                None => {
                    if **head == '.' {
                        Some(Chain::Nil)
                    } else {
                        None
                    }
                },
            }
        },
    }
}

/// Whether an import reserves a name.
pub fn reserves_name(reserves: &Chain<Reserve>, kind: ExportKind, bound: &Text) -> (r: bool)
    ensures
        r == model::uses::reserves_name(reserves, kind, bound),
    decreases reserves,
{
    match reserves {
        Chain::Nil => false,
        Chain::Cons(head, tail) => (head.kind == kind && same_text(&head.bound, &*bound)) || reserves_name(tail, kind, bound),
    }
}

/// Bind one imported type name in the module scope. A name the module
/// already defines is an error, never a silent shadow.
pub fn bind_type(cx: &Ctx, st: Uses, reserve: Reserve, span: Span) -> (r: (Uses, Result<(), Stop>))
    ensures
        r == model::uses::bind_type(cx, st, reserve, span),
{
    if find_id(&cx.user_types, &reserve.bound).is_some() || reserves_name(&st.reserves, ExportKind::Class, &reserve.bound) {
        (st, Err(Stop::Fail(Diag { problem: Problem::UseNameTaken, subject: reserve.bound, span: span })))
    } else {
        (Uses { reserves: append(st.reserves, reserve), ..st }, Ok(()))
    }
}

/// Bind one imported interface name in the module scope.
pub fn bind_interface(cx: &Ctx, st: Uses, reserve: Reserve, span: Span) -> (r: (Uses, Result<(), Stop>))
    ensures
        r == model::uses::bind_interface(cx, st, reserve, span),
{
    if find_id(&cx.user_interfaces, &reserve.bound).is_some() || reserves_name(&st.reserves, ExportKind::Interface, &reserve.bound) {
        (st, Err(Stop::Fail(Diag { problem: Problem::UseInterfaceTaken, subject: reserve.bound, span: span })))
    } else {
        (Uses { reserves: append(st.reserves, reserve), ..st }, Ok(()))
    }
}

/// Bind one export under a name of the module scope.
pub fn bind_export(
    cx: &Ctx,
    st: Uses,
    bound: Text,
    module: &Text,
    export: &ImportExport,
    decl: &UseDecl,
) -> (r: (Uses, Result<(), Stop>))
    ensures
        r == model::uses::bind_export(cx, st, bound, module, export, decl),
{
    let reserve = Reserve { kind: export.kind, bound: bound, module: copy_chain(&*module), name: copy_chain(&export.name), span: decl.span };
    match export.kind {
        ExportKind::Class => bind_type(cx, st, reserve, decl.name_span),
        ExportKind::Interface => bind_interface(cx, st, reserve, decl.name_span),
        ExportKind::Function => (Uses { reserves: append(st.reserves, reserve), ..st }, Ok(())),
    }
}

/// Bind every export of a module under its alias.
pub fn bind_exports(
    cx: &Ctx,
    st: Uses,
    alias: &Text,
    module: &Text,
    exports: &Chain<ImportExport>,
    decl: &UseDecl,
) -> (r: (Uses, Result<(), Stop>))
    ensures
        r == model::uses::bind_exports(cx, st, alias, module, exports, decl),
    decreases exports,
{
    match exports {
        Chain::Nil => (st, Ok(())),
        Chain::Cons(head, tail) => {
            let (st, out) = bind_export(cx, st, dotted(alias, &head.name), module, head, decl);
            let _bound = match out {
                Ok(found) => found,
                Err(stop) => {
                    return (st, Err(stop));
                },
            };
            bind_exports(cx, st, alias, module, tail, decl)
        },
    }
}

/// Resolve one `use` line that names a module or a definition of the
/// compile environment.
pub fn resolve_module_use(
    cx: &Ctx,
    st: Uses,
    env: &ImportEnv,
    decl: &UseDecl,
    root: &Text,
    rest: &Chain<Text>,
) -> (r: (Uses, Result<UseEntry, Stop>))
    ensures
        r == model::uses::resolve_module_use(cx, st, env, decl, root, rest),
{
    let bound = last_segment(root, rest);
    match find_root(&env.roots, root) {
        None => {
            if env.no_package_roots {
                (st, Err(Stop::Fail(Diag { problem: Problem::UseNeedsPackage, subject: join_path(copy_chain(&*root), rest), span: decl.span })))
            } else {
                (st, Err(named(Problem::UseUnknownRoot, root, decl.span)))
            }
        },
        Some(prefix) => {
            let full = join_path(copy_chain(&*prefix), rest);
            match find_module(&env.modules, &full) {
                Some(module) => {
                    let (st, out) = bind_exports(cx, st, bound, &full, &module.exports, decl);
                    let _exports = match out {
                        Ok(found) => found,
                        Err(stop) => {
                            return (st, Err(stop));
                        },
                    };
                    (st, Ok(UseEntry { name: copy_chain(&*bound), binding: UseBinding::ModulePath(full) }))
                },
                None => resolve_definition_use(cx, st, env, decl, root, rest, &full, bound),
            }
        },
    }
}

/// Resolve one `use` line whose last segment names an export.
pub fn resolve_definition_use(
    cx: &Ctx,
    st: Uses,
    env: &ImportEnv,
    decl: &UseDecl,
    root: &Text,
    rest: &Chain<Text>,
    full: &Text,
    bound: &Text,
) -> (r: (Uses, Result<UseEntry, Stop>))
    ensures
        r == model::uses::resolve_definition_use(cx, st, env, decl, root, rest, full, bound),
{
    let none = Stop::Fail(Diag { problem: Problem::UseNoModule, subject: join_path(copy_chain(&*root), rest), span: decl.span });
    let path = match before_last_dot(full) {
        Some(found) => found,
        None => {
            return (st, Err(none));
        },
    };
    match find_module(&env.modules, &path) {
        None => (st, Err(none)),
        Some(module) => {
            match find_export(&module.exports, bound) {
                None => (st, Err(named(Problem::UseNoExport, bound, decl.name_span))),
                Some(export) => {
                    let (st, out) = bind_export(cx, st, copy_chain(&*bound), &path, export, decl);
                    let _bound = match out {
                        Ok(found) => found,
                        Err(stop) => {
                            return (st, Err(stop));
                        },
                    };
                    (st, Ok(UseEntry { name: copy_chain(&*bound), binding: UseBinding::ModulePath(path) }))
                },
            }
        },
    }
}

/// Resolve a `use` line of one `sys` group member. Callable members use
/// snake case; the machine constructor keeps its own name.
pub fn resolve_sys_member_use(cx: &Ctx, group: Text, member: &Text, span: Span) -> (r: Result<UseBinding, Stop>)
    ensures
        r == model::uses::resolve_sys_member_use(cx, group, member, span),
{
    let is_ctor = is_text(&group, "Vm") && is_text(&*member, "Vm");
    if is_ctor {
        Ok(UseBinding::SysMember { group: group, member: copy_chain(&*member) })
    } else if starts_upper(member) {
        if fixed_member(&cx.bundle, &group, member).is_some() {
            Err(Stop::Fail(Diag { problem: Problem::UseSnakeMember, subject: snake_member(member), span: span }))
        } else {
            Err(named(Problem::UseNoOperation, member, span))
        }
    } else if fixed_member(&cx.bundle, &group, &camel_member(member)).is_none() {
        Err(named(Problem::UseNoOperation, member, span))
    } else {
        Ok(UseBinding::SysMember { group: group, member: copy_chain(&*member) })
    }
}

/// Resolve one `use sys` line from the segments behind `sys`.
pub fn resolve_sys_use(cx: &Ctx, rest: &Chain<Text>, decl: &UseDecl) -> (r: Result<UseBinding, Stop>)
    ensures
        r == model::uses::resolve_sys_use(cx, rest, decl),
{
    match rest {
        Chain::Nil => Err(unnamed(Problem::UseSysAlone, decl.span)),
        Chain::Cons(surface, behind_group) => {
            match &**behind_group {
                Chain::Nil => {
                    match sys_group_name(&cx.bundle.groups, surface) {
                        Some(group) => Ok(UseBinding::SysGroup(group)),
                        None => Err(named(Problem::UseNoGroup, surface, decl.name_span)),
                    }
                },
                Chain::Cons(member, behind_member) => {
                    if !behind_member.is_empty() {
                        Err(unnamed(Problem::UseTooLong, decl.span))
                    } else {
                        match sys_group_name(&cx.bundle.groups, surface) {
                            Some(group) => resolve_sys_member_use(cx, group, member, decl.name_span),
                            None => Err(named(Problem::UseNoGroup, surface, decl.span)),
                        }
                    }
                },
            }
        },
    }
}

/// Resolve one `use` line to a named binding.
pub fn resolve_use(cx: &Ctx, st: Uses, env: &ImportEnv, decl: &UseDecl) -> (r: (Uses, Result<UseEntry, Stop>))
    ensures
        r == model::uses::resolve_use(cx, st, env, decl),
{
    match &decl.path {
        Chain::Nil => (st, Err(unnamed(Problem::UseNoModule, decl.span))),
        Chain::Cons(root, rest) => {
            if is_text(&**root, "sys") {
                let binding = match resolve_sys_use(cx, rest, decl) {
                    Ok(found) => found,
                    Err(stop) => {
                        return (st, Err(stop));
                    },
                };
                (st, Ok(UseEntry { name: copy_chain(&*last_segment(root, rest)), binding: binding }))
            } else {
                resolve_module_use(cx, st, env, decl, root, rest)
            }
        },
    }
}

/// Resolve the `use` lines of one module into named bindings. Each name
/// has one binding.
pub fn resolve_uses(cx: &Ctx, st: Uses, env: &ImportEnv, uses: &Chain<UseDecl>) -> (r: (Uses, Result<(), Stop>))
    ensures
        r == model::uses::resolve_uses(cx, st, env, uses),
    decreases uses,
{
    match uses {
        Chain::Nil => (st, Ok(())),
        Chain::Cons(head, tail) => {
            let (st, out) = resolve_use(cx, st, env, head);
            let entry = match out {
                Ok(found) => found,
                Err(stop) => {
                    return (st, Err(stop));
                },
            };
            if find_use(&st.entries, &entry.name).is_some() {
                (st, Err(Stop::Fail(Diag { problem: Problem::UseBoundTwice, subject: entry.name, span: head.name_span })))
            } else {
                resolve_uses(cx, Uses { entries: append(st.entries, entry), ..st }, env, tail)
            }
        },
    }
}

} // verus!
