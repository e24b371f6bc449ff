//! The `use` lines of a module.
//!
//! The functions here state what the functions of the same name compute.

use vstd::prelude::*;
use crate::abi::{Bundle, GroupDef, OpDef};
use crate::ast::{Span, UseDecl};
use crate::chain::Chain;
use crate::context::{Ctx, ExportKind, ImportEnv, ImportExport, ImportModule, Reserve, RootEntry, UseBinding, UseEntry, Uses};
use crate::model::lists::{append, cons, find_id};
use crate::model::names::{camel_member, dotted, snake_member, starts_upper};
use crate::model::resolve::{named, unnamed};
use crate::problem::{Diag, Problem, Stop};
use crate::text::Text;

verus! {

/// The manifest group of one surface name, such as `Io` for `io`.
pub open spec fn sys_group_name(groups: &Chain<GroupDef>, surface: &Text) -> Option<Text>
    decreases groups,
{
    match groups {
        Chain::Nil => None,
        Chain::Cons(head, tail) => {
            if (head.surface == *surface) {
                Some(head.name)
            } else {
                sys_group_name(tail, surface)
            }
        },
    }
}

/// The slot of a fixed operation from a position on.
pub open spec fn fixed_member_from(ops: &Chain<OpDef>, group: &Text, member: &Text, at: u32) -> Option<u32>
    decreases ops,
{
    match ops {
        Chain::Nil => None,
        Chain::Cons(head, tail) => {
            if head.fixed && (head.group == *group) && (head.member == *member) {
                Some(at)
            } else {
                fixed_member_from(tail, group, member, at.wrapping_add(1))
            }
        },
    }
}

/// The slot of a fixed operation by its manifest names.
pub open spec fn fixed_member(bundle: &Bundle, group: &Text, member: &Text) -> Option<u32>
{
    fixed_member_from(&bundle.ops, group, member, 0u32)
}

/// The binding of one name.
pub open spec fn find_use<'a>(entries: &'a Chain<UseEntry>, name: &Text) -> Option<&'a UseBinding>
    decreases entries,
{
    match entries {
        Chain::Nil => None,
        Chain::Cons(head, tail) => {
            if (head.name == *name) {
                Some(&head.binding)
            } else {
                find_use(tail, name)
            }
        },
    }
}

/// The module prefix of an import root.
pub open spec fn find_root<'a>(roots: &'a Chain<RootEntry>, name: &Text) -> Option<&'a Text>
    decreases roots,
{
    match roots {
        Chain::Nil => None,
        Chain::Cons(head, tail) => {
            if (head.name == *name) {
                Some(&head.prefix)
            } else {
                find_root(tail, name)
            }
        },
    }
}

/// The module of a path.
pub open spec fn find_module<'a>(modules: &'a Chain<ImportModule>, path: &Text) -> Option<&'a ImportModule>
    decreases modules,
{
    match modules {
        Chain::Nil => None,
        Chain::Cons(head, tail) => {
            if (head.path == *path) {
                Some(&**head)
            } else {
                find_module(tail, path)
            }
        },
    }
}

/// The export of a name.
pub open spec fn find_export<'a>(exports: &'a Chain<ImportExport>, name: &Text) -> Option<&'a ImportExport>
    decreases exports,
{
    match exports {
        Chain::Nil => None,
        Chain::Cons(head, tail) => {
            if (head.name == *name) {
                Some(&**head)
            } else {
                find_export(tail, name)
            }
        },
    }
}

/// A first text, and more segments behind it with dots between.
pub open spec fn join_path(first: Text, rest: &Chain<Text>) -> Text
    decreases rest,
{
    match rest {
        Chain::Nil => first,
        Chain::Cons(head, tail) => join_path(dotted(&first, head), tail),
    }
}

/// The last segment of a path.
pub open spec fn last_segment<'a>(first: &'a Text, rest: &'a Chain<Text>) -> &'a Text
    decreases rest,
{
    match rest {
        Chain::Nil => first,
        Chain::Cons(head, tail) => last_segment(head, tail),
    }
}

/// The text before the last dot, where there is one.
pub open spec fn before_last_dot(name: &Text) -> Option<Text>
    decreases name,
{
    match name {
        Chain::Nil => None,
        Chain::Cons(head, tail) => {
            match before_last_dot(tail) {
                Some(rest) => Some(cons(**head, rest)),
                None => {
                    if **head == '.' {
                        Some(Chain::Nil)
                    } else {
                        None
                    }
                },
            }
        },
    }
}

/// Whether an import reserves a name.
pub open spec fn reserves_name(reserves: &Chain<Reserve>, kind: ExportKind, bound: &Text) -> bool
    decreases reserves,
{
    match reserves {
        Chain::Nil => false,
        Chain::Cons(head, tail) => (head.kind == kind && (head.bound == *bound)) || reserves_name(tail, kind, bound),
    }
}

/// Bind one imported type name in the module scope. A name the module
/// already defines is an error, never a silent shadow.
pub open spec fn bind_type(cx: &Ctx, st: Uses, reserve: Reserve, span: Span) -> (Uses, Result<(), Stop>)
{
    if find_id(&cx.user_types, &reserve.bound).is_some() || reserves_name(&st.reserves, ExportKind::Class, &reserve.bound) {
        (st, Err(Stop::Fail(Diag { problem: Problem::UseNameTaken, subject: reserve.bound, span: span })))
    } else {
        (Uses { reserves: append(st.reserves, reserve), ..st }, Ok(()))
    }
}

/// Bind one imported interface name in the module scope.
pub open spec fn bind_interface(cx: &Ctx, st: Uses, reserve: Reserve, span: Span) -> (Uses, Result<(), Stop>)
{
    if find_id(&cx.user_interfaces, &reserve.bound).is_some() || reserves_name(&st.reserves, ExportKind::Interface, &reserve.bound) {
        (st, Err(Stop::Fail(Diag { problem: Problem::UseInterfaceTaken, subject: reserve.bound, span: span })))
    } else {
        (Uses { reserves: append(st.reserves, reserve), ..st }, Ok(()))
    }
}

/// Bind one export under a name of the module scope.
pub open spec fn bind_export(
    cx: &Ctx,
    st: Uses,
    bound: Text,
    module: &Text,
    export: &ImportExport,
    decl: &UseDecl,
) -> (Uses, Result<(), Stop>)
{
    let reserve = Reserve { kind: export.kind, bound: bound, module: *module, name: export.name, span: decl.span };
    match export.kind {
        ExportKind::Class => bind_type(cx, st, reserve, decl.name_span),
        ExportKind::Interface => bind_interface(cx, st, reserve, decl.name_span),
        ExportKind::Function => (Uses { reserves: append(st.reserves, reserve), ..st }, Ok(())),
    }
}

/// Bind every export of a module under its alias.
pub open spec fn bind_exports(
    cx: &Ctx,
    st: Uses,
    alias: &Text,
    module: &Text,
    exports: &Chain<ImportExport>,
    decl: &UseDecl,
) -> (Uses, Result<(), Stop>)
    decreases exports,
{
    match exports {
        Chain::Nil => (st, Ok(())),
        Chain::Cons(head, tail) => {
            match bind_export(cx, st, dotted(alias, &head.name), module, head, decl) {
                (st, Err(stop)) => (st, Err(stop)),
                (st, Ok(_bound)) => {
                    bind_exports(cx, st, alias, module, tail, decl)
                },
            }
        },
    }
}

/// Resolve one `use` line that names a module or a definition of the
/// compile environment.
pub open spec fn resolve_module_use(
    cx: &Ctx,
    st: Uses,
    env: &ImportEnv,
    decl: &UseDecl,
    root: &Text,
    rest: &Chain<Text>,
) -> (Uses, Result<UseEntry, Stop>)
{
    let bound = last_segment(root, rest);
    match find_root(&env.roots, root) {
        None => {
            if env.no_package_roots {
                (st, Err(Stop::Fail(Diag { problem: Problem::UseNeedsPackage, subject: join_path(*root, rest), span: decl.span })))
            } else {
                (st, Err(named(Problem::UseUnknownRoot, root, decl.span)))
            }
        },
        Some(prefix) => {
            let full = join_path(*prefix, rest);
            match find_module(&env.modules, &full) {
                Some(module) => {
                    match bind_exports(cx, st, bound, &full, &module.exports, decl) {
                        (st, Err(stop)) => (st, Err(stop)),
                        (st, Ok(_exports)) => {
                            (st, Ok(UseEntry { name: *bound, binding: UseBinding::ModulePath(full) }))
                        },
                    }
                },
                None => resolve_definition_use(cx, st, env, decl, root, rest, &full, bound),
            }
        },
    }
}

/// Resolve one `use` line whose last segment names an export.
pub open spec fn resolve_definition_use(
    cx: &Ctx,
    st: Uses,
    env: &ImportEnv,
    decl: &UseDecl,
    root: &Text,
    rest: &Chain<Text>,
    full: &Text,
    bound: &Text,
) -> (Uses, Result<UseEntry, Stop>)
{
    let none = Stop::Fail(Diag { problem: Problem::UseNoModule, subject: join_path(*root, rest), span: decl.span });
    match before_last_dot(full) {
        None => (st, Err(none)),
        Some(path) => {
            match find_module(&env.modules, &path) {
                None => (st, Err(none)),
                Some(module) => {
                    match find_export(&module.exports, bound) {
                        None => (st, Err(named(Problem::UseNoExport, bound, decl.name_span))),
                        Some(export) => {
                            match bind_export(cx, st, *bound, &path, export, decl) {
                                (st, Err(stop)) => (st, Err(stop)),
                                (st, Ok(_bound)) => {
                                    (st, Ok(UseEntry { name: *bound, binding: UseBinding::ModulePath(path) }))
                                },
                            }
                        },
                    }
                },
            }
        },
    }
}

/// Resolve a `use` line of one `sys` group member. Callable members use
/// snake case; the machine constructor keeps its own name.
pub open spec fn resolve_sys_member_use(cx: &Ctx, group: Text, member: &Text, span: Span) -> Result<UseBinding, Stop>
{
    let is_ctor = (group@ == "Vm"@) && ((*member)@ == "Vm"@);
    if is_ctor {
        Ok(UseBinding::SysMember { group: group, member: *member })
    } else if starts_upper(member) {
        if fixed_member(&cx.bundle, &group, member).is_some() {
            Err(Stop::Fail(Diag { problem: Problem::UseSnakeMember, subject: snake_member(member), span: span }))
        } else {
            Err(named(Problem::UseNoOperation, member, span))
        }
    } else if fixed_member(&cx.bundle, &group, &camel_member(member)).is_none() {
        Err(named(Problem::UseNoOperation, member, span))
    } else {
        Ok(UseBinding::SysMember { group: group, member: *member })
    }
}

/// Resolve one `use sys` line from the segments behind `sys`.
pub open spec fn resolve_sys_use(cx: &Ctx, rest: &Chain<Text>, decl: &UseDecl) -> Result<UseBinding, Stop>
{
    match rest {
        Chain::Nil => Err(unnamed(Problem::UseSysAlone, decl.span)),
        Chain::Cons(surface, behind_group) => {
            match &**behind_group {
                Chain::Nil => {
                    match sys_group_name(&cx.bundle.groups, surface) {
                        Some(group) => Ok(UseBinding::SysGroup(group)),
                        None => Err(named(Problem::UseNoGroup, surface, decl.name_span)),
                    }
                },
                Chain::Cons(member, behind_member) => {
                    if !behind_member.is_empty() {
                        Err(unnamed(Problem::UseTooLong, decl.span))
                    } else {
                        match sys_group_name(&cx.bundle.groups, surface) {
                            Some(group) => resolve_sys_member_use(cx, group, member, decl.name_span),
                            None => Err(named(Problem::UseNoGroup, surface, decl.span)),
                        }
                    }
                },
            }
        },
    }
}

/// Resolve one `use` line to a named binding.
pub open spec fn resolve_use(cx: &Ctx, st: Uses, env: &ImportEnv, decl: &UseDecl) -> (Uses, Result<UseEntry, Stop>)
{
    match &decl.path {
        Chain::Nil => (st, Err(unnamed(Problem::UseNoModule, decl.span))),
        Chain::Cons(root, rest) => {
            if ((**root)@ == "sys"@) {
                match resolve_sys_use(cx, rest, decl) {
                    Err(stop) => (st, Err(stop)),
                    Ok(binding) => {
                        (st, Ok(UseEntry { name: *last_segment(root, rest), binding: binding }))
                    },
                }
            } else {
                resolve_module_use(cx, st, env, decl, root, rest)
            }
        },
    }
}

/// Resolve the `use` lines of one module into named bindings. Each name
/// has one binding.
pub open spec fn resolve_uses(cx: &Ctx, st: Uses, env: &ImportEnv, uses: &Chain<UseDecl>) -> (Uses, Result<(), Stop>)
    decreases uses,
{
    match uses {
        Chain::Nil => (st, Ok(())),
        Chain::Cons(head, tail) => {
            match resolve_use(cx, st, env, head) {
                (st, Err(stop)) => (st, Err(stop)),
                (st, Ok(entry)) => {
                    if find_use(&st.entries, &entry.name).is_some() {
                        (st, Err(Stop::Fail(Diag { problem: Problem::UseBoundTwice, subject: entry.name, span: head.name_span })))
                    } else {
                        resolve_uses(cx, Uses { entries: append(st.entries, entry), ..st }, env, tail)
                    }
                },
            }
        },
    }
}

} // verus!
