# lm-hir

The type checker of the Loom language, as a verified library. It takes the
syntax tree of one module and gives the checked program: every expression
with its type and its capability, every name resolved to a slot, a capture
or a table index, every class and interface laid out, every effect row
compared with the row of its function.

## Layout

- `src/modules.rs` is the entry: `check_module`, `check_module_with` and
  `plan_imports`.
- `src/ast.rs`, `src/hir.rs`, `src/context.rs`, `src/state.rs` and
  `src/program.rs` hold the data: syntax, checked program, tables, the state
  of a callable under check, and what a check starts from and gives.
- `src/interfaces.rs`, `src/classes.rs`, `src/members.rs`, `src/fulfil.rs`
  and `src/resolve.rs` declare: names, types, layouts, conformances.
- `src/exprs.rs`, `src/calls.rs`, `src/control.rs`, `src/branches.rs`,
  `src/blocks.rs` and `src/patterns.rs` check bodies.
- `src/demand.rs` finds the core definitions that a module needs.
- `src/model/` states what each rule computes, as functions on values.
- `src/laws/` states what holds of the rules as a whole.
- `app/` answers questions and words problems.

## What is stated

Every executable function returns exactly what its model returns. Beside
that:

- `model::keeps`: checking one expression leaves the scopes, loops, slots
  and surroundings of its callable as they were, and numbers new functions
  without gaps.
- `model::fits`: a check against an expected type gives a value that fits.
- `model::sound`: in a checked module every slot is a slot of its function,
  every capture is one of its captures, and the row of the function covers
  every operation that it performs, every function value that it calls, and
  the declared row of every function, method, interface requirement,
  initializer and process body that it calls, and every policy target that
  it passes on. The operators of the primitive types are free.
- `model::layout`: the classes of the core and of the module stand in the
  table without gaps, each has the fields of its parent before its own, and
  each checked class has one default entry for each field.
- `laws`: rows are sets in canonical form, substitution composes, premises
  and conformances order, inheritance is a partial order, scopes and loops
  nest, demand only grows, the prelude changes no index and no name of the
  core.

## Questions

The relations on types and rows, and the coverage of patterns, belong to the
type store. A rule that needs one stops with a `Question`, which carries the
class tables; the caller adds the answer to the options and checks again.
The result of a check depends on the module, the options and the answers
alone. The coverage questions of one `case` share a work limit: a question
carries what is left of it, and its answer says what remains.

Two more things are asked: whether a value that a loop body is about to
change is one that a loop around it walks, and what stands for a core type
that the core leaves out.

## Depth

Lists are chains, so that two lists with the same items are one value in
every contract. Most rules walk a chain with one call for each item. `app/`
checks on a thread with a large stack; an embedder that calls the library
itself does the same for sources with very long literals.
