//! Flow refinement: what a condition narrows.

use vstd::prelude::*;
use crate::chain::Chain;
use crate::context::Ctx;
use crate::hir::{HExpr, HKind, HStmt};
use crate::laws::lists::{law_append, law_count};
use crate::laws::scopes::law_bind_name;
use crate::model::answers::compatible;
use crate::model::branches::{bind_refinement, branch_mode, fork_states, gather_branches, refinement_of};
use crate::model::endings::body_diverges;
use crate::model::scope::{hidden_local, local_mutable, local_ty, lookup_slot, name_of_slot};
use crate::problem::Stop;
use crate::state::{BlockMode, BranchOut, BranchState, Checker, CtorState, LocalVar, Refinement};
use crate::text::Text;
use crate::types::Ty;

verus! {

/// A condition narrows a local alone, to the type that it tests, where that
/// type is narrower than the type of the local.
pub proof fn law_refinement(cx: &Ctx, st: &Checker, cond: &HExpr)
    ensures
        refinement_of(cx, st, cond) matches Ok(Some(found)) ==> {
            &&& *cond.kind matches HKind::IsType { value, ty } && *value.kind == HKind::Local(found.slot) && ty == found.ty
            &&& compatible(cx, &local_ty(st, found.slot), &found.ty) == Ok::<bool, Stop>(true)
            &&& found.ty != local_ty(st, found.slot)
            &&& name_of_slot(st, found.slot) == Some(found.name)
        },
{
}

/// Inside the branch, the narrowed name stands for a new local of the
/// narrower type, with the right of the old one; it holds the value of the
/// old one behind a cast.
pub proof fn law_bind_refinement(st: Checker, refinement: &Refinement)
    requires
        st.locals@.len() <= u32::MAX,
    ensures
        ({
            let (done, init) = bind_refinement(st, refinement);
            let shadow = st.locals@.len() as u32;
            &&& done.locals@ == st.locals@.push(LocalVar { ty: refinement.ty, mutable: local_mutable(&st, refinement.slot) })
            &&& lookup_slot(&done, &refinement.name) == Some(shadow)
            &&& init matches HStmt::Assign { slot, value } && slot == shadow && value.ty == refinement.ty && value.mutable == local_mutable(&st, refinement.slot) && (
            *value.kind matches HKind::CastType { value: source, ty } && *source.kind == HKind::Local(refinement.slot) && ty == refinement.ty)
        }),
        forall|other: Text| other != refinement.name ==> #[trigger] lookup_slot(&bind_refinement(st, refinement).0, &other) == lookup_slot(&st, &other),
{
    law_count(&st.locals);
    let local = LocalVar { ty: refinement.ty, mutable: local_mutable(&st, refinement.slot) };
    law_append(st.locals, local);
    let (more, shadow) = hidden_local(st, refinement.ty, local_mutable(&st, refinement.slot));
    law_bind_name(more, &refinement.name, shadow, &refinement.name);
    assert forall|other: Text| other != refinement.name implies #[trigger] lookup_slot(&bind_refinement(st, refinement).0, &other) == lookup_slot(&st, &other) by {
        law_bind_name(more, &refinement.name, shadow, &other);
    }
}

/// A conditional without `else` can skip every branch: what held before it
/// is one of the states behind it.
pub proof fn law_fork_states(states: Chain<BranchState>, entry: &Option<CtorState>, has_else: bool)
    ensures
        *entry matches Some(state) ==> (!has_else ==> fork_states(states, entry, has_else)@ == states@.push(BranchState { state: state, diverged: false })),
        has_else || *entry is None ==> fork_states(states, entry, has_else) == states,
{
    if let Some(state) = *entry {
        law_append(states, BranchState { state: state, diverged: false });
    }
}

/// The branches of a conditional without `else` give the unit value where
/// nothing else is expected.
pub proof fn law_branch_mode(mode: &BlockMode, has_else: bool)
    ensures
        *mode is Synth && !has_else ==> branch_mode(mode, has_else) == BlockMode::Value(Ty::Unit),
        !(*mode is Synth) || has_else ==> branch_mode(mode, has_else) == *mode,
{
}

/// Each branch inside an initializer leaves its state, in order, with
/// whether it completes.
pub proof fn law_gathered_states(found: Chain<Option<BranchOut>>)
    requires
        forall|i: int| 0 <= i < found@.len() ==> (#[trigger] found@[i] matches Some(branch) && branch.state is Some),
    ensures
        gather_branches(found).states@.len() == found@.len(),
        forall|i: int| 0 <= i < found@.len() ==> leaves(#[trigger] found@[i]->0, gather_branches(found).states@[i]),
    decreases found,
{
    if let Chain::Cons(head, tail) = found {
        assert(found@[0] == *head);
        assert forall|i: int| 0 <= i < tail@.len() implies (#[trigger] tail@[i] matches Some(branch) && branch.state is Some) by {
            assert(found@[i + 1] == tail@[i]);
        }
        law_gathered_states(*tail);
        let rest = gather_branches(*tail).states;
        let all = gather_branches(found).states;
        assert forall|i: int| 0 <= i < found@.len() implies leaves(#[trigger] found@[i]->0, all@[i]) by {
            if i > 0 {
                assert(found@[i] == tail@[i - 1]);
                assert(all@[i] == rest@[i - 1]);
            }
        }
    }
}

/// Whether a state is the one that a branch leaves.
pub open spec fn leaves(branch: BranchOut, found: BranchState) -> bool {
    branch.state == Some(found.state) && found.diverged == body_diverges(&branch.block.body)
}

} // verus!
