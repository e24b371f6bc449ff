use lm_hir::chain::Chain;
use lm_hir::context::{ConformancePremise, InterfaceUse, NameEntry};
use lm_hir::lists;
use lm_hir::lists::{all_set, append, count, falses, find_id, find_literal, first_unset, holds_name, nth, position, set_nth, truncate};
use lm_hir::premises::{merge_uses, premises_imply};
use lm_hir::rows::{add_all, canonical_row, same_row, substitute_row};
use lm_hir::subst::{contains_var, first_variables, substitute};
use lm_hir::text::text;
use lm_hir::types::{same_ty, Row, RowElem, Ty};

fn chain<T>(items: Vec<T>) -> Chain<T> {
    let mut out: Chain<T> = Chain::Nil;
    for item in items.into_iter().rev() {
        out = Chain::Cons(Box::new(item), Box::new(out));
    }
    out
}

fn list<T>(items: &Chain<T>) -> Vec<&T> {
    let mut out: Vec<&T> = Vec::new();
    let mut rest = items;
    while let Chain::Cons(head, tail) = rest {
        out.push(head);
        rest = tail;
    }
    out
}

fn plain<T: Copy>(items: &Chain<T>) -> Vec<T> {
    list(items).into_iter().map(|x| *x).collect()
}

fn bound(interface: u32) -> InterfaceUse {
    InterfaceUse { interface: interface, type_args: Chain::Nil, row_args: Chain::Nil }
}

fn premise(param: u32, interfaces: Vec<u32>) -> ConformancePremise {
    ConformancePremise { param: param, bounds: chain(interfaces.into_iter().map(bound).collect()) }
}

#[test]
fn lists_behave_as_sequences() {
    let items = || chain(vec![4u32, 5, 6]);
    assert_eq!(nth(&items(), 1), Some(&5));
    assert_eq!(nth(&items(), 3), None);
    assert_eq!(count(&items()), 3);
    assert_eq!(plain(&append(items(), 7)), vec![4, 5, 6, 7]);
    assert_eq!(plain(&lists::concat(items(), items())), vec![4, 5, 6, 4, 5, 6]);
    assert_eq!(plain(&set_nth(items(), 1, 9)), vec![4, 9, 6]);
    assert_eq!(plain(&set_nth(items(), 3, 9)), vec![4, 5, 6]);
    assert_eq!(plain(&truncate(items(), 2)), vec![4, 5]);
    assert_eq!(plain(&truncate(items(), 9)), vec![4, 5, 6]);
}

#[test]
fn markers_are_set_or_one_is_first_unset() {
    assert_eq!(plain(&falses(&chain(vec![1u32, 2]))), vec![false, false]);
    assert!(all_set(&chain(vec![true, true])));
    assert_eq!(first_unset(&chain(vec![true, true])), None);
    assert!(!all_set(&chain(vec![true, false, false])));
    assert_eq!(first_unset(&chain(vec![true, false, false])), Some(1));
}

#[test]
fn the_first_entry_of_a_name_counts() {
    let names = chain(vec![text("a"), text("b"), text("a")]);
    assert_eq!(position(&names, &text("a")), Some(0));
    assert_eq!(position(&names, &text("c")), None);
    assert!(holds_name(&names, &text("b")));
    let entries = chain(vec![
        NameEntry { name: text("a"), id: 3 },
        NameEntry { name: text("a"), id: 4 },
    ]);
    assert_eq!(find_id(&entries, &text("a")), Some(3));
    assert_eq!(find_literal(&entries, "a"), Some(3));
    assert_eq!(find_literal(&entries, "b"), None);
}

#[test]
fn the_canonical_form_depends_on_the_elements_alone() {
    let one = canonical_row(&chain(vec![RowElem::Var(1), RowElem::Op(2), RowElem::Op(2)]));
    let two = canonical_row(&chain(vec![RowElem::Op(2), RowElem::Var(1)]));
    assert!(same_row(&one, &two));
    assert!(same_row(&canonical_row(&one), &one));
    assert!(same_row(&add_all(canonical_row(&one), &two), &one));
}

#[test]
fn a_substituted_row_holds_its_arguments() {
    let row = chain(vec![RowElem::Op(5), RowElem::Var(0), RowElem::Var(3)]);
    let rows: Chain<Row> = chain(vec![chain(vec![RowElem::Op(1), RowElem::Op(5)])]);
    let found = substitute_row(&row, &rows);
    assert_eq!(plain(&found), vec![RowElem::Op(1), RowElem::Op(5), RowElem::Var(3)]);
}

#[test]
fn variables_stand_for_themselves() {
    let ty = Ty::MapOf(Box::new(Ty::Var(0)), Box::new(Ty::ListOf(Box::new(Ty::Var(1)))));
    assert!(same_ty(&substitute(&ty, &first_variables(2), &Chain::Nil), &ty));
}

#[test]
fn a_type_without_variables_stays() {
    let ty = Ty::ListOf(Box::new(Ty::Int));
    assert!(!contains_var(&ty));
    assert!(same_ty(&substitute(&ty, &chain(vec![Ty::Bool]), &Chain::Nil), &ty));
}

#[test]
fn two_substitutions_compose() {
    let ty = Ty::ListOf(Box::new(Ty::Var(0)));
    let first = chain(vec![Ty::Tuple(chain(vec![Ty::Var(0), Ty::Int]))]);
    let second = chain(vec![Ty::Bool]);
    let in_turn = substitute(&substitute(&ty, &first, &Chain::Nil), &second, &Chain::Nil);
    let arguments = chain(list(&first).into_iter().map(|t| substitute(t, &second, &Chain::Nil)).collect());
    assert!(same_ty(&in_turn, &substitute(&ty, &arguments, &Chain::Nil)));
    assert!(same_ty(&in_turn, &Ty::ListOf(Box::new(Ty::Tuple(chain(vec![Ty::Bool, Ty::Int]))))));
}

#[test]
fn premises_imply_weaker_ones() {
    let weak = || chain(vec![premise(0, vec![1])]);
    let strong = || chain(vec![premise(0, vec![1, 2])]);
    assert!(premises_imply(&weak(), &weak()));
    assert!(premises_imply(&strong(), &weak()) != premises_imply(&weak(), &strong()));
}

#[test]
fn merging_bounds_adds_each_once() {
    let merged = merge_uses(chain(vec![bound(1), bound(2)]), &chain(vec![bound(2), bound(3)]));
    let ids: Vec<u32> = list(&merged).into_iter().map(|b| b.interface).collect();
    assert_eq!(ids, vec![1, 2, 3]);
}
