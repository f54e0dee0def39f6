use std::collections::HashSet;

use unifier::expr::TypeExpr;
use unifier::rules::{RuleExpr, RuleInfo};

fn func(l: TypeExpr, r: TypeExpr) -> TypeExpr {
    TypeExpr::Function(Box::new(l), Box::new(r))
}

fn tup(l: TypeExpr, r: TypeExpr) -> TypeExpr {
    TypeExpr::Tuple(Box::new(l), Box::new(r))
}

fn rule(var: usize, rhs: TypeExpr) -> RuleExpr {
    RuleExpr { var, rhs: Box::new(rhs) }
}

#[test]
fn compare_identical_expressions_yields_no_rules() {
    let e = func(tup(TypeExpr::Var(0), TypeExpr::Bool), TypeExpr::Int);
    assert_eq!(e.compare_types(&e), Ok(vec![]));
    assert_eq!(TypeExpr::Bool.compare_types(&TypeExpr::Bool), Ok(vec![]));
    assert_eq!(TypeExpr::Int.compare_types(&TypeExpr::Int), Ok(vec![]));
}

#[test]
fn var_pair_has_canonical_direction() {
    let expected = Ok(vec![rule(2, TypeExpr::Var(5))]);
    assert_eq!(TypeExpr::Var(5).compare_types(&TypeExpr::Var(2)), expected);
    let expected = Ok(vec![rule(2, TypeExpr::Var(5))]);
    assert_eq!(TypeExpr::Var(2).compare_types(&TypeExpr::Var(5)), expected);
    assert_eq!(TypeExpr::Var(7).compare_types(&TypeExpr::Var(7)), Ok(vec![]));
}

#[test]
fn comparison_is_symmetric_in_content() {
    let a = func(TypeExpr::Var(0), TypeExpr::Bool);
    let b = TypeExpr::Var(3);
    assert_eq!(a.compare_types(&b), b.compare_types(&a));
    let c = tup(TypeExpr::Var(1), TypeExpr::Int);
    let d = tup(TypeExpr::Var(2), TypeExpr::Var(1));
    assert_eq!(c.compare_types(&d), d.compare_types(&c));
    assert_eq!(
        TypeExpr::Int.compare_types(&TypeExpr::Var(8)),
        TypeExpr::Var(8).compare_types(&TypeExpr::Int)
    );
}

#[test]
fn mismatched_constructors_fail() {
    assert_eq!(TypeExpr::Bool.compare_types(&TypeExpr::Int), Err(()));
    assert_eq!(TypeExpr::Int.compare_types(&TypeExpr::Bool), Err(()));
    let f = func(TypeExpr::Var(0), TypeExpr::Bool);
    let t = tup(TypeExpr::Var(0), TypeExpr::Bool);
    assert_eq!(f.compare_types(&t), Err(()));
    assert_eq!(t.compare_types(&f), Err(()));
    assert_eq!(f.compare_types(&TypeExpr::Int), Err(()));
    assert_eq!(TypeExpr::Bool.compare_types(&t), Err(()));
}

#[test]
fn composite_against_variable_binds_the_variable() {
    let f = func(TypeExpr::Var(1), TypeExpr::Bool);
    let got = f.compare_types(&TypeExpr::Var(3));
    assert_eq!(got, Ok(vec![rule(3, func(TypeExpr::Var(1), TypeExpr::Bool))]));
    // the emitted rule owns a copy, not the compared expression itself
    let rules = got.unwrap();
    assert_eq!(f, func(TypeExpr::Var(1), TypeExpr::Bool));
    assert_eq!(*rules[0].rhs, f);

    let t = tup(TypeExpr::Int, TypeExpr::Int);
    assert_eq!(
        TypeExpr::Var(9).compare_types(&t),
        Ok(vec![rule(9, tup(TypeExpr::Int, TypeExpr::Int))])
    );
    assert_eq!(
        TypeExpr::Bool.compare_types(&TypeExpr::Var(4)),
        Ok(vec![rule(4, TypeExpr::Bool)])
    );
    assert_eq!(
        TypeExpr::Var(4).compare_types(&TypeExpr::Int),
        Ok(vec![rule(4, TypeExpr::Int)])
    );
}

#[test]
fn nested_mismatch_short_circuits() {
    let a = func(TypeExpr::Bool, TypeExpr::Int);
    let b = func(TypeExpr::Int, TypeExpr::Int);
    assert_eq!(a.compare_types(&b), Err(()));
}

#[test]
fn function_comparison_concatenates_left_rules_first() {
    let a = func(TypeExpr::Var(0), TypeExpr::Var(1));
    let b = func(TypeExpr::Bool, TypeExpr::Int);
    assert_eq!(
        a.compare_types(&b),
        Ok(vec![rule(0, TypeExpr::Bool), rule(1, TypeExpr::Int)])
    );
}

#[test]
fn single_step_substitution_fires_once() {
    let rules = vec![rule(0, TypeExpr::Int)];
    let mut e = TypeExpr::Var(0);
    let fired = e.substitute_constraint(&rules);
    assert_eq!(e, TypeExpr::Int);
    assert_eq!(fired, Some(rule(0, TypeExpr::Int)));
    let fired = e.substitute_constraint(&rules);
    assert_eq!(e, TypeExpr::Int);
    assert_eq!(fired, None);
}

#[test]
fn substitution_goes_left_before_right() {
    let rules = vec![rule(0, TypeExpr::Bool), rule(1, TypeExpr::Int)];
    let mut e = func(TypeExpr::Var(0), TypeExpr::Var(1));
    let fired = e.substitute_constraint(&rules);
    assert_eq!(e, func(TypeExpr::Bool, TypeExpr::Var(1)));
    assert_eq!(fired, Some(rule(0, TypeExpr::Bool)));
    let fired = e.substitute_constraint(&rules);
    assert_eq!(e, func(TypeExpr::Bool, TypeExpr::Int));
    assert_eq!(fired, Some(rule(1, TypeExpr::Int)));
    assert_eq!(e.substitute_constraint(&rules), None);
}

#[test]
fn substitution_rewrites_leftmost_deep_occurrence() {
    let rules = vec![rule(0, TypeExpr::Int)];
    let mut e = func(func(TypeExpr::Var(2), TypeExpr::Var(0)), TypeExpr::Var(0));
    let fired = e.substitute_constraint(&rules);
    assert_eq!(e, func(func(TypeExpr::Var(2), TypeExpr::Int), TypeExpr::Var(0)));
    assert_eq!(fired, Some(rule(0, TypeExpr::Int)));
}

#[test]
fn substitution_takes_first_matching_rule_in_order() {
    let rules = vec![rule(0, TypeExpr::Bool), rule(0, TypeExpr::Int)];
    let mut e = TypeExpr::Var(0);
    let fired = e.substitute_constraint(&rules);
    assert_eq!(e, TypeExpr::Bool);
    assert_eq!(fired, Some(rule(0, TypeExpr::Bool)));
}

#[test]
fn base_types_never_substitute() {
    let rules = vec![rule(0, TypeExpr::Bool)];
    let mut e = TypeExpr::Int;
    assert_eq!(e.substitute_constraint(&rules), None);
    assert_eq!(e, TypeExpr::Int);
    let mut e = TypeExpr::Bool;
    assert_eq!(e.substitute_constraint(&rules), None);
    assert_eq!(e, TypeExpr::Bool);
}

#[test]
fn rule_substitution_touches_only_the_right_hand_side() {
    let rules = vec![rule(0, TypeExpr::Int), rule(8, TypeExpr::Bool)];
    let mut r = rule(8, func(TypeExpr::Var(0), TypeExpr::Bool));
    let fired = r.substitute_constraint(&rules);
    assert_eq!(r, rule(8, func(TypeExpr::Int, TypeExpr::Bool)));
    assert_eq!(fired, Some(rule(0, TypeExpr::Int)));
}

#[test]
fn replace_var_renames_every_occurrence() {
    let mut e = tup(TypeExpr::Var(4), func(TypeExpr::Var(4), TypeExpr::Int));
    e.replace_var(4, 9);
    assert_eq!(e, tup(TypeExpr::Var(9), func(TypeExpr::Var(9), TypeExpr::Int)));
}

#[test]
fn replace_var_leaves_other_leaves_alone() {
    let mut e = TypeExpr::Bool;
    e.replace_var(0, 1);
    assert_eq!(e, TypeExpr::Bool);
    let mut e = TypeExpr::Int;
    e.replace_var(0, 1);
    assert_eq!(e, TypeExpr::Int);
    let mut e = TypeExpr::Var(3);
    e.replace_var(0, 1);
    assert_eq!(e, TypeExpr::Var(3));
}

#[test]
fn rule_replace_var_renames_both_sides() {
    let mut r = rule(2, func(TypeExpr::Var(2), TypeExpr::Var(3)));
    r.replace_var(2, 7);
    assert_eq!(r, rule(7, func(TypeExpr::Var(7), TypeExpr::Var(3))));
    let mut r = rule(1, TypeExpr::Var(2));
    r.replace_var(2, 0);
    assert_eq!(r, rule(1, TypeExpr::Var(0)));
}

#[test]
fn is_simple_detects_variable_right_hand_sides() {
    assert_eq!(rule(1, TypeExpr::Var(2)).is_simple(), Some((1, 2)));
    assert_eq!(rule(1, TypeExpr::Int).is_simple(), None);
    assert_eq!(
        rule(0, func(TypeExpr::Var(1), TypeExpr::Var(2))).is_simple(),
        None
    );
}

#[test]
fn compare_rules_compares_right_hand_sides_only() {
    let a = rule(1, TypeExpr::Var(5));
    let b = rule(9, TypeExpr::Var(2));
    assert_eq!(a.compare_rules(&b), Ok(vec![rule(2, TypeExpr::Var(5))]));
    let c = rule(3, TypeExpr::Bool);
    let d = rule(3, TypeExpr::Int);
    assert_eq!(c.compare_rules(&d), Err(()));
}

#[test]
fn lhs_checks_compare_the_bound_variable() {
    let a = rule(1, TypeExpr::Int);
    let b = rule(1, TypeExpr::Bool);
    let c = rule(2, TypeExpr::Int);
    assert!(a.has_same_lhs(&b));
    assert!(!a.has_same_lhs(&c));
    assert!(a.has_lhs(1));
    assert!(!a.has_lhs(2));
}

#[test]
fn all_vars_collects_distinct_identifiers() {
    let e = func(tup(TypeExpr::Var(1), TypeExpr::Var(2)), TypeExpr::Var(1));
    assert_eq!(e.all_vars(), HashSet::from([1, 2]));
    assert_eq!(TypeExpr::Bool.all_vars(), HashSet::new());
}

#[test]
fn rule_set_utilities_cover_every_variable() {
    let rules = vec![
        rule(1, TypeExpr::Var(2)),
        rule(5, tup(TypeExpr::Var(3), func(TypeExpr::Var(4), TypeExpr::Bool))),
    ];
    assert_eq!(rules.all_vars_lhs(), HashSet::from([1, 5]));
    assert_eq!(rules.all_vars_rhs(), HashSet::from([2, 3, 4]));
    let single = rule(6, TypeExpr::Var(6));
    assert_eq!(single.all_vars_lhs(), HashSet::from([6]));
    assert_eq!(single.all_vars_rhs(), HashSet::from([6]));
    let empty: Vec<RuleExpr> = vec![];
    assert_eq!(empty.all_vars_lhs(), HashSet::new());
    assert_eq!(empty.all_vars_rhs(), HashSet::new());
}

#[test]
fn needs_wrapping_only_for_functions() {
    assert!(func(TypeExpr::Bool, TypeExpr::Int).needs_wrapping());
    assert!(!tup(TypeExpr::Bool, TypeExpr::Int).needs_wrapping());
    assert!(!TypeExpr::Var(0).needs_wrapping());
    assert!(!TypeExpr::Bool.needs_wrapping());
    assert!(!TypeExpr::Int.needs_wrapping());
}

#[test]
fn clone_makes_an_independent_deep_copy() {
    let e = func(tup(TypeExpr::Var(0), TypeExpr::Int), TypeExpr::Bool);
    let mut copy = e.clone();
    assert_eq!(copy, e);
    copy.replace_var(0, 5);
    assert_eq!(e, func(tup(TypeExpr::Var(0), TypeExpr::Int), TypeExpr::Bool));
    let r = rule(1, TypeExpr::Var(2));
    assert_eq!(r.clone(), r);
}

#[test]
fn constructors_build_the_primitive_pieces() {
    assert_eq!(TypeExpr::var(3), TypeExpr::Var(3));
    assert_eq!(
        RuleExpr::new(3, Box::new(TypeExpr::Int)),
        rule(3, TypeExpr::Int)
    );
}

#[test]
fn expressions_have_a_total_order() {
    let mut v = vec![TypeExpr::Int, TypeExpr::Bool, TypeExpr::Var(1)];
    v.sort();
    assert_eq!(v, vec![TypeExpr::Var(1), TypeExpr::Bool, TypeExpr::Int]);
    let mut rules = vec![rule(2, TypeExpr::Int), rule(1, TypeExpr::Bool), rule(1, TypeExpr::Bool)];
    rules.sort();
    rules.dedup();
    assert_eq!(rules, vec![rule(1, TypeExpr::Bool), rule(2, TypeExpr::Int)]);
}
