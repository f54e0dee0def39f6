//! General laws of the engine, stated over the specification functions that
//! the executable contracts use, and proved once and for all inputs.

use vstd::prelude::*;
use crate::expr::TypeExpr;
use crate::rules::{RuleExpr, RuleInfo};
use crate::subst::first_match;

verus! {

/// Comparing any expression with itself succeeds and generates no
/// constraints at all.
pub proof fn lemma_unify_identical(e: TypeExpr)
    ensures
        e.unified(e) == Ok::<Seq<RuleExpr>, ()>(Seq::empty()),
    decreases e,
{
    match e {
        TypeExpr::Function(l, r) => {
            lemma_unify_identical(*l);
            lemma_unify_identical(*r);
            assert(Seq::<RuleExpr>::empty() + Seq::<RuleExpr>::empty() =~= Seq::<RuleExpr>::empty());
        }
        TypeExpr::Tuple(l, r) => {
            lemma_unify_identical(*l);
            lemma_unify_identical(*r);
            assert(Seq::<RuleExpr>::empty() + Seq::<RuleExpr>::empty() =~= Seq::<RuleExpr>::empty());
        }
        TypeExpr::Var(_) => {}
        TypeExpr::Bool => {}
        TypeExpr::Int => {}
    }
}

/// The comparison is symmetric: the two sides can be swapped without
/// changing whether unification succeeds or which constraints it produces
/// (a rule's left hand side is always the variable, whichever side it
/// stood on).
pub proof fn lemma_unify_symmetric(a: TypeExpr, b: TypeExpr)
    ensures
        a.unified(b) == b.unified(a),
    decreases a,
{
    match (a, b) {
        (TypeExpr::Function(al, ar), TypeExpr::Function(bl, br)) => {
            lemma_unify_symmetric(*al, *bl);
            lemma_unify_symmetric(*ar, *br);
        }
        (TypeExpr::Tuple(al, ar), TypeExpr::Tuple(bl, br)) => {
            lemma_unify_symmetric(*al, *bl);
            lemma_unify_symmetric(*ar, *br);
        }
        _ => {}
    }
}

/// Unifying two variables is canonical: the produced rule always maps the
/// smaller identifier to the larger one, and unifying a variable with
/// itself produces no rule.
pub proof fn lemma_unify_var_pair(x: usize, c: usize)
    ensures
        x < c ==> TypeExpr::Var(x).unified(TypeExpr::Var(c)) == Ok::<Seq<RuleExpr>, ()>(
            seq![RuleExpr { var: x, rhs: Box::new(TypeExpr::Var(c)) }],
        ),
        c < x ==> TypeExpr::Var(x).unified(TypeExpr::Var(c)) == Ok::<Seq<RuleExpr>, ()>(
            seq![RuleExpr { var: c, rhs: Box::new(TypeExpr::Var(x)) }],
        ),
        x == c ==> TypeExpr::Var(x).unified(TypeExpr::Var(c)) == Ok::<Seq<RuleExpr>, ()>(
            Seq::empty(),
        ),
{
}

/// Mismatched constructors with no variable on either side can never be
/// unified: the comparison always fails.
pub proof fn lemma_unify_mismatch(a: TypeExpr, b: TypeExpr, c: TypeExpr, d: TypeExpr)
    ensures
        TypeExpr::Bool.unified(TypeExpr::Int) is Err,
        TypeExpr::Int.unified(TypeExpr::Bool) is Err,
        TypeExpr::Function(Box::new(a), Box::new(b)).unified(
            TypeExpr::Tuple(Box::new(c), Box::new(d)),
        ) is Err,
        TypeExpr::Tuple(Box::new(a), Box::new(b)).unified(
            TypeExpr::Function(Box::new(c), Box::new(d)),
        ) is Err,
{
}

/// Unifying a composite expression with a bare variable always succeeds,
/// with exactly one rule binding that variable to the whole composite.
pub proof fn lemma_unify_composite_with_var(a: TypeExpr, b: TypeExpr, x: usize)
    ensures
        TypeExpr::Function(Box::new(a), Box::new(b)).unified(TypeExpr::Var(x)) == Ok::<
            Seq<RuleExpr>,
            (),
        >(
            seq![
                RuleExpr { var: x, rhs: Box::new(TypeExpr::Function(Box::new(a), Box::new(b))) },
            ],
        ),
        TypeExpr::Tuple(Box::new(a), Box::new(b)).unified(TypeExpr::Var(x)) == Ok::<
            Seq<RuleExpr>,
            (),
        >(seq![RuleExpr { var: x, rhs: Box::new(TypeExpr::Tuple(Box::new(a), Box::new(b))) }]),
{
}

/// Renaming is total: after `replaced(from, to)` a variable is in the
/// expression exactly when it was there before and is not `from`, or is
/// `to` standing in for an occurrence of `from`.
pub proof fn lemma_replace_var_vars(e: TypeExpr, from: usize, to: usize)
    ensures
        forall|v: usize|
            e.replaced(from, to).vars().contains(v) <==> (e.vars().contains(v) && v != from) || (
            e.vars().contains(from) && v == to),
    decreases e,
{
    match e {
        TypeExpr::Function(l, r) => {
            lemma_replace_var_vars(*l, from, to);
            lemma_replace_var_vars(*r, from, to);
            assert(e.replaced(from, to).vars() == (*l).replaced(from, to).vars().union(
                (*r).replaced(from, to).vars(),
            ));
            assert(e.vars() == (*l).vars().union((*r).vars()));
        }
        TypeExpr::Tuple(l, r) => {
            lemma_replace_var_vars(*l, from, to);
            lemma_replace_var_vars(*r, from, to);
            assert(e.replaced(from, to).vars() == (*l).replaced(from, to).vars().union(
                (*r).replaced(from, to).vars(),
            ));
            assert(e.vars() == (*l).vars().union((*r).vars()));
        }
        TypeExpr::Var(_) => {}
        TypeExpr::Bool => {}
        TypeExpr::Int => {}
    }
}

/// No rule of the sequence constrains `x` exactly when the scan for the
/// first match comes back empty.
pub proof fn lemma_first_match_none(rules: Seq<RuleExpr>, x: usize)
    ensures
        first_match(rules, x) is None <==> forall|i: int|
            0 <= i < rules.len() ==> (#[trigger] rules[i]).var != x,
    decreases rules.len(),
{
    if rules.len() > 0 && rules[0].var != x {
        lemma_first_match_none(rules.drop_first(), x);
        assert forall|i: int| 0 <= i < rules.len() && (#[trigger] rules[i]).var == x implies
            !(first_match(rules, x) is None) by {
            assert(rules.drop_first()[i - 1] == rules[i]);
        }
        if first_match(rules, x) is None {
            assert forall|i: int| 0 <= i < rules.len() implies (#[trigger] rules[i]).var != x by {}
        }
    }
}

/// A substitution step fires no rule exactly when no variable of the
/// expression stands on any rule's left hand side; and a step that fires
/// nothing leaves the expression unchanged.  This is the termination
/// criterion of a caller's outer solve loop.
pub proof fn lemma_substitution_fixpoint(e: TypeExpr, rules: Vec<RuleExpr>)
    ensures
        e.substituted(rules@).1 is None <==> e.vars().disjoint(rules.lhs_vars()),
        e.substituted(rules@).1 is None ==> e.substituted(rules@).0 == e,
    decreases e,
{
    match e {
        TypeExpr::Function(l, r) => {
            lemma_substitution_fixpoint(*l, rules);
            lemma_substitution_fixpoint(*r, rules);
            assert((*l).vars().union((*r).vars()).disjoint(rules.lhs_vars()) <==> (
            (*l).vars().disjoint(rules.lhs_vars()) && (*r).vars().disjoint(rules.lhs_vars())));
        }
        TypeExpr::Tuple(l, r) => {
            lemma_substitution_fixpoint(*l, rules);
            lemma_substitution_fixpoint(*r, rules);
            assert((*l).vars().union((*r).vars()).disjoint(rules.lhs_vars()) <==> (
            (*l).vars().disjoint(rules.lhs_vars()) && (*r).vars().disjoint(rules.lhs_vars())));
        }
        TypeExpr::Var(x) => {
            lemma_first_match_none(rules@, x);
            assert(e.vars().contains(x));
            if forall|i: int| 0 <= i < rules@.len() ==> (#[trigger] rules@[i]).var != x {
                assert(!rules.lhs_vars().contains(x));
            } else {
                let i = choose|i: int| 0 <= i < rules@.len() && (#[trigger] rules@[i]).var == x;
                assert(rules.lhs_vars().contains(x));
            }
        }
        TypeExpr::Bool => {}
        TypeExpr::Int => {}
    }
}

/// Every rule contributes its whole variable footprint to the rule set's
/// aggregate queries: each left hand side is in `lhs_vars`, and every
/// variable of each right hand side is in `rhs_vars`.
pub proof fn lemma_rule_set_vars_complete(rules: Vec<RuleExpr>)
    ensures
        forall|i: int|
            0 <= i < rules@.len() ==> (#[trigger] rules@[i]).lhs_vars().subset_of(
                rules.lhs_vars(),
            ),
        forall|i: int|
            0 <= i < rules@.len() ==> (#[trigger] rules@[i]).rhs_vars().subset_of(
                rules.rhs_vars(),
            ),
{
    assert forall|i: int| 0 <= i < rules@.len() implies (#[trigger] rules@[i]).lhs_vars().subset_of(
        rules.lhs_vars(),
    ) by {
        assert forall|v: usize| rules@[i].lhs_vars().contains(v) implies rules.lhs_vars().contains(
            v,
        ) by {
            assert(rules@[i].var == v);
        }
    }
    assert forall|i: int| 0 <= i < rules@.len() implies (#[trigger] rules@[i]).rhs_vars().subset_of(
        rules.rhs_vars(),
    ) by {
        assert forall|v: usize| rules@[i].rhs_vars().contains(v) implies rules.rhs_vars().contains(
            v,
        ) by {
            assert((*rules@[i].rhs).vars().contains(v));
        }
    }
}

/// Substitution descends left before right: when the left child of a
/// function or tuple can take a step, the right child is left untouched.
pub proof fn lemma_substitution_left_bias(l: TypeExpr, r: TypeExpr, rules: Seq<RuleExpr>)
    ensures
        l.substituted(rules).1 is Some ==> TypeExpr::Function(Box::new(l), Box::new(r)).substituted(
            rules,
        ) == (
            TypeExpr::Function(Box::new(l.substituted(rules).0), Box::new(r)),
            l.substituted(rules).1,
        ),
        l.substituted(rules).1 is Some ==> TypeExpr::Tuple(Box::new(l), Box::new(r)).substituted(
            rules,
        ) == (
            TypeExpr::Tuple(Box::new(l.substituted(rules).0), Box::new(r)),
            l.substituted(rules).1,
        ),
{
}

} // verus!
