//! Single-step substitution: replacing the first matching variable
//! occurrence (depth first, left before right) with a rule's right hand side.

use vstd::prelude::*;
use crate::expr::TypeExpr;
use crate::rules::RuleExpr;

verus! {

/// The first rule, in sequence order, whose left hand side is `x`.
pub open spec fn first_match(rules: Seq<RuleExpr>, x: usize) -> Option<RuleExpr>
    decreases rules.len(),
{
    if rules.len() == 0 {
        None
    } else if rules[0].var == x {
        Some(rules[0])
    } else {
        first_match(rules.drop_first(), x)
    }
}

impl TypeExpr {
    /// One substitution step: the rewritten expression, paired with the rule
    /// that fired.  The leftmost variable occurrence (depth first, left
    /// child before right child) that some rule constrains is replaced by
    /// that rule's right hand side; at most one leaf changes, and the whole
    /// expression is unchanged when no rule applies.
    pub open spec fn substituted(self, rules: Seq<RuleExpr>) -> (TypeExpr, Option<RuleExpr>)
        decreases self,
    {
        match self {
            TypeExpr::Function(l, r) => {
                let left_step = (*l).substituted(rules);
                if left_step.1 is Some {
                    (TypeExpr::Function(Box::new(left_step.0), r), left_step.1)
                } else {
                    let right_step = (*r).substituted(rules);
                    (TypeExpr::Function(l, Box::new(right_step.0)), right_step.1)
                }
            }
            TypeExpr::Tuple(l, r) => {
                let left_step = (*l).substituted(rules);
                if left_step.1 is Some {
                    (TypeExpr::Tuple(Box::new(left_step.0), r), left_step.1)
                } else {
                    let right_step = (*r).substituted(rules);
                    (TypeExpr::Tuple(l, Box::new(right_step.0)), right_step.1)
                }
            }
            TypeExpr::Var(x) => match first_match(rules, x) {
                Some(rule) => (*rule.rhs, Some(rule)),
                None => (self, None),
            },
            TypeExpr::Bool => (self, None),
            TypeExpr::Int => (self, None),
        }
    }

    /// Builds the stepped tree together with the rule that fired.
    fn substituted_tree(&self, rules: &Vec<RuleExpr>) -> (res: (TypeExpr, Option<RuleExpr>))
        ensures
            res == self.substituted(rules@),
        decreases *self,
    {
        match self {
            TypeExpr::Function(l, r) => {
                let left_step = (&**l).substituted_tree(rules);
                if left_step.1.is_some() {
                    (TypeExpr::Function(Box::new(left_step.0), Box::new((&**r).clone())), left_step.1)
                } else {
                    let right_step = (&**r).substituted_tree(rules);
                    (TypeExpr::Function(Box::new((&**l).clone()), Box::new(right_step.0)), right_step.1)
                }
            }
            TypeExpr::Tuple(l, r) => {
                let left_step = (&**l).substituted_tree(rules);
                if left_step.1.is_some() {
                    (TypeExpr::Tuple(Box::new(left_step.0), Box::new((&**r).clone())), left_step.1)
                } else {
                    let right_step = (&**r).substituted_tree(rules);
                    (TypeExpr::Tuple(Box::new((&**l).clone()), Box::new(right_step.0)), right_step.1)
                }
            }
            TypeExpr::Var(x) => match first_matching(rules, *x) {
                Some(rule) => {
                    let expr = (&*rule.rhs).clone();
                    (expr, Some(rule))
                }
                None => (TypeExpr::Var(*x), None),
            },
            TypeExpr::Bool => (TypeExpr::Bool, None),
            TypeExpr::Int => (TypeExpr::Int, None),
        }
    }

    /// Performs one substitution step in place and returns the rule that
    /// fired, or `None` (leaving the expression unchanged) when no rule's
    /// left hand side occurs in it.
    pub fn substitute_constraint(&mut self, rules: &Vec<RuleExpr>) -> (fired: Option<RuleExpr>)
        ensures
            *final(self) == old(self).substituted(rules@).0,
            fired == old(self).substituted(rules@).1,
    {
        let step = self.substituted_tree(rules);
        *self = step.0;
        step.1
    }
}

impl RuleExpr {
    /// Performs one substitution step inside the right hand side, in place;
    /// the rule's own left hand side variable is never substituted.
    pub fn substitute_constraint(&mut self, rules: &Vec<RuleExpr>) -> (fired: Option<RuleExpr>)
        ensures
            final(self).var == old(self).var,
            *final(self).rhs == (*old(self).rhs).substituted(rules@).0,
            fired == (*old(self).rhs).substituted(rules@).1,
    {
        (&mut *self.rhs).substitute_constraint(rules)
    }
}

/// Scans the rules in sequence order for the first one constraining `x`.
fn first_matching(rules: &Vec<RuleExpr>, x: usize) -> (r: Option<RuleExpr>)
    ensures
        r == first_match(rules@, x),
{
    let n = rules.len();
    let mut i: usize = 0;
    proof {
        assert(rules@.skip(0) =~= rules@);
    }
    while i < n
        invariant
            i <= n,
            n == rules@.len(),
            first_match(rules@, x) == first_match(rules@.skip(i as int), x),
        decreases n - i,
    {
        proof {
            assert(rules@.skip(i as int)[0] == rules@[i as int]);
        }
        if rules[i].var == x {
            return Some(rules[i].clone());
        }
        proof {
            assert(rules@.skip(i as int).drop_first() =~= rules@.skip(i as int + 1));
        }
        i += 1;
    }
    proof {
        assert(rules@.skip(n as int).len() == 0);
    }
    None
}

} // verus!
