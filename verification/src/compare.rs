//! Unification: structural comparison of two type expressions, yielding the
//! constraints that make them equal or a mismatch failure.

use vstd::prelude::*;
use crate::expr::TypeExpr;
use crate::rules::RuleExpr;

verus! {

/// The view of an executable comparison result: the rule vector is taken to
/// its sequence, a mismatch stays a mismatch.
pub open spec fn rules_view(r: Result<Vec<RuleExpr>, ()>) -> Result<Seq<RuleExpr>, ()> {
    match r {
        Ok(v) => Ok(v@),
        Err(e) => Err(e),
    }
}

/// Joins two sub-comparison outcomes: both succeed with the concatenation of
/// their constraints (left first), any failure short-circuits.
pub open spec fn join(
    a: Result<Seq<RuleExpr>, ()>,
    b: Result<Seq<RuleExpr>, ()>,
) -> Result<Seq<RuleExpr>, ()> {
    match a {
        Ok(ra) => match b {
            Ok(rb) => Ok(ra + rb),
            Err(e) => Err(e),
        },
        Err(e) => Err(e),
    }
}

impl TypeExpr {
    /// The constraints that make `self` and `other` equal: equal
    /// constructors are compared child by child, a variable on either side
    /// is bound to the other side (two variables are bound smaller id to
    /// larger id, none when equal), equal base types need nothing, and any
    /// remaining pairing is a mismatch.
    pub open spec fn unified(self, other: TypeExpr) -> Result<Seq<RuleExpr>, ()>
        decreases self,
    {
        match self {
            TypeExpr::Function(sl, sr) => match other {
                TypeExpr::Function(ol, or) => join((*sl).unified(*ol), (*sr).unified(*or)),
                TypeExpr::Var(x) => Ok(seq![RuleExpr { var: x, rhs: Box::new(self) }]),
                _ => Err(()),
            },
            TypeExpr::Tuple(sl, sr) => match other {
                TypeExpr::Tuple(ol, or) => join((*sl).unified(*ol), (*sr).unified(*or)),
                TypeExpr::Var(x) => Ok(seq![RuleExpr { var: x, rhs: Box::new(self) }]),
                _ => Err(()),
            },
            TypeExpr::Var(x) => match other {
                TypeExpr::Var(c) => if x < c {
                    Ok(seq![RuleExpr { var: x, rhs: Box::new(TypeExpr::Var(c)) }])
                } else if c < x {
                    Ok(seq![RuleExpr { var: c, rhs: Box::new(TypeExpr::Var(x)) }])
                } else {
                    Ok(Seq::empty())
                },
                _ => Ok(seq![RuleExpr { var: x, rhs: Box::new(other) }]),
            },
            TypeExpr::Bool => match other {
                TypeExpr::Var(x) => Ok(seq![RuleExpr { var: x, rhs: Box::new(TypeExpr::Bool) }]),
                TypeExpr::Bool => Ok(Seq::empty()),
                _ => Err(()),
            },
            TypeExpr::Int => match other {
                TypeExpr::Var(x) => Ok(seq![RuleExpr { var: x, rhs: Box::new(TypeExpr::Int) }]),
                TypeExpr::Int => Ok(Seq::empty()),
                _ => Err(()),
            },
        }
    }

    /// Compares two type expressions and returns the new constraints the
    /// comparison generates, or a mismatch when they cannot be unified.
    pub fn compare_types(&self, other: &TypeExpr) -> (r: Result<Vec<RuleExpr>, ()>)
        ensures
            rules_view(r) == self.unified(*other),
        decreases *self,
    {
        match self {
            TypeExpr::Function(sl, sr) => match other {
                TypeExpr::Function(ol, or) => {
                    let mut left_rules = match (&**sl).compare_types(&**ol) {
                        Ok(v) => v,
                        Err(e) => {
                            return Err(e);
                        }
                    };
                    let mut right_rules = match (&**sr).compare_types(&**or) {
                        Ok(v) => v,
                        Err(e) => {
                            return Err(e);
                        }
                    };
                    left_rules.append(&mut right_rules);
                    Ok(left_rules)
                },
                TypeExpr::Var(x) => Ok(single_rule(*x, self.clone())),
                _ => Err(()),
            },
            TypeExpr::Tuple(sl, sr) => match other {
                TypeExpr::Tuple(ol, or) => {
                    let mut left_rules = match (&**sl).compare_types(&**ol) {
                        Ok(v) => v,
                        Err(e) => {
                            return Err(e);
                        }
                    };
                    let mut right_rules = match (&**sr).compare_types(&**or) {
                        Ok(v) => v,
                        Err(e) => {
                            return Err(e);
                        }
                    };
                    left_rules.append(&mut right_rules);
                    Ok(left_rules)
                },
                TypeExpr::Var(x) => Ok(single_rule(*x, self.clone())),
                _ => Err(()),
            },
            TypeExpr::Var(x) => match other {
                TypeExpr::Var(c) => if *x < *c {
                    Ok(single_rule(*x, TypeExpr::Var(*c)))
                } else if *c < *x {
                    Ok(single_rule(*c, TypeExpr::Var(*x)))
                } else {
                    let empty: Vec<RuleExpr> = Vec::new();
                    proof {
                        assert(empty@ =~= Seq::<RuleExpr>::empty());
                    }
                    Ok(empty)
                },
                _ => Ok(single_rule(*x, other.clone())),
            },
            TypeExpr::Bool => match other {
                TypeExpr::Var(x) => Ok(single_rule(*x, TypeExpr::Bool)),
                TypeExpr::Bool => {
                    let empty: Vec<RuleExpr> = Vec::new();
                    proof {
                        assert(empty@ =~= Seq::<RuleExpr>::empty());
                    }
                    Ok(empty)
                },
                _ => Err(()),
            },
            TypeExpr::Int => match other {
                TypeExpr::Var(x) => Ok(single_rule(*x, TypeExpr::Int)),
                TypeExpr::Int => {
                    let empty: Vec<RuleExpr> = Vec::new();
                    proof {
                        assert(empty@ =~= Seq::<RuleExpr>::empty());
                    }
                    Ok(empty)
                },
                _ => Err(()),
            },
        }
    }

}

impl RuleExpr {
    /// Compares the two rules' right hand sides (the left hand side
    /// variables are not compared) and returns the new constraints.
    pub fn compare_rules(&self, other: &RuleExpr) -> (r: Result<Vec<RuleExpr>, ()>)
        ensures
            rules_view(r) == (*self.rhs).unified(*other.rhs),
    {
        (&*self.rhs).compare_types(&*other.rhs)
    }
}

/// A one-rule constraint vector binding `var` to `rhs`.
fn single_rule(var: usize, rhs: TypeExpr) -> (v: Vec<RuleExpr>)
    ensures
        v@ == seq![RuleExpr { var, rhs: Box::new(rhs) }],
{
    let mut v: Vec<RuleExpr> = Vec::new();
    v.push(RuleExpr { var, rhs: Box::new(rhs) });
    proof {
        assert(v@ =~= seq![RuleExpr { var, rhs: Box::new(rhs) }]);
    }
    v
}

} // verus!
