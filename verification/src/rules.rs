//! A single constraint `t<var> = rhs`, and aggregate queries over rule sets.

use vstd::prelude::*;
use std::collections::HashSet;
use crate::expr::TypeExpr;

verus! {

broadcast use vstd::std_specs::hash::group_hash_axioms;

/// One constraint produced by unification: the variable `var` must equal
/// the expression `rhs`.
#[derive(Debug, PartialEq, Eq, PartialOrd, Ord)]
pub struct RuleExpr {
    /// The variable identifier of the left hand side.
    pub var: usize,
    /// The type expression of the right hand side.
    pub rhs: Box<TypeExpr>,
}

/// Variable queries shared by a single rule and by a whole rule set.
pub trait RuleInfo {
    /// The set of variables standing on a left hand side.
    spec fn lhs_vars(&self) -> Set<usize>;

    /// The set of variables occurring in a right hand side.
    spec fn rhs_vars(&self) -> Set<usize>;

    /// Returns all variables used on a left hand side.
    fn all_vars_lhs(&self) -> (r: HashSet<usize>)
        ensures
            r@ == self.lhs_vars(),
    ;

    /// Returns all variables used on a right hand side.
    fn all_vars_rhs(&self) -> (r: HashSet<usize>)
        ensures
            r@ == self.rhs_vars(),
    ;
}

impl RuleExpr {
    /// Builds the constraint `t<var> = rhs`.
    pub fn new(var: usize, rhs: Box<TypeExpr>) -> (r: RuleExpr)
        ensures
            r == (RuleExpr { var, rhs }),
    {
        RuleExpr { var, rhs }
    }

    /// The pair `(var, other)` when the right hand side is exactly a
    /// variable `Var(other)`, and `None` otherwise.
    pub open spec fn simple_pair(self) -> Option<(usize, usize)> {
        match *self.rhs {
            TypeExpr::Var(r) => Some((self.var, r)),
            _ => None,
        }
    }

    /// The rule with the variable `from` renamed to `to`, on both sides.
    pub open spec fn renamed(self, from: usize, to: usize) -> RuleExpr {
        RuleExpr {
            var: if self.var == from { to } else { self.var },
            rhs: Box::new((*self.rhs).replaced(from, to)),
        }
    }

    /// Checks whether the rule has the form `tX = tY`; if so, returns
    /// `Some((X, Y))`.
    pub fn is_simple(&self) -> (r: Option<(usize, usize)>)
        ensures
            r == self.simple_pair(),
    {
        if let TypeExpr::Var(other) = *self.rhs {
            Some((self.var, other))
        } else {
            None
        }
    }

    /// Renames the variable `from` to `to`, in the left hand side and
    /// recursively inside the right hand side.
    pub fn replace_var(&mut self, from: usize, to: usize)
        ensures
            *final(self) == old(self).renamed(from, to),
    {
        if self.var == from {
            self.var = to;
        }
        (&mut *self.rhs).replace_var(from, to);
    }

    /// Checks whether both rules constrain the same left hand side variable.
    pub fn has_same_lhs(&self, other: &RuleExpr) -> (r: bool)
        ensures
            r == (self.var == other.var),
    {
        self.var == other.var
    }

    /// Checks whether the rule constrains the given left hand side variable.
    pub fn has_lhs(&self, other: usize) -> (r: bool)
        ensures
            r == (self.var == other),
    {
        self.var == other
    }
}

impl Clone for RuleExpr {
    /// A deep copy: the clone equals the original.
    fn clone(&self) -> (res: Self)
        ensures
            res == *self,
    {
        RuleExpr { var: self.var, rhs: Box::new((&*self.rhs).clone()) }
    }
}

impl RuleInfo for RuleExpr {
    /// A single rule constrains exactly its own variable.
    open spec fn lhs_vars(&self) -> Set<usize> {
        Set::empty().insert(self.var)
    }

    /// Every variable of the right hand side expression.
    open spec fn rhs_vars(&self) -> Set<usize> {
        (*self.rhs).vars()
    }

    fn all_vars_lhs(&self) -> (r: HashSet<usize>) {
        let mut res: HashSet<usize> = HashSet::new();
        res.insert(self.var);
        res
    }

    fn all_vars_rhs(&self) -> (r: HashSet<usize>) {
        let mut res: HashSet<usize> = HashSet::new();
        (&*self.rhs).collect_vars_into(&mut res);
        proof {
            assert(res@ =~= self.rhs_vars());
        }
        res
    }
}

impl RuleInfo for Vec<RuleExpr> {
    /// Every identifier standing as some rule's left hand side.
    open spec fn lhs_vars(&self) -> Set<usize> {
        Set::new(|x: usize| exists|i: int| 0 <= i < self@.len() && (#[trigger] self@[i]).var == x)
    }

    /// Every identifier occurring in some rule's right hand side.
    open spec fn rhs_vars(&self) -> Set<usize> {
        Set::new(|x: usize| exists|i: int| 0 <= i < self@.len() && (*(#[trigger] self@[i]).rhs).vars().contains(x))
    }

    fn all_vars_lhs(&self) -> (r: HashSet<usize>) {
        let mut res: HashSet<usize> = HashSet::new();
        let n = self.len();
        let mut i: usize = 0;
        while i < n
            invariant
                i <= n,
                n == self@.len(),
                res@ == Set::new(
                    |x: usize| exists|j: int| 0 <= j < i as int && (#[trigger] self@[j]).var == x,
                ),
            decreases n - i,
        {
            let ghost prev = res@;
            res.insert(self[i].var);
            proof {
                let next = Set::new(
                    |x: usize| exists|j: int| 0 <= j < i as int + 1 && (#[trigger] self@[j]).var == x,
                );
                assert forall|x: usize| res@.contains(x) implies next.contains(x) by {
                    if prev.contains(x) {
                        let j = choose|j: int| 0 <= j < i as int && (#[trigger] self@[j]).var == x;
                        assert(0 <= j < i as int + 1 && self@[j].var == x);
                    } else {
                        assert(self@[i as int].var == x);
                    }
                }
                assert forall|x: usize| next.contains(x) implies res@.contains(x) by {
                    let j = choose|j: int| 0 <= j < i as int + 1 && (#[trigger] self@[j]).var == x;
                    if j < i as int {
                        assert(prev.contains(x));
                    }
                }
                assert(res@ =~= next);
            }
            i += 1;
        }
        proof {
            assert(res@ =~= self.lhs_vars());
        }
        res
    }

    fn all_vars_rhs(&self) -> (r: HashSet<usize>) {
        let mut res: HashSet<usize> = HashSet::new();
        let n = self.len();
        let mut i: usize = 0;
        while i < n
            invariant
                i <= n,
                n == self@.len(),
                res@ == Set::new(
                    |x: usize| exists|j: int|
                        0 <= j < i as int && (*(#[trigger] self@[j]).rhs).vars().contains(x),
                ),
            decreases n - i,
        {
            let ghost prev = res@;
            (&*self[i].rhs).collect_vars_into(&mut res);
            proof {
                let next = Set::new(
                    |x: usize| exists|j: int|
                        0 <= j < i as int + 1 && (*(#[trigger] self@[j]).rhs).vars().contains(x),
                );
                assert forall|x: usize| res@.contains(x) implies next.contains(x) by {
                    if prev.contains(x) {
                        let j = choose|j: int|
                            0 <= j < i as int && (*(#[trigger] self@[j]).rhs).vars().contains(x);
                        assert(0 <= j < i as int + 1 && (*self@[j].rhs).vars().contains(x));
                    } else {
                        assert((*self@[i as int].rhs).vars().contains(x));
                    }
                }
                assert forall|x: usize| next.contains(x) implies res@.contains(x) by {
                    let j = choose|j: int|
                        0 <= j < i as int + 1 && (*(#[trigger] self@[j]).rhs).vars().contains(x);
                    if j < i as int {
                        assert(prev.contains(x));
                    }
                }
                assert(res@ =~= next);
            }
            i += 1;
        }
        proof {
            assert(res@ =~= self.rhs_vars());
        }
        res
    }
}

} // verus!
