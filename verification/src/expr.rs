//! The type expression tree: variants, variable collection and renaming.

use vstd::prelude::*;
use std::collections::HashSet;

verus! {

broadcast use vstd::std_specs::hash::group_hash_axioms;

/// A type expression; a finite recursive tree.
#[derive(Debug, PartialEq, Eq, PartialOrd, Ord)]
pub enum TypeExpr {
    /// A function type `left -> right`.
    Function(Box<TypeExpr>, Box<TypeExpr>),
    /// A pair type `(left, right)`.
    Tuple(Box<TypeExpr>, Box<TypeExpr>),
    /// A type variable `t<id>`.
    Var(usize),
    /// The base type of booleans.
    Bool,
    /// The base type of integers.
    Int,
}

impl TypeExpr {
    /// Whether a rendering must parenthesise this expression when it stands
    /// as an operand: only function types need that.
    pub open spec fn wraps(self) -> bool {
        self is Function
    }

    /// The set of variable identifiers occurring anywhere in the expression.
    pub open spec fn vars(self) -> Set<usize>
        decreases self,
    {
        match self {
            TypeExpr::Function(l, r) => (*l).vars().union((*r).vars()),
            TypeExpr::Tuple(l, r) => (*l).vars().union((*r).vars()),
            TypeExpr::Var(x) => Set::empty().insert(x),
            TypeExpr::Bool => Set::empty(),
            TypeExpr::Int => Set::empty(),
        }
    }

    /// The expression with every occurrence of `Var(from)` rewritten to
    /// `Var(to)`; all other leaves are untouched.
    pub open spec fn replaced(self, from: usize, to: usize) -> TypeExpr
        decreases self,
    {
        match self {
            TypeExpr::Function(l, r) => TypeExpr::Function(
                Box::new((*l).replaced(from, to)),
                Box::new((*r).replaced(from, to)),
            ),
            TypeExpr::Tuple(l, r) => TypeExpr::Tuple(
                Box::new((*l).replaced(from, to)),
                Box::new((*r).replaced(from, to)),
            ),
            TypeExpr::Var(x) => if x == from {
                TypeExpr::Var(to)
            } else {
                TypeExpr::Var(x)
            },
            TypeExpr::Bool => TypeExpr::Bool,
            TypeExpr::Int => TypeExpr::Int,
        }
    }

    /// Builds the variable expression `t<id>`.
    pub fn var(id: usize) -> (r: TypeExpr)
        ensures
            r == TypeExpr::Var(id),
    {
        TypeExpr::Var(id)
    }

    /// Returns whether the expression needs to be wrapped in parentheses
    /// when rendered as an operand.
    pub fn needs_wrapping(&self) -> (r: bool)
        ensures
            r == self.wraps(),
    {
        match self {
            TypeExpr::Function(_, _) => true,
            TypeExpr::Tuple(_, _) => false,
            TypeExpr::Var(_) => false,
            TypeExpr::Bool => false,
            TypeExpr::Int => false,
        }
    }

    /// Builds the tree with `from` renamed to `to`.
    fn renamed_tree(&self, from: usize, to: usize) -> (r: TypeExpr)
        ensures
            r == self.replaced(from, to),
        decreases *self,
    {
        match self {
            TypeExpr::Function(l, r) => TypeExpr::Function(
                Box::new((&**l).renamed_tree(from, to)),
                Box::new((&**r).renamed_tree(from, to)),
            ),
            TypeExpr::Tuple(l, r) => TypeExpr::Tuple(
                Box::new((&**l).renamed_tree(from, to)),
                Box::new((&**r).renamed_tree(from, to)),
            ),
            TypeExpr::Var(x) => if *x == from {
                TypeExpr::Var(to)
            } else {
                TypeExpr::Var(*x)
            },
            TypeExpr::Bool => TypeExpr::Bool,
            TypeExpr::Int => TypeExpr::Int,
        }
    }

    /// Replaces every variable `from` with `to`, recursively and in place.
    pub fn replace_var(&mut self, from: usize, to: usize)
        ensures
            *final(self) == old(self).replaced(from, to),
    {
        let next = self.renamed_tree(from, to);
        *self = next;
    }

    /// Inserts every variable of the expression into `acc`.
    pub(crate) fn collect_vars_into(&self, acc: &mut HashSet<usize>)
        ensures
            final(acc)@ == old(acc)@.union(self.vars()),
        decreases *self,
    {
        match self {
            TypeExpr::Function(l, r) => {
                (&**l).collect_vars_into(acc);
                (&**r).collect_vars_into(acc);
                proof {
                    assert(acc@ =~= old(acc)@.union(self.vars()));
                }
            }
            TypeExpr::Tuple(l, r) => {
                (&**l).collect_vars_into(acc);
                (&**r).collect_vars_into(acc);
                proof {
                    assert(acc@ =~= old(acc)@.union(self.vars()));
                }
            }
            TypeExpr::Var(x) => {
                acc.insert(*x);
                proof {
                    assert(acc@ =~= old(acc)@.union(self.vars()));
                }
            }
            TypeExpr::Bool => {
                proof {
                    assert(acc@ =~= old(acc)@.union(self.vars()));
                }
            }
            TypeExpr::Int => {
                proof {
                    assert(acc@ =~= old(acc)@.union(self.vars()));
                }
            }
        }
    }

    /// Returns the set of all variable identifiers in the expression.
    pub fn all_vars(&self) -> (r: HashSet<usize>)
        ensures
            r@ == self.vars(),
    {
        let mut res: HashSet<usize> = HashSet::new();
        self.collect_vars_into(&mut res);
        proof {
            assert(res@ =~= self.vars());
        }
        res
    }
}

impl Clone for TypeExpr {
    /// A deep copy: the clone equals the original.
    fn clone(&self) -> (res: Self)
        ensures
            res == *self,
        decreases *self,
    {
        match self {
            TypeExpr::Function(l, r) => TypeExpr::Function(
                Box::new((&**l).clone()),
                Box::new((&**r).clone()),
            ),
            TypeExpr::Tuple(l, r) => TypeExpr::Tuple(
                Box::new((&**l).clone()),
                Box::new((&**r).clone()),
            ),
            TypeExpr::Var(x) => TypeExpr::Var(*x),
            TypeExpr::Bool => TypeExpr::Bool,
            TypeExpr::Int => TypeExpr::Int,
        }
    }
}

} // verus!
