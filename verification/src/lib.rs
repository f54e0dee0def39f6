//! A structural unification engine for a small type language.
//!
//! The language has function types, pair (tuple) types, the base types
//! `Bool` and `Int`, and numbered type variables.  Comparing two type
//! expressions yields the variable constraints (rules) that make them
//! equal, or fails when their shapes can never agree; an accumulated rule
//! set can then be applied to an expression one substitution step at a
//! time.  This is the constraint-generation and constraint-application
//! kernel of Hindley–Milner style type inference.

pub mod compare;
pub mod expr;
pub mod laws;
pub mod render;
pub mod rules;
pub mod subst;
