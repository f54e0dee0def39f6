//! Rendering of expressions and rules: plain text (`(t0, Int) -> Bool`) and
//! MathJax markup (`(t_{0} \to Bool)`).

use vstd::prelude::*;
use vstd::string::StringExecFns;
use crate::expr::TypeExpr;
use crate::rules::RuleExpr;

verus! {

/// The decimal rendering of a single digit.
pub open spec fn digit_rep(d: nat) -> Seq<char> {
    if d == 0 {
        "0"@
    } else if d == 1 {
        "1"@
    } else if d == 2 {
        "2"@
    } else if d == 3 {
        "3"@
    } else if d == 4 {
        "4"@
    } else if d == 5 {
        "5"@
    } else if d == 6 {
        "6"@
    } else if d == 7 {
        "7"@
    } else if d == 8 {
        "8"@
    } else {
        "9"@
    }
}

/// The decimal rendering of a number, most significant digit first.
pub open spec fn decimal_rep(n: nat) -> Seq<char>
    decreases n,
{
    if n < 10 {
        digit_rep(n)
    } else {
        decimal_rep(n / 10) + digit_rep(n % 10)
    }
}

impl TypeExpr {
    /// The plain textual rendering: `t<id>` for variables, infix `->`
    /// (right associative, so only a left hand `Function` operand is
    /// parenthesised), `(a, b)` for tuples with parentheses around a side
    /// only when that side itself needs wrapping, and the literal keywords
    /// `Bool` and `Int`.
    pub open spec fn text_rep(self) -> Seq<char>
        decreases self,
    {
        match self {
            TypeExpr::Function(l, r) => {
                let left = if (*l).wraps() {
                    "("@ + (*l).text_rep() + ")"@
                } else {
                    (*l).text_rep()
                };
                left + " -> "@ + (*r).text_rep()
            }
            TypeExpr::Tuple(l, r) => {
                let left = if (*l).wraps() {
                    "("@ + (*l).text_rep() + ")"@
                } else {
                    (*l).text_rep()
                };
                let right = if (*r).wraps() {
                    "("@ + (*r).text_rep() + ")"@
                } else {
                    (*r).text_rep()
                };
                "("@ + left + ", "@ + right + ")"@
            }
            TypeExpr::Var(x) => "t"@ + decimal_rep(x as nat),
            TypeExpr::Bool => "Bool"@,
            TypeExpr::Int => "Int"@,
        }
    }

    /// The MathJax rendering: subscripted variables `t_{id}`, `\to` for
    /// function arrows, literal `Bool` and `Int`.
    pub open spec fn mathjax_rep(self) -> Seq<char>
        decreases self,
    {
        match self {
            TypeExpr::Function(l, r) => "("@ + (*l).mathjax_rep() + " \\to "@ + (*r).mathjax_rep()
                + ")"@,
            TypeExpr::Tuple(l, r) => "("@ + (*l).mathjax_rep() + ", "@ + (*r).mathjax_rep() + ")"@,
            TypeExpr::Var(x) => "t_{"@ + decimal_rep(x as nat) + "}"@,
            TypeExpr::Bool => "Bool"@,
            TypeExpr::Int => "Int"@,
        }
    }

    /// Renders the expression as plain text.
    pub fn to_text(&self) -> (r: String)
        ensures
            r@ == self.text_rep(),
        decreases *self,
    {
        match self {
            TypeExpr::Function(l, r) => {
                let mut out = String::new();
                let left = (&**l).to_text();
                if (&**l).needs_wrapping() {
                    out.append("(");
                    out.append(left.as_str());
                    out.append(")");
                } else {
                    out.append(left.as_str());
                }
                out.append(" -> ");
                let right = (&**r).to_text();
                out.append(right.as_str());
                proof {
                    assert(out@ =~= self.text_rep());
                }
                out
            }
            TypeExpr::Tuple(l, r) => {
                let mut out = String::new();
                out.append("(");
                let left = (&**l).to_text();
                if (&**l).needs_wrapping() {
                    out.append("(");
                    out.append(left.as_str());
                    out.append(")");
                } else {
                    out.append(left.as_str());
                }
                out.append(", ");
                let right = (&**r).to_text();
                if (&**r).needs_wrapping() {
                    out.append("(");
                    out.append(right.as_str());
                    out.append(")");
                } else {
                    out.append(right.as_str());
                }
                out.append(")");
                proof {
                    assert(out@ =~= self.text_rep());
                }
                out
            }
            TypeExpr::Var(x) => {
                let mut out = String::from_str("t");
                push_decimal(&mut out, *x);
                proof {
                    assert(out@ =~= self.text_rep());
                }
                out
            }
            TypeExpr::Bool => String::from_str("Bool"),
            TypeExpr::Int => String::from_str("Int"),
        }
    }

    /// Renders the expression as MathJax markup.
    pub fn to_mathjax(&self) -> (r: String)
        ensures
            r@ == self.mathjax_rep(),
        decreases *self,
    {
        match self {
            TypeExpr::Function(l, r) => {
                let mut out = String::from_str("(");
                let left = (&**l).to_mathjax();
                out.append(left.as_str());
                out.append(" \\to ");
                let right = (&**r).to_mathjax();
                out.append(right.as_str());
                out.append(")");
                proof {
                    assert(out@ =~= self.mathjax_rep());
                }
                out
            }
            TypeExpr::Tuple(l, r) => {
                let mut out = String::from_str("(");
                let left = (&**l).to_mathjax();
                out.append(left.as_str());
                out.append(", ");
                let right = (&**r).to_mathjax();
                out.append(right.as_str());
                out.append(")");
                proof {
                    assert(out@ =~= self.mathjax_rep());
                }
                out
            }
            TypeExpr::Var(x) => {
                let mut out = String::from_str("t_{");
                push_decimal(&mut out, *x);
                out.append("}");
                proof {
                    assert(out@ =~= self.mathjax_rep());
                }
                out
            }
            TypeExpr::Bool => String::from_str("Bool"),
            TypeExpr::Int => String::from_str("Int"),
        }
    }
}

impl RuleExpr {
    /// The plain textual rendering of a rule: `t<var> = <rhs>`.
    pub open spec fn text_rep(self) -> Seq<char> {
        "t"@ + decimal_rep(self.var as nat) + " = "@ + (*self.rhs).text_rep()
    }

    /// The MathJax rendering of a rule: `t_{var} = <rhs>`.
    pub open spec fn mathjax_rep(self) -> Seq<char> {
        "t_{"@ + decimal_rep(self.var as nat) + "} = "@ + (*self.rhs).mathjax_rep()
    }

    /// Renders the rule as plain text.
    pub fn to_text(&self) -> (r: String)
        ensures
            r@ == self.text_rep(),
    {
        let mut out = String::from_str("t");
        push_decimal(&mut out, self.var);
        out.append(" = ");
        let rhs = (&*self.rhs).to_text();
        out.append(rhs.as_str());
        proof {
            assert(out@ =~= self.text_rep());
        }
        out
    }

    /// Renders the rule as MathJax markup.
    pub fn to_mathjax(&self) -> (r: String)
        ensures
            r@ == self.mathjax_rep(),
    {
        let mut out = String::from_str("t_{");
        push_decimal(&mut out, self.var);
        out.append("} = ");
        let rhs = (&*self.rhs).to_mathjax();
        out.append(rhs.as_str());
        proof {
            assert(out@ =~= self.mathjax_rep());
        }
        out
    }
}

/// Appends one decimal digit.
fn push_digit(out: &mut String, d: usize)
    requires
        d < 10,
    ensures
        final(out)@ == old(out)@ + digit_rep(d as nat),
{
    if d == 0 {
        out.append("0");
    } else if d == 1 {
        out.append("1");
    } else if d == 2 {
        out.append("2");
    } else if d == 3 {
        out.append("3");
    } else if d == 4 {
        out.append("4");
    } else if d == 5 {
        out.append("5");
    } else if d == 6 {
        out.append("6");
    } else if d == 7 {
        out.append("7");
    } else if d == 8 {
        out.append("8");
    } else {
        out.append("9");
    }
}

/// Appends the decimal rendering of a number.
fn push_decimal(out: &mut String, n: usize)
    ensures
        final(out)@ == old(out)@ + decimal_rep(n as nat),
    decreases n,
{
    if n < 10 {
        push_digit(out, n);
    } else {
        push_decimal(out, n / 10);
        push_digit(out, n % 10);
        proof {
            assert(out@ =~= old(out)@ + decimal_rep(n as nat));
        }
    }
}

} // verus!
