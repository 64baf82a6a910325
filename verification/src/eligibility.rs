//! Which expressions may be interned: only those that are plainly constant,
//! since a cached value is never built again.
use vstd::prelude::*;

verus! {

/// The shape of an expression, as far as eligibility looks at it.
pub enum ExprShape {
    /// A literal, with the number of attributes written on it.
    Lit { attrs: usize },
    /// An expression inside an invisible group.
    Group(Box<ExprShape>),
    /// Anything else.
    Other,
}

/// What to do with an expression that was offered for interning.
#[derive(Copy, Clone, PartialEq, Eq, Debug, Structural)]
pub enum Rewrite {
    /// Route it through the interning cache.
    Intern,
    /// Leave it as it was written.
    Keep,
}

/// An expression is taken for constant only if it is a literal without
/// attributes, possibly inside groups. Everything else is refused, also
/// where it would be constant: a wrong yes would cache a changing value.
pub open spec fn conservatively_const(expr: ExprShape) -> bool
    decreases expr,
{
    match expr {
        ExprShape::Lit { attrs } => attrs == 0,
        ExprShape::Group(inner) => conservatively_const(*inner),
        ExprShape::Other => false,
    }
}

/// Decides whether `expr` is taken for constant.
pub fn is_conservatively_const(expr: &ExprShape) -> (yes: bool)
    ensures
        yes == conservatively_const(*expr),
    decreases *expr,
{
    match expr {
        ExprShape::Lit { attrs } => *attrs == 0,
        ExprShape::Group(inner) => is_conservatively_const(inner),
        ExprShape::Other => false,
    }
}

/// Decides how an expression offered for interning is rewritten: it is
/// interned exactly when it is taken for constant.
pub fn try_js_intern(expr: &ExprShape) -> (plan: Rewrite)
    ensures
        plan == (if conservatively_const(*expr) {
            Rewrite::Intern
        } else {
            Rewrite::Keep
        }),
{
    if is_conservatively_const(expr) {
        Rewrite::Intern
    } else {
        Rewrite::Keep
    }
}

} // verus!
