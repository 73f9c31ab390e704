//! Small facts about products and quotients of bounded integers.

use vstd::prelude::*;

verus! {

/// A product of two bounded naturals stays below the product of the bounds.
pub proof fn lemma_product_bound(a: int, b: int, a_max: int, b_max: int)
    by (nonlinear_arith)
    requires
        0 <= a <= a_max,
        0 <= b <= b_max,
    ensures
        0 <= a * b <= a_max * b_max,
{
}

/// A quotient lies below every number whose multiple of the divisor
/// exceeds the dividend.
pub proof fn lemma_quotient_below(x: int, d: int, s: int)
    by (nonlinear_arith)
    requires
        0 <= x,
        0 < d,
        x < s * d,
    ensures
        0 <= x / d < s,
{
}

/// A quotient of a natural by a positive divisor lies between zero and the
/// dividend.
pub proof fn lemma_quotient_bound(x: int, d: int)
    by (nonlinear_arith)
    requires
        0 <= x,
        0 < d,
    ensures
        0 <= x / d <= x,
{
}

} // verus!
