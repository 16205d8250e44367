//! Small arithmetic lemmas shared by the fixed-point pipeline.

use vstd::prelude::*;

verus! {

/// A product of two values bounded by `u64::MAX` fits in a `u128`.
pub proof fn lemma_u64_mul_fits_u128(a: int, b: int)
    by (nonlinear_arith)
    requires
        0 <= a <= u64::MAX,
        0 <= b <= u64::MAX,
    ensures
        0 <= a * b <= u128::MAX,
{
}

/// Multiplication is monotone in both non-negative factors.
pub proof fn lemma_mul_mono(a: int, b: int, c: int, d: int)
    by (nonlinear_arith)
    requires
        0 <= a <= c,
        0 <= b <= d,
    ensures
        a * b <= c * d,
{
}

/// Division by a positive divisor preserves order.
pub proof fn lemma_div_mono(a: int, b: int, d: int)
    by (nonlinear_arith)
    requires
        a <= b,
        0 < d,
    ensures
        a / d <= b / d,
{
}

/// Multiplying a truncated quotient back by its divisor stays below the
/// dividend.
pub proof fn lemma_div_mul_le(t: int, n: int)
    by (nonlinear_arith)
    requires
        0 <= t,
        0 < n,
    ensures
        n * (t / n) <= t,
{
}

/// A scaled-down product is bounded by the other factor when the first
/// factor does not exceed the divisor.
pub proof fn lemma_mul_div_le_factor(a: int, b: int, d: int)
    by (nonlinear_arith)
    requires
        0 <= a <= d,
        0 <= b,
        0 < d,
    ensures
        a * b / d <= b,
{
}

} // verus!
