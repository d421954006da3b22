use vstd::arithmetic::div_mod::{lemma_div_is_ordered, lemma_div_multiples_vanish, lemma_div_pos_is_pos};
use vstd::arithmetic::mul::{lemma_mul_inequality, lemma_mul_nonnegative};
use vstd::prelude::*;

verus! {

/// Scaling `n` by the fraction `a / d` with floor division is monotone in `a`
/// and never exceeds `n` while `a <= d`.
pub proof fn lemma_scaled_fraction(n: int, a: int, b: int, d: int)
    requires
        0 <= n,
        0 <= a <= b <= d,
        0 < d,
    ensures
        0 <= n * a / d,
        n * a / d <= n * b / d,
        n * b / d <= n,
{
    lemma_mul_nonnegative(n, a);
    lemma_div_pos_is_pos(n * a, d);
    lemma_mul_inequality(a, b, n);
    assert(n * a <= n * b) by (nonlinear_arith)
        requires
            a * n <= b * n,
    ;
    lemma_div_is_ordered(n * a, n * b, d);
    lemma_mul_inequality(b, d, n);
    assert(n * b <= d * n) by (nonlinear_arith)
        requires
            b * n <= d * n,
    ;
    lemma_div_is_ordered(n * b, d * n, d);
    lemma_div_multiples_vanish(n, d);
}

/// The product of a `u64` value and a value below `2^64` fits in a `u128`.
pub proof fn lemma_product_fits_u128(x: int, y: int)
    requires
        0 <= x <= u64::MAX,
        0 <= y <= u64::MAX,
    ensures
        0 <= x * y <= u128::MAX,
{
    assert(0 <= x * y <= u64::MAX * u64::MAX) by (nonlinear_arith)
        requires
            0 <= x <= u64::MAX,
            0 <= y <= u64::MAX,
    ;
}

} // verus!
