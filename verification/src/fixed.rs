//! Fixed-point scalars: an `i64` counts thousandths of a unit.

use vstd::prelude::*;

verus! {

/// The raw value of one whole unit.
pub const ONE: i64 = 1000;

/// The quotient of `n` by a positive `d`, rounded toward zero.
pub open spec fn toward_zero(n: int, d: int) -> int {
    if n >= 0 {
        n / d
    } else {
        -((-n) / d)
    }
}

/// The fixed-point product of two raw values, rounded toward zero.
pub open spec fn product(a: int, b: int) -> int {
    toward_zero(a * b, ONE as int)
}

/// Multiplies two fixed-point values, rounding toward zero.
pub fn multiply(a: i64, b: i64) -> (r: i64)
    requires
        i64::MIN <= product(a as int, b as int) <= i64::MAX,
    ensures
        r == product(a as int, b as int),
{
    let wide: i128 = (a as i128) * (b as i128);
    let q: i128 = wide / (ONE as i128);
    q as i64
}

/// The magnitude of a product is at most the product of the bounds on its
/// factors, scaled down.
pub proof fn lemma_product_bounded(a: int, b: int, bound_a: int, bound_b: int)
    requires
        -bound_a <= a <= bound_a,
        -bound_b <= b <= bound_b,
    ensures
        -((bound_a * bound_b) / (ONE as int)) <= product(a, b) <= (bound_a * bound_b) / (ONE
            as int),
{
    let p = a * b;
    let m = bound_a * bound_b;
    assert(-m <= p <= m) by (nonlinear_arith)
        requires
            p == a * b,
            m == bound_a * bound_b,
            -bound_a <= a <= bound_a,
            -bound_b <= b <= bound_b,
    ;
}

} // verus!
