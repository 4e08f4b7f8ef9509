//! Fixed-point scalars: an `i64` counts thousandths of a unit.
//!
//! The product of two fixed-point values is rescaled by dividing by the
//! scale, truncating toward zero; the contracts state that truncation
//! exactly, so callers can reason about the lost fraction of a subunit.

use vstd::prelude::*;
use vstd::arithmetic::div_mod::lemma_fundamental_div_mod;

verus! {

/// Fixed-point subunits per world unit (or per second, for durations).
pub const SCALE: i64 = 1000;

/// A 2D vector of fixed-point coordinates.
#[derive(Clone, Copy, Debug, PartialEq, Eq, Structural)]
pub struct Vec2F {
    pub x: i64,
    pub y: i64,
}

/// Magnitude of an integer.
pub open spec fn abs_i(a: int) -> int {
    if a >= 0 { a } else { -a }
}

/// The rescaled product of two fixed-point values, truncated toward zero.
pub open spec fn fp_mul_spec(a: int, b: int) -> int {
    if a * b >= 0 {
        (a * b) / (SCALE as int)
    } else {
        -((-(a * b)) / (SCALE as int))
    }
}

/// The rescaled product differs from the exact product by less than one
/// subunit: `a * b - 999 <= 1000 * fp_mul_spec(a, b) <= a * b + 999`.
pub proof fn lemma_fp_mul_close(a: int, b: int)
    ensures
        a * b - (SCALE - 1) <= (SCALE as int) * fp_mul_spec(a, b) <= a * b + (SCALE - 1),
{
    let p = a * b;
    if p >= 0 {
        lemma_fundamental_div_mod(p, SCALE as int);
    } else {
        lemma_fundamental_div_mod(-p, SCALE as int);
    }
}

/// Fixed-point multiplication: the rescaled product, truncated toward zero.
pub fn fp_mul(a: i64, b: i64) -> (r: i64)
    requires
        -1_000_000_000_000_000_000 <= a * b <= 1_000_000_000_000_000_000,
    ensures
        r == fp_mul_spec(a as int, b as int),
        a * b - (SCALE - 1) <= (SCALE as int) * r <= a * b + (SCALE - 1),
{
    proof {
        lemma_fp_mul_close(a as int, b as int);
    }
    let p: i128 = (a as i128) * (b as i128);
    if p >= 0 {
        let q: u128 = (p as u128) / 1000;
        q as i64
    } else {
        let q: u128 = ((-p) as u128) / 1000;
        -(q as i64)
    }
}

/// Multiplying values of bounded magnitude keeps the product bounded.
pub proof fn lemma_abs_mul_le(a: int, b: int, ba: int, bb: int)
    requires
        -ba <= a <= ba,
        -bb <= b <= bb,
    ensures
        -(ba * bb) <= a * b <= ba * bb,
{
    assert(-(ba * bb) <= a * b <= ba * bb) by (nonlinear_arith)
        requires
            -ba <= a <= ba,
            -bb <= b <= bb,
    ;
}

} // verus!
