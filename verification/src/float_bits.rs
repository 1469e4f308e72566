//! IEEE-754 single-precision values carried as their bit patterns.
//!
//! Times and stick deflections cross into this library as the `u32` bit
//! patterns of `f32` values.  The comparisons the flight stack makes on them
//! (`==`, `<` and the total order used for searching recordings) are stated
//! and implemented here on the integers.
use vstd::prelude::*;
use vstd::arithmetic::mul::{lemma_mul_inequality, lemma_mul_strict_inequality};
use vstd::arithmetic::power2::{
    lemma_pow2_pos, lemma_pow2_strictly_increases, lemma_pow2_unfold, pow2,
};

verus! {

/// Everything but the sign bit.
pub open spec fn magnitude(b: u32) -> int {
    b as int % 0x8000_0000
}

/// The sign bit is set.
pub open spec fn is_negative(b: u32) -> bool {
    b >= 0x8000_0000
}

/// Exponent all ones and a non-zero fraction.
pub open spec fn is_nan(b: u32) -> bool {
    magnitude(b) > 0x7f80_0000
}

/// `+0.0` or `-0.0`.
pub open spec fn is_zero(b: u32) -> bool {
    magnitude(b) == 0
}

/// IEEE equality (`f32 == f32`): NaN equals nothing, the two zeros are equal,
/// otherwise the bit patterns agree.
pub open spec fn f32_eq(a: u32, b: u32) -> bool {
    &&& !is_nan(a)
    &&& !is_nan(b)
    &&& (a == b || (is_zero(a) && is_zero(b)))
}

/// Position of a value in the IEEE total order (`f32::total_cmp`): the bit
/// pattern read as `i32`, with the non-sign bits of negative values flipped.
pub open spec fn total_key(b: u32) -> int {
    if is_negative(b) {
        -magnitude(b) - 1
    } else {
        b as int
    }
}

/// IEEE less-than (`f32 < f32`): false when either side is NaN, and the two
/// zeros are not ordered; otherwise the total order.
pub open spec fn f32_lt(a: u32, b: u32) -> bool {
    &&& !is_nan(a)
    &&& !is_nan(b)
    &&& !(is_zero(a) && is_zero(b))
    &&& total_key(a) < total_key(b)
}

/// Position of `b` in the total order of `f32` values.
pub fn total_order_key(b: u32) -> (k: i64)
    ensures
        k == total_key(b),
{
    if b >= 0x8000_0000 {
        -((b - 0x8000_0000u32) as i64) - 1
    } else {
        b as i64
    }
}

/// `a == b` on the `f32` values with these bit patterns.
pub fn f32_bits_eq(a: u32, b: u32) -> (r: bool)
    ensures
        r == f32_eq(a, b),
{
    let ma = a % 0x8000_0000;
    let mb = b % 0x8000_0000;
    if ma > 0x7f80_0000 || mb > 0x7f80_0000 {
        false
    } else {
        a == b || (ma == 0 && mb == 0)
    }
}

/// `a < b` on the `f32` values with these bit patterns.
pub fn f32_bits_lt(a: u32, b: u32) -> (r: bool)
    ensures
        r == f32_lt(a, b),
{
    let ma = a % 0x8000_0000;
    let mb = b % 0x8000_0000;
    if ma > 0x7f80_0000 || mb > 0x7f80_0000 || (ma == 0 && mb == 0) {
        false
    } else {
        total_order_key(a) < total_order_key(b)
    }
}


/// Neither NaN nor infinite: exponent field not all ones.
pub open spec fn is_finite(b: u32) -> bool {
    magnitude(b) < 0x7f80_0000
}

/// The value `2^149 * |x|` of the non-negative finite value `x` whose bit
/// pattern is `m` (an integer for every finite `f32`): for a biased exponent
/// `e = m / 2^23` and fraction `f = m % 2^23`, subnormals (`e == 0`) are
/// `f * 2^-149` and normals are `(2^23 + f) * 2^(e - 150)`.
pub open spec fn scaled_abs(m: int) -> int {
    let e = m / 0x80_0000;
    let f = m % 0x80_0000;
    if e == 0 {
        f
    } else {
        (0x80_0000 + f) * pow2((e - 1) as nat)
    }
}

/// The finite value with bit pattern `b`, times `2^149`: the IEEE-754
/// meaning of the pattern, as an exact integer.
pub open spec fn scaled_value(b: u32) -> int {
    if is_negative(b) {
        -scaled_abs(magnitude(b))
    } else {
        scaled_abs(magnitude(b))
    }
}

/// Bounds of the values sharing a biased exponent `e`: below `2^23 * 2^e`,
/// and at least `2^23 * 2^(e - 1)` for normals.
proof fn lemma_scaled_abs_bounds(m: int)
    requires
        0 <= m < 0x7f80_0000,
    ensures
        0 <= scaled_abs(m) < 0x80_0000 * pow2((m / 0x80_0000) as nat),
        m / 0x80_0000 > 0 ==> 0x80_0000 * pow2((m / 0x80_0000 - 1) as nat) <= scaled_abs(m),
{
    let e = m / 0x80_0000;
    let f = m % 0x80_0000;
    if e == 0 {
        assert(pow2(0) == 1) by {
            vstd::arithmetic::power2::lemma2_to64();
        }
    } else {
        let p = pow2((e - 1) as nat) as int;
        lemma_pow2_pos((e - 1) as nat);
        lemma_pow2_unfold(e as nat);
        lemma_mul_strict_inequality(0x80_0000 + f, 0x100_0000, p);
        lemma_mul_inequality(0x80_0000, 0x80_0000 + f, p);
        assert(0x100_0000 * p == 0x80_0000 * pow2(e as nat));
    }
}

/// Larger bit patterns of non-negative finite values mean larger values.
proof fn lemma_scaled_abs_increasing(x: int, y: int)
    requires
        0 <= x < y < 0x7f80_0000,
    ensures
        scaled_abs(x) < scaled_abs(y),
{
    let ex = x / 0x80_0000;
    let ey = y / 0x80_0000;
    lemma_scaled_abs_bounds(x);
    lemma_scaled_abs_bounds(y);
    if ex == ey {
        if ex > 0 {
            let p = pow2((ex - 1) as nat) as int;
            lemma_pow2_pos((ex - 1) as nat);
            lemma_mul_strict_inequality(0x80_0000 + x % 0x80_0000, 0x80_0000 + y % 0x80_0000, p);
        }
    } else {
        assert(ex < ey);
        if ex < ey - 1 {
            lemma_pow2_strictly_increases(ex as nat, (ey - 1) as nat);
        }
        assert(pow2(ex as nat) <= pow2((ey - 1) as nat));
    }
}

/// Only the zero patterns mean zero.
proof fn lemma_scaled_abs_zero(m: int)
    requires
        0 <= m < 0x7f80_0000,
    ensures
        scaled_abs(m) == 0 <==> m == 0,
{
    if m > 0 {
        lemma_scaled_abs_increasing(0, m);
    }
}

/// Value order of two finite patterns in terms of sign and magnitude.
proof fn lemma_scaled_value_order(a: u32, b: u32)
    requires
        is_finite(a),
        is_finite(b),
    ensures
        magnitude(a) < magnitude(b) ==> scaled_abs(magnitude(a)) < scaled_abs(magnitude(b)),
        magnitude(b) < magnitude(a) ==> scaled_abs(magnitude(b)) < scaled_abs(magnitude(a)),
        scaled_abs(magnitude(a)) == 0 <==> is_zero(a),
        scaled_abs(magnitude(b)) == 0 <==> is_zero(b),
        scaled_abs(magnitude(a)) >= 0,
        scaled_abs(magnitude(b)) >= 0,
{
    lemma_scaled_abs_zero(magnitude(a));
    lemma_scaled_abs_zero(magnitude(b));
    lemma_scaled_abs_bounds(magnitude(a));
    lemma_scaled_abs_bounds(magnitude(b));
    if magnitude(a) < magnitude(b) {
        lemma_scaled_abs_increasing(magnitude(a), magnitude(b));
    }
    if magnitude(b) < magnitude(a) {
        lemma_scaled_abs_increasing(magnitude(b), magnitude(a));
    }
}

/// The total order sorts finite values by their numeric value: a smaller
/// value always has a smaller position.
pub proof fn lemma_total_key_follows_value(a: u32, b: u32)
    requires
        is_finite(a),
        is_finite(b),
        scaled_value(a) < scaled_value(b),
    ensures
        total_key(a) < total_key(b),
{
    lemma_scaled_value_order(a, b);
}

/// Infinities close the total order: `-inf` lies below and `+inf` above
/// every finite value.
pub proof fn lemma_total_key_infinities(a: u32)
    requires
        is_finite(a),
    ensures
        total_key(0xff80_0000u32) < total_key(a) < total_key(0x7f80_0000u32),
{
}

/// `<` on bit patterns is numeric less-than on the finite values they mean.
pub proof fn lemma_f32_lt_is_numeric(a: u32, b: u32)
    requires
        is_finite(a),
        is_finite(b),
    ensures
        f32_lt(a, b) <==> scaled_value(a) < scaled_value(b),
{
    lemma_scaled_value_order(a, b);
}

/// `==` on bit patterns is numeric equality on the finite values they mean:
/// equal exactly when the patterns agree or both are zeros, so in particular
/// `x` and `-x` differ for every non-zero `x`.
pub proof fn lemma_f32_eq_is_numeric(a: u32, b: u32)
    requires
        is_finite(a),
        is_finite(b),
    ensures
        f32_eq(a, b) <==> scaled_value(a) == scaled_value(b),
{
    lemma_scaled_value_order(a, b);
}

/// Negating a finite non-zero value (flipping the sign bit) never gives an
/// equal value.
pub proof fn lemma_f32_negation_differs(a: u32)
    requires
        is_finite(a),
        !is_zero(a),
    ensures
        !f32_eq(a, a ^ 0x8000_0000u32),
        scaled_value(a ^ 0x8000_0000u32) == -scaled_value(a),
{
    let n = a ^ 0x8000_0000u32;
    assert(a >= 0x8000_0000u32 ==> n + 0x8000_0000u32 == a) by (bit_vector)
        requires
            n == a ^ 0x8000_0000u32,
    ;
    assert(a < 0x8000_0000u32 ==> n == a + 0x8000_0000u32) by (bit_vector)
        requires
            n == a ^ 0x8000_0000u32,
    ;
    lemma_scaled_value_order(a, n);
}

} // verus!
