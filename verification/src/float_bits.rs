//! IEEE-754 binary32 values handled through their bit patterns.
//!
//! The modeler's numbers are single-precision floats. The library keeps each
//! of them as the `u32` holding its bits, which loses nothing, and decides the
//! comparisons that code generation needs with integer arithmetic that is
//! proved against the real-number meaning of the bits.
use vstd::prelude::*;
use vstd::arithmetic::power2::*;
use vstd::arithmetic::mul::*;

verus! {

/// Bits of `0.0f32`.
pub const ZERO_BITS: u32 = 0x0000_0000;

/// Bits of `0.9f32`, the threshold that picks an axis out of a direction.
pub const POINT_NINE_BITS: u32 = 0x3F66_6666;

/// Bits of `1.0f32`.
pub const ONE_BITS: u32 = 0x3F80_0000;

/// The sign bit is set.
pub open spec fn sign_bit(b: u32) -> bool {
    b >= 0x8000_0000
}

/// The bits below the sign bit.
pub open spec fn magnitude(b: u32) -> nat {
    (b % 0x8000_0000) as nat
}

/// The biased exponent field.
pub open spec fn biased_exp(b: u32) -> nat {
    magnitude(b) / 0x80_0000
}

/// The fraction (mantissa) field.
pub open spec fn fraction(b: u32) -> nat {
    magnitude(b) % 0x80_0000
}

pub open spec fn is_nan(b: u32) -> bool {
    biased_exp(b) == 255 && fraction(b) != 0
}

pub open spec fn is_infinite(b: u32) -> bool {
    biased_exp(b) == 255 && fraction(b) == 0
}

/// For a finite float, its absolute value times 2^149 (an integer, since the
/// smallest subnormal is 2^-149).
pub open spec fn scaled_abs(b: u32) -> nat {
    if biased_exp(b) == 0 {
        fraction(b)
    } else {
        ((fraction(b) + 0x80_0000) * pow2((biased_exp(b) - 1) as nat)) as nat
    }
}

/// For a finite float, its value times 2^149.
pub open spec fn scaled_value(b: u32) -> int {
    if sign_bit(b) {
        -(scaled_abs(b) as int)
    } else {
        scaled_abs(b) as int
    }
}

/// The IEEE-754 comparison `a > b` of the floats with bits `a` and `b`:
/// false when either is NaN, infinities above and below every finite value,
/// and otherwise the order of the real values (so `-0.0` and `0.0` are equal).
pub open spec fn spec_f32_gt(a: u32, b: u32) -> bool {
    if is_nan(a) || is_nan(b) {
        false
    } else if is_infinite(a) {
        !sign_bit(a) && !(is_infinite(b) && !sign_bit(b))
    } else if is_infinite(b) {
        sign_bit(b)
    } else {
        scaled_value(a) > scaled_value(b)
    }
}

/// The bits of `-x` for the float `x` with bits `b`: the same magnitude with
/// the sign flipped.
pub open spec fn spec_f32_neg(b: u32) -> u32 {
    if sign_bit(b) {
        (b - 0x8000_0000) as u32
    } else {
        (b + 0x8000_0000) as u32
    }
}

/// The magnitude as sign-less signed key: `-magnitude` for negative floats.
pub open spec fn order_key(b: u32) -> int {
    if sign_bit(b) {
        -(magnitude(b) as int)
    } else {
        magnitude(b) as int
    }
}

proof fn lemma_fields(b: u32)
    ensures
        magnitude(b) == biased_exp(b) * 0x80_0000 + fraction(b),
        fraction(b) < 0x80_0000,
        biased_exp(b) < 256,
        magnitude(b) < 0x8000_0000,
{
}

proof fn lemma_pow2_23()
    ensures
        pow2(23) == 0x80_0000,
        pow2(24) == 0x100_0000,
{
    lemma2_to64();
}

/// Below the same biased exponent the scaled magnitude grows with the fraction;
/// a larger exponent beats every fraction of a smaller one.
proof fn lemma_scaled_abs_strict(x: u32, y: u32)
    requires
        !is_nan(x),
        !is_nan(y),
        !is_infinite(x),
        !is_infinite(y),
        magnitude(x) < magnitude(y),
    ensures
        scaled_abs(x) < scaled_abs(y),
{
    lemma_fields(x);
    lemma_fields(y);
    lemma_pow2_23();
    let ex = biased_exp(x);
    let ey = biased_exp(y);
    let fx = fraction(x);
    let fy = fraction(y);
    if ex == ey {
        assert(fx < fy);
        if ex != 0 {
            lemma_pow2_pos((ex - 1) as nat);
            lemma_mul_strict_inequality(
                (fx + 0x80_0000) as int,
                (fy + 0x80_0000) as int,
                pow2((ex - 1) as nat) as int,
            );
        }
    } else {
        assert(ex < ey);
        let py = pow2((ey - 1) as nat);
        lemma_pow2_pos((ey - 1) as nat);
        // the smallest value at exponent ey is 2^23 * py
        lemma_mul_inequality(0x80_0000, (fy + 0x80_0000) as int, py as int);
        assert(0x80_0000 * py <= scaled_abs(y));
        if ex == 0 {
            lemma_mul_inequality(1, py as int, 0x80_0000);
            assert(fx < 0x80_0000 * py);
        } else {
            let px = pow2((ex - 1) as nat);
            lemma_pow2_pos((ex - 1) as nat);
            lemma_mul_strict_inequality((fx + 0x80_0000) as int, 0x100_0000, px as int);
            // 2^24 * 2^(ex-1) = 2^(ex+23) <= 2^(ey+22) = 2^23 * 2^(ey-1)
            lemma_pow2_adds(24, (ex - 1) as nat);
            lemma_pow2_adds(23, (ey - 1) as nat);
            if ex + 23 < ey + 22 {
                lemma_pow2_strictly_increases((ex + 23) as nat, (ey + 22) as nat);
            }
            assert(pow2(24) * px == pow2((ex + 23) as nat));
            assert(pow2(23) * py == pow2((ey + 22) as nat));
            lemma_mul_is_commutative(0x100_0000, px as int);
            lemma_mul_is_commutative(0x80_0000, py as int);
        }
    }
}

proof fn lemma_scaled_abs_zero(x: u32)
    requires
        !is_nan(x),
        !is_infinite(x),
    ensures
        scaled_abs(x) == 0 <==> magnitude(x) == 0,
{
    lemma_fields(x);
    lemma_pow2_23();
    if biased_exp(x) != 0 {
        lemma_pow2_pos((biased_exp(x) - 1) as nat);
        lemma_mul_strictly_positive(
            (fraction(x) + 0x80_0000) as int,
            pow2((biased_exp(x) - 1) as nat) as int,
        );
    }
}

/// The order of the signed magnitudes is the IEEE order of two non-NaN floats.
pub proof fn lemma_order_key_is_f32_order(a: u32, b: u32)
    requires
        !is_nan(a),
        !is_nan(b),
    ensures
        spec_f32_gt(a, b) <==> order_key(a) > order_key(b),
{
    lemma_fields(a);
    lemma_fields(b);
    if !is_infinite(a) && !is_infinite(b) {
        lemma_scaled_abs_zero(a);
        lemma_scaled_abs_zero(b);
        if magnitude(a) < magnitude(b) {
            lemma_scaled_abs_strict(a, b);
        } else if magnitude(b) < magnitude(a) {
            lemma_scaled_abs_strict(b, a);
        }
    }
}

/// IEEE-754 `a > b` on the floats with bits `a` and `b`.
pub fn f32_gt(a: u32, b: u32) -> (r: bool)
    ensures
        r == spec_f32_gt(a, b),
{
    if f32_is_nan(a) || f32_is_nan(b) {
        return false;
    }
    proof {
        lemma_order_key_is_f32_order(a, b);
    }
    key(a) > key(b)
}

/// Whether the bits encode a NaN.
pub fn f32_is_nan(b: u32) -> (r: bool)
    ensures
        r == is_nan(b),
{
    let m = b % 0x8000_0000;
    m / 0x80_0000 == 255 && m % 0x80_0000 != 0
}

fn key(b: u32) -> (k: i64)
    ensures
        k == order_key(b),
{
    if b >= 0x8000_0000 {
        -((b - 0x8000_0000) as i64)
    } else {
        b as i64
    }
}

/// The bits of `-x`, for the float `x` with bits `b`.
pub fn f32_neg(b: u32) -> (r: u32)
    ensures
        r == spec_f32_neg(b),
        magnitude(r) == magnitude(b),
        sign_bit(r) == !sign_bit(b),
        is_nan(r) == is_nan(b),
        !is_nan(b) && !is_infinite(b) ==> scaled_value(r) == -scaled_value(b),
{
    if b >= 0x8000_0000 {
        b - 0x8000_0000
    } else {
        b + 0x8000_0000
    }
}

} // verus!
