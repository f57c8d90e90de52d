//! IEEE-754 binary32 values, held as their bit patterns, and their ordering.
use vstd::arithmetic::power2::{lemma_pow2_adds, lemma_pow2_pos, lemma_pow2_strictly_increases, pow2};
use vstd::prelude::*;

verus! {

/// The sign bit.
pub const SIGN_BIT: u32 = 0x8000_0000;

/// The bit pattern of positive infinity; every larger magnitude is a NaN.
pub const POSITIVE_INFINITY: u32 = 0x7f80_0000;

/// One unit of the exponent field.
pub const EXPONENT_UNIT: u32 = 0x80_0000;

/// The sign bit is set (negative numbers, negative zero, some NaNs).
pub open spec fn sign_set(b: u32) -> bool {
    b >= SIGN_BIT
}

/// The pattern with the sign bit cleared.
pub open spec fn magnitude_bits(b: u32) -> int {
    (b as int) % (SIGN_BIT as int)
}

/// The biased exponent field, 0 to 255.
pub open spec fn exponent_field(b: u32) -> int {
    magnitude_bits(b) / (EXPONENT_UNIT as int)
}

/// The 23-bit fraction field.
pub open spec fn fraction_field(b: u32) -> int {
    (b as int) % (EXPONENT_UNIT as int)
}

pub open spec fn is_nan(b: u32) -> bool {
    exponent_field(b) == 255 && fraction_field(b) != 0
}

pub open spec fn is_infinite(b: u32) -> bool {
    exponent_field(b) == 255 && fraction_field(b) == 0
}

pub open spec fn is_finite(b: u32) -> bool {
    exponent_field(b) != 255
}

/// The absolute value of a finite pattern, in units of 2^-149 (the smallest
/// subnormal), so that every finite value is an integer.
pub open spec fn scaled_magnitude(b: u32) -> nat {
    if exponent_field(b) == 0 {
        fraction_field(b) as nat
    } else {
        ((fraction_field(b) + EXPONENT_UNIT) * pow2((exponent_field(b) - 1) as nat)) as nat
    }
}

/// The signed value of a finite pattern, in units of 2^-149.
pub open spec fn scaled_value(b: u32) -> int {
    if sign_set(b) {
        -scaled_magnitude(b)
    } else {
        scaled_magnitude(b) as int
    }
}

/// A value lies strictly above zero: positive infinity, or a finite value
/// greater than zero. Neither zero nor a NaN does.
pub open spec fn is_positive(b: u32) -> bool {
    !is_nan(b) && !sign_set(b) && (is_infinite(b) || scaled_magnitude(b) > 0)
}

/// A finite pattern lies within the binade its exponent names.
proof fn lemma_binade_bounds(b: u32)
    requires
        is_finite(b),
    ensures
        scaled_magnitude(b) < pow2((exponent_field(b) + 23) as nat),
        exponent_field(b) >= 1 ==> scaled_magnitude(b) >= pow2((exponent_field(b) + 22) as nat),
{
    let e = exponent_field(b);
    let f = fraction_field(b);
    assert(f == magnitude_bits(b) % (EXPONENT_UNIT as int));
    assert(0 <= f < 0x80_0000);
    vstd::arithmetic::power2::lemma2_to64();
    if e == 0 {
        assert(pow2(23) == 0x80_0000);
    } else {
        let p = pow2((e - 1) as nat);
        lemma_pow2_pos((e - 1) as nat);
        lemma_pow2_adds(23, (e - 1) as nat);
        lemma_pow2_adds(24, (e - 1) as nat);
        assert(pow2(23) == 0x80_0000 && pow2(24) == 0x100_0000);
        assert((f + 0x80_0000) * p < 0x100_0000 * p) by (nonlinear_arith)
            requires
                f < 0x80_0000,
                p > 0,
        ;
        assert((f + 0x80_0000) * p >= 0x80_0000 * p) by (nonlinear_arith)
            requires
                f >= 0,
                p > 0,
        ;
    }
}

/// On finite patterns of one sign, the order of the magnitude bits is the
/// order of the magnitudes.
pub proof fn lemma_magnitude_order(a: u32, b: u32)
    requires
        is_finite(a),
        is_finite(b),
        magnitude_bits(a) < magnitude_bits(b),
    ensures
        scaled_magnitude(a) < scaled_magnitude(b),
{
    let ea = exponent_field(a);
    let eb = exponent_field(b);
    assert(magnitude_bits(a) == ea * 0x80_0000 + fraction_field(a));
    assert(magnitude_bits(b) == eb * 0x80_0000 + fraction_field(b));
    lemma_binade_bounds(a);
    lemma_binade_bounds(b);
    if ea == eb {
        assert(fraction_field(a) < fraction_field(b));
        if ea != 0 {
            let p = pow2((ea - 1) as nat);
            lemma_pow2_pos((ea - 1) as nat);
            let fa = fraction_field(a);
            let fb = fraction_field(b);
            assert((fa + 0x80_0000) * p < (fb + 0x80_0000) * p) by (nonlinear_arith)
                requires
                    fa < fb,
                    p > 0,
            ;
        }
    } else {
        assert(ea < eb);
        if ea + 23 < eb + 22 {
            lemma_pow2_strictly_increases((ea + 23) as nat, (eb + 22) as nat);
        }
    }
}

/// A finite pattern has magnitude zero exactly when its magnitude bits are zero.
pub proof fn lemma_zero_magnitude(b: u32)
    requires
        is_finite(b),
    ensures
        (scaled_magnitude(b) == 0) == (magnitude_bits(b) == 0),
{
    if magnitude_bits(b) != 0 {
        let z: u32 = 0;
        lemma_magnitude_order(z, b);
    }
}

} // verus!
