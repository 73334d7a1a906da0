//! Double-precision values as bit patterns: the comparisons and the few
//! exact operations that the mesh needs, on integers.

use vstd::prelude::*;
use vstd::arithmetic::power2::{lemma2_to64, lemma2_to64_rest, lemma_pow2_unfold, pow2};

verus! {

/// A double-precision value, held as its IEEE 754 binary64 bit pattern.
pub type Scalar = u64;

/// Bit pattern of the double-precision value `0.0`.
pub const ZERO: Scalar = 0;

/// Bit pattern of the double-precision value `1.0`.
pub const ONE: Scalar = 0x3FF0_0000_0000_0000;

/// Everything but the sign bit of a binary64 pattern.
pub const MAGNITUDE_MASK: u64 = 0x7FFF_FFFF_FFFF_FFFF;

/// Magnitude of the infinities; every larger magnitude is a NaN.
pub const INFINITY_MAGNITUDE: u64 = 0x7FF0_0000_0000_0000;

/// The pattern encodes a NaN: all exponent bits set and a non-zero fraction.
pub open spec fn is_nan(a: Scalar) -> bool {
    (a & MAGNITUDE_MASK) > INFINITY_MAGNITUDE
}

/// The pattern encodes `+0.0` or `-0.0`.
pub open spec fn is_zero(a: Scalar) -> bool {
    (a & MAGNITUDE_MASK) == 0
}

/// IEEE 754 equality of the two encoded values: a NaN equals nothing, the two
/// zeros equal each other, and any other value equals only its own pattern.
pub open spec fn scalar_eq(a: Scalar, b: Scalar) -> bool {
    &&& !is_nan(a)
    &&& !is_nan(b)
    &&& (a == b || (is_zero(a) && is_zero(b)))
}

/// Decides IEEE 754 equality on bit patterns.
pub fn same_scalar(a: Scalar, b: Scalar) -> (equal: bool)
    ensures
        equal == scalar_eq(a, b),
{
    let a_magnitude: u64 = a & MAGNITUDE_MASK;
    let b_magnitude: u64 = b & MAGNITUDE_MASK;
    a_magnitude <= INFINITY_MAGNITUDE && b_magnitude <= INFINITY_MAGNITUDE && (a == b
        || (a_magnitude == 0 && b_magnitude == 0))
}

/// The sign bit of a binary64 pattern.
pub const SIGN_MASK: u64 = 0x8000_0000_0000_0000;

/// The lowest exponent bit of a binary64 pattern: the weight of one step of
/// the exponent, and the magnitude of the smallest normal number.
pub const EXPONENT_STEP: u64 = 0x0010_0000_0000_0000;

/// The highest fraction bit of a binary64 pattern, which marks a quiet NaN.
pub const QUIET_BIT: u64 = 0x0008_0000_0000_0000;

/// Bit pattern of the negated value: the same pattern with the other sign.
pub open spec fn negated(a: Scalar) -> Scalar {
    a ^ SIGN_MASK
}

/// Negates a double-precision value.
pub fn negate(a: Scalar) -> (bits: Scalar)
    ensures
        bits == negated(a),
{
    a ^ SIGN_MASK
}

/// Bit pattern of half the value, as a division by two in double precision
/// yields it. An infinity stays what it is and a NaN comes back quiet. A
/// number whose exponent field is at least two has that field lowered by one.
/// Below that, magnitudes count in units of the smallest subnormal number,
/// and the halved count is rounded to nearest, ties to even; the sign is
/// kept.
pub open spec fn halved(a: Scalar) -> Scalar {
    let magnitude = a & MAGNITUDE_MASK;
    if magnitude > INFINITY_MAGNITUDE {
        a | QUIET_BIT
    } else if magnitude == INFINITY_MAGNITUDE {
        a
    } else if magnitude >= 2 * EXPONENT_STEP {
        (a - EXPONENT_STEP) as u64
    } else {
        (a & SIGN_MASK) | (rounded_quotient(magnitude as nat, 2) as u64)
    }
}

/// Halves a double-precision value.
pub fn halve(a: Scalar) -> (bits: Scalar)
    ensures
        bits == halved(a),
{
    let magnitude: u64 = a & MAGNITUDE_MASK;
    if magnitude > INFINITY_MAGNITUDE {
        a | QUIET_BIT
    } else if magnitude == INFINITY_MAGNITUDE {
        a
    } else if magnitude >= 2 * EXPONENT_STEP {
        assert(a & 0x7FFF_FFFF_FFFF_FFFF <= a) by (bit_vector);
        a - EXPONENT_STEP
    } else {
        let quotient: u64 = magnitude / 2;
        let rest: u64 = magnitude % 2;
        let rounded: u64 = if rest == 1 && quotient % 2 == 1 {
            quotient + 1
        } else {
            quotient
        };
        (a & SIGN_MASK) | rounded
    }
}

/// The position of the highest set bit of `n`: the largest `e` with
/// `2^e <= n`. Zero for `n` below two.
pub open spec fn floor_log2(n: nat) -> nat
    decreases n,
{
    if n < 2 {
        0
    } else {
        1 + floor_log2(n / 2)
    }
}

/// The quotient of `n` by `unit`, rounded to the nearest integer, a tie going
/// to the even neighbour.
pub open spec fn rounded_quotient(n: nat, unit: nat) -> nat {
    let quotient = n / unit;
    let rest = n % unit;
    if 2 * rest > unit || (2 * rest == unit && quotient % 2 == 1) {
        quotient + 1
    } else {
        quotient
    }
}

/// The 53-bit significand of the double nearest to `n`, for positive `n`:
/// `n` scaled by a power of two into the range from 2^52 to 2^53. Scaling down
/// rounds to nearest, ties to even, and may therefore reach 2^53 itself.
pub open spec fn significand(n: nat) -> nat {
    let e = floor_log2(n);
    if e <= 52 {
        n * pow2((52 - e) as nat)
    } else {
        rounded_quotient(n, pow2((e - 52) as nat))
    }
}

/// Bit pattern of the double-precision value nearest to the integer `n`, ties
/// to even: the value that a conversion of `n` to double precision yields.
/// For positive `n` the exponent field holds `1023 + floor_log2(n)` and the
/// fraction field the significand without its leading bit; a significand
/// rounded up to 2^53 carries into the exponent field.
pub open spec fn index_scalar(n: nat) -> Scalar {
    if n == 0 {
        ZERO
    } else {
        ((1022 + floor_log2(n)) * pow2(52) + significand(n)) as u64
    }
}

/// The pattern is that of the double-precision value equal to the whole
/// number `n`: zero for zero, and otherwise a positive pattern whose
/// significand, scaled by the power of two that its exponent field names,
/// gives `n` without a remainder.
pub open spec fn encodes_whole(bits: Scalar, n: nat) -> bool {
    let exponent = bits / EXPONENT_STEP;
    let fraction = bits % EXPONENT_STEP;
    if n == 0 {
        bits == ZERO
    } else if exponent <= 1075 {
        1023 <= exponent && n * pow2((1075 - exponent) as nat) == EXPONENT_STEP + fraction
    } else {
        exponent < 2047 && n == (EXPONENT_STEP + fraction) * pow2((exponent - 1075) as nat)
    }
}

/// The whole number that the scalar of `n` stands for: `n` itself as long as
/// 53 bits can hold it, and beyond that the nearest multiple of the power of
/// two that leaves its highest bit in the 53rd place, ties to the even
/// multiple.
pub open spec fn nearest_whole(n: nat) -> nat {
    let e = floor_log2(n);
    if e <= 52 {
        n
    } else {
        rounded_quotient(n, pow2((e - 52) as nat)) * pow2((e - 52) as nat)
    }
}

/// A positive number lies between the power of two of its highest bit and the
/// next power of two.
pub proof fn lemma_floor_log2_bounds(n: nat)
    requires
        n > 0,
    ensures
        pow2(floor_log2(n)) <= n < 2 * pow2(floor_log2(n)),
    decreases n,
{
    lemma2_to64();
    if n >= 2 {
        lemma_floor_log2_bounds(n / 2);
        lemma_pow2_unfold(floor_log2(n));
    }
}

/// A number between a power of two and the next has that power's exponent as
/// the position of its highest bit.
proof fn lemma_floor_log2(n: nat, e: nat)
    requires
        pow2(e) <= n < 2 * pow2(e),
    ensures
        floor_log2(n) == e,
    decreases e,
{
    lemma2_to64();
    if e > 0 {
        lemma_pow2_unfold(e);
        lemma_floor_log2(n / 2, (e - 1) as nat);
    }
}

/// Encodes an index as a double-precision value.
pub fn scalar_from_index(n: u64) -> (bits: Scalar)
    ensures
        bits == index_scalar(n as nat),
{
    if n == 0 {
        return ZERO;
    }
    proof {
        lemma2_to64();
    }
    let mut e: u64 = 0;
    let mut unit: u64 = 1;
    while n / 2 >= unit
        invariant
            unit == pow2(e as nat),
            1 <= unit <= n,
            e <= 63,
        decreases n - unit,
    {
        proof {
            lemma2_to64();
            lemma_pow2_unfold((e + 1) as nat);
        }
        unit = unit * 2;
        e = e + 1;
    }
    proof {
        lemma_significand_bound(n as nat, e as nat);
    }
    let fraction: u64 = if e <= 52 {
        let mut scaled: u64 = n;
        let mut k: u64 = e;
        proof {
            lemma2_to64();
            assert(n * pow2(0) == n) by (nonlinear_arith)
                requires
                    pow2(0) == 1,
            ;
        }
        while k < 52
            invariant
                e <= k <= 52,
                scaled == n * pow2((k - e) as nat),
                pow2(k as nat) <= scaled < 2 * pow2(k as nat),
            decreases 52 - k,
        {
            proof {
                lemma2_to64_rest();
                lemma_pow2_unfold((k + 1) as nat);
                lemma_pow2_unfold((k + 1 - e) as nat);
                lemma_pow2_bound(k as nat, 51);
                assert(n * (2 * pow2((k - e) as nat)) == 2 * (n * pow2((k - e) as nat)))
                    by (nonlinear_arith);
            }
            scaled = scaled * 2;
            k = k + 1;
        }
        scaled
    } else {
        let mut step: u64 = 1;
        let mut k: u64 = 52;
        while k < e
            invariant
                52 <= k <= e <= 63,
                step == pow2((k - 52) as nat),
                step <= 0x800,
            decreases e - k,
        {
            proof {
                lemma2_to64();
                lemma_pow2_unfold((k + 1 - 52) as nat);
                lemma_pow2_bound((k - 52) as nat, 10);
            }
            step = step * 2;
            k = k + 1;
        }
        proof {
            vstd::arithmetic::power2::lemma_pow2_pos((e - 52) as nat);
        }
        let quotient = n / step;
        let rest = n % step;
        proof {
            lemma2_to64_rest();
            assert(significand(n as nat) == rounded_quotient(n as nat, step as nat));
            assert(quotient <= significand(n as nat));
        }
        if 2 * rest > step || (2 * rest == step && quotient % 2 == 1) {
            quotient + 1
        } else {
            quotient
        }
    };
    proof {
        lemma2_to64_rest();
        assert(fraction == significand(n as nat));
        assert((1022 + e) * 0x10_0000_0000_0000 + fraction <= u64::MAX) by (nonlinear_arith)
            requires
                e <= 63,
                fraction <= 0x20_0000_0000_0000,
        ;
    }
    (1022 + e) * 0x10_0000_0000_0000 + fraction
}

/// Powers of two grow with their exponents.
proof fn lemma_pow2_bound(small: nat, large: nat)
    requires
        small <= large,
    ensures
        pow2(small) <= pow2(large),
    decreases large - small,
{
    if small < large {
        lemma_pow2_unfold(large);
        lemma_pow2_bound(small, (large - 1) as nat);
    }
}

/// The significand of a positive number lies between 2^52 and 2^53.
pub proof fn lemma_significand_bound(n: nat, e: nat)
    requires
        pow2(e) <= n < 2 * pow2(e),
        e <= 63,
    ensures
        floor_log2(n) == e,
        pow2(52) <= significand(n) <= 2 * pow2(52),
{
    lemma_floor_log2(n, e);
    lemma2_to64();
    lemma2_to64_rest();
    if e <= 52 {
        let k = (52 - e) as nat;
        vstd::arithmetic::power2::lemma_pow2_adds(e, k);
        assert(pow2(e) * pow2(k) <= n * pow2(k)) by (nonlinear_arith)
            requires
                pow2(e) <= n,
        ;
        assert(n * pow2(k) <= 2 * pow2(e) * pow2(k)) by (nonlinear_arith)
            requires
                n < 2 * pow2(e),
        ;
        assert(2 * pow2(e) * pow2(k) == 2 * (pow2(e) * pow2(k))) by (nonlinear_arith);
    } else {
        let k = (e - 52) as nat;
        let unit = pow2(k);
        vstd::arithmetic::power2::lemma_pow2_adds(52, k);
        vstd::arithmetic::power2::lemma_pow2_pos(k);
        let quotient = n / unit;
        let rest = n % unit;
        vstd::arithmetic::div_mod::lemma_fundamental_div_mod(n as int, unit as int);
        assert(n == unit * quotient + rest);
        assert(0 <= rest < unit);
        assert(pow2(52) <= quotient) by (nonlinear_arith)
            requires
                pow2(52) * unit <= unit * quotient + rest,
                0 <= rest < unit,
                unit > 0,
        ;
        assert(quotient < 2 * pow2(52)) by (nonlinear_arith)
            requires
                unit * quotient + rest < 2 * (pow2(52) * unit),
                0 <= rest,
                unit > 0,
        ;
    }
}

} // verus!
