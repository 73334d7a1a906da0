//! What holds of scalars: how they compare and what the scalar of an index
//! stands for.

use vstd::prelude::*;
use vstd::arithmetic::power2::{lemma2_to64, lemma2_to64_rest, pow2};
use crate::scalar::{
    encodes_whole, floor_log2, index_scalar, is_nan, lemma_floor_log2_bounds,
    lemma_significand_bound, nearest_whole, rounded_quotient, scalar_eq, significand, Scalar,
    EXPONENT_STEP,
};
use crate::types::{position_eq, position_is_numeric, Position};

verus! {

/// Equality of scalars is symmetric and transitive, and every scalar but a
/// NaN equals itself: among numbers it is an equivalence.
pub proof fn law_scalar_equality(a: Scalar, b: Scalar, c: Scalar)
    ensures
        scalar_eq(a, a) == !is_nan(a),
        scalar_eq(a, b) == scalar_eq(b, a),
        scalar_eq(a, b) && scalar_eq(b, c) ==> scalar_eq(a, c),
{
}

/// Equality of points is symmetric and transitive, and every point without a
/// NaN coordinate equals itself.
pub proof fn law_position_equality(p: Position, q: Position, r: Position)
    ensures
        position_eq(p, p) == position_is_numeric(p),
        position_eq(p, q) == position_eq(q, p),
        position_eq(p, q) && position_eq(q, r) ==> position_eq(p, r),
{
}

/// The scalar of an index is the pattern of the double-precision value
/// nearest to the index. Up to 2^53 that value is the index itself.
pub proof fn law_index_scalar_nearest(n: nat)
    requires
        n < 0x1_0000_0000_0000_0000,
    ensures
        encodes_whole(index_scalar(n), nearest_whole(n)),
        n <= 0x20_0000_0000_0000 ==> encodes_whole(index_scalar(n), n),
{
    lemma2_to64();
    lemma2_to64_rest();
    if n > 0 {
        let e = floor_log2(n);
        lemma_floor_log2_bounds(n);
        if e > 64 {
            vstd::arithmetic::power2::lemma_pow2_strictly_increases(64, e);
        }
        assert(e <= 63);
        lemma_significand_bound(n, e);
        let step = EXPONENT_STEP as int;
        assert(step == pow2(52));
        let mantissa = significand(n) as int;
        let bits: int = (1022 + e) * step + mantissa;
        assert(bits < 0x1_0000_0000_0000_0000) by (nonlinear_arith)
            requires
                bits == (1022 + e) * step + mantissa,
                e <= 63,
                mantissa <= 2 * step,
                step == 0x10_0000_0000_0000,
        ;
        assert(index_scalar(n) == bits);
        if mantissa < 2 * step {
            assert(bits == step * (1023 + e) + (mantissa - step)) by (nonlinear_arith)
                requires
                    bits == (1022 + e) * step + mantissa,
            ;
            vstd::arithmetic::div_mod::lemma_fundamental_div_mod_converse(
                bits,
                step,
                1023 + e as int,
                mantissa - step,
            );
            let scalar = index_scalar(n);
            assert(scalar / EXPONENT_STEP == 1023 + e);
            assert(scalar % EXPONENT_STEP == mantissa - step);
            if e > 52 {
                let k = (e - 52) as nat;
                assert((scalar / EXPONENT_STEP - 1075) as nat == k);
                assert(EXPONENT_STEP + scalar % EXPONENT_STEP == mantissa);
                assert(nearest_whole(n) == mantissa * pow2(k));
                assert(mantissa * pow2(k) > 0) by (nonlinear_arith)
                    requires
                        mantissa > 0,
                        pow2(k) > 0,
                ;
                assert(encodes_whole(scalar, nearest_whole(n)));
            } else {
                assert((1075 - (1023 + e)) as nat == (52 - e) as nat);
                assert(encodes_whole(scalar, nearest_whole(n)));
            }
        } else {
            assert(bits == step * (1024 + e) + 0) by (nonlinear_arith)
                requires
                    bits == (1022 + e) * step + mantissa,
                    mantissa == 2 * step,
            ;
            vstd::arithmetic::div_mod::lemma_fundamental_div_mod_converse(
                bits,
                step,
                1024 + e as int,
                0,
            );
            let scalar = index_scalar(n);
            assert(scalar / EXPONENT_STEP == 1024 + e);
            assert(scalar % EXPONENT_STEP == 0);
            if e > 52 {
                let k = (e - 52) as nat;
                vstd::arithmetic::power2::lemma_pow2_unfold(k + 1);
                assert((1024 + e - 1075) as nat == k + 1);
                assert(mantissa * pow2(k) == step * pow2(k + 1)) by (nonlinear_arith)
                    requires
                        mantissa == 2 * step,
                        pow2(k + 1) == 2 * pow2(k),
                ;
                assert(mantissa * pow2(k) > 0) by (nonlinear_arith)
                    requires
                        mantissa > 0,
                        pow2(k) > 0,
                ;
                assert(encodes_whole(scalar, nearest_whole(n)));
            } else {
                let k = (52 - e) as nat;
                assert(n * pow2(k) == 2 * step);
                vstd::arithmetic::power2::lemma_pow2_adds(e, k);
                assert(n * pow2(k) < 2 * (pow2(e) * pow2(k))) by (nonlinear_arith)
                    requires
                        n < 2 * pow2(e),
                        pow2(k) > 0,
                ;
            }
        }
        if n <= 0x20_0000_0000_0000 && e > 52 {
            if e > 53 {
                vstd::arithmetic::power2::lemma_pow2_strictly_increases(53, e);
            }
            assert(e == 53 && n == 0x20_0000_0000_0000);
            let unit = pow2((e - 52) as nat);
            assert(unit == 2);
            assert(n / unit == 0x10_0000_0000_0000 && n % unit == 0) by (nonlinear_arith)
                requires
                    unit == 2,
                    n == 0x20_0000_0000_0000,
            ;
            assert(rounded_quotient(n, unit) == 0x10_0000_0000_0000);
            assert(rounded_quotient(n, unit) * unit == n) by (nonlinear_arith)
                requires
                    rounded_quotient(n, unit) == 0x10_0000_0000_0000,
                    unit == 2,
                    n == 0x20_0000_0000_0000,
            ;
            assert(nearest_whole(n) == n);
        }
    }
}

} // verus!
