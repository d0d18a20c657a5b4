//! Integer kinematics helpers: floor square root, a fixed-point sine and
//! cosine over whole degrees, and the scaled ratios used to turn a speed
//! and a direction into per-frame coordinate deltas.
//!
//! Angles are whole degrees; trigonometric values are given in
//! thousandths, so `sin_mil(90) == 1000` stands for a sine of one.

use vstd::prelude::*;

verus! {

/// `r` is the floor of the square root of `n`.
pub open spec fn is_floor_sqrt(n: int, r: int) -> bool {
    0 <= r && r * r <= n && n < (r + 1) * (r + 1)
}

/// The floor of the square root of `n` (for `n >= 0`).
pub open spec fn floor_sqrt(n: int) -> int {
    choose|r: int| #[trigger] is_floor_sqrt(n, r)
}

/// Every nonnegative integer has a floor square root, so the choice
/// in `floor_sqrt` always lands on a witness.
pub proof fn lemma_floor_sqrt_exists(n: int)
    requires
        n >= 0,
    ensures
        exists|r: int| #[trigger] is_floor_sqrt(n, r),
    decreases n,
{
    if n == 0 {
        assert(is_floor_sqrt(0, 0));
    } else {
        lemma_floor_sqrt_exists(n - 1);
        let r = choose|r: int| #[trigger] is_floor_sqrt(n - 1, r);
        if (r + 1) * (r + 1) <= n {
            assert(n - 1 < (r + 1) * (r + 1));
            assert(n < (r + 2) * (r + 2)) by (nonlinear_arith)
                requires
                    n <= (r + 1) * (r + 1),
                    r >= 0,
            ;
            assert(is_floor_sqrt(n, r + 1));
        } else {
            assert(is_floor_sqrt(n, r));
        }
    }
}

/// The floor square root property determines its witness.
pub proof fn lemma_floor_sqrt_unique(n: int, r1: int, r2: int)
    requires
        is_floor_sqrt(n, r1),
        is_floor_sqrt(n, r2),
    ensures
        r1 == r2,
{
    if r1 < r2 {
        assert((r1 + 1) * (r1 + 1) <= r2 * r2) by (nonlinear_arith)
            requires
                0 <= r1,
                r1 + 1 <= r2,
        ;
    }
    if r2 < r1 {
        assert((r2 + 1) * (r2 + 1) <= r1 * r1) by (nonlinear_arith)
            requires
                0 <= r2,
                r2 + 1 <= r1,
        ;
    }
}

/// A witness of the floor square root property pins `floor_sqrt` down.
pub proof fn lemma_floor_sqrt_is(n: int, r: int)
    requires
        is_floor_sqrt(n, r),
    ensures
        floor_sqrt(n) == r,
{
    assert(is_floor_sqrt(n, r));
    let r2 = choose|x: int| #[trigger] is_floor_sqrt(n, x);
    lemma_floor_sqrt_unique(n, r2, r);
}

/// Floor square root by binary search over the result.
pub fn isqrt(n: u128) -> (r: u64)
    ensures
        r == floor_sqrt(n as int),
        is_floor_sqrt(n as int, r as int),
{
    let mut lo: u128 = 0;
    let mut hi: u128 = 0x1_0000_0000_0000_0000;
    assert((n as int) < 0x1_0000_0000_0000_0000 * 0x1_0000_0000_0000_0000);
    while lo + 1 < hi
        invariant
            0 <= lo < hi <= 0x1_0000_0000_0000_0000,
            lo * lo <= n as int,
            (n as int) < hi * hi,
        decreases hi - lo,
    {
        let mid = lo + (hi - lo) / 2;
        assert(lo < mid < hi);
        proof {
            vstd::arithmetic::mul::lemma_mul_upper_bound(
                mid as int,
                0xffff_ffff_ffff_ffff,
                mid as int,
                0xffff_ffff_ffff_ffff,
            );
        }
        let sq = mid * mid;
        if sq <= n {
            lo = mid;
        } else {
            hi = mid;
        }
    }
    proof {
        assert(hi == lo + 1);
        assert(is_floor_sqrt(n as int, lo as int));
        lemma_floor_sqrt_is(n as int, lo as int);
    }
    lo as u64
}

/// Half-wave sine approximation in thousandths, defined for degrees in
/// `[0, 180]`: `1000 * 4 * d * (180 - d) / (40500 - d * (180 - d))`.
pub open spec fn sin_half_mil(d: int) -> int {
    4000 * d * (180 - d) / (40500 - d * (180 - d))
}

/// The product `d * (180 - d)` peaks at 8100, so the denominator of the
/// half-wave formula stays at least 32400.
proof fn lemma_arch_product_bounds(d: int)
    requires
        0 <= d <= 180,
    ensures
        0 <= d * (180 - d) <= 8100,
{
    assert(0 <= d * (180 - d) <= 8100) by (nonlinear_arith)
        requires
            0 <= d <= 180,
    ;
}

/// Sine in thousandths over whole degrees, for any angle; the angle is
/// reduced modulo 360 and the second half-turn is the negated first.
pub open spec fn sin_mil_spec(a: int) -> int {
    let d = a % 360;
    if d <= 180 {
        sin_half_mil(d)
    } else {
        -sin_half_mil(d - 180)
    }
}

/// Cosine in thousandths over whole degrees: sine shifted a quarter turn.
pub open spec fn cos_mil_spec(a: int) -> int {
    sin_mil_spec(a + 90)
}

/// Reduce a degree angle into `[0, 360)`.
pub fn norm_deg(a: i32) -> (r: i32)
    ensures
        0 <= r < 360,
        r == (a as int) % 360,
{
    if a >= 0 {
        let r = (a as u32 % 360) as i32;
        proof {
            vstd::arithmetic::div_mod::lemma_mod_division_less_than_divisor(a as int, 360);
        }
        r
    } else {
        let qm: u64 = (-(a as i64)) as u64;
        let m = (qm % 360) as u32;
        let r: i32 = if m == 0 {
            0
        } else {
            (360 - m) as i32
        };
        proof {
            let k = qm as int / 360;
            vstd::arithmetic::div_mod::lemma_fundamental_div_mod(qm as int, 360);
            vstd::arithmetic::div_mod::lemma_mod_division_less_than_divisor(qm as int, 360);
            if m == 0 {
                vstd::arithmetic::div_mod::lemma_fundamental_div_mod_converse_mod(
                    a as int,
                    360,
                    -k,
                    0,
                );
            } else {
                vstd::arithmetic::div_mod::lemma_fundamental_div_mod_converse_mod(
                    a as int,
                    360,
                    -k - 1,
                    360 - m as int,
                );
            }
        }
        r
    }
}

/// Half-wave sine in thousandths for degrees in `[0, 180]`.
fn sin_half(d: u32) -> (r: u32)
    requires
        d <= 180,
    ensures
        r == sin_half_mil(d as int),
        r <= 1000,
{
    proof {
        lemma_arch_product_bounds(d as int);
    }
    let p: u32 = d * (180 - d);
    let num: u32 = 4000 * p;
    let den: u32 = 40500 - p;
    let r = num / den;
    proof {
        assert(num == 4000 * (d as int) * (180 - d as int)) by (nonlinear_arith)
            requires
                p == (d as int) * (180 - d as int),
                num == 4000 * p,
        ;
        vstd::arithmetic::div_mod::lemma_div_is_ordered(num as int, 1000 * den as int, den as int);
        vstd::arithmetic::div_mod::lemma_div_multiples_vanish(1000, den as int);
    }
    r
}

/// Sine in thousandths for a whole-degree angle.
pub fn sin_mil(a: i32) -> (r: i32)
    ensures
        r == sin_mil_spec(a as int),
        -1000 <= r <= 1000,
{
    let d = norm_deg(a);
    if d <= 180 {
        sin_half(d as u32) as i32
    } else {
        -(sin_half((d - 180) as u32) as i32)
    }
}

/// Cosine in thousandths for a whole-degree angle.
pub fn cos_mil(a: i32) -> (r: i32)
    ensures
        r == cos_mil_spec(a as int),
        -1000 <= r <= 1000,
{
    let d = norm_deg(a);
    proof {
        vstd::arithmetic::div_mod::lemma_add_mod_noop(a as int, 90, 360);
        vstd::arithmetic::div_mod::lemma_small_mod((d + 90) as nat % 360, 360);
        vstd::arithmetic::div_mod::lemma_add_mod_noop(d as int, 90, 360);
        assert(((d + 90) as int) % 360 == (a + 90) % 360);
    }
    sin_mil(d + 90)
}

/// `v * diff / len`, truncated toward zero; the sign follows `diff`.
pub open spec fn scaled_ratio_spec(v: int, diff: int, len: int) -> int {
    if diff >= 0 {
        v * diff / len
    } else {
        -(v * (-diff) / len)
    }
}

/// Scale a nonnegative magnitude `v` by the ratio `diff / len`,
/// truncating toward zero.  Since `|diff| <= len`, the result never
/// exceeds `v` in magnitude.
pub fn scaled_ratio(v: u32, diff: i64, len: u64) -> (r: i64)
    requires
        0 < len <= 0x7fff_ffff_ffff_ffff,
        -(len as int) <= diff <= len as int,
    ensures
        r == scaled_ratio_spec(v as int, diff as int, len as int),
        -(v as int) <= r <= v as int,
{
    let mag_diff: u64 = if diff < 0 {
        (-diff) as u64
    } else {
        diff as u64
    };
    proof {
        vstd::arithmetic::mul::lemma_mul_upper_bound(
            v as int,
            0xffff_ffff,
            mag_diff as int,
            0xffff_ffff_ffff_ffff,
        );
    }
    let num: u128 = (v as u128) * (mag_diff as u128);
    let mag: u128 = num / (len as u128);
    proof {
        vstd::arithmetic::mul::lemma_mul_inequality(mag_diff as int, len as int, v as int);
        assert(num as int <= (v as int) * (len as int)) by {
            vstd::arithmetic::mul::lemma_mul_is_commutative(mag_diff as int, v as int);
            vstd::arithmetic::mul::lemma_mul_is_commutative(len as int, v as int);
        }
        vstd::arithmetic::div_mod::lemma_div_is_ordered(
            num as int,
            (v as int) * (len as int),
            len as int,
        );
        vstd::arithmetic::div_mod::lemma_div_multiples_vanish(v as int, len as int);
        vstd::arithmetic::div_mod::lemma_div_pos_is_pos(num as int, len as int);
        assert(0 <= mag <= v as int);
    }
    if diff < 0 {
        -(mag as i64)
    } else {
        mag as i64
    }
}

} // verus!
