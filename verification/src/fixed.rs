//! Q16.16 fixed-point arithmetic over `i64`: products and quotients with the
//! exact truncating semantics of the machine, an integer square root, and the
//! derived geometric operations (dot, cross, length, normalize, quaternion
//! rotation) that the renderer is specified with.

use vstd::prelude::*;

use crate::arith::{div_i128, in_i64, tdiv};
use crate::quat::Quat;
use crate::vec3::Vec3;

verus! {

/// One in Q16.16: every fixed-point value counts multiples of `1 / FP_ONE`.
pub const FP_ONE: i64 = 65536;

/// Fixed-point product: the integer product rescaled by `FP_ONE`,
/// truncating toward zero.
pub open spec fn fpm(a: int, b: int) -> int {
    tdiv(a * b, 65536)
}

/// Fixed-point quotient: the dividend rescaled by `FP_ONE` before the
/// truncating division.
pub open spec fn fpd(a: int, b: int) -> int {
    tdiv(a * 65536, b)
}

/// Bound propagation for truncating division: a quotient is no larger in
/// magnitude than its dividend bound.
pub proof fn lemma_tdiv_mag(a: int, b: int, m: int)
    requires
        b != 0,
        0 <= m,
        -m <= a <= m,
    ensures
        -m <= tdiv(a, b) <= m,
{
    if a > 0 && b > 0 {
        vstd::arithmetic::div_mod::lemma_div_pos_is_pos(a, b);
        vstd::arithmetic::div_mod::lemma_div_nonincreasing(a, b);
    } else if a < 0 && b < 0 {
        vstd::arithmetic::div_mod::lemma_div_pos_is_pos(a * -1, b * -1);
        vstd::arithmetic::div_mod::lemma_div_nonincreasing(a * -1, b * -1);
    } else if a < 0 {
        vstd::arithmetic::div_mod::lemma_div_pos_is_pos(a * -1, b);
        vstd::arithmetic::div_mod::lemma_div_nonincreasing(a * -1, b);
    } else if a > 0 {
        vstd::arithmetic::div_mod::lemma_div_pos_is_pos(a, b * -1);
        vstd::arithmetic::div_mod::lemma_div_nonincreasing(a, b * -1);
    }
}

/// Bound propagation through the divisor: if `|a| <= m * b` then
/// `|tdiv(a, b)| <= m`.
pub proof fn lemma_tdiv_div_bound(a: int, b: int, m: int)
    requires
        b >= 1,
        0 <= m,
        -(m * b) <= a <= m * b,
    ensures
        -m <= tdiv(a, b) <= m,
{
    vstd::arithmetic::div_mod::lemma_div_multiples_vanish(m, b);
    if a >= 0 {
        vstd::arithmetic::div_mod::lemma_div_pos_is_pos(a, b);
        vstd::arithmetic::div_mod::lemma_div_is_ordered(a, m * b, b);
    } else {
        vstd::arithmetic::div_mod::lemma_div_pos_is_pos(a * -1, b);
        vstd::arithmetic::div_mod::lemma_div_is_ordered(a * -1, m * b, b);
    }
}

/// Fixed-point product of two `i64` values. The requirement bounds the
/// integer product so that the rescaled result fits comfortably.
pub fn fp_mul(a: i64, b: i64) -> (r: i64)
    requires
        -4611686018427387904 <= a * b <= 4611686018427387904,
    ensures
        r == fpm(a as int, b as int),
        -70368744177664 <= r <= 70368744177664,
{
    proof {
        lemma_tdiv_div_bound(a * b, 65536, 70368744177664);
    }
    let p = div_i128((a as i128) * (b as i128), 65536);
    p as i64
}

/// Fixed-point quotient of two `i64` values.
pub fn fp_div(a: i64, b: i64) -> (r: i64)
    requires
        b != 0,
        -70368744177664 <= a <= 70368744177664,
    ensures
        r == fpd(a as int, b as int),
        -4611686018427387904 <= r <= 4611686018427387904,
{
    proof {
        lemma_tdiv_mag(a * 65536, b as int, 4611686018427387904);
    }
    let p = div_i128((a as i128) * 65536, b as i128);
    p as i64
}

/// Integer square root: the unique `r >= 0` with
/// `r * r <= v < (r + 1) * (r + 1)` (zero for negative arguments).
pub open spec fn isqrt(v: int) -> int
    decreases v,
{
    if v <= 0 {
        0
    } else {
        let s = 2 * isqrt(v / 4);
        if (s + 1) * (s + 1) <= v {
            s + 1
        } else {
            s
        }
    }
}

/// The defining bracket of `isqrt`.
pub proof fn lemma_isqrt_bracket(v: int)
    requires
        v >= 0,
    ensures
        isqrt(v) >= 0,
        isqrt(v) * isqrt(v) <= v,
        (isqrt(v) + 1) * (isqrt(v) + 1) > v,
    decreases v,
{
    if v > 0 {
        lemma_isqrt_bracket(v / 4);
        let q = v / 4;
        let t = isqrt(q);
        let s = 2 * t;
        assert(4 * q <= v < 4 * (q + 1)) by {
            vstd::arithmetic::div_mod::lemma_fundamental_div_mod(v, 4);
        };
        assert(s * s <= 4 * q && (s + 2) * (s + 2) > v) by (nonlinear_arith)
            requires
                t >= 0,
                t * t <= q,
                (t + 1) * (t + 1) > q,
                s == 2 * t,
                4 * q <= v < 4 * (q + 1),
        ;
        if (s + 1) * (s + 1) <= v {
            assert(isqrt(v) == s + 1);
        } else {
            assert(isqrt(v) == s);
        }
    }
}

/// Any value satisfying the bracket is `isqrt(v)`.
pub proof fn lemma_isqrt_unique(v: int, r: int)
    requires
        v >= 0,
        r >= 0,
        r * r <= v,
        (r + 1) * (r + 1) > v,
    ensures
        r == isqrt(v),
{
    lemma_isqrt_bracket(v);
    assert(r == isqrt(v)) by (nonlinear_arith)
        requires
            r >= 0,
            r * r <= v,
            (r + 1) * (r + 1) > v,
            isqrt(v) >= 0,
            isqrt(v) * isqrt(v) <= v,
            (isqrt(v) + 1) * (isqrt(v) + 1) > v,
    ;
}

/// Integer square root of a `u128`, by bisection.
pub fn isqrt_u128(v: u128) -> (r: u128)
    ensures
        r == isqrt(v as int),
        r * r <= v,
{
    let mut lo: u128 = 0;
    let mut hi: u128 = 1 << 64;
    proof {
        assert((1u128 << 64) == 0x10000000000000000u128) by (bit_vector);
        assert(0x10000000000000000 * 0x10000000000000000 > v as int);
    }
    while hi - lo > 1
        invariant
            lo < hi <= 0x10000000000000000,
            lo * lo <= v,
            hi * hi > v,
        decreases hi - lo,
    {
        let mid = lo + (hi - lo) / 2;
        proof {
            assert(lo < mid < hi);
            assert(mid * mid <= 0xffffffffffffffff * 0xffffffffffffffff)
                by (nonlinear_arith)
                requires
                    0 <= mid <= 0xffffffffffffffff,
            ;
        }
        if mid * mid <= v {
            lo = mid;
        } else {
            hi = mid;
        }
    }
    proof {
        assert(hi == lo + 1);
        lemma_isqrt_unique(v as int, lo as int);
    }
    lo
}

/// Product bound for fixed-point multiplication: componentwise magnitude
/// bounds give a magnitude bound on `fpm`.
pub proof fn lemma_fpm_bound(a: int, b: int, ma: int, mb: int, m: int)
    requires
        -ma <= a <= ma,
        -mb <= b <= mb,
        0 <= ma,
        0 <= mb,
        ma * mb <= m * 65536,
    ensures
        -(ma * mb) <= a * b <= ma * mb,
        -m <= fpm(a, b) <= m,
{
    assert(-(ma * mb) <= a * b <= ma * mb) by (nonlinear_arith)
        requires
            -ma <= a <= ma,
            -mb <= b <= mb,
            0 <= ma,
            0 <= mb,
    ;
    lemma_tdiv_div_bound(a * b, 65536, m);
}

/// Truncating division is odd in its dividend (for a positive divisor).
pub proof fn lemma_tdiv_neg(a: int, b: int)
    requires
        b > 0,
    ensures
        tdiv(-a, b) == -tdiv(a, b),
{
}

/// A normalized component is at most twice `FP_ONE`: with
/// `len == isqrt(dd * 65536) >= 1` and `dd` at least the fixed-point square
/// of the component, the rescaled quotient stays below `131072`.
pub proof fn lemma_unit_component_bound(u: int, dd: int, len: int)
    requires
        u >= 0,
        dd >= fpm(u, u),
        len == isqrt(dd * 65536),
        len >= 1,
    ensures
        len >= 256,
        0 <= tdiv(u * 65536, len) <= 131072,
{
    lemma_isqrt_bracket(dd * 65536);
    assert(u * u >= 0) by (nonlinear_arith);
    vstd::arithmetic::div_mod::lemma_fundamental_div_mod(u * u, 65536);
    vstd::arithmetic::div_mod::lemma_div_pos_is_pos(u * u, 65536);
    // dd * 65536 exceeds u * u - 65536.
    assert(dd * 65536 >= (u * u / 65536) * 65536) by (nonlinear_arith)
        requires
            dd >= u * u / 65536,
    ;
    assert((len + 1) * (len + 1) > u * u - 65536);
    // A positive length forces dd >= 1, hence len >= 256.
    assert(dd >= 1) by (nonlinear_arith)
        requires
            len * len <= dd * 65536,
            len >= 1,
    ;
    assert((len + 1) * (len + 1) > 65536);
    assert(len + 1 > 256) by (nonlinear_arith)
        requires
            (len + 1) * (len + 1) > 65536,
            len + 1 >= 0,
    ;
    // The component magnitude is at most twice the length.
    assert(u <= 2 * len) by (nonlinear_arith)
        requires
            (len + 1) * (len + 1) > u * u - 65536,
            len >= 256,
            u >= 0,
    ;
    lemma_tdiv_div_bound(u * 65536, len, 131072);
}

/// Fixed-point dot product of two vectors.
pub open spec fn fp3_dot(a: Vec3, b: Vec3) -> int {
    fpm(a.x as int, b.x as int) + fpm(a.y as int, b.y as int) + fpm(a.z as int, b.z as int)
}

/// Fixed-point right-handed cross product, componentwise.
pub open spec fn fp3_cross_x(a: Vec3, b: Vec3) -> int {
    fpm(a.y as int, b.z as int) - fpm(a.z as int, b.y as int)
}

pub open spec fn fp3_cross_y(a: Vec3, b: Vec3) -> int {
    fpm(a.z as int, b.x as int) - fpm(a.x as int, b.z as int)
}

pub open spec fn fp3_cross_z(a: Vec3, b: Vec3) -> int {
    fpm(a.x as int, b.y as int) - fpm(a.y as int, b.x as int)
}

/// Fixed-point length: the integer square root of the rescaled self-product.
pub open spec fn fp3_len(v: Vec3) -> int {
    isqrt(fp3_dot(v, v) * 65536)
}

/// Componentwise magnitude bound, the precondition of the fixed-point
/// vector operations.
pub open spec fn v3_mag_le(v: Vec3, m: int) -> bool {
    &&& -m <= v.x <= m
    &&& -m <= v.y <= m
    &&& -m <= v.z <= m
}

/// Magnitude cap accepted by the fixed-point vector operations: products of
/// two values below it stay within `fp_mul`'s domain.
pub const FP_VEC_CAP: i64 = 2147483648;

/// Fixed-point dot product.
pub fn fp_dot(a: &Vec3, b: &Vec3) -> (r: i64)
    requires
        v3_mag_le(*a, FP_VEC_CAP as int),
        v3_mag_le(*b, FP_VEC_CAP as int),
    ensures
        r == fp3_dot(*a, *b),
        -211106232532992 <= r <= 211106232532992,
{
    proof {
        lemma_fpm_bound(a.x as int, b.x as int, FP_VEC_CAP as int, FP_VEC_CAP as int, 70368744177664);
        lemma_fpm_bound(a.y as int, b.y as int, FP_VEC_CAP as int, FP_VEC_CAP as int, 70368744177664);
        lemma_fpm_bound(a.z as int, b.z as int, FP_VEC_CAP as int, FP_VEC_CAP as int, 70368744177664);
    }
    fp_mul(a.x, b.x) + fp_mul(a.y, b.y) + fp_mul(a.z, b.z)
}

/// Fixed-point cross product.
pub fn fp_cross(a: &Vec3, b: &Vec3) -> (r: Vec3)
    requires
        v3_mag_le(*a, FP_VEC_CAP as int),
        v3_mag_le(*b, FP_VEC_CAP as int),
    ensures
        r.x == fp3_cross_x(*a, *b),
        r.y == fp3_cross_y(*a, *b),
        r.z == fp3_cross_z(*a, *b),
        v3_mag_le(r, 140737488355328),
{
    proof {
        lemma_fpm_bound(a.y as int, b.z as int, FP_VEC_CAP as int, FP_VEC_CAP as int, 70368744177664);
        lemma_fpm_bound(a.z as int, b.y as int, FP_VEC_CAP as int, FP_VEC_CAP as int, 70368744177664);
        lemma_fpm_bound(a.z as int, b.x as int, FP_VEC_CAP as int, FP_VEC_CAP as int, 70368744177664);
        lemma_fpm_bound(a.x as int, b.z as int, FP_VEC_CAP as int, FP_VEC_CAP as int, 70368744177664);
        lemma_fpm_bound(a.x as int, b.y as int, FP_VEC_CAP as int, FP_VEC_CAP as int, 70368744177664);
        lemma_fpm_bound(a.y as int, b.x as int, FP_VEC_CAP as int, FP_VEC_CAP as int, 70368744177664);
    }
    Vec3::new(
        fp_mul(a.y, b.z) - fp_mul(a.z, b.y),
        fp_mul(a.z, b.x) - fp_mul(a.x, b.z),
        fp_mul(a.x, b.y) - fp_mul(a.y, b.x),
    )
}

/// Fixed-point scaling of a vector by a scalar.
pub fn fp_scale(v: &Vec3, f: i64) -> (r: Vec3)
    requires
        v3_mag_le(*v, FP_VEC_CAP as int),
        -FP_VEC_CAP <= f <= FP_VEC_CAP,
    ensures
        r.x == fpm(v.x as int, f as int),
        r.y == fpm(v.y as int, f as int),
        r.z == fpm(v.z as int, f as int),
        v3_mag_le(r, 70368744177664),
{
    proof {
        lemma_fpm_bound(v.x as int, f as int, FP_VEC_CAP as int, FP_VEC_CAP as int, 70368744177664);
        lemma_fpm_bound(v.y as int, f as int, FP_VEC_CAP as int, FP_VEC_CAP as int, 70368744177664);
        lemma_fpm_bound(v.z as int, f as int, FP_VEC_CAP as int, FP_VEC_CAP as int, 70368744177664);
    }
    Vec3::new(fp_mul(v.x, f), fp_mul(v.y, f), fp_mul(v.z, f))
}

/// Fixed-point length of a vector.
pub fn fp_length(v: &Vec3) -> (r: i64)
    requires
        v3_mag_le(*v, FP_VEC_CAP as int),
    ensures
        r == fp3_len(*v),
        0 <= r <= 4000000000,
{
    let d = fp_dot(v, v);
    proof {
        lemma_fpm_sq_nonneg(v.x as int);
        lemma_fpm_sq_nonneg(v.y as int);
        lemma_fpm_sq_nonneg(v.z as int);
    }
    let s = isqrt_u128((d as u128) * 65536);
    proof {
        assert(s <= 4000000000) by (nonlinear_arith)
            requires
                s * s <= (d as u128) * 65536,
                0 <= d <= 211106232532992,
        ;
    }
    s as i64
}

/// The fixed-point square of any value is nonnegative.
pub proof fn lemma_fpm_sq_nonneg(x: int)
    ensures
        fpm(x, x) >= 0,
{
    assert(x * x >= 0) by (nonlinear_arith);
    if x * x > 0 {
        vstd::arithmetic::div_mod::lemma_div_pos_is_pos(x * x, 65536);
    }
}

/// Fixed-point normalization: each component is rescaled and divided by the
/// fixed-point length. The result's components are bounded by two in
/// fixed-point terms.
pub fn fp_normalize(v: &Vec3) -> (r: Vec3)
    requires
        v3_mag_le(*v, FP_VEC_CAP as int),
        fp3_len(*v) >= 1,
    ensures
        r.x == fpd(v.x as int, fp3_len(*v)),
        r.y == fpd(v.y as int, fp3_len(*v)),
        r.z == fpd(v.z as int, fp3_len(*v)),
        v3_mag_le(r, 131072),
{
    let len = fp_length(v);
    proof {
        lemma_fpm_sq_nonneg(v.x as int);
        lemma_fpm_sq_nonneg(v.y as int);
        lemma_fpm_sq_nonneg(v.z as int);
        lemma_norm_component(v.x as int, fp3_dot(*v, *v), len as int);
        lemma_norm_component(v.y as int, fp3_dot(*v, *v), len as int);
        lemma_norm_component(v.z as int, fp3_dot(*v, *v), len as int);
    }
    Vec3::new(fp_div(v.x, len), fp_div(v.y, len), fp_div(v.z, len))
}

/// Holds when `v` is a usable diffuse-bounce sample: inside the unit ball.
pub open spec fn ball_ok(v: Vec3) -> bool {
    &&& v3_mag_le(v, 65536)
    &&& fp3_dot(v, v) < 65536
}

/// Componentwise magnitude bound for quaternions.
pub open spec fn q_mag_le(q: Quat, m: int) -> bool {
    &&& -m <= q.w <= m
    &&& v3_mag_le(q.v, m)
}

/// Fixed-point four-term dot product.
pub open spec fn fp4_dot(a: Quat, b: Quat) -> int {
    fpm(a.w as int, b.w as int) + fp3_dot(a.v, b.v)
}

/// Fixed-point Hamilton product, componentwise.
pub open spec fn fpq_w(a: Quat, b: Quat) -> int {
    fpm(a.w as int, b.w as int) - fpm(a.v.x as int, b.v.x as int) - fpm(
        a.v.y as int,
        b.v.y as int,
    ) - fpm(a.v.z as int, b.v.z as int)
}

pub open spec fn fpq_x(a: Quat, b: Quat) -> int {
    fpm(a.w as int, b.v.x as int) + fpm(a.v.x as int, b.w as int) + fpm(
        a.v.y as int,
        b.v.z as int,
    ) - fpm(a.v.z as int, b.v.y as int)
}

pub open spec fn fpq_y(a: Quat, b: Quat) -> int {
    fpm(a.w as int, b.v.y as int) + fpm(a.v.y as int, b.w as int) + fpm(
        a.v.z as int,
        b.v.x as int,
    ) - fpm(a.v.x as int, b.v.z as int)
}

pub open spec fn fpq_z(a: Quat, b: Quat) -> int {
    fpm(a.w as int, b.v.z as int) + fpm(a.v.z as int, b.w as int) + fpm(
        a.v.x as int,
        b.v.y as int,
    ) - fpm(a.v.y as int, b.v.x as int)
}

/// Fixed-point quaternion length.
pub open spec fn fp4_len(q: Quat) -> int {
    isqrt(fp4_dot(q, q) * 65536)
}

/// Fixed-point Hamilton product of two quaternions.
pub fn fp_quat_cross(a: &Quat, b: &Quat) -> (r: Quat)
    requires
        q_mag_le(*a, FP_VEC_CAP as int),
        q_mag_le(*b, FP_VEC_CAP as int),
    ensures
        r.w == fpq_w(*a, *b),
        r.v.x == fpq_x(*a, *b),
        r.v.y == fpq_y(*a, *b),
        r.v.z == fpq_z(*a, *b),
        q_mag_le(r, 281474976710656),
{
    proof {
        lemma_fpm_bound(a.w as int, b.w as int, FP_VEC_CAP as int, FP_VEC_CAP as int, 70368744177664);
        lemma_fpm_bound(a.w as int, b.v.x as int, FP_VEC_CAP as int, FP_VEC_CAP as int, 70368744177664);
        lemma_fpm_bound(a.w as int, b.v.y as int, FP_VEC_CAP as int, FP_VEC_CAP as int, 70368744177664);
        lemma_fpm_bound(a.w as int, b.v.z as int, FP_VEC_CAP as int, FP_VEC_CAP as int, 70368744177664);
        lemma_fpm_bound(a.v.x as int, b.w as int, FP_VEC_CAP as int, FP_VEC_CAP as int, 70368744177664);
        lemma_fpm_bound(a.v.x as int, b.v.x as int, FP_VEC_CAP as int, FP_VEC_CAP as int, 70368744177664);
        lemma_fpm_bound(a.v.x as int, b.v.y as int, FP_VEC_CAP as int, FP_VEC_CAP as int, 70368744177664);
        lemma_fpm_bound(a.v.x as int, b.v.z as int, FP_VEC_CAP as int, FP_VEC_CAP as int, 70368744177664);
        lemma_fpm_bound(a.v.y as int, b.w as int, FP_VEC_CAP as int, FP_VEC_CAP as int, 70368744177664);
        lemma_fpm_bound(a.v.y as int, b.v.x as int, FP_VEC_CAP as int, FP_VEC_CAP as int, 70368744177664);
        lemma_fpm_bound(a.v.y as int, b.v.y as int, FP_VEC_CAP as int, FP_VEC_CAP as int, 70368744177664);
        lemma_fpm_bound(a.v.y as int, b.v.z as int, FP_VEC_CAP as int, FP_VEC_CAP as int, 70368744177664);
        lemma_fpm_bound(a.v.z as int, b.w as int, FP_VEC_CAP as int, FP_VEC_CAP as int, 70368744177664);
        lemma_fpm_bound(a.v.z as int, b.v.x as int, FP_VEC_CAP as int, FP_VEC_CAP as int, 70368744177664);
        lemma_fpm_bound(a.v.z as int, b.v.y as int, FP_VEC_CAP as int, FP_VEC_CAP as int, 70368744177664);
        lemma_fpm_bound(a.v.z as int, b.v.z as int, FP_VEC_CAP as int, FP_VEC_CAP as int, 70368744177664);
    }
    Quat::new(
        fp_mul(a.w, b.w) - fp_mul(a.v.x, b.v.x) - fp_mul(a.v.y, b.v.y) - fp_mul(a.v.z, b.v.z),
        fp_mul(a.w, b.v.x) + fp_mul(a.v.x, b.w) + fp_mul(a.v.y, b.v.z) - fp_mul(a.v.z, b.v.y),
        fp_mul(a.w, b.v.y) + fp_mul(a.v.y, b.w) + fp_mul(a.v.z, b.v.x) - fp_mul(a.v.x, b.v.z),
        fp_mul(a.w, b.v.z) + fp_mul(a.v.z, b.w) + fp_mul(a.v.x, b.v.y) - fp_mul(a.v.y, b.v.x),
    )
}

/// Fixed-point quaternion normalization.
pub fn fp_quat_normalize(q: &Quat) -> (r: Quat)
    requires
        q_mag_le(*q, FP_VEC_CAP as int),
        fp4_len(*q) >= 1,
    ensures
        r.w == fpd(q.w as int, fp4_len(*q)),
        r.v.x == fpd(q.v.x as int, fp4_len(*q)),
        r.v.y == fpd(q.v.y as int, fp4_len(*q)),
        r.v.z == fpd(q.v.z as int, fp4_len(*q)),
        q_mag_le(r, 131072),
{
    proof {
        lemma_fpm_bound(q.w as int, q.w as int, FP_VEC_CAP as int, FP_VEC_CAP as int, 70368744177664);
        lemma_fpm_sq_nonneg(q.w as int);
        lemma_fpm_sq_nonneg(q.v.x as int);
        lemma_fpm_sq_nonneg(q.v.y as int);
        lemma_fpm_sq_nonneg(q.v.z as int);
    }
    let d = fp_mul(q.w, q.w) + fp_dot(&q.v, &q.v);
    let s = isqrt_u128((d as u128) * 65536);
    proof {
        assert(s <= 4294967296) by (nonlinear_arith)
            requires
                s * s <= (d as u128) * 65536,
                0 <= d <= 281474976710656,
        ;
    }
    let len = s as i64;
    proof {
        lemma_norm_component(q.w as int, fp4_dot(*q, *q), len as int);
        lemma_norm_component(q.v.x as int, fp4_dot(*q, *q), len as int);
        lemma_norm_component(q.v.y as int, fp4_dot(*q, *q), len as int);
        lemma_norm_component(q.v.z as int, fp4_dot(*q, *q), len as int);
    }
    Quat::new(fp_div(q.w, len), fp_div(q.v.x, len), fp_div(q.v.y, len), fp_div(q.v.z, len))
}

/// Fixed-point length of a quaternion.
pub fn fp_quat_length(q: &Quat) -> (r: i64)
    requires
        q_mag_le(*q, FP_VEC_CAP as int),
    ensures
        r == fp4_len(*q),
        0 <= r <= 4294967296,
{
    proof {
        lemma_fpm_bound(q.w as int, q.w as int, FP_VEC_CAP as int, FP_VEC_CAP as int, 70368744177664);
        lemma_fpm_sq_nonneg(q.w as int);
        lemma_fpm_sq_nonneg(q.v.x as int);
        lemma_fpm_sq_nonneg(q.v.y as int);
        lemma_fpm_sq_nonneg(q.v.z as int);
    }
    let d = fp_mul(q.w, q.w) + fp_dot(&q.v, &q.v);
    let s = isqrt_u128((d as u128) * 65536);
    proof {
        assert(s <= 4294967296) by (nonlinear_arith)
            requires
                s * s <= (d as u128) * 65536,
                0 <= d <= 281474976710656,
        ;
    }
    s as i64
}

/// Intermediate quaternion of a rotation: `q * (0, v)`, componentwise.
pub open spec fn rot_tw(q: Quat, v: Vec3) -> int {
    -fpm(q.v.x as int, v.x as int) - fpm(q.v.y as int, v.y as int) - fpm(
        q.v.z as int,
        v.z as int,
    )
}

pub open spec fn rot_tx(q: Quat, v: Vec3) -> int {
    fpm(q.w as int, v.x as int) + fpm(q.v.y as int, v.z as int) - fpm(q.v.z as int, v.y as int)
}

pub open spec fn rot_ty(q: Quat, v: Vec3) -> int {
    fpm(q.w as int, v.y as int) + fpm(q.v.z as int, v.x as int) - fpm(q.v.x as int, v.z as int)
}

pub open spec fn rot_tz(q: Quat, v: Vec3) -> int {
    fpm(q.w as int, v.z as int) + fpm(q.v.x as int, v.y as int) - fpm(q.v.y as int, v.x as int)
}

/// Result of rotating `v` by the quaternion `q` through conjugation,
/// `q * (0, v) * conj(q)`, componentwise.
pub open spec fn rot_x(q: Quat, v: Vec3) -> int {
    fpm(rot_tw(q, v), -q.v.x as int) + fpm(rot_tx(q, v), q.w as int) + fpm(
        rot_ty(q, v),
        -q.v.z as int,
    ) - fpm(rot_tz(q, v), -q.v.y as int)
}

pub open spec fn rot_y(q: Quat, v: Vec3) -> int {
    fpm(rot_tw(q, v), -q.v.y as int) + fpm(rot_ty(q, v), q.w as int) + fpm(
        rot_tz(q, v),
        -q.v.x as int,
    ) - fpm(rot_tx(q, v), -q.v.z as int)
}

pub open spec fn rot_z(q: Quat, v: Vec3) -> int {
    fpm(rot_tw(q, v), -q.v.z as int) + fpm(rot_tz(q, v), q.w as int) + fpm(
        rot_tx(q, v),
        -q.v.y as int,
    ) - fpm(rot_ty(q, v), -q.v.x as int)
}

/// Magnitude cap for vectors rotated by `fp_rotate`.
pub const FP_ROT_CAP: i64 = 268435456;

/// Rotates `v` by the unit quaternion `q` via conjugation:
/// `q * (0, v) * conj(q)`, keeping the vector part.
pub fn fp_rotate(v: &Vec3, q: &Quat) -> (r: Vec3)
    requires
        q_mag_le(*q, 131072),
        v3_mag_le(*v, FP_ROT_CAP as int),
    ensures
        r.x == rot_x(*q, *v),
        r.y == rot_y(*q, *v),
        r.z == rot_z(*q, *v),
        v3_mag_le(r, 281474976710656),
{
    let p = Quat::new(0, v.x, v.y, v.z);
    let t = fp_quat_cross(q, &p);
    proof {
        lemma_fpm_bound(q.w as int, 0, 131072, 0, 70368744177664);
        lemma_fpm_bound(q.v.x as int, 0, 131072, 0, 70368744177664);
        lemma_fpm_bound(q.v.y as int, 0, 131072, 0, 70368744177664);
        lemma_fpm_bound(q.v.z as int, 0, 131072, 0, 70368744177664);
        lemma_fpm_bound(q.w as int, v.x as int, 131072, FP_ROT_CAP as int, 549755813888);
        lemma_fpm_bound(q.w as int, v.y as int, 131072, FP_ROT_CAP as int, 549755813888);
        lemma_fpm_bound(q.w as int, v.z as int, 131072, FP_ROT_CAP as int, 549755813888);
        lemma_fpm_bound(q.v.x as int, v.x as int, 131072, FP_ROT_CAP as int, 549755813888);
        lemma_fpm_bound(q.v.x as int, v.y as int, 131072, FP_ROT_CAP as int, 549755813888);
        lemma_fpm_bound(q.v.x as int, v.z as int, 131072, FP_ROT_CAP as int, 549755813888);
        lemma_fpm_bound(q.v.y as int, v.x as int, 131072, FP_ROT_CAP as int, 549755813888);
        lemma_fpm_bound(q.v.y as int, v.y as int, 131072, FP_ROT_CAP as int, 549755813888);
        lemma_fpm_bound(q.v.y as int, v.z as int, 131072, FP_ROT_CAP as int, 549755813888);
        lemma_fpm_bound(q.v.z as int, v.x as int, 131072, FP_ROT_CAP as int, 549755813888);
        lemma_fpm_bound(q.v.z as int, v.y as int, 131072, FP_ROT_CAP as int, 549755813888);
        lemma_fpm_bound(q.v.z as int, v.z as int, 131072, FP_ROT_CAP as int, 549755813888);
        assert(q_mag_le(t, FP_VEC_CAP as int));
    }
    let c = Quat::new(q.w, -q.v.x, -q.v.y, -q.v.z);
    let res = fp_quat_cross(&t, &c);
    Vec3::new(res.v.x, res.v.y, res.v.z)
}

impl Vec3 {
    /// Rotates the vector about the world's y axis in place and returns the
    /// result; the caller passes the cosine and sine of the rotation angle
    /// in Q16.16.
    pub fn rotate_yaw_matrix_world(&mut self, cos_a: i64, sin_a: i64) -> (r: Vec3)
        requires
            -65536 <= cos_a <= 65536,
            -65536 <= sin_a <= 65536,
            v3_mag_le(*old(self), FP_VEC_CAP as int),
        ensures
            final(self).x == fpm(cos_a as int, old(self).x as int) + fpm(
                sin_a as int,
                old(self).z as int,
            ),
            final(self).y == old(self).y,
            final(self).z == fpm(-sin_a as int, old(self).x as int) + fpm(
                cos_a as int,
                old(self).z as int,
            ),
            r == *final(self),
    {
        proof {
            lemma_fpm_bound(cos_a as int, self.x as int, 65536, FP_VEC_CAP as int, FP_VEC_CAP as int);
            lemma_fpm_bound(sin_a as int, self.z as int, 65536, FP_VEC_CAP as int, FP_VEC_CAP as int);
            lemma_fpm_bound(-sin_a as int, self.x as int, 65536, FP_VEC_CAP as int, FP_VEC_CAP as int);
            lemma_fpm_bound(cos_a as int, self.z as int, 65536, FP_VEC_CAP as int, FP_VEC_CAP as int);
        }
        let x = fp_mul(cos_a, self.x) + fp_mul(sin_a, self.z);
        let z = fp_mul(-sin_a, self.x) + fp_mul(cos_a, self.z);
        self.x = x;
        self.z = z;
        *self
    }

    /// Rotates the vector about the world's x axis in place and returns the
    /// result; the caller passes the cosine and sine of the rotation angle
    /// in Q16.16.
    pub fn rotate_pitch_matrix_world(&mut self, cos_a: i64, sin_a: i64) -> (r: Vec3)
        requires
            -65536 <= cos_a <= 65536,
            -65536 <= sin_a <= 65536,
            v3_mag_le(*old(self), FP_VEC_CAP as int),
        ensures
            final(self).x == old(self).x,
            final(self).y == fpm(cos_a as int, old(self).y as int) - fpm(
                sin_a as int,
                old(self).z as int,
            ),
            final(self).z == fpm(sin_a as int, old(self).y as int) + fpm(
                cos_a as int,
                old(self).z as int,
            ),
            r == *final(self),
    {
        proof {
            lemma_fpm_bound(cos_a as int, self.y as int, 65536, FP_VEC_CAP as int, FP_VEC_CAP as int);
            lemma_fpm_bound(sin_a as int, self.z as int, 65536, FP_VEC_CAP as int, FP_VEC_CAP as int);
            lemma_fpm_bound(sin_a as int, self.y as int, 65536, FP_VEC_CAP as int, FP_VEC_CAP as int);
            lemma_fpm_bound(cos_a as int, self.z as int, 65536, FP_VEC_CAP as int, FP_VEC_CAP as int);
        }
        let y = fp_mul(cos_a, self.y) - fp_mul(sin_a, self.z);
        let z = fp_mul(sin_a, self.y) + fp_mul(cos_a, self.z);
        self.y = y;
        self.z = z;
        *self
    }

    /// Rotates the vector about the world's z axis in place and returns the
    /// result; the caller passes the cosine and sine of the rotation angle
    /// in Q16.16.
    pub fn rotate_roll_matrix_world(&mut self, cos_a: i64, sin_a: i64) -> (r: Vec3)
        requires
            -65536 <= cos_a <= 65536,
            -65536 <= sin_a <= 65536,
            v3_mag_le(*old(self), FP_VEC_CAP as int),
        ensures
            final(self).x == fpm(cos_a as int, old(self).x as int) - fpm(
                sin_a as int,
                old(self).y as int,
            ),
            final(self).y == fpm(sin_a as int, old(self).x as int) + fpm(
                cos_a as int,
                old(self).y as int,
            ),
            final(self).z == old(self).z,
            r == *final(self),
    {
        proof {
            lemma_fpm_bound(cos_a as int, self.x as int, 65536, FP_VEC_CAP as int, FP_VEC_CAP as int);
            lemma_fpm_bound(sin_a as int, self.y as int, 65536, FP_VEC_CAP as int, FP_VEC_CAP as int);
            lemma_fpm_bound(sin_a as int, self.x as int, 65536, FP_VEC_CAP as int, FP_VEC_CAP as int);
            lemma_fpm_bound(cos_a as int, self.y as int, 65536, FP_VEC_CAP as int, FP_VEC_CAP as int);
        }
        let x = fp_mul(cos_a, self.x) - fp_mul(sin_a, self.y);
        let y = fp_mul(sin_a, self.x) + fp_mul(cos_a, self.y);
        self.x = x;
        self.y = y;
        *self
    }

    /// Rotates the vector by a unit quaternion in place and returns the
    /// result, through `q * (0, v) * conj(q)`.
    pub fn rotate(&mut self, rotation_quaternion: &Quat) -> (r: Vec3)
        requires
            q_mag_le(*rotation_quaternion, 131072),
            v3_mag_le(*old(self), FP_ROT_CAP as int),
        ensures
            final(self).x == rot_x(*rotation_quaternion, *old(self)),
            final(self).y == rot_y(*rotation_quaternion, *old(self)),
            final(self).z == rot_z(*rotation_quaternion, *old(self)),
            r == *final(self),
    {
        let v = *self;
        let rotated = fp_rotate(&v, rotation_quaternion);
        self.x = rotated.x;
        self.y = rotated.y;
        self.z = rotated.z;
        *self
    }
}

/// Signed form of `lemma_unit_component_bound`.
pub proof fn lemma_norm_component(x: int, dd: int, len: int)
    requires
        dd >= fpm(x, x),
        len == isqrt(dd * 65536),
        len >= 1,
    ensures
        -131072 <= tdiv(x * 65536, len) <= 131072,
{
    if x >= 0 {
        lemma_unit_component_bound(x, dd, len);
    } else {
        assert(fpm(-x, -x) == fpm(x, x)) by (nonlinear_arith);
        lemma_unit_component_bound(-x, dd, len);
        lemma_tdiv_neg(-x * 65536, len);
        assert(x * 65536 == -(-x * 65536));
    }
}

} // verus!
