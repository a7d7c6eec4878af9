//! Shared integer helpers: range predicates, the truncating division used by
//! Rust's `/` on signed integers, and bounded multiplication helpers that the
//! matrix routines use to rule out overflow.

use vstd::prelude::*;

verus! {

/// Holds when `v` is representable as an `i64`.
pub open spec fn in_i64(v: int) -> bool {
    i64::MIN <= v <= i64::MAX
}

/// Division truncating toward zero, the meaning of `/` on Rust's signed
/// integers (spec-level `/` alone is Euclidean). Written over magnitudes so
/// that every `/` below divides a nonnegative value by a positive one.
pub open spec fn tdiv(a: int, b: int) -> int {
    if a == 0 {
        0
    } else if a > 0 && b > 0 {
        a / b
    } else if a < 0 && b < 0 {
        (a * -1) / (b * -1)
    } else if a < 0 {
        ((a * -1) / b) * -1
    } else {
        (a / (b * -1)) * -1
    }
}

/// Floor division: rounds toward negative infinity. Agrees with spec-level
/// `/` whenever the divisor is positive.
pub open spec fn fdiv(a: int, b: int) -> int {
    a / b
}

/// Ceiling division by a positive divisor.
pub open spec fn cdiv(a: int, b: int) -> int {
    if a % b == 0 {
        a / b
    } else {
        a / b + 1
    }
}

/// Entry bound under which the 3x3 and 4x4 matrix products cannot overflow:
/// products of two bounded entries stay below `i64::MAX / 4`.
pub const MAT_ENTRY_BOUND: i64 = 1_000_000_000;

/// Entry bound under which the 4x4 cofactor expansion (triple products summed
/// six at a time, then multiplied once more for the determinant) fits in `i64`.
pub const INV_ENTRY_BOUND: i64 = 16_384;

/// Truncating `i64` division, `r == tdiv(a, b)`.
pub fn div_i64(a: i64, b: i64) -> (r: i64)
    requires
        b != 0,
        !(a == i64::MIN && b == -1),
    ensures
        r == tdiv(a as int, b as int),
{
    proof {
        lemma_tdiv_in_range(a as int, b as int, i64::MIN as int, i64::MAX as int);
    }
    match a.checked_div(b) {
        Some(q) => q,
        None => 0,
    }
}

/// Truncating `i128` division, `r == tdiv(a, b)`.
pub fn div_i128(a: i128, b: i128) -> (r: i128)
    requires
        b != 0,
        !(a == i128::MIN && b == -1),
    ensures
        r == tdiv(a as int, b as int),
{
    proof {
        lemma_tdiv_in_range(a as int, b as int, i128::MIN as int, i128::MAX as int);
    }
    match a.checked_div(b) {
        Some(q) => q,
        None => 0,
    }
}

/// For `lo == -(hi + 1)` (a two's-complement range), a truncating quotient of
/// values in the range stays in the range, except for `lo / -1`.
proof fn lemma_tdiv_in_range(a: int, b: int, lo: int, hi: int)
    requires
        lo < 0 < hi,
        lo == -(hi + 1),
        lo <= a <= hi,
        lo <= b <= hi,
        b != 0,
        !(a == lo && b == -1),
    ensures
        lo <= tdiv(a, b) <= hi,
{
    if a > 0 && b > 0 {
        vstd::arithmetic::div_mod::lemma_div_pos_is_pos(a, b);
        vstd::arithmetic::div_mod::lemma_div_nonincreasing(a, b);
    } else if a < 0 && b < 0 {
        vstd::arithmetic::div_mod::lemma_div_pos_is_pos(a * -1, b * -1);
        vstd::arithmetic::div_mod::lemma_div_nonincreasing(a * -1, b * -1);
        if a == lo {
            vstd::arithmetic::div_mod::lemma_div_is_ordered_by_denominator(a * -1, 2, b * -1);
            vstd::arithmetic::div_mod::lemma_div_decreases(a * -1, 2);
        }
    } else if a < 0 {
        vstd::arithmetic::div_mod::lemma_div_pos_is_pos(a * -1, b);
        vstd::arithmetic::div_mod::lemma_div_nonincreasing(a * -1, b);
    } else if a > 0 {
        vstd::arithmetic::div_mod::lemma_div_pos_is_pos(a, b * -1);
        vstd::arithmetic::div_mod::lemma_div_nonincreasing(a, b * -1);
    }
}

/// Product of two entries bounded by `MAT_ENTRY_BOUND`.
pub(crate) fn mul_bounded(a: i64, b: i64) -> (r: i64)
    requires
        -MAT_ENTRY_BOUND <= a <= MAT_ENTRY_BOUND,
        -MAT_ENTRY_BOUND <= b <= MAT_ENTRY_BOUND,
    ensures
        r == a * b,
        -1_000_000_000_000_000_000 <= r <= 1_000_000_000_000_000_000,
{
    proof {
        assert(in_i64(a * b) && -1_000_000_000_000_000_000 <= a * b
            <= 1_000_000_000_000_000_000) by (nonlinear_arith)
            requires
                -MAT_ENTRY_BOUND <= a <= MAT_ENTRY_BOUND,
                -MAT_ENTRY_BOUND <= b <= MAT_ENTRY_BOUND,
        ;
    }
    a * b
}

/// Product of three entries bounded by `INV_ENTRY_BOUND`.
pub(crate) fn mul3_bounded(a: i64, b: i64, c: i64) -> (r: i64)
    requires
        -INV_ENTRY_BOUND <= a <= INV_ENTRY_BOUND,
        -INV_ENTRY_BOUND <= b <= INV_ENTRY_BOUND,
        -INV_ENTRY_BOUND <= c <= INV_ENTRY_BOUND,
    ensures
        r == a * b * c,
        -4_398_046_511_104 <= r <= 4_398_046_511_104,
{
    proof {
        assert(in_i64(a * b) && -268_435_456 <= a * b <= 268_435_456)
            by (nonlinear_arith)
            requires
                -INV_ENTRY_BOUND <= a <= INV_ENTRY_BOUND,
                -INV_ENTRY_BOUND <= b <= INV_ENTRY_BOUND,
        ;
        assert(in_i64(a * b * c) && -4_398_046_511_104 <= (a * b) * c
            <= 4_398_046_511_104) by (nonlinear_arith)
            requires
                -268_435_456 <= a * b <= 268_435_456,
                -INV_ENTRY_BOUND <= c <= INV_ENTRY_BOUND,
        ;
    }
    a * b * c
}

} // verus!
