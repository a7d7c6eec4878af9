//! 4x4 integer matrices in row-major order: products with matrices, vectors
//! and quaternions, and an adjugate-based inverse under truncating integer
//! division.

use vstd::prelude::*;

use crate::arith::{mul_bounded, mul3_bounded, tdiv, MAT_ENTRY_BOUND, INV_ENTRY_BOUND};
use crate::quat::Quat;
use crate::vec4::Vec4;

verus! {

#[derive(Clone, Copy, Debug, PartialEq, Eq)]
pub struct Mat4 {
    pub data: [i64; 16],
}

/// All sixteen entries lie within `MAT_ENTRY_BOUND`, which rules out overflow
/// in the products below.
pub open spec fn m4_bounded(m: Mat4) -> bool {
    forall|i: int|
        0 <= i < 16 ==> -MAT_ENTRY_BOUND <= #[trigger] m.data@[i] <= MAT_ENTRY_BOUND
}

/// All four components lie within `MAT_ENTRY_BOUND`.
pub open spec fn v4_bounded(v: Vec4) -> bool {
    &&& -MAT_ENTRY_BOUND <= v.w <= MAT_ENTRY_BOUND
    &&& -MAT_ENTRY_BOUND <= v.x <= MAT_ENTRY_BOUND
    &&& -MAT_ENTRY_BOUND <= v.y <= MAT_ENTRY_BOUND
    &&& -MAT_ENTRY_BOUND <= v.z <= MAT_ENTRY_BOUND
}

/// All four components lie within `MAT_ENTRY_BOUND`.
pub open spec fn q_bounded(q: Quat) -> bool {
    &&& -MAT_ENTRY_BOUND <= q.w <= MAT_ENTRY_BOUND
    &&& -MAT_ENTRY_BOUND <= q.v.x <= MAT_ENTRY_BOUND
    &&& -MAT_ENTRY_BOUND <= q.v.y <= MAT_ENTRY_BOUND
    &&& -MAT_ENTRY_BOUND <= q.v.z <= MAT_ENTRY_BOUND
}

/// All sixteen entries lie within `INV_ENTRY_BOUND`, which rules out overflow
/// in the cofactor expansion of `inverse`.
pub open spec fn m4_inv_bounded(m: Mat4) -> bool {
    forall|i: int|
        0 <= i < 16 ==> -INV_ENTRY_BOUND <= #[trigger] m.data@[i] <= INV_ENTRY_BOUND
}

/// Row `y`, column `x` of the product `a * b`, over unbounded integers.
pub open spec fn m4_prod_entry(a: Mat4, b: Mat4, y: int, x: int) -> int {
    a.data@[y * 4] * b.data@[x] + a.data@[y * 4 + 1] * b.data@[4 + x] + a.data@[y * 4 + 2]
        * b.data@[8 + x] + a.data@[y * 4 + 3] * b.data@[12 + x]
}

/// Row `y` of `a` dotted with the column vector `(w, x, y, z)`.
pub open spec fn m4_row_dot(a: Mat4, y: int, w: int, x: int, yy: int, z: int) -> int {
    a.data@[y * 4] * w + a.data@[y * 4 + 1] * x + a.data@[y * 4 + 2] * yy + a.data@[y * 4 + 3]
        * z
}

/// Entry `k` of the adjugate (transposed cofactor) matrix of `d`, following
/// the usual expansion of each 3x3 minor into six triple products.
pub open spec fn m4_adj(d: Seq<i64>, k: int) -> int {
    if k == 0 {
        d[5] * d[10] * d[15] - d[5] * d[11] * d[14] - d[9] * d[6] * d[15] + d[9] * d[7] * d[14]
            + d[13] * d[6] * d[11] - d[13] * d[7] * d[10]
    } else if k == 4 {
        -(d[4] * d[10] * d[15]) + d[4] * d[11] * d[14] + d[8] * d[6] * d[15] - d[8] * d[7]
            * d[14] - d[12] * d[6] * d[11] + d[12] * d[7] * d[10]
    } else if k == 8 {
        d[4] * d[9] * d[15] - d[4] * d[11] * d[13] - d[8] * d[5] * d[15] + d[8] * d[7] * d[13]
            + d[12] * d[5] * d[11] - d[12] * d[7] * d[9]
    } else if k == 12 {
        -(d[4] * d[9] * d[14]) + d[4] * d[10] * d[13] + d[8] * d[5] * d[14] - d[8] * d[6]
            * d[13] - d[12] * d[5] * d[10] + d[12] * d[6] * d[9]
    } else if k == 1 {
        -(d[1] * d[10] * d[15]) + d[1] * d[11] * d[14] + d[9] * d[2] * d[15] - d[9] * d[3]
            * d[14] - d[13] * d[2] * d[11] + d[13] * d[3] * d[10]
    } else if k == 5 {
        d[0] * d[10] * d[15] - d[0] * d[11] * d[14] - d[8] * d[2] * d[15] + d[8] * d[3] * d[14]
            + d[12] * d[2] * d[11] - d[12] * d[3] * d[10]
    } else if k == 9 {
        -(d[0] * d[9] * d[15]) + d[0] * d[11] * d[13] + d[8] * d[1] * d[15] - d[8] * d[3]
            * d[13] - d[12] * d[1] * d[11] + d[12] * d[3] * d[9]
    } else if k == 13 {
        d[0] * d[9] * d[14] - d[0] * d[10] * d[13] - d[8] * d[1] * d[14] + d[8] * d[2] * d[13]
            + d[12] * d[1] * d[10] - d[12] * d[2] * d[9]
    } else if k == 2 {
        d[1] * d[6] * d[15] - d[1] * d[7] * d[14] - d[5] * d[2] * d[15] + d[5] * d[3] * d[14]
            + d[13] * d[2] * d[7] - d[13] * d[3] * d[6]
    } else if k == 6 {
        -(d[0] * d[6] * d[15]) + d[0] * d[7] * d[14] + d[4] * d[2] * d[15] - d[4] * d[3]
            * d[14] - d[12] * d[2] * d[7] + d[12] * d[3] * d[6]
    } else if k == 10 {
        d[0] * d[5] * d[15] - d[0] * d[7] * d[13] - d[4] * d[1] * d[15] + d[4] * d[3] * d[13]
            + d[12] * d[1] * d[7] - d[12] * d[3] * d[5]
    } else if k == 14 {
        -(d[0] * d[5] * d[14]) + d[0] * d[6] * d[13] + d[4] * d[1] * d[14] - d[4] * d[2]
            * d[13] - d[12] * d[1] * d[6] + d[12] * d[2] * d[5]
    } else if k == 3 {
        -(d[1] * d[6] * d[11]) + d[1] * d[7] * d[10] + d[5] * d[2] * d[11] - d[5] * d[3]
            * d[10] - d[9] * d[2] * d[7] + d[9] * d[3] * d[6]
    } else if k == 7 {
        d[0] * d[6] * d[11] - d[0] * d[7] * d[10] - d[4] * d[2] * d[11] + d[4] * d[3] * d[10]
            + d[8] * d[2] * d[7] - d[8] * d[3] * d[6]
    } else if k == 11 {
        -(d[0] * d[5] * d[11]) + d[0] * d[7] * d[9] + d[4] * d[1] * d[11] - d[4] * d[3] * d[9]
            - d[8] * d[1] * d[7] + d[8] * d[3] * d[5]
    } else {
        d[0] * d[5] * d[10] - d[0] * d[6] * d[9] - d[4] * d[1] * d[10] + d[4] * d[2] * d[9]
            + d[8] * d[1] * d[6] - d[8] * d[2] * d[5]
    }
}

/// Determinant of `d`, by cofactor expansion along the first row.
pub open spec fn m4_det(d: Seq<i64>) -> int {
    d[0] * m4_adj(d, 0) + d[1] * m4_adj(d, 4) + d[2] * m4_adj(d, 8) + d[3] * m4_adj(d, 12)
}

/// Product of an entry bounded by `INV_ENTRY_BOUND` with an adjugate entry.
fn mul_adj(x: i64, y: i64) -> (r: i64)
    requires
        -INV_ENTRY_BOUND <= x <= INV_ENTRY_BOUND,
        -26_388_279_066_624 <= y <= 26_388_279_066_624,
    ensures
        r == x * y,
        -432_345_564_227_567_616 <= r <= 432_345_564_227_567_616,
{
    proof {
        assert(crate::arith::in_i64(x * y) && -432_345_564_227_567_616 <= x * y
            <= 432_345_564_227_567_616) by (nonlinear_arith)
            requires
                -INV_ENTRY_BOUND <= x <= INV_ENTRY_BOUND,
                -26_388_279_066_624 <= y <= 26_388_279_066_624,
        ;
    }
    x * y
}

impl Mat4 {
    pub fn new(data: [i64; 16]) -> (r: Self)
        ensures
            r.data == data,
    {
        Self { data }
    }

    pub fn get(&self, y: usize, x: usize) -> (r: i64)
        requires
            y < 4,
            x < 4,
        ensures
            r == self.data@[y * 4 + x],
    {
        self.data[y * 4 + x]
    }

    /// Matrix product `self * other` in row-major order.
    pub fn mat_mul(&self, other: &Self) -> (r: Self)
        requires
            m4_bounded(*self),
            m4_bounded(*other),
        ensures
            r.data@[0] == m4_prod_entry(*self, *other, 0, 0),
            r.data@[1] == m4_prod_entry(*self, *other, 0, 1),
            r.data@[2] == m4_prod_entry(*self, *other, 0, 2),
            r.data@[3] == m4_prod_entry(*self, *other, 0, 3),
            r.data@[4] == m4_prod_entry(*self, *other, 1, 0),
            r.data@[5] == m4_prod_entry(*self, *other, 1, 1),
            r.data@[6] == m4_prod_entry(*self, *other, 1, 2),
            r.data@[7] == m4_prod_entry(*self, *other, 1, 3),
            r.data@[8] == m4_prod_entry(*self, *other, 2, 0),
            r.data@[9] == m4_prod_entry(*self, *other, 2, 1),
            r.data@[10] == m4_prod_entry(*self, *other, 2, 2),
            r.data@[11] == m4_prod_entry(*self, *other, 2, 3),
            r.data@[12] == m4_prod_entry(*self, *other, 3, 0),
            r.data@[13] == m4_prod_entry(*self, *other, 3, 1),
            r.data@[14] == m4_prod_entry(*self, *other, 3, 2),
            r.data@[15] == m4_prod_entry(*self, *other, 3, 3),
    {
        let mut out: [i64; 16] = [0; 16];
        let mut row: usize = 0;
        while row < 4
            invariant
                row <= 4,
                m4_bounded(*self),
                m4_bounded(*other),
                forall|y: int, x: int|
                    0 <= y < row && 0 <= x < 4 ==> out@[y * 4 + x] == #[trigger] m4_prod_entry(
                        *self,
                        *other,
                        y,
                        x,
                    ),
            decreases 4 - row,
        {
            let mut col: usize = 0;
            while col < 4
                invariant
                    row < 4,
                    col <= 4,
                    m4_bounded(*self),
                    m4_bounded(*other),
                    forall|y: int, x: int|
                        0 <= y < row && 0 <= x < 4 ==> out@[y * 4 + x]
                            == #[trigger] m4_prod_entry(*self, *other, y, x),
                    forall|x: int|
                        0 <= x < col ==> out@[row * 4 + x] == #[trigger] m4_prod_entry(
                            *self,
                            *other,
                            row as int,
                            x,
                        ),
                decreases 4 - col,
            {
                let e = mul_bounded(self.get(row, 0), other.get(0, col)) + mul_bounded(
                    self.get(row, 1),
                    other.get(1, col),
                ) + mul_bounded(self.get(row, 2), other.get(2, col)) + mul_bounded(
                    self.get(row, 3),
                    other.get(3, col),
                );
                out[row * 4 + col] = e;
                col = col + 1;
            }
            row = row + 1;
        }
        Self { data: out }
    }

    /// Matrix-vector product `self * other`.
    pub fn vec_mul(&self, other: &Vec4) -> (r: Vec4)
        requires
            m4_bounded(*self),
            v4_bounded(*other),
        ensures
            r.w == m4_row_dot(*self, 0, other.w as int, other.x as int, other.y as int, other.z as int),
            r.x == m4_row_dot(*self, 1, other.w as int, other.x as int, other.y as int, other.z as int),
            r.y == m4_row_dot(*self, 2, other.w as int, other.x as int, other.y as int, other.z as int),
            r.z == m4_row_dot(*self, 3, other.w as int, other.x as int, other.y as int, other.z as int),
    {
        Vec4::new(
            mul_bounded(self.get(0, 0), other.w) + mul_bounded(self.get(0, 1), other.x)
                + mul_bounded(self.get(0, 2), other.y) + mul_bounded(self.get(0, 3), other.z),
            mul_bounded(self.get(1, 0), other.w) + mul_bounded(self.get(1, 1), other.x)
                + mul_bounded(self.get(1, 2), other.y) + mul_bounded(self.get(1, 3), other.z),
            mul_bounded(self.get(2, 0), other.w) + mul_bounded(self.get(2, 1), other.x)
                + mul_bounded(self.get(2, 2), other.y) + mul_bounded(self.get(2, 3), other.z),
            mul_bounded(self.get(3, 0), other.w) + mul_bounded(self.get(3, 1), other.x)
                + mul_bounded(self.get(3, 2), other.y) + mul_bounded(self.get(3, 3), other.z),
        )
    }

    /// Matrix-quaternion product: the quaternion is read as the column vector
    /// `(w, x, y, z)`.
    pub fn quat_mul(&self, other: &Quat) -> (r: Quat)
        requires
            m4_bounded(*self),
            q_bounded(*other),
        ensures
            r.w == m4_row_dot(*self, 0, other.w as int, other.v.x as int, other.v.y as int, other.v.z as int),
            r.v.x == m4_row_dot(*self, 1, other.w as int, other.v.x as int, other.v.y as int, other.v.z as int),
            r.v.y == m4_row_dot(*self, 2, other.w as int, other.v.x as int, other.v.y as int, other.v.z as int),
            r.v.z == m4_row_dot(*self, 3, other.w as int, other.v.x as int, other.v.y as int, other.v.z as int),
    {
        Quat::new(
            mul_bounded(self.get(0, 0), other.w) + mul_bounded(self.get(0, 1), other.v.x)
                + mul_bounded(self.get(0, 2), other.v.y) + mul_bounded(self.get(0, 3), other.v.z),
            mul_bounded(self.get(1, 0), other.w) + mul_bounded(self.get(1, 1), other.v.x)
                + mul_bounded(self.get(1, 2), other.v.y) + mul_bounded(self.get(1, 3), other.v.z),
            mul_bounded(self.get(2, 0), other.w) + mul_bounded(self.get(2, 1), other.v.x)
                + mul_bounded(self.get(2, 2), other.v.y) + mul_bounded(self.get(2, 3), other.v.z),
            mul_bounded(self.get(3, 0), other.w) + mul_bounded(self.get(3, 1), other.v.x)
                + mul_bounded(self.get(3, 2), other.v.y) + mul_bounded(self.get(3, 3), other.v.z),
        )
    }

    /// Inverse by the adjugate: each entry of the result is the matching
    /// adjugate entry divided by the determinant, truncating toward zero.
    /// Returns `None` exactly when the determinant is zero. Like the rest of
    /// this matrix layer the arithmetic is plain integer arithmetic, so for
    /// a determinant of magnitude above one the quotients shrink toward
    /// zero and the product with the original is not the identity; callers
    /// needing a fractional inverse should scale the adjugate themselves
    /// against `m4_adj` and `m4_det`, which this contract exposes exactly.
    #[verifier::rlimit(100)]
    pub fn inverse(&self) -> (r: Option<Mat4>)
        requires
            m4_inv_bounded(*self),
        ensures
            r is None <==> m4_det(self.data@) == 0,
            r matches Some(m) ==> {
                &&& m.data@[0] == tdiv(m4_adj(self.data@, 0), m4_det(self.data@))
                &&& m.data@[1] == tdiv(m4_adj(self.data@, 1), m4_det(self.data@))
                &&& m.data@[2] == tdiv(m4_adj(self.data@, 2), m4_det(self.data@))
                &&& m.data@[3] == tdiv(m4_adj(self.data@, 3), m4_det(self.data@))
                &&& m.data@[4] == tdiv(m4_adj(self.data@, 4), m4_det(self.data@))
                &&& m.data@[5] == tdiv(m4_adj(self.data@, 5), m4_det(self.data@))
                &&& m.data@[6] == tdiv(m4_adj(self.data@, 6), m4_det(self.data@))
                &&& m.data@[7] == tdiv(m4_adj(self.data@, 7), m4_det(self.data@))
                &&& m.data@[8] == tdiv(m4_adj(self.data@, 8), m4_det(self.data@))
                &&& m.data@[9] == tdiv(m4_adj(self.data@, 9), m4_det(self.data@))
                &&& m.data@[10] == tdiv(m4_adj(self.data@, 10), m4_det(self.data@))
                &&& m.data@[11] == tdiv(m4_adj(self.data@, 11), m4_det(self.data@))
                &&& m.data@[12] == tdiv(m4_adj(self.data@, 12), m4_det(self.data@))
                &&& m.data@[13] == tdiv(m4_adj(self.data@, 13), m4_det(self.data@))
                &&& m.data@[14] == tdiv(m4_adj(self.data@, 14), m4_det(self.data@))
                &&& m.data@[15] == tdiv(m4_adj(self.data@, 15), m4_det(self.data@))
            },
    {
        let d = &self.data;
        let a0 = mul3_bounded(d[5], d[10], d[15]) - mul3_bounded(d[5], d[11], d[14])
            - mul3_bounded(d[9], d[6], d[15]) + mul3_bounded(d[9], d[7], d[14])
            + mul3_bounded(d[13], d[6], d[11]) - mul3_bounded(d[13], d[7], d[10]);
        let a4 = -mul3_bounded(d[4], d[10], d[15]) + mul3_bounded(d[4], d[11], d[14])
            + mul3_bounded(d[8], d[6], d[15]) - mul3_bounded(d[8], d[7], d[14])
            - mul3_bounded(d[12], d[6], d[11]) + mul3_bounded(d[12], d[7], d[10]);
        let a8 = mul3_bounded(d[4], d[9], d[15]) - mul3_bounded(d[4], d[11], d[13])
            - mul3_bounded(d[8], d[5], d[15]) + mul3_bounded(d[8], d[7], d[13])
            + mul3_bounded(d[12], d[5], d[11]) - mul3_bounded(d[12], d[7], d[9]);
        let a12 = -mul3_bounded(d[4], d[9], d[14]) + mul3_bounded(d[4], d[10], d[13])
            + mul3_bounded(d[8], d[5], d[14]) - mul3_bounded(d[8], d[6], d[13])
            - mul3_bounded(d[12], d[5], d[10]) + mul3_bounded(d[12], d[6], d[9]);
        let a1 = -mul3_bounded(d[1], d[10], d[15]) + mul3_bounded(d[1], d[11], d[14])
            + mul3_bounded(d[9], d[2], d[15]) - mul3_bounded(d[9], d[3], d[14])
            - mul3_bounded(d[13], d[2], d[11]) + mul3_bounded(d[13], d[3], d[10]);
        let a5 = mul3_bounded(d[0], d[10], d[15]) - mul3_bounded(d[0], d[11], d[14])
            - mul3_bounded(d[8], d[2], d[15]) + mul3_bounded(d[8], d[3], d[14])
            + mul3_bounded(d[12], d[2], d[11]) - mul3_bounded(d[12], d[3], d[10]);
        let a9 = -mul3_bounded(d[0], d[9], d[15]) + mul3_bounded(d[0], d[11], d[13])
            + mul3_bounded(d[8], d[1], d[15]) - mul3_bounded(d[8], d[3], d[13])
            - mul3_bounded(d[12], d[1], d[11]) + mul3_bounded(d[12], d[3], d[9]);
        let a13 = mul3_bounded(d[0], d[9], d[14]) - mul3_bounded(d[0], d[10], d[13])
            - mul3_bounded(d[8], d[1], d[14]) + mul3_bounded(d[8], d[2], d[13])
            + mul3_bounded(d[12], d[1], d[10]) - mul3_bounded(d[12], d[2], d[9]);
        let a2 = mul3_bounded(d[1], d[6], d[15]) - mul3_bounded(d[1], d[7], d[14])
            - mul3_bounded(d[5], d[2], d[15]) + mul3_bounded(d[5], d[3], d[14])
            + mul3_bounded(d[13], d[2], d[7]) - mul3_bounded(d[13], d[3], d[6]);
        let a6 = -mul3_bounded(d[0], d[6], d[15]) + mul3_bounded(d[0], d[7], d[14])
            + mul3_bounded(d[4], d[2], d[15]) - mul3_bounded(d[4], d[3], d[14])
            - mul3_bounded(d[12], d[2], d[7]) + mul3_bounded(d[12], d[3], d[6]);
        let a10 = mul3_bounded(d[0], d[5], d[15]) - mul3_bounded(d[0], d[7], d[13])
            - mul3_bounded(d[4], d[1], d[15]) + mul3_bounded(d[4], d[3], d[13])
            + mul3_bounded(d[12], d[1], d[7]) - mul3_bounded(d[12], d[3], d[5]);
        let a14 = -mul3_bounded(d[0], d[5], d[14]) + mul3_bounded(d[0], d[6], d[13])
            + mul3_bounded(d[4], d[1], d[14]) - mul3_bounded(d[4], d[2], d[13])
            - mul3_bounded(d[12], d[1], d[6]) + mul3_bounded(d[12], d[2], d[5]);
        let a3 = -mul3_bounded(d[1], d[6], d[11]) + mul3_bounded(d[1], d[7], d[10])
            + mul3_bounded(d[5], d[2], d[11]) - mul3_bounded(d[5], d[3], d[10])
            - mul3_bounded(d[9], d[2], d[7]) + mul3_bounded(d[9], d[3], d[6]);
        let a7 = mul3_bounded(d[0], d[6], d[11]) - mul3_bounded(d[0], d[7], d[10])
            - mul3_bounded(d[4], d[2], d[11]) + mul3_bounded(d[4], d[3], d[10])
            + mul3_bounded(d[8], d[2], d[7]) - mul3_bounded(d[8], d[3], d[6]);
        let a11 = -mul3_bounded(d[0], d[5], d[11]) + mul3_bounded(d[0], d[7], d[9])
            + mul3_bounded(d[4], d[1], d[11]) - mul3_bounded(d[4], d[3], d[9])
            - mul3_bounded(d[8], d[1], d[7]) + mul3_bounded(d[8], d[3], d[5]);
        let a15 = mul3_bounded(d[0], d[5], d[10]) - mul3_bounded(d[0], d[6], d[9])
            - mul3_bounded(d[4], d[1], d[10]) + mul3_bounded(d[4], d[2], d[9])
            + mul3_bounded(d[8], d[1], d[6]) - mul3_bounded(d[8], d[2], d[5]);

        let det = mul_adj(d[0], a0) + mul_adj(d[1], a4) + mul_adj(d[2], a8) + mul_adj(
            d[3],
            a12,
        );

        if det == 0 {
            None
        } else {
            Some(
                Mat4::new(
                    [
                        crate::arith::div_i64(a0, det),
                        crate::arith::div_i64(a1, det),
                        crate::arith::div_i64(a2, det),
                        crate::arith::div_i64(a3, det),
                        crate::arith::div_i64(a4, det),
                        crate::arith::div_i64(a5, det),
                        crate::arith::div_i64(a6, det),
                        crate::arith::div_i64(a7, det),
                        crate::arith::div_i64(a8, det),
                        crate::arith::div_i64(a9, det),
                        crate::arith::div_i64(a10, det),
                        crate::arith::div_i64(a11, det),
                        crate::arith::div_i64(a12, det),
                        crate::arith::div_i64(a13, det),
                        crate::arith::div_i64(a14, det),
                        crate::arith::div_i64(a15, det),
                    ],
                ),
            )
        }
    }
}

/// The display grid of a matrix: every entry rendered in decimal, padded to
/// the digit count of the largest entry, four per row.
pub open spec fn m4_display(m: Mat4) -> Seq<char> {
    m4_rows(m, crate::mat3::dec_chars(crate::mat3::max_entry(m.data@, 16) as int).len() as int, 16)
}

/// The first `k / 4` rows of the display grid.
pub open spec fn m4_rows(m: Mat4, w: int, k: int) -> Seq<char>
    decreases k,
{
    if k < 4 {
        Seq::empty()
    } else {
        m4_rows(m, w, k - 4) + crate::mat3::pad_chars(
            crate::mat3::int_chars(m.data@[k - 4] as int),
            w,
        ) + seq![' '] + crate::mat3::pad_chars(crate::mat3::int_chars(m.data@[k - 3] as int), w)
            + seq![' '] + crate::mat3::pad_chars(
            crate::mat3::int_chars(m.data@[k - 2] as int),
            w,
        ) + seq![' '] + crate::mat3::pad_chars(crate::mat3::int_chars(m.data@[k - 1] as int), w)
            + seq!['\n']
    }
}

impl Mat4 {
    /// Renders the matrix as four rows of decimal entries, each padded to
    /// the width of the largest entry.
    pub fn to_display_string(&self) -> (r: String)
        ensures
            r@ == m4_display(*self),
    {
        let mut biggest: i64 = 0;
        let mut i: usize = 0;
        while i < 16
            invariant
                i <= 16,
                biggest == crate::mat3::max_entry(self.data@, i as int),
                biggest >= 0,
            decreases 16 - i,
        {
            if self.data[i] > biggest {
                biggest = self.data[i];
            }
            i = i + 1;
        }
        let bs = crate::mat3::decimal_string(biggest);
        let width = bs.as_str().unicode_len();
        let mut res = String::new();
        let mut k: usize = 0;
        while k < 16
            invariant
                k <= 16,
                k % 4 == 0,
                width == crate::mat3::dec_chars(
                    crate::mat3::max_entry(self.data@, 16) as int,
                ).len(),
                res@ == m4_rows(*self, width as int, k as int),
            decreases 16 - k,
        {
            let a = crate::mat3::padded_entry(self.data[k], width);
            let b = crate::mat3::padded_entry(self.data[k + 1], width);
            let c = crate::mat3::padded_entry(self.data[k + 2], width);
            let d = crate::mat3::padded_entry(self.data[k + 3], width);
            res.append(a.as_str());
            res.append(" ");
            res.append(b.as_str());
            res.append(" ");
            res.append(c.as_str());
            res.append(" ");
            res.append(d.as_str());
            res.append("\n");
            proof {
                reveal_strlit(" ");
                reveal_strlit("\n");
                assert(" "@ =~= seq![' ']);
                assert("\n"@ =~= seq!['\n']);
                assert(res@ =~= m4_rows(*self, width as int, k + 4));
            }
            k = k + 4;
        }
        res
    }
}

} // verus!
