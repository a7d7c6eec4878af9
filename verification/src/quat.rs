//! Quaternions over `i64` components: a scalar part `w` and a vector part
//! `v`. The Hamilton product is written `cross`, and `neg` is conjugation
//! (it negates the vector part only), following the conventions of the
//! renderer that rotates vectors by unit quaternions.

use vstd::prelude::*;

use crate::arith::{cdiv, fdiv, in_i64};
use crate::vec3::Vec3;

verus! {

#[derive(Clone, Copy, Debug, PartialEq, Eq, Structural)]
pub struct Quat {
    pub w: i64,
    pub v: Vec3,
}

impl Quat {
    /// Four-term dot product, over unbounded integers.
    pub open spec fn spec_dot(self, o: Quat) -> int {
        self.w * o.w + self.v.spec_dot(o.v)
    }

    /// Scalar part of the Hamilton product `self * o`.
    pub open spec fn spec_cross_w(self, o: Quat) -> int {
        self.w * o.w - self.v.x * o.v.x - self.v.y * o.v.y - self.v.z * o.v.z
    }

    /// i-component of the Hamilton product `self * o`.
    pub open spec fn spec_cross_x(self, o: Quat) -> int {
        self.w * o.v.x + self.v.x * o.w + self.v.y * o.v.z - self.v.z * o.v.y
    }

    /// j-component of the Hamilton product `self * o`.
    pub open spec fn spec_cross_y(self, o: Quat) -> int {
        self.w * o.v.y + self.v.y * o.w + self.v.z * o.v.x - self.v.x * o.v.z
    }

    /// k-component of the Hamilton product `self * o`.
    pub open spec fn spec_cross_z(self, o: Quat) -> int {
        self.w * o.v.z + self.v.z * o.w + self.v.x * o.v.y - self.v.y * o.v.x
    }

    /// Every intermediate value of the dot-product computation fits in `i64`.
    pub open spec fn dot_fits(self, o: Quat) -> bool {
        &&& in_i64(self.w * o.w)
        &&& self.v.dot_fits(o.v)
        &&& in_i64(self.spec_dot(o))
    }

    /// Every intermediate value of the Hamilton product fits in `i64`.
    pub open spec fn cross_fits(self, o: Quat) -> bool {
        &&& in_i64(self.w * o.w)
        &&& in_i64(self.v.x * o.v.x)
        &&& in_i64(self.v.y * o.v.y)
        &&& in_i64(self.v.z * o.v.z)
        &&& in_i64(self.w * o.w - self.v.x * o.v.x)
        &&& in_i64(self.w * o.w - self.v.x * o.v.x - self.v.y * o.v.y)
        &&& in_i64(self.spec_cross_w(o))
        &&& in_i64(self.w * o.v.x)
        &&& in_i64(self.v.x * o.w)
        &&& in_i64(self.v.y * o.v.z)
        &&& in_i64(self.v.z * o.v.y)
        &&& in_i64(self.w * o.v.x + self.v.x * o.w)
        &&& in_i64(self.w * o.v.x + self.v.x * o.w + self.v.y * o.v.z)
        &&& in_i64(self.spec_cross_x(o))
        &&& in_i64(self.w * o.v.y)
        &&& in_i64(self.v.y * o.w)
        &&& in_i64(self.v.z * o.v.x)
        &&& in_i64(self.v.x * o.v.z)
        &&& in_i64(self.w * o.v.y + self.v.y * o.w)
        &&& in_i64(self.w * o.v.y + self.v.y * o.w + self.v.z * o.v.x)
        &&& in_i64(self.spec_cross_y(o))
        &&& in_i64(self.w * o.v.z)
        &&& in_i64(self.v.z * o.w)
        &&& in_i64(self.v.x * o.v.y)
        &&& in_i64(self.v.y * o.v.x)
        &&& in_i64(self.w * o.v.z + self.v.z * o.w)
        &&& in_i64(self.w * o.v.z + self.v.z * o.w + self.v.x * o.v.y)
        &&& in_i64(self.spec_cross_z(o))
    }

    pub fn new(w: i64, x: i64, y: i64, z: i64) -> (r: Self)
        ensures
            r == (Quat { w, v: Vec3 { x, y, z } }),
    {
        Self { w, v: Vec3::new(x, y, z) }
    }

    pub fn dot(&self, rhs: &Self) -> (r: i64)
        requires
            self.dot_fits(*rhs),
        ensures
            r == self.spec_dot(*rhs),
    {
        self.w * rhs.w + self.v.dot(&rhs.v)
    }

    /// Hamilton product of two quaternions.
    pub fn cross(&self, rhs: &Self) -> (r: Self)
        requires
            self.cross_fits(*rhs),
        ensures
            r.w == self.spec_cross_w(*rhs),
            r.v.x == self.spec_cross_x(*rhs),
            r.v.y == self.spec_cross_y(*rhs),
            r.v.z == self.spec_cross_z(*rhs),
    {
        Quat::new(
            self.w * rhs.w - self.v.x * rhs.v.x - self.v.y * rhs.v.y - self.v.z * rhs.v.z,
            self.w * rhs.v.x + self.v.x * rhs.w + self.v.y * rhs.v.z - self.v.z * rhs.v.y,
            self.w * rhs.v.y + self.v.y * rhs.w + self.v.z * rhs.v.x - self.v.x * rhs.v.z,
            self.w * rhs.v.z + self.v.z * rhs.w + self.v.x * rhs.v.y - self.v.y * rhs.v.x,
        )
    }

    pub fn length_squared(&self) -> (r: i64)
        requires
            self.dot_fits(*self),
        ensures
            r == self.spec_dot(*self),
    {
        self.dot(self)
    }

    /// Multiplies every component by `factor` in place and returns the result.
    pub fn scale(&mut self, factor: i64) -> (r: Self)
        requires
            in_i64(old(self).w * factor),
            in_i64(old(self).v.x * factor),
            in_i64(old(self).v.y * factor),
            in_i64(old(self).v.z * factor),
        ensures
            final(self).w == old(self).w * factor,
            final(self).v.x == old(self).v.x * factor,
            final(self).v.y == old(self).v.y * factor,
            final(self).v.z == old(self).v.z * factor,
            r == *final(self),
    {
        self.w = self.w * factor;
        self.v.scale(factor);
        *self
    }

    /// Adds `scalar` to every component in place and returns the result.
    pub fn shift(&mut self, scalar: i64) -> (r: Self)
        requires
            in_i64(old(self).w + scalar),
            in_i64(old(self).v.x + scalar),
            in_i64(old(self).v.y + scalar),
            in_i64(old(self).v.z + scalar),
        ensures
            final(self).w == old(self).w + scalar,
            final(self).v.x == old(self).v.x + scalar,
            final(self).v.y == old(self).v.y + scalar,
            final(self).v.z == old(self).v.z + scalar,
            r == *final(self),
    {
        self.w = self.w + scalar;
        self.v.shift(scalar);
        *self
    }

    /// Reads the components as Q16.16 fractions and rounds each toward
    /// negative infinity.
    pub fn floor(&self) -> (r: Self)
        ensures
            r.w == fdiv(self.w as int, 65536),
            r.v.x == fdiv(self.v.x as int, 65536),
            r.v.y == fdiv(self.v.y as int, 65536),
            r.v.z == fdiv(self.v.z as int, 65536),
    {
        Quat::new(
            crate::vec3::floor_fp(self.w),
            crate::vec3::floor_fp(self.v.x),
            crate::vec3::floor_fp(self.v.y),
            crate::vec3::floor_fp(self.v.z),
        )
    }

    /// Reads the components as Q16.16 fractions and rounds each toward
    /// positive infinity.
    pub fn ceil(&self) -> (r: Self)
        ensures
            r.w == cdiv(self.w as int, 65536),
            r.v.x == cdiv(self.v.x as int, 65536),
            r.v.y == cdiv(self.v.y as int, 65536),
            r.v.z == cdiv(self.v.z as int, 65536),
    {
        Quat::new(
            crate::vec3::ceil_fp(self.w),
            crate::vec3::ceil_fp(self.v.x),
            crate::vec3::ceil_fp(self.v.y),
            crate::vec3::ceil_fp(self.v.z),
        )
    }

    /// Conjugation: keeps the scalar part and negates the vector part.
    pub fn neg(&self) -> (r: Self)
        requires
            self.v.x != i64::MIN,
            self.v.y != i64::MIN,
            self.v.z != i64::MIN,
        ensures
            r.w == self.w,
            r.v.x == -self.v.x,
            r.v.y == -self.v.y,
            r.v.z == -self.v.z,
    {
        Quat::new(self.w, -self.v.x, -self.v.y, -self.v.z)
    }

    /// Component-wise sum.
    pub fn add(&self, rhs: &Self) -> (r: Self)
        requires
            in_i64(self.w + rhs.w),
            in_i64(self.v.x + rhs.v.x),
            in_i64(self.v.y + rhs.v.y),
            in_i64(self.v.z + rhs.v.z),
        ensures
            r.w == self.w + rhs.w,
            r.v.x == self.v.x + rhs.v.x,
            r.v.y == self.v.y + rhs.v.y,
            r.v.z == self.v.z + rhs.v.z,
    {
        Quat::new(
            self.w + rhs.w,
            self.v.x + rhs.v.x,
            self.v.y + rhs.v.y,
            self.v.z + rhs.v.z,
        )
    }

    /// Builds the rotation quaternion `(cos(angle/2), sin(angle/2) * axis)`
    /// from the precomputed cosine and sine of half the rotation angle (the
    /// trigonometry stays with the caller) and a unit axis, in Q16.16.
    pub fn angle_axis(half_cos: i64, half_sin: i64, unit_axis: &Vec3) -> (r: Self)
        requires
            -65536 <= half_cos <= 65536,
            -65536 <= half_sin <= 65536,
            crate::fixed::v3_mag_le(*unit_axis, 131072),
        ensures
            r.w == half_cos,
            r.v.x == crate::fixed::fpm(unit_axis.x as int, half_sin as int),
            r.v.y == crate::fixed::fpm(unit_axis.y as int, half_sin as int),
            r.v.z == crate::fixed::fpm(unit_axis.z as int, half_sin as int),
            crate::fixed::q_mag_le(r, 131072),
    {
        proof {
            crate::fixed::lemma_fpm_bound(unit_axis.x as int, half_sin as int, 131072, 65536, 131072);
            crate::fixed::lemma_fpm_bound(unit_axis.y as int, half_sin as int, 131072, 65536, 131072);
            crate::fixed::lemma_fpm_bound(unit_axis.z as int, half_sin as int, 131072, 65536, 131072);
        }
        Quat::new(
            half_cos,
            crate::fixed::fp_mul(unit_axis.x, half_sin),
            crate::fixed::fp_mul(unit_axis.y, half_sin),
            crate::fixed::fp_mul(unit_axis.z, half_sin),
        )
    }

    /// Component-wise difference.
    pub fn sub(&self, rhs: &Self) -> (r: Self)
        requires
            in_i64(self.w - rhs.w),
            in_i64(self.v.x - rhs.v.x),
            in_i64(self.v.y - rhs.v.y),
            in_i64(self.v.z - rhs.v.z),
        ensures
            r.w == self.w - rhs.w,
            r.v.x == self.v.x - rhs.v.x,
            r.v.y == self.v.y - rhs.v.y,
            r.v.z == self.v.z - rhs.v.z,
    {
        Quat::new(
            self.w - rhs.w,
            self.v.x - rhs.v.x,
            self.v.y - rhs.v.y,
            self.v.z - rhs.v.z,
        )
    }
}

} // verus!
