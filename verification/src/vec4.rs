//! Four-component integer vectors, used as homogeneous coordinates by the
//! 4x4 matrix routines.

use vstd::prelude::*;

use crate::arith::{cdiv, fdiv, in_i64, tdiv};

verus! {

#[derive(Clone, Copy, Debug, PartialEq, Eq, Structural)]
pub struct Vec4 {
    pub w: i64,
    pub x: i64,
    pub y: i64,
    pub z: i64,
}

impl Vec4 {
    /// Four-term dot product, over unbounded integers.
    pub open spec fn spec_dot(self, o: Vec4) -> int {
        self.w * o.w + self.x * o.x + self.y * o.y + self.z * o.z
    }

    /// Every intermediate value of the dot-product computation fits in `i64`.
    pub open spec fn dot_fits(self, o: Vec4) -> bool {
        &&& in_i64(self.w * o.w)
        &&& in_i64(self.x * o.x)
        &&& in_i64(self.y * o.y)
        &&& in_i64(self.z * o.z)
        &&& in_i64(self.w * o.w + self.x * o.x)
        &&& in_i64(self.w * o.w + self.x * o.x + self.y * o.y)
        &&& in_i64(self.spec_dot(o))
    }

    pub fn new(w: i64, x: i64, y: i64, z: i64) -> (r: Self)
        ensures
            r == (Vec4 { w, x, y, z }),
    {
        Self { w, x, y, z }
    }

    pub fn dot(&self, rhs: &Self) -> (r: i64)
        requires
            self.dot_fits(*rhs),
        ensures
            r == self.spec_dot(*rhs),
    {
        self.w * rhs.w + self.x * rhs.x + self.y * rhs.y + self.z * rhs.z
    }

    pub fn length_squared(&self) -> (r: i64)
        requires
            self.dot_fits(*self),
        ensures
            r == self.spec_dot(*self),
    {
        self.dot(self)
    }

    /// Multiplies every component by `factor` in place and returns the result.
    pub fn scale(&mut self, factor: i64) -> (r: Self)
        requires
            in_i64(old(self).w * factor),
            in_i64(old(self).x * factor),
            in_i64(old(self).y * factor),
            in_i64(old(self).z * factor),
        ensures
            final(self).w == old(self).w * factor,
            final(self).x == old(self).x * factor,
            final(self).y == old(self).y * factor,
            final(self).z == old(self).z * factor,
            r == *final(self),
    {
        self.w = self.w * factor;
        self.x = self.x * factor;
        self.y = self.y * factor;
        self.z = self.z * factor;
        *self
    }

    /// Adds `scalar` to every component in place and returns the result.
    pub fn shift(&mut self, scalar: i64) -> (r: Self)
        requires
            in_i64(old(self).w + scalar),
            in_i64(old(self).x + scalar),
            in_i64(old(self).y + scalar),
            in_i64(old(self).z + scalar),
        ensures
            final(self).w == old(self).w + scalar,
            final(self).x == old(self).x + scalar,
            final(self).y == old(self).y + scalar,
            final(self).z == old(self).z + scalar,
            r == *final(self),
    {
        self.w = self.w + scalar;
        self.x = self.x + scalar;
        self.y = self.y + scalar;
        self.z = self.z + scalar;
        *self
    }

    /// Reads the components as Q16.16 fractions and rounds each toward
    /// negative infinity.
    pub fn floor(&self) -> (r: Self)
        ensures
            r.w == fdiv(self.w as int, 65536),
            r.x == fdiv(self.x as int, 65536),
            r.y == fdiv(self.y as int, 65536),
            r.z == fdiv(self.z as int, 65536),
    {
        Self::new(
            crate::vec3::floor_fp(self.w),
            crate::vec3::floor_fp(self.x),
            crate::vec3::floor_fp(self.y),
            crate::vec3::floor_fp(self.z),
        )
    }

    /// Reads the components as Q16.16 fractions and rounds each toward
    /// positive infinity.
    pub fn ceil(&self) -> (r: Self)
        ensures
            r.w == cdiv(self.w as int, 65536),
            r.x == cdiv(self.x as int, 65536),
            r.y == cdiv(self.y as int, 65536),
            r.z == cdiv(self.z as int, 65536),
    {
        Self::new(
            crate::vec3::ceil_fp(self.w),
            crate::vec3::ceil_fp(self.x),
            crate::vec3::ceil_fp(self.y),
            crate::vec3::ceil_fp(self.z),
        )
    }

    /// Component-wise sum.
    pub fn add(&self, rhs: &Self) -> (r: Self)
        requires
            in_i64(self.w + rhs.w),
            in_i64(self.x + rhs.x),
            in_i64(self.y + rhs.y),
            in_i64(self.z + rhs.z),
        ensures
            r.w == self.w + rhs.w,
            r.x == self.x + rhs.x,
            r.y == self.y + rhs.y,
            r.z == self.z + rhs.z,
    {
        Self::new(self.w + rhs.w, self.x + rhs.x, self.y + rhs.y, self.z + rhs.z)
    }

    /// Component-wise difference.
    pub fn sub(&self, rhs: &Self) -> (r: Self)
        requires
            in_i64(self.w - rhs.w),
            in_i64(self.x - rhs.x),
            in_i64(self.y - rhs.y),
            in_i64(self.z - rhs.z),
        ensures
            r.w == self.w - rhs.w,
            r.x == self.x - rhs.x,
            r.y == self.y - rhs.y,
            r.z == self.z - rhs.z,
    {
        Self::new(self.w - rhs.w, self.x - rhs.x, self.y - rhs.y, self.z - rhs.z)
    }

    /// Component-wise product.
    pub fn mul(&self, rhs: &Self) -> (r: Self)
        requires
            in_i64(self.w * rhs.w),
            in_i64(self.x * rhs.x),
            in_i64(self.y * rhs.y),
            in_i64(self.z * rhs.z),
        ensures
            r.w == self.w * rhs.w,
            r.x == self.x * rhs.x,
            r.y == self.y * rhs.y,
            r.z == self.z * rhs.z,
    {
        Self::new(self.w * rhs.w, self.x * rhs.x, self.y * rhs.y, self.z * rhs.z)
    }

    /// Component-wise quotient, truncating toward zero as `/` does on `i64`.
    pub fn div(&self, rhs: &Self) -> (r: Self)
        requires
            rhs.w != 0 && !(self.w == i64::MIN && rhs.w == -1),
            rhs.x != 0 && !(self.x == i64::MIN && rhs.x == -1),
            rhs.y != 0 && !(self.y == i64::MIN && rhs.y == -1),
            rhs.z != 0 && !(self.z == i64::MIN && rhs.z == -1),
        ensures
            r.w == tdiv(self.w as int, rhs.w as int),
            r.x == tdiv(self.x as int, rhs.x as int),
            r.y == tdiv(self.y as int, rhs.y as int),
            r.z == tdiv(self.z as int, rhs.z as int),
    {
        Self::new(
            crate::arith::div_i64(self.w, rhs.w),
            crate::arith::div_i64(self.x, rhs.x),
            crate::arith::div_i64(self.y, rhs.y),
            crate::arith::div_i64(self.z, rhs.z),
        )
    }

    /// Component-wise negation.
    pub fn neg(&self) -> (r: Self)
        requires
            self.w != i64::MIN,
            self.x != i64::MIN,
            self.y != i64::MIN,
            self.z != i64::MIN,
        ensures
            r.w == -self.w,
            r.x == -self.x,
            r.y == -self.y,
            r.z == -self.z,
    {
        Self::new(-self.w, -self.x, -self.y, -self.z)
    }
}

} // verus!
