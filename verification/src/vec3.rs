//! Three-component integer vectors with component-wise arithmetic, dot and
//! cross products. Components are plain `i64` values; the fixed-point modules
//! interpret them as Q16.16 fractions where a geometric reading is needed.

use vstd::prelude::*;

use crate::arith::{cdiv, fdiv, in_i64, tdiv};

verus! {

#[derive(Clone, Copy, Debug, PartialEq, Eq, Structural)]
pub struct Vec3 {
    pub x: i64,
    pub y: i64,
    pub z: i64,
}

impl Vec3 {
    /// Mathematical dot product, over unbounded integers.
    pub open spec fn spec_dot(self, o: Vec3) -> int {
        self.x * o.x + self.y * o.y + self.z * o.z
    }

    /// x-component of the right-handed cross product.
    pub open spec fn spec_cross_x(self, o: Vec3) -> int {
        self.y * o.z - self.z * o.y
    }

    /// y-component of the right-handed cross product.
    pub open spec fn spec_cross_y(self, o: Vec3) -> int {
        self.z * o.x - self.x * o.z
    }

    /// z-component of the right-handed cross product.
    pub open spec fn spec_cross_z(self, o: Vec3) -> int {
        self.x * o.y - self.y * o.x
    }

    /// Every intermediate value of the dot-product computation fits in `i64`.
    pub open spec fn dot_fits(self, o: Vec3) -> bool {
        &&& in_i64(self.x * o.x)
        &&& in_i64(self.y * o.y)
        &&& in_i64(self.z * o.z)
        &&& in_i64(self.x * o.x + self.y * o.y)
        &&& in_i64(self.spec_dot(o))
    }

    /// Every intermediate value of the cross-product computation fits in `i64`.
    pub open spec fn cross_fits(self, o: Vec3) -> bool {
        &&& in_i64(self.y * o.z)
        &&& in_i64(self.z * o.y)
        &&& in_i64(self.spec_cross_x(o))
        &&& in_i64(self.z * o.x)
        &&& in_i64(self.x * o.z)
        &&& in_i64(self.spec_cross_y(o))
        &&& in_i64(self.x * o.y)
        &&& in_i64(self.y * o.x)
        &&& in_i64(self.spec_cross_z(o))
    }

    pub fn new(x: i64, y: i64, z: i64) -> (r: Self)
        ensures
            r == (Vec3 { x, y, z }),
    {
        Self { x, y, z }
    }

    pub fn dot(&self, rhs: &Self) -> (r: i64)
        requires
            self.dot_fits(*rhs),
        ensures
            r == self.spec_dot(*rhs),
    {
        self.x * rhs.x + self.y * rhs.y + self.z * rhs.z
    }

    /// Right-handed cross product, `(ay*bz-az*by, az*bx-ax*bz, ax*by-ay*bx)`.
    pub fn cross(&self, rhs: &Self) -> (r: Self)
        requires
            self.cross_fits(*rhs),
        ensures
            r.x == self.spec_cross_x(*rhs),
            r.y == self.spec_cross_y(*rhs),
            r.z == self.spec_cross_z(*rhs),
    {
        Self::new(
            self.y * rhs.z - self.z * rhs.y,
            self.z * rhs.x - self.x * rhs.z,
            self.x * rhs.y - self.y * rhs.x,
        )
    }

    pub fn length_squared(&self) -> (r: i64)
        requires
            self.dot_fits(*self),
        ensures
            r == self.spec_dot(*self),
    {
        self.dot(self)
    }

    /// Multiplies every component by `factor` in place and returns the result.
    pub fn scale(&mut self, factor: i64) -> (r: Self)
        requires
            in_i64(old(self).x * factor),
            in_i64(old(self).y * factor),
            in_i64(old(self).z * factor),
        ensures
            final(self).x == old(self).x * factor,
            final(self).y == old(self).y * factor,
            final(self).z == old(self).z * factor,
            r == *final(self),
    {
        self.x = self.x * factor;
        self.y = self.y * factor;
        self.z = self.z * factor;
        *self
    }

    /// Adds `scalar` to every component in place and returns the result.
    pub fn shift(&mut self, scalar: i64) -> (r: Self)
        requires
            in_i64(old(self).x + scalar),
            in_i64(old(self).y + scalar),
            in_i64(old(self).z + scalar),
        ensures
            final(self).x == old(self).x + scalar,
            final(self).y == old(self).y + scalar,
            final(self).z == old(self).z + scalar,
            r == *final(self),
    {
        self.x = self.x + scalar;
        self.y = self.y + scalar;
        self.z = self.z + scalar;
        *self
    }

    /// Reads the components as Q16.16 fractions and rounds each toward
    /// negative infinity, yielding an integer triple.
    pub fn floor(&self) -> (r: Self)
        ensures
            r.x == fdiv(self.x as int, 65536),
            r.y == fdiv(self.y as int, 65536),
            r.z == fdiv(self.z as int, 65536),
    {
        Self::new(floor_fp(self.x), floor_fp(self.y), floor_fp(self.z))
    }

    /// Reads the components as Q16.16 fractions and rounds each toward
    /// positive infinity, yielding an integer triple.
    pub fn ceil(&self) -> (r: Self)
        ensures
            r.x == cdiv(self.x as int, 65536),
            r.y == cdiv(self.y as int, 65536),
            r.z == cdiv(self.z as int, 65536),
    {
        Self::new(ceil_fp(self.x), ceil_fp(self.y), ceil_fp(self.z))
    }

    /// Component-wise sum.
    pub fn add(&self, rhs: &Self) -> (r: Self)
        requires
            in_i64(self.x + rhs.x),
            in_i64(self.y + rhs.y),
            in_i64(self.z + rhs.z),
        ensures
            r.x == self.x + rhs.x,
            r.y == self.y + rhs.y,
            r.z == self.z + rhs.z,
    {
        Self::new(self.x + rhs.x, self.y + rhs.y, self.z + rhs.z)
    }

    /// Component-wise difference.
    pub fn sub(&self, rhs: &Self) -> (r: Self)
        requires
            in_i64(self.x - rhs.x),
            in_i64(self.y - rhs.y),
            in_i64(self.z - rhs.z),
        ensures
            r.x == self.x - rhs.x,
            r.y == self.y - rhs.y,
            r.z == self.z - rhs.z,
    {
        Self::new(self.x - rhs.x, self.y - rhs.y, self.z - rhs.z)
    }

    /// Component-wise product.
    pub fn mul(&self, rhs: &Self) -> (r: Self)
        requires
            in_i64(self.x * rhs.x),
            in_i64(self.y * rhs.y),
            in_i64(self.z * rhs.z),
        ensures
            r.x == self.x * rhs.x,
            r.y == self.y * rhs.y,
            r.z == self.z * rhs.z,
    {
        Self::new(self.x * rhs.x, self.y * rhs.y, self.z * rhs.z)
    }

    /// Component-wise quotient, truncating toward zero as `/` does on `i64`.
    pub fn div(&self, rhs: &Self) -> (r: Self)
        requires
            rhs.x != 0 && !(self.x == i64::MIN && rhs.x == -1),
            rhs.y != 0 && !(self.y == i64::MIN && rhs.y == -1),
            rhs.z != 0 && !(self.z == i64::MIN && rhs.z == -1),
        ensures
            r.x == tdiv(self.x as int, rhs.x as int),
            r.y == tdiv(self.y as int, rhs.y as int),
            r.z == tdiv(self.z as int, rhs.z as int),
    {
        Self::new(
            crate::arith::div_i64(self.x, rhs.x),
            crate::arith::div_i64(self.y, rhs.y),
            crate::arith::div_i64(self.z, rhs.z),
        )
    }

    /// Component-wise negation.
    pub fn neg(&self) -> (r: Self)
        requires
            self.x != i64::MIN,
            self.y != i64::MIN,
            self.z != i64::MIN,
        ensures
            r.x == -self.x,
            r.y == -self.y,
            r.z == -self.z,
    {
        Self::new(-self.x, -self.y, -self.z)
    }
}

/// The cross product is orthogonal to both of its factors: its dot product
/// with either argument is exactly zero, over unbounded integers.
pub proof fn lemma_cross_orthogonal(a: Vec3, b: Vec3)
    ensures
        a.spec_cross_x(b) * a.x + a.spec_cross_y(b) * a.y + a.spec_cross_z(b) * a.z == 0,
        a.spec_cross_x(b) * b.x + a.spec_cross_y(b) * b.y + a.spec_cross_z(b) * b.z == 0,
{
    assert((a.y * b.z - a.z * b.y) * a.x + (a.z * b.x - a.x * b.z) * a.y + (a.x * b.y - a.y
        * b.x) * a.z == 0) by (nonlinear_arith);
    assert((a.y * b.z - a.z * b.y) * b.x + (a.z * b.x - a.x * b.z) * b.y + (a.x * b.y - a.y
        * b.x) * b.z == 0) by (nonlinear_arith);
}

/// Floor of a Q16.16 fraction, as an integer.
pub fn floor_fp(c: i64) -> (r: i64)
    ensures
        r == fdiv(c as int, 65536),
{
    match c.checked_div_euclid(65536) {
        Some(q) => q,
        None => 0,
    }
}

/// Ceiling of a Q16.16 fraction, as an integer.
pub fn ceil_fp(c: i64) -> (r: i64)
    ensures
        r == cdiv(c as int, 65536),
{
    let q = match c.checked_div_euclid(65536) {
        Some(q) => q,
        None => 0,
    };
    let rem = match c.checked_rem_euclid(65536) {
        Some(m) => m,
        None => 0,
    };
    if rem == 0 {
        q
    } else {
        q + 1
    }
}

} // verus!
