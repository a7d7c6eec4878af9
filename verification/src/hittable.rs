//! Spheres and the quadratic ray-sphere intersection test, in Q16.16
//! fixed-point arithmetic. The test follows the half-`b` form: with
//! `oc = origin - center`, `a = dir.dir`, `half_b = oc.dir` and
//! `c = oc.oc - radius^2`, the discriminant is `half_b^2 - a*c`; the nearer
//! root is preferred, and the reported normal always opposes the ray.

use vstd::prelude::*;

use crate::arith::{div_i128, tdiv};
use crate::fixed::{
    fp3_dot, fp3_len, fp_div, fp_dot, fp_mul, fp_normalize, fpd, fpm, isqrt, isqrt_u128,
    lemma_fpm_bound, v3_mag_le, FP_VEC_CAP,
};
use crate::ray::Ray;
use crate::vec3::Vec3;

verus! {

/// Magnitude cap on positions and sphere centers (1024 in world units).
pub const POS_CAP: i64 = 67108864;

/// Magnitude cap on ray directions (2048 in world units).
pub const DIR_CAP: i64 = 134217728;

/// Cap on the `t` interval of an intersection query (4096 in world units).
pub const T_CAP: i64 = 268435456;

#[derive(Clone, Copy, Debug, PartialEq, Eq, Structural)]
pub struct HitReturn {
    pub hit_position: Vec3,
    pub normal: Vec3,
    pub t: i64,
    pub front_face: bool,
    pub object_color: Vec3,
}

#[derive(Clone, Copy, Debug, PartialEq, Eq, Structural)]
pub struct Sphere {
    pub radius: i64,
    pub center: Vec3,
    pub color: Vec3,
}

/// The geometric inputs a sphere must satisfy: a centered position, a
/// nonnegative bounded radius, and color channels within `[0, 1]` fixed-point.
pub open spec fn sphere_ok(s: Sphere) -> bool {
    &&& v3_mag_le(s.center, POS_CAP as int)
    &&& 0 <= s.radius <= POS_CAP
    &&& 0 <= s.color.x <= 65536
    &&& 0 <= s.color.y <= 65536
    &&& 0 <= s.color.z <= 65536
}

/// The inputs a ray must satisfy for the intersection arithmetic to stay in
/// range; the squared direction length must also be nonzero, since the
/// quadratic divides by it.
pub open spec fn ray_ok(r: Ray) -> bool {
    &&& v3_mag_le(r.origin, POS_CAP as int)
    &&& v3_mag_le(r.direction, DIR_CAP as int)
    &&& fp3_dot(r.direction, r.direction) >= 1
}

/// Difference of two vectors, over the in-range components.
pub open spec fn spec_sub(a: Vec3, b: Vec3) -> Vec3 {
    Vec3 { x: (a.x - b.x) as i64, y: (a.y - b.y) as i64, z: (a.z - b.z) as i64 }
}

/// The fixed-point discriminant `half_b^2 - a*c`, rescaled once.
pub open spec fn spec_disc(a: int, half_b: int, c: int) -> int {
    tdiv(half_b * half_b, 65536) - tdiv(a * c, 65536)
}

/// The accepted root of the quadratic: the nearer root when it lies within
/// `[t_min, t_max]`, else the farther root.
pub open spec fn spec_root(a: int, half_b: int, sq: int, t_min: i64, t_max: i64) -> int {
    let root1 = fpd(-half_b - sq, a);
    if root1 > t_max || root1 < t_min {
        fpd(-half_b + sq, a)
    } else {
        root1
    }
}

/// Full model of the intersection test. `None` is returned when the
/// discriminant is negative, when both roots fall outside `[t_min, t_max]`,
/// and (defensively) when the hit point leaves the representable world or
/// coincides with the center so that no normal can be formed.
pub open spec fn spec_sphere_hit(s: Sphere, r: Ray, t_min: i64, t_max: i64) -> Option<
    HitReturn,
> {
    let oc = spec_sub(r.origin, s.center);
    let a = fp3_dot(r.direction, r.direction);
    let half_b = fp3_dot(oc, r.direction);
    let c = fp3_dot(oc, oc) - fpm(s.radius as int, s.radius as int);
    let disc = spec_disc(a, half_b, c);
    if disc < 0 {
        None
    } else {
        let sq = isqrt(disc * 65536);
        let root = spec_root(a, half_b, sq, t_min, t_max);
        if root > t_max || root < t_min {
            None
        } else {
            let hp = Vec3 {
                x: (r.origin.x + fpm(r.direction.x as int, root)) as i64,
                y: (r.origin.y + fpm(r.direction.y as int, root)) as i64,
                z: (r.origin.z + fpm(r.direction.z as int, root)) as i64,
            };
            let diff = spec_sub(hp, s.center);
            if !v3_mag_le(diff, FP_VEC_CAP as int) || fp3_len(diff) < 1 {
                None
            } else {
                let n = Vec3 {
                    x: fpd(diff.x as int, fp3_len(diff)) as i64,
                    y: fpd(diff.y as int, fp3_len(diff)) as i64,
                    z: fpd(diff.z as int, fp3_len(diff)) as i64,
                };
                if fp3_dot(r.direction, n) > 0 {
                    Some(
                        HitReturn {
                            hit_position: hp,
                            normal: Vec3 { x: (-n.x) as i64, y: (-n.y) as i64, z: (-n.z) as i64 },
                            t: root as i64,
                            front_face: false,
                            object_color: s.color,
                        },
                    )
                } else {
                    Some(
                        HitReturn {
                            hit_position: hp,
                            normal: n,
                            t: root as i64,
                            front_face: true,
                            object_color: s.color,
                        },
                    )
                }
            }
        }
    }
}

impl Sphere {
    /// Quadratic intersection test against `ray` over `[t_min, t_max]`:
    /// `None` when the discriminant is negative or neither root lies in the
    /// window. Two exceptional guards also yield `None`, exactly as
    /// `spec_sphere_hit` states: a hit point outside the representable
    /// world, and a hit point whose offset from the center rounds to a
    /// zero-length vector (a degenerate sphere, e.g. radius zero), where no
    /// normal can be formed; the second is the zero-length-normalization
    /// boundary, reported as a documented outcome rather than undefined
    /// behavior.
    pub fn hit(&self, ray: &Ray, t_min: i64, t_max: i64) -> (r: Option<HitReturn>)
        requires
            sphere_ok(*self),
            ray_ok(*ray),
            0 <= t_min <= t_max <= T_CAP,
        ensures
            r == spec_sphere_hit(*self, *ray, t_min, t_max),
            r matches Some(h) ==> t_min <= h.t <= t_max,
            r matches Some(h) ==> v3_mag_le(h.normal, 131072),
            r matches Some(h) ==> v3_mag_le(h.hit_position, 70368744243200),
            r matches Some(h) ==> h.object_color == self.color,
    {
        let oc = ray.origin.sub(&self.center);
        proof {
            lemma_fpm_bound(oc.x as int, ray.direction.x as int, 134217728, DIR_CAP as int, 274877906944);
            lemma_fpm_bound(oc.y as int, ray.direction.y as int, 134217728, DIR_CAP as int, 274877906944);
            lemma_fpm_bound(oc.z as int, ray.direction.z as int, 134217728, DIR_CAP as int, 274877906944);
            lemma_fpm_bound(ray.direction.x as int, ray.direction.x as int, DIR_CAP as int, DIR_CAP as int, 274877906944);
            lemma_fpm_bound(ray.direction.y as int, ray.direction.y as int, DIR_CAP as int, DIR_CAP as int, 274877906944);
            lemma_fpm_bound(ray.direction.z as int, ray.direction.z as int, DIR_CAP as int, DIR_CAP as int, 274877906944);
            lemma_fpm_bound(oc.x as int, oc.x as int, 134217728, 134217728, 274877906944);
            lemma_fpm_bound(oc.y as int, oc.y as int, 134217728, 134217728, 274877906944);
            lemma_fpm_bound(oc.z as int, oc.z as int, 134217728, 134217728, 274877906944);
            lemma_fpm_bound(self.radius as int, self.radius as int, POS_CAP as int, POS_CAP as int, 68719476736);
        }
        let a = fp_dot(&ray.direction, &ray.direction);
        let half_b = fp_dot(&oc, &ray.direction);
        let c = fp_dot(&oc, &oc) - fp_mul(self.radius, self.radius);
        proof {
            assert(0 <= (half_b as int) * (half_b as int) <= 10376293541461622784 * 65536)
                by (nonlinear_arith)
                requires
                    -824633720832 <= half_b <= 824633720832,
            ;
            assert(-(11240984669916758016 * 65536) <= (a as int) * (c as int)
                <= 11240984669916758016 * 65536) by (nonlinear_arith)
                requires
                    0 <= a <= 824633720832,
                    -893353197568 <= c <= 893353197568,
            ;
        }
        let hb2 = div_i128((half_b as i128) * (half_b as i128), 65536);
        let ac = div_i128((a as i128) * (c as i128), 65536);
        let disc = hb2 - ac;
        if disc < 0 {
            None
        } else {
            let sq128 = isqrt_u128((disc as u128) * 65536);
            proof {
                assert(sq128 * sq128 <= (disc as u128) * 65536);
                assert(0 <= (half_b as int) * (half_b as int) <= 10376293541461622784 * 65536)
                    by (nonlinear_arith)
                    requires
                        -824633720832 <= half_b <= 824633720832,
                ;
                assert(-(11240984669916758016 * 65536) <= (a as int) * (c as int)
                    <= 11240984669916758016 * 65536) by (nonlinear_arith)
                    requires
                        0 <= a <= 824633720832,
                        -893353197568 <= c <= 893353197568,
                ;
                crate::fixed::lemma_tdiv_div_bound(
                    (half_b as int) * (half_b as int),
                    65536,
                    10376293541461622784,
                );
                crate::fixed::lemma_tdiv_div_bound(
                    (a as int) * (c as int),
                    65536,
                    11240984669916758016,
                );
                assert(sq128 <= 2199023255552) by (nonlinear_arith)
                    requires
                        sq128 * sq128 <= (disc as u128) * 65536,
                        0 <= disc <= 21617278211378380800,
                ;
            }
            let sq = sq128 as i64;
            let root1 = fp_div(-half_b - sq, a);
            let root = if root1 > t_max || root1 < t_min {
                fp_div(-half_b + sq, a)
            } else {
                root1
            };
            if root > t_max || root < t_min {
                None
            } else {
                proof {
                    lemma_fpm_bound(ray.direction.x as int, root as int, DIR_CAP as int, T_CAP as int, 549755813888);
                    lemma_fpm_bound(ray.direction.y as int, root as int, DIR_CAP as int, T_CAP as int, 549755813888);
                    lemma_fpm_bound(ray.direction.z as int, root as int, DIR_CAP as int, T_CAP as int, 549755813888);
                }
                let hp = Vec3::new(
                    ray.origin.x + fp_mul(ray.direction.x, root),
                    ray.origin.y + fp_mul(ray.direction.y, root),
                    ray.origin.z + fp_mul(ray.direction.z, root),
                );
                let diff = hp.sub(&self.center);
                let in_world = diff.x <= FP_VEC_CAP && diff.x >= -FP_VEC_CAP && diff.y
                    <= FP_VEC_CAP && diff.y >= -FP_VEC_CAP && diff.z <= FP_VEC_CAP && diff.z
                    >= -FP_VEC_CAP;
                if !in_world {
                    None
                } else {
                    let len = crate::fixed::fp_length(&diff);
                    if len < 1 {
                        None
                    } else {
                        let n = fp_normalize(&diff);
                        if fp_dot(&ray.direction, &n) > 0 {
                            Some(
                                HitReturn {
                                    hit_position: hp,
                                    normal: n.neg(),
                                    t: root,
                                    front_face: false,
                                    object_color: self.color,
                                },
                            )
                        } else {
                            Some(
                                HitReturn {
                                    hit_position: hp,
                                    normal: n,
                                    t: root,
                                    front_face: true,
                                    object_color: self.color,
                                },
                            )
                        }
                    }
                }
            }
        }
    }
}

} // verus!
