//! Rays and the color they gather: nearest-hit resolution over the scene's
//! objects, and the diffuse bounce accumulation that turns a primary ray
//! into an RGB value under a fixed directional light and a constant sky.

use vstd::prelude::*;

use crate::fixed::{
    ball_ok, fp3_dot, fp3_len, fp_dot, fp_length, fp_mul, fp_normalize, fpd, fpm, isqrt,
    lemma_fpm_bound, lemma_isqrt_bracket, v3_mag_le, FP_VEC_CAP,
};
use crate::hittable::{ray_ok, spec_sphere_hit, HitReturn, DIR_CAP, POS_CAP, T_CAP};

use crate::scene::{object_ok, Object};
use crate::vec3::Vec3;

verus! {

#[derive(Clone, Copy, Debug, PartialEq, Eq, Structural)]
pub struct Ray {
    pub origin: Vec3,
    pub direction: Vec3,
}

/// One framebuffer pixel, 8 bits per channel.
#[derive(Clone, Copy, Debug, PartialEq, Eq, Structural)]
pub struct Rgb {
    pub r: u8,
    pub g: u8,
    pub b: u8,
}

/// The constant sky color returned by every ray that strikes nothing.
pub open spec fn sky_color() -> Rgb {
    Rgb { r: 135, g: 206, b: 235 }
}

/// Scan of the object list in order: each object is intersected against the
/// current closest parameter, and only a strictly nearer hit replaces the
/// best seen so far, so ties break to the first object in insertion order.
/// The first accepted hit may lie anywhere in the window, boundary
/// included.
pub open spec fn spec_scan(
    objs: Seq<Object>,
    ray: Ray,
    t_min: i64,
    closest: i64,
    cur: Option<HitReturn>,
) -> Option<HitReturn>
    decreases objs.len(),
{
    if objs.len() == 0 {
        cur
    } else {
        match objs[0] {
            Object::Sphere(s) => match spec_sphere_hit(s, ray, t_min, closest) {
                Some(h) => if cur is None || h.t < closest {
                    spec_scan(objs.skip(1), ray, t_min, h.t, Some(h))
                } else {
                    spec_scan(objs.skip(1), ray, t_min, closest, cur)
                },
                None => spec_scan(objs.skip(1), ray, t_min, closest, cur),
            },
        }
    }
}

/// Nearest hit of a ray over the whole object list within `[t_min, t_max]`.
pub open spec fn spec_ray_hit(objs: Seq<Object>, ray: Ray, t_min: i64, t_max: i64) -> Option<
    HitReturn,
> {
    spec_scan(objs, ray, t_min, t_max, None)
}

/// The fixed scene light: `normalize((-1, -1, -1))`, pointing away from the
/// light source.
pub open spec fn light_vec() -> Vec3 {
    Vec3 { x: -65536i64, y: -65536i64, z: -65536i64 }
}

/// The scene light normalized in fixed point.
pub open spec fn light_n() -> Vec3 {
    let len = fp3_len(light_vec());
    Vec3 {
        x: fpd(-65536, len) as i64,
        y: fpd(-65536, len) as i64,
        z: fpd(-65536, len) as i64,
    }
}

/// Direction toward the light, the negation of `light_n`.
pub open spec fn neg_light_n() -> Vec3 {
    Vec3 { x: (-light_n().x) as i64, y: (-light_n().y) as i64, z: (-light_n().z) as i64 }
}

/// Lambertian shade of a hit: the normal dotted with the direction toward
/// the light, clamped below at zero.
pub open spec fn shade_of(h: HitReturn) -> int {
    let d = fp3_dot(h.normal, neg_light_n());
    if d > 0 {
        d
    } else {
        0
    }
}

/// One channel's contribution of a bounce: the surface color scaled by the
/// shade and by the per-bounce attenuation.
pub open spec fn bounce_term(channel: i64, shade: int, att: i64) -> int {
    fpm(fpm(channel as int, shade), att as int)
}

/// The next bounce direction: the hit normal displaced by a unit-ball sample
/// and normalized; the bare normal is kept when the sum is too short to
/// normalize.
pub open spec fn bounce_dir(h: HitReturn, b: Vec3) -> Vec3 {
    let sum = Vec3 {
        x: (h.normal.x + b.x) as i64,
        y: (h.normal.y + b.y) as i64,
        z: (h.normal.z + b.z) as i64,
    };
    let len = fp3_len(sum);
    if len < 1 {
        h.normal
    } else {
        Vec3 {
            x: fpd(sum.x as int, len) as i64,
            y: fpd(sum.y as int, len) as i64,
            z: fpd(sum.z as int, len) as i64,
        }
    }
}

/// Whether a spawned bounce ray stays within the representable world; the
/// accumulation stops early when it does not.
pub open spec fn spec_ray_usable(r: Ray) -> bool {
    ray_ok(r)
}

/// The bounce accumulation: starting from `ray` with `fuel` bounces left and
/// sample index `di`, returns the accumulated channel totals and the number
/// of bounces that hit, with the attenuation halving on every bounce.
pub open spec fn spec_bounces(
    objs: Seq<Object>,
    ray: Ray,
    t_min: i64,
    t_max: i64,
    fuel: nat,
    dirs: Seq<Vec3>,
    di: int,
    att: i64,
    tr: int,
    tg: int,
    tb: int,
    hits: int,
) -> (int, int, int, int)
    decreases fuel,
{
    if fuel == 0 {
        (tr, tg, tb, hits)
    } else {
        match spec_ray_hit(objs, ray, t_min, t_max) {
            None => (tr, tg, tb, hits),
            Some(h) => {
                let s = shade_of(h);
                let tr2 = tr + bounce_term(h.object_color.x, s, att);
                let tg2 = tg + bounce_term(h.object_color.y, s, att);
                let tb2 = tb + bounce_term(h.object_color.z, s, att);
                let hits2 = hits + 1;
                let ray2 = Ray { origin: h.hit_position, direction: bounce_dir(h, dirs[di]) };
                if !spec_ray_usable(ray2) {
                    (tr2, tg2, tb2, hits2)
                } else {
                    spec_bounces(
                        objs,
                        ray2,
                        t_min,
                        t_max,
                        (fuel - 1) as nat,
                        dirs,
                        di + 1,
                        (att / 2) as i64,
                        tr2,
                        tg2,
                        tb2,
                        hits2,
                    )
                }
            },
        }
    }
}

/// A channel total averaged over the bounces that hit, scaled to `[0, 255]`
/// by `255.99` (in Q16.16: `16776561 / 65536`) and clamped above at 255.
pub open spec fn to_byte(c: int, hits: int) -> u8 {
    let avg = c / hits;
    let scaled = avg * 16776561 / 4294967296;
    if scaled > 255 {
        255
    } else {
        scaled as u8
    }
}

/// The color a primary ray resolves to, given the bounce samples `dirs`:
/// black when the depth budget is zero; the sky color when no bounce ever
/// hits; otherwise the averaged, scaled accumulation.
pub open spec fn spec_color(
    objs: Seq<Object>,
    ray: Ray,
    t_min: i64,
    t_max: i64,
    depth: u32,
    dirs: Seq<Vec3>,
) -> Rgb {
    if depth == 0 {
        Rgb { r: 0, g: 0, b: 0 }
    } else {
        let acc = spec_bounces(
            objs,
            ray,
            t_min,
            t_max,
            depth as nat,
            dirs,
            0,
            65536,
            0,
            0,
            0,
            0,
        );
        if acc.3 == 0 {
            sky_color()
        } else {
            Rgb { r: to_byte(acc.0, acc.3), g: to_byte(acc.1, acc.3), b: to_byte(acc.2, acc.3) }
        }
    }
}

/// A product of nonnegative values keeps `fpm` nonnegative.
proof fn lemma_fpm_nonneg(a: int, b: int)
    requires
        a >= 0,
        b >= 0,
    ensures
        fpm(a, b) >= 0,
{
    assert(a * b >= 0) by (nonlinear_arith)
        requires
            a >= 0,
            b >= 0,
    ;
    if a * b > 0 {
        vstd::arithmetic::div_mod::lemma_div_pos_is_pos(a * b, 65536);
    }
}

impl Ray {
    /// Nearest hit over the object list, shrinking the accepted interval to
    /// the closest parameter seen so far; ties break to the first object in
    /// insertion order.
    pub fn hit(&self, objects: &Vec<Object>, t_min: i64, t_max: i64) -> (r: Option<HitReturn>)
        requires
            ray_ok(*self),
            0 <= t_min <= t_max <= T_CAP,
            forall|i: int| 0 <= i < objects@.len() ==> object_ok(#[trigger] objects@[i]),
        ensures
            r == spec_ray_hit(objects@, *self, t_min, t_max),
            r matches Some(h) ==> t_min <= h.t <= t_max,
            r matches Some(h) ==> v3_mag_le(h.normal, 131072),
            r matches Some(h) ==> 0 <= h.object_color.x <= 65536 && 0 <= h.object_color.y
                <= 65536 && 0 <= h.object_color.z <= 65536,
    {
        let mut ret: Option<HitReturn> = None;
        let mut closest = t_max;
        let mut i: usize = 0;
        proof {
            assert(objects@.skip(0) =~= objects@);
        }
        while i < objects.len()
            invariant
                ray_ok(*self),
                0 <= t_min <= closest <= t_max <= T_CAP,
                i <= objects@.len(),
                forall|j: int| 0 <= j < objects@.len() ==> object_ok(#[trigger] objects@[j]),
                spec_scan(objects@.skip(i as int), *self, t_min, closest, ret) == spec_ray_hit(
                    objects@,
                    *self,
                    t_min,
                    t_max,
                ),
                ret matches Some(h) ==> t_min <= h.t <= t_max,
                ret matches Some(h) ==> v3_mag_le(h.normal, 131072),
                ret matches Some(h) ==> 0 <= h.object_color.x <= 65536 && 0 <= h.object_color.y
                    <= 65536 && 0 <= h.object_color.z <= 65536,
            decreases objects@.len() - i,
        {
            proof {
                assert(objects@.skip(i as int)[0] == objects@[i as int]);
                assert(objects@.skip(i as int).skip(1) =~= objects@.skip(i as int + 1));
            }
            match &objects[i] {
                Object::Sphere(sphere) => {
                    let h = sphere.hit(self, t_min, closest);
                    if let Some(hr) = h {
                        if ret.is_none() || hr.t < closest {
                            closest = hr.t;
                            ret = Some(hr);
                        }
                    }
                },
            }
            i = i + 1;
        }
        proof {
            assert(objects@.skip(objects@.len() as int) =~= Seq::<Object>::empty());
        }
        ret
    }

    /// Resolves the color of a primary ray, drawing the bounce displacements
    /// from `dirs`: the deterministic core of the renderer. With no depth
    /// budget the result is black; when no bounce ever hits, the sky color.
    pub fn color_with_dirs(
        &self,
        objects: &Vec<Object>,
        t_min: i64,
        t_max: i64,
        max_depth: u32,
        dirs: &Vec<Vec3>,
    ) -> (c: Rgb)
        requires
            ray_ok(*self),
            0 <= t_min <= t_max <= T_CAP,
            forall|i: int| 0 <= i < objects@.len() ==> object_ok(#[trigger] objects@[i]),
            max_depth <= 1024,
            dirs@.len() >= max_depth,
            forall|i: int| 0 <= i < dirs@.len() ==> ball_ok(#[trigger] dirs@[i]),
        ensures
            c == spec_color(objects@, *self, t_min, t_max, max_depth, dirs@),
            max_depth == 0 ==> c == (Rgb { r: 0, g: 0, b: 0 }),
            max_depth > 0 && spec_ray_hit(objects@, *self, t_min, t_max) is None ==> c
                == sky_color(),
    {
        if max_depth == 0 {
            return Rgb { r: 0, g: 0, b: 0 };
        }
        proof {
            lemma_light_normalizable();
        }
        let l = fp_normalize(&Vec3::new(-65536, -65536, -65536));
        let nl = l.neg();
        proof {
            assert(l == light_n());
            assert(nl == neg_light_n());
        }
        let mut cur = *self;
        let mut tr: i64 = 0;
        let mut tg: i64 = 0;
        let mut tb: i64 = 0;
        let mut hits: i64 = 0;
        let mut att: i64 = 65536;
        let mut i: usize = 0;
        let mut done = false;
        while !done && i < max_depth as usize
            invariant
                ray_ok(*self),
                0 <= t_min <= t_max <= T_CAP,
                forall|j: int| 0 <= j < objects@.len() ==> object_ok(#[trigger] objects@[j]),
                0 < max_depth <= 1024,
                dirs@.len() >= max_depth,
                forall|j: int| 0 <= j < dirs@.len() ==> ball_ok(#[trigger] dirs@[j]),
                nl == neg_light_n(),
                v3_mag_le(nl, 131072),
                i <= max_depth,
                0 <= att <= 65536,
                0 <= tr <= 0x40000000,
                0 <= tg <= 0x40000000,
                0 <= tb <= 0x40000000,
                0 <= hits <= max_depth,
                !done ==> hits <= i,
                !done ==> tr <= i * 786432,
                !done ==> tg <= i * 786432,
                !done ==> tb <= i * 786432,
                !done ==> ray_ok(cur),
                ({
                    let g = spec_bounces(
                        objects@,
                        *self,
                        t_min,
                        t_max,
                        max_depth as nat,
                        dirs@,
                        0,
                        65536,
                        0,
                        0,
                        0,
                        0,
                    );
                    if done {
                        g == (tr as int, tg as int, tb as int, hits as int)
                    } else {
                        g == spec_bounces(
                            objects@,
                            cur,
                            t_min,
                            t_max,
                            (max_depth - i) as nat,
                            dirs@,
                            i as int,
                            att,
                            tr as int,
                            tg as int,
                            tb as int,
                            hits as int,
                        )
                    }
                }),
            decreases (if done { 0int } else { 1int }), max_depth - i,
        {
            let h = cur.hit(objects, t_min, t_max);
            match h {
                None => {
                    done = true;
                },
                Some(hr) => {
                    proof {
                        lemma_fpm_bound(hr.normal.x as int, nl.x as int, 131072, 131072, 262144);
                        lemma_fpm_bound(hr.normal.y as int, nl.y as int, 131072, 131072, 262144);
                        lemma_fpm_bound(hr.normal.z as int, nl.z as int, 131072, 131072, 262144);
                    }
                    let d = fp_dot(&hr.normal, &nl);
                    let s = if d > 0 {
                        d
                    } else {
                        0
                    };
                    proof {
                        assert(s == shade_of(hr));
                        lemma_fpm_bound(hr.object_color.x as int, s as int, 65536, 786432, 786432);
                        lemma_fpm_bound(hr.object_color.y as int, s as int, 65536, 786432, 786432);
                        lemma_fpm_bound(hr.object_color.z as int, s as int, 65536, 786432, 786432);
                        lemma_fpm_nonneg(hr.object_color.x as int, s as int);
                        lemma_fpm_nonneg(hr.object_color.y as int, s as int);
                        lemma_fpm_nonneg(hr.object_color.z as int, s as int);
                    }
                    let cr1 = fp_mul(hr.object_color.x, s);
                    let cg1 = fp_mul(hr.object_color.y, s);
                    let cb1 = fp_mul(hr.object_color.z, s);
                    proof {
                        lemma_fpm_bound(cr1 as int, att as int, 786432, 65536, 786432);
                        lemma_fpm_bound(cg1 as int, att as int, 786432, 65536, 786432);
                        lemma_fpm_bound(cb1 as int, att as int, 786432, 65536, 786432);
                        lemma_fpm_nonneg(cr1 as int, att as int);
                        lemma_fpm_nonneg(cg1 as int, att as int);
                        lemma_fpm_nonneg(cb1 as int, att as int);
                    }
                    let cr = fp_mul(cr1, att);
                    let cg = fp_mul(cg1, att);
                    let cb = fp_mul(cb1, att);
                    tr = tr + cr;
                    tg = tg + cg;
                    tb = tb + cb;
                    hits = hits + 1;
                    let b = dirs[i];
                    let sum = Vec3::new(hr.normal.x + b.x, hr.normal.y + b.y, hr.normal.z + b.z);
                    let slen = fp_length(&sum);
                    let nd = if slen < 1 {
                        hr.normal
                    } else {
                        fp_normalize(&sum)
                    };
                    proof {
                        assert(nd == bounce_dir(hr, dirs@[i as int]));
                    }
                    let next = Ray { origin: hr.hit_position, direction: nd };
                    let origin_ok = next.origin.x <= POS_CAP && next.origin.x >= -POS_CAP
                        && next.origin.y <= POS_CAP && next.origin.y >= -POS_CAP && next.origin.z
                        <= POS_CAP && next.origin.z >= -POS_CAP;
                    let dd = fp_dot(&nd, &nd);
                    if origin_ok && dd >= 1 {
                        proof {
                            assert(spec_ray_usable(next));
                        }
                        cur = next;
                        att = att / 2;
                        i = i + 1;
                    } else {
                        proof {
                            assert(!spec_ray_usable(next));
                        }
                        done = true;
                    }
                },
            }
        }
        if hits == 0 {
            Rgb { r: 135, g: 206, b: 235 }
        } else {
            Rgb {
                r: byte_of(tr, hits),
                g: byte_of(tg, hits),
                b: byte_of(tb, hits),
            }
        }
    }
}

/// The fixed light direction has a positive fixed-point length, so it can be
/// normalized.
proof fn lemma_light_normalizable()
    ensures
        fp3_len(light_vec()) >= 1,
{
    lemma_isqrt_bracket(fp3_dot(light_vec(), light_vec()) * 65536);
    assert(fp3_dot(light_vec(), light_vec()) == 196608);
    let r = isqrt(196608int * 65536);
    assert(r >= 1) by (nonlinear_arith)
        requires
            r >= 0,
            (r + 1) * (r + 1) > 196608int * 65536,
    ;
}

/// Scales a nonnegative averaged channel to a byte, as `to_byte` states.
fn byte_of(c: i64, hits: i64) -> (r: u8)
    requires
        0 <= c <= 0x40000000,
        1 <= hits,
    ensures
        r == to_byte(c as int, hits as int),
{
    let avg = c / hits;
    proof {
        vstd::arithmetic::div_mod::lemma_div_pos_is_pos(c as int, hits as int);
        vstd::arithmetic::div_mod::lemma_div_nonincreasing(c as int, hits as int);
        assert(0 <= (avg as int) * 16776561 <= 0x40000000int * 16776561) by (nonlinear_arith)
            requires
                0 <= avg <= 0x40000000,
        ;
        crate::fixed::lemma_tdiv_mag((avg as int) * 16776561, 4294967296, 0x40000000int * 16776561);
        vstd::arithmetic::div_mod::lemma_div_pos_is_pos((avg as int) * 16776561, 4294967296);
    }
    let scaled = crate::arith::div_i128((avg as i128) * 16776561, 4294967296);
    if scaled > 255 {
        255
    } else {
        scaled as u8
    }
}

} // verus!
