//! The sample stream for diffuse bounces: a small xorshift generator passed
//! in explicitly by the caller, so that renders are deterministic under a
//! fixed seed, together with the uniform and unit-ball sampling helpers and
//! the randomized entry points of the renderer.

use vstd::prelude::*;

use crate::fixed::{ball_ok, fp3_dot, fp_dot};
use crate::hittable::{ray_ok, T_CAP};
use crate::quat::Quat;
use crate::ray::{sky_color, spec_color, spec_ray_hit, Ray, Rgb};
use crate::scene::{object_ok, pixel_ray, scene_renderable, Object, Scene};
use crate::vec3::Vec3;
use crate::vec4::Vec4;

verus! {

/// One xorshift step; never returns to zero from a nonzero state.
pub open spec fn next_state(s: u64) -> u64 {
    let a = s ^ (s << 13);
    let b = a ^ (a >> 7);
    b ^ (b << 17)
}

/// The `[0, 1)` Q16.16 sample carried by a state: its low sixteen bits.
pub open spec fn unit_of(s: u64) -> i64 {
    (s & 0xffff) as i64
}

/// The `[-1, 1)` Q16.16 sample carried by a state: its low seventeen bits,
/// shifted down by one.
pub open spec fn sym_of(s: u64) -> i64 {
    ((s & 0x1ffff) as i64 - 65536) as i64
}

/// A 64-bit xorshift generator. The stream is a pure function of the seed,
/// so any render that draws from it can be replayed exactly.
pub struct SampleRng {
    pub state: u64,
}

impl SampleRng {
    /// Builds a generator from a seed; a zero seed is replaced by a fixed
    /// nonzero constant, since zero is xorshift's fixed point.
    pub fn new(seed: u64) -> (r: SampleRng)
        ensures
            seed != 0 ==> r.state == seed,
            seed == 0 ==> r.state == 0x9e3779b97f4a7c15u64,
    {
        if seed == 0 {
            SampleRng { state: 0x9e3779b97f4a7c15 }
        } else {
            SampleRng { state: seed }
        }
    }

    /// Advances the stream and returns the new raw state.
    pub fn next_raw(&mut self) -> (r: u64)
        ensures
            final(self).state == next_state(old(self).state),
            r == final(self).state,
    {
        let s = self.state;
        let a = s ^ (s << 13u64);
        let b = a ^ (a >> 7u64);
        let c = b ^ (b << 17u64);
        self.state = c;
        c
    }

    /// A sample from `[0, 1)` in Q16.16: the low sixteen bits of the stream.
    pub fn unit_fp(&mut self) -> (r: i64)
        ensures
            0 <= r < 65536,
            final(self).state == next_state(old(self).state),
            r == unit_of(next_state(old(self).state)),
    {
        let raw = self.next_raw();
        let low = raw & 0xffff;
        proof {
            assert(raw & 0xffff < 65536) by (bit_vector);
        }
        low as i64
    }

    /// A sample from `[-1, 1)` in Q16.16: seventeen bits of the stream,
    /// shifted down by one.
    pub fn symmetric_fp(&mut self) -> (r: i64)
        ensures
            -65536 <= r < 65536,
            final(self).state == next_state(old(self).state),
            r == sym_of(next_state(old(self).state)),
    {
        let raw = self.next_raw();
        let low = raw & 0x1ffff;
        proof {
            assert(raw & 0x1ffff < 131072) by (bit_vector);
        }
        (low as i64) - 65536
    }
}

/// A vector with three uniform samples from `[0, 1)` in Q16.16: exactly the
/// next three draws of the stream, in component order.
pub fn random_vec3(rng: &mut SampleRng) -> (r: Vec3)
    ensures
        0 <= r.x < 65536,
        0 <= r.y < 65536,
        0 <= r.z < 65536,
        r.x == unit_of(next_state(old(rng).state)),
        r.y == unit_of(next_state(next_state(old(rng).state))),
        r.z == unit_of(next_state(next_state(next_state(old(rng).state)))),
        final(rng).state == next_state(next_state(next_state(old(rng).state))),
{
    let x = rng.unit_fp();
    let y = rng.unit_fp();
    let z = rng.unit_fp();
    Vec3::new(x, y, z)
}

/// A vector with four uniform samples from `[0, 1)` in Q16.16: exactly the
/// next four draws of the stream, in component order.
pub fn random_vec4(rng: &mut SampleRng) -> (r: Vec4)
    ensures
        0 <= r.w < 65536,
        0 <= r.x < 65536,
        0 <= r.y < 65536,
        0 <= r.z < 65536,
        r.w == unit_of(next_state(old(rng).state)),
        r.x == unit_of(next_state(next_state(old(rng).state))),
        r.y == unit_of(next_state(next_state(next_state(old(rng).state)))),
        r.z == unit_of(next_state(next_state(next_state(next_state(old(rng).state))))),
        final(rng).state == next_state(
            next_state(next_state(next_state(old(rng).state))),
        ),
{
    let w = rng.unit_fp();
    let x = rng.unit_fp();
    let y = rng.unit_fp();
    let z = rng.unit_fp();
    Vec4::new(w, x, y, z)
}

/// A quaternion with four uniform samples from `[0, 1)` in Q16.16: exactly
/// the next four draws of the stream, in component order.
pub fn random_quat(rng: &mut SampleRng) -> (r: Quat)
    ensures
        0 <= r.w < 65536,
        0 <= r.v.x < 65536,
        0 <= r.v.y < 65536,
        0 <= r.v.z < 65536,
        r.w == unit_of(next_state(old(rng).state)),
        r.v.x == unit_of(next_state(next_state(old(rng).state))),
        r.v.y == unit_of(next_state(next_state(next_state(old(rng).state)))),
        r.v.z == unit_of(next_state(next_state(next_state(next_state(old(rng).state))))),
        final(rng).state == next_state(
            next_state(next_state(next_state(old(rng).state))),
        ),
{
    let w = rng.unit_fp();
    let x = rng.unit_fp();
    let y = rng.unit_fp();
    let z = rng.unit_fp();
    Quat::new(w, x, y, z)
}

/// The bounded rejection sampler as a function of the stream: from state
/// `s` with `tries` triples already spent, the first symmetric triple whose
/// squared length is below one, paired with the state after drawing it; the
/// fixed interior fallback, with the state unchanged from that point, once
/// the cap of 128 triples is reached.
pub open spec fn spec_ball(s: u64, tries: nat) -> (Vec3, u64)
    decreases 128 - tries,
{
    if tries >= 128 {
        (Vec3 { x: 0i64, y: 0i64, z: 32768i64 }, s)
    } else {
        let s1 = next_state(s);
        let s2 = next_state(s1);
        let s3 = next_state(s2);
        let v = Vec3 { x: sym_of(s1), y: sym_of(s2), z: sym_of(s3) };
        if fp3_dot(v, v) < 65536 {
            (v, s3)
        } else {
            spec_ball(s3, tries + 1)
        }
    }
}

/// Rejection-samples a vector inside the unit ball: components are uniform
/// in `[-1, 1)` and a draw is kept once its squared length is below one. The
/// loop is capped defensively; the cap is astronomically unlikely to be
/// reached, and a fixed interior vector is returned then. The result and
/// the final stream state are exactly `spec_ball` of the starting state.
pub fn random_in_unit_ball(rng: &mut SampleRng) -> (r: Vec3)
    ensures
        ball_ok(r),
        r == spec_ball(old(rng).state, 0).0,
        final(rng).state == spec_ball(old(rng).state, 0).1,
{
    let mut tries: usize = 0;
    while tries < 128
        invariant
            tries <= 128,
            spec_ball(rng.state, tries as nat) == spec_ball(old(rng).state, 0),
        decreases 128 - tries,
    {
        let ghost s0 = rng.state;
        let x = rng.symmetric_fp();
        let y = rng.symmetric_fp();
        let z = rng.symmetric_fp();
        let v = Vec3::new(x, y, z);
        if fp_dot(&v, &v) < 65536 {
            proof {
                assert(spec_ball(s0, tries as nat) == (v, rng.state));
            }
            return v;
        }
        proof {
            assert(spec_ball(s0, tries as nat) == spec_ball(rng.state, tries as nat + 1));
        }
        tries = tries + 1;
    }
    let fallback = Vec3::new(0, 0, 32768);
    proof {
        assert(fp3_dot(fallback, fallback) == crate::fixed::fpm(32768, 32768));
        assert(spec_ball(rng.state, 128) == (fallback, rng.state));
    }
    fallback
}

/// The color of framebuffer position `p` under the bounce samples `ds`: the
/// sky when the cached direction is too short to trace, otherwise the full
/// accumulation from the pixel's primary ray.
pub open spec fn pixel_color(s: Scene, p: int, ds: Seq<Vec3>) -> Rgb {
    let r = pixel_ray(s, p);
    if fp3_dot(r.direction, r.direction) < 1 {
        sky_color()
    } else {
        spec_color(s.objects@, r, 655, T_CAP, 10, ds)
    }
}

/// Some valid ball-sample sequence explains the pixel value `c` at
/// framebuffer position `p`.
pub open spec fn pixel_sampled(c: Rgb, s: Scene, p: int) -> bool {
    exists|ds: Seq<Vec3>|
        #![auto]
        ds.len() == 10 && (forall|i: int| 0 <= i < ds.len() ==> ball_ok(ds[i])) && c
            == pixel_color(s, p, ds)
}

impl Ray {
    /// Resolves the color of a primary ray, drawing fresh unit-ball samples
    /// for the diffuse bounces. The result is the deterministic accumulation
    /// under some such sample sequence.
    pub fn color(
        &self,
        objects: &Vec<Object>,
        t_min: i64,
        t_max: i64,
        max_depth: u32,
        rng: &mut SampleRng,
    ) -> (c: Rgb)
        requires
            ray_ok(*self),
            0 <= t_min <= t_max <= T_CAP,
            forall|i: int| 0 <= i < objects@.len() ==> object_ok(#[trigger] objects@[i]),
            max_depth <= 1024,
        ensures
            exists|ds: Seq<Vec3>|
                #![auto]
                ds.len() == max_depth && (forall|i: int| 0 <= i < ds.len() ==> ball_ok(ds[i]))
                    && c == spec_color(objects@, *self, t_min, t_max, max_depth, ds),
            max_depth == 0 ==> c == (Rgb { r: 0, g: 0, b: 0 }),
            max_depth > 0 && spec_ray_hit(objects@, *self, t_min, t_max) is None ==> c
                == sky_color(),
    {
        let mut dirs: Vec<Vec3> = Vec::new();
        let mut i: u32 = 0;
        while i < max_depth
            invariant
                i <= max_depth,
                dirs@.len() == i,
                forall|j: int| 0 <= j < dirs@.len() ==> ball_ok(#[trigger] dirs@[j]),
            decreases max_depth - i,
        {
            let v = random_in_unit_ball(rng);
            dirs.push(v);
            i = i + 1;
        }
        let c = self.color_with_dirs(objects, t_min, t_max, max_depth, &dirs);
        proof {
            assert(dirs@.len() == max_depth && (forall|j: int|
                0 <= j < dirs@.len() ==> ball_ok(#[trigger] dirs@[j])) && c == spec_color(
                objects@,
                *self,
                t_min,
                t_max,
                max_depth,
                dirs@,
            ));
        }
        c
    }
}

/// A constant interior sample explains any sky pixel: when the cached
/// direction is too short to trace, every sample sequence yields the sky.
proof fn lemma_sky_pixel(s: Scene, p: int)
    requires
        fp3_dot(pixel_ray(s, p).direction, pixel_ray(s, p).direction) < 1,
    ensures
        pixel_sampled(sky_color(), s, p),
{
    let ds = Seq::new(10nat, |i: int| Vec3 { x: 0i64, y: 0i64, z: 32768i64 });
    assert forall|i: int| 0 <= i < ds.len() implies ball_ok(#[trigger] ds[i]) by {
        assert(ds[i] == (Vec3 { x: 0i64, y: 0i64, z: 32768i64 }));
        vstd::arithmetic::div_mod::lemma_div_multiples_vanish(16384, 65536);
        assert(32768int * 32768 == 65536int * 16384);
        assert(crate::fixed::fpm(32768, 32768) == 16384);
    };
    assert(ds.len() == 10 && sky_color() == pixel_color(s, p, ds));
}

impl Scene {
    /// Renders one frame: walks every pixel top row first, resolves its
    /// color through the cached camera ray with ten diffuse bounces, and
    /// returns the row-major framebuffer. Pixels whose primary ray strikes
    /// nothing are exactly the sky color.
    #[verifier::rlimit(100)]
    pub fn render(&mut self, rng: &mut SampleRng) -> (res: Vec<Rgb>)
        requires
            scene_renderable(*old(self)),
            old(self).frame_count < u32::MAX,
        ensures
            res@.len() == old(self).window_width * old(self).window_height,
            forall|p: int|
                0 <= p < res@.len() ==> #[trigger] pixel_sampled(res@[p], *old(self), p),
            final(self).frame_count == old(self).frame_count + 1,
            final(self).objects == old(self).objects,
            final(self).camera == old(self).camera,
            final(self).window_width == old(self).window_width,
            final(self).window_height == old(self).window_height,
    {
        let w = self.window_width;
        let h = self.window_height;
        let mut res: Vec<Rgb> = Vec::new();
        let mut y: u32 = 0;
        while y < h
            invariant
                scene_renderable(*self),
                self.objects == old(self).objects,
                self.camera == old(self).camera,
                self.window_width == old(self).window_width,
                self.window_height == old(self).window_height,
                self.frame_count == old(self).frame_count,
                w == self.window_width,
                h == self.window_height,
                y <= h,
                res@.len() == y * w,
                forall|p: int|
                    0 <= p < res@.len() ==> #[trigger] pixel_sampled(res@[p], *old(self), p),
            decreases h - y,
        {
            let mut x: u32 = 0;
            while x < w
                invariant
                    scene_renderable(*self),
                    self.objects == old(self).objects,
                    self.camera == old(self).camera,
                    self.window_width == old(self).window_width,
                    self.window_height == old(self).window_height,
                    self.frame_count == old(self).frame_count,
                    w == self.window_width,
                    h == self.window_height,
                    y < h,
                    x <= w,
                    res@.len() == y * w + x,
                    forall|p: int|
                        0 <= p < res@.len() ==> #[trigger] pixel_sampled(res@[p], *old(self), p),
                decreases w - x,
            {
                proof {
                    assert(w <= 4096 && h <= 4096);
                    assert((x + y * w) < w * h && w * h <= 16777216) by (nonlinear_arith)
                        requires
                            x < w,
                            y < h,
                            w <= 4096,
                            h <= 4096,
                    ;
                }
                let idx = (x + y * w) as usize;
                let dir = self.camera.ray_directions[idx];
                let ray = Ray { origin: self.camera.position, direction: dir };
                let dd = fp_dot(&dir, &dir);
                let c = if dd < 1 {
                    Rgb { r: 135, g: 206, b: 235 }
                } else {
                    ray.color(&self.objects, 655, T_CAP, 10, rng)
                };
                proof {
                    let p = (y * w + x) as int;
                    vstd::arithmetic::div_mod::lemma_fundamental_div_mod_converse(
                        p,
                        w as int,
                        y as int,
                        x as int,
                    );
                    assert(pixel_ray(*old(self), p) == ray);
                    if dd < 1 {
                        lemma_sky_pixel(*old(self), p);
                    } else {
                        let ds = choose|ds: Seq<Vec3>|
                            #![auto]
                            ds.len() == 10 && (forall|i: int|
                                0 <= i < ds.len() ==> ball_ok(ds[i])) && c == spec_color(
                                self.objects@,
                                ray,
                                655,
                                T_CAP,
                                10,
                                ds,
                            );
                        assert(c == pixel_color(*old(self), p, ds));
                        assert(pixel_sampled(c, *old(self), p));
                    }
                }
                res.push(c);
                x = x + 1;
            }
            proof {
                assert(y * w + w == (y + 1) * w) by (nonlinear_arith);
            }
            y = y + 1;
        }
        self.frame_count = self.frame_count + 1;
        proof {
            assert(y == h);
            assert(res@.len() == (h as int) * (w as int));
            assert(w == old(self).window_width && h == old(self).window_height);
            assert((h as int) * (w as int) == (w as int) * (h as int)) by (nonlinear_arith);
            assert(res@.len() == old(self).window_width * old(self).window_height);
        }
        res
    }
}

} // verus!
