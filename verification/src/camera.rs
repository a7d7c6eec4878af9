//! The camera: a position and a forward axis, with a precomputed table of
//! one ray direction per pixel. The table is a pure function of the forward
//! axis, the viewport and the window size, so rebuilding it without changing
//! those yields the identical table.

use vstd::prelude::*;

use crate::fixed::{
    fp3_cross_x, fp3_cross_y, fp3_cross_z, fp3_len, fp_cross, fp_length, fp_mul, fp_normalize,
    fp_quat_cross, fp_quat_length, fp_quat_normalize, fp_rotate, fp_scale, fpd, fpm,
    lemma_fpm_bound, q_mag_le, rot_x, rot_y, rot_z, v3_mag_le, FP_VEC_CAP,
};
use crate::hittable::POS_CAP;
use crate::quat::Quat;
use crate::vec3::Vec3;

verus! {

/// The world's up direction, `(0, 1, 0)` in Q16.16.
pub open spec fn world_up() -> Vec3 {
    Vec3 { x: 0i64, y: 65536i64, z: 0i64 }
}

/// Fixed-point cross product of two bounded vectors, as a vector value.
pub open spec fn spec_cross(a: Vec3, b: Vec3) -> Vec3 {
    Vec3 {
        x: fp3_cross_x(a, b) as i64,
        y: fp3_cross_y(a, b) as i64,
        z: fp3_cross_z(a, b) as i64,
    }
}

/// Fixed-point normalization, as a vector value.
pub open spec fn spec_norm(v: Vec3) -> Vec3 {
    Vec3 {
        x: fpd(v.x as int, fp3_len(v)) as i64,
        y: fpd(v.y as int, fp3_len(v)) as i64,
        z: fpd(v.z as int, fp3_len(v)) as i64,
    }
}

/// Fixed-point scaling, as a vector value.
pub open spec fn spec_scale(v: Vec3, f: i64) -> Vec3 {
    Vec3 {
        x: fpm(v.x as int, f as int) as i64,
        y: fpm(v.y as int, f as int) as i64,
        z: fpm(v.z as int, f as int) as i64,
    }
}

/// The camera's right-pointing half-viewport vector.
pub open spec fn spec_right_dir(z: Vec3, vw: i64) -> Vec3 {
    spec_scale(spec_norm(spec_cross(z, world_up())), (vw / 2) as i64)
}

/// The cross of the forward axis with the right vector, before normalization.
pub open spec fn spec_up_raw(z: Vec3, vw: i64) -> Vec3 {
    spec_cross(z, spec_right_dir(z, vw))
}

/// The camera's up-pointing half-viewport vector.
pub open spec fn spec_up_dir(z: Vec3, vw: i64, vh: i64) -> Vec3 {
    spec_scale(spec_norm(spec_up_raw(z, vw)), (vh / 2) as i64)
}

/// Normalized device coordinate of a pixel index along one axis:
/// `i / extent * 2 - 1` in Q16.16.
pub open spec fn spec_ndc(i: int, extent: int) -> int {
    crate::arith::tdiv(i * 131072, extent) - 65536
}

/// The ray direction stored at table index `x + y * width`: rows are laid
/// out top row first (`y == 0` is the top row, counted downward), each row
/// left to right, and `v == y / height * 2 - 1` is not flipped.
pub open spec fn spec_table_dir(z: Vec3, rd: Vec3, ud: Vec3, w: int, h: int, k: int) -> Vec3 {
    let u = spec_ndc(k % w, w);
    let v = spec_ndc(k / w, h);
    Vec3 {
        x: (z.x + fpm(rd.x as int, u) + fpm(ud.x as int, v)) as i64,
        y: (z.y + fpm(rd.y as int, u) + fpm(ud.y as int, v)) as i64,
        z: (z.z + fpm(rd.z as int, u) + fpm(ud.z as int, v)) as i64,
    }
}

/// The full ray-direction table of a camera state: a pure function of the
/// forward axis, the viewport and the window size.
pub open spec fn spec_table(z: Vec3, vw: i64, vh: i64, w: int, h: int) -> Seq<Vec3> {
    Seq::new(
        (w * h) as nat,
        |k: int| spec_table_dir(z, spec_right_dir(z, vw), spec_up_dir(z, vw, vh), w, h, k),
    )
}

pub struct Camera {
    pub viewport_height: i64,
    pub viewport_width: i64,
    pub window_width: usize,
    pub window_height: usize,
    pub z_axis: Vec3,
    pub position: Vec3,
    pub ray_directions: Vec<Vec3>,
}

/// Well-formedness of a camera: bounded window, viewport, axis and position,
/// and a forward axis whose camera basis can be normalized.
pub open spec fn cam_wf(c: Camera) -> bool {
    &&& 1 <= c.window_width <= 4096
    &&& 1 <= c.window_height <= 4096
    &&& 0 <= c.viewport_width <= 4194304
    &&& 0 <= c.viewport_height <= 4194304
    &&& v3_mag_le(c.z_axis, 16777216)
    &&& v3_mag_le(c.position, POS_CAP as int)
    &&& fp3_len(spec_cross(c.z_axis, world_up())) >= 1
    &&& fp3_len(spec_up_raw(c.z_axis, c.viewport_width)) >= 1
}

/// The initial forward axis, `(0, 0, -1)`.
pub open spec fn initial_axis() -> Vec3 {
    Vec3 { x: 0i64, y: 0i64, z: -65536i64 }
}

/// The initial camera position, `(0, 0, 6)`.
pub open spec fn initial_position() -> Vec3 {
    Vec3 { x: 0i64, y: 0i64, z: 393216i64 }
}

/// The viewport aspect ratio 16:9, in Q16.16.
pub const ASPECT_RATIO: i64 = 116508;

/// The rotation applied by `Camera::rotate`: the product of the pitch and
/// yaw angle-axis quaternions, normalized; the identity when the product is
/// too short to normalize.
pub open spec fn spec_rotated_axis(
    z: Vec3,
    right_n: Vec3,
    pc: i64,
    ps: i64,
    yc: i64,
    ys: i64,
) -> Vec3 {
    let qp = Quat {
        w: pc,
        v: Vec3 {
            x: fpm(right_n.x as int, ps as int) as i64,
            y: fpm(right_n.y as int, ps as int) as i64,
            z: fpm(right_n.z as int, ps as int) as i64,
        },
    };
    let qy = Quat {
        w: yc,
        v: Vec3 {
            x: fpm(0, ys as int) as i64,
            y: fpm(65536, ys as int) as i64,
            z: fpm(0, ys as int) as i64,
        },
    };
    let q0 = Quat {
        w: crate::fixed::fpq_w(qp, qy) as i64,
        v: Vec3 {
            x: crate::fixed::fpq_x(qp, qy) as i64,
            y: crate::fixed::fpq_y(qp, qy) as i64,
            z: crate::fixed::fpq_z(qp, qy) as i64,
        },
    };
    if crate::fixed::fp4_len(q0) < 1 {
        z
    } else {
        let len = crate::fixed::fp4_len(q0);
        let qn = Quat {
            w: fpd(q0.w as int, len) as i64,
            v: Vec3 {
                x: fpd(q0.v.x as int, len) as i64,
                y: fpd(q0.v.y as int, len) as i64,
                z: fpd(q0.v.z as int, len) as i64,
            },
        };
        Vec3 { x: rot_x(qn, z) as i64, y: rot_y(qn, z) as i64, z: rot_z(qn, z) as i64 }
    }
}

impl Camera {
    /// Decides well-formedness at run time, so that unverified callers can
    /// guard the operations whose preconditions speak of `cam_wf`.
    pub fn is_wf(&self) -> (b: bool)
        ensures
            b == cam_wf(*self),
    {
        let bounds_ok = 1 <= self.window_width && self.window_width <= 4096 && 1
            <= self.window_height && self.window_height <= 4096 && 0 <= self.viewport_width
            && self.viewport_width <= 4194304 && 0 <= self.viewport_height
            && self.viewport_height <= 4194304 && self.z_axis.x <= 16777216 && self.z_axis.x
            >= -16777216 && self.z_axis.y <= 16777216 && self.z_axis.y >= -16777216
            && self.z_axis.z <= 16777216 && self.z_axis.z >= -16777216 && self.position.x
            <= POS_CAP && self.position.x >= -POS_CAP && self.position.y <= POS_CAP
            && self.position.y >= -POS_CAP && self.position.z <= POS_CAP && self.position.z
            >= -POS_CAP;
        if !bounds_ok {
            return false;
        }
        let up = Vec3::new(0, 65536, 0);
        proof {
            lemma_fpm_bound(self.z_axis.y as int, up.z as int, 16777216, 65536, 16777216);
            lemma_fpm_bound(self.z_axis.z as int, up.y as int, 16777216, 65536, 16777216);
            lemma_fpm_bound(self.z_axis.z as int, up.x as int, 16777216, 65536, 16777216);
            lemma_fpm_bound(self.z_axis.x as int, up.z as int, 16777216, 65536, 16777216);
            lemma_fpm_bound(self.z_axis.x as int, up.y as int, 16777216, 65536, 16777216);
            lemma_fpm_bound(self.z_axis.y as int, up.x as int, 16777216, 65536, 16777216);
        }
        let right_raw = fp_cross(&self.z_axis, &up);
        proof {
            assert(right_raw == spec_cross(self.z_axis, world_up()));
        }
        let right_len = fp_length(&right_raw);
        if right_len < 1 {
            return false;
        }
        let right_n = fp_normalize(&right_raw);
        let half_w = self.viewport_width / 2;
        proof {
            lemma_fpm_bound(right_n.x as int, half_w as int, 131072, 2097152, 4194304);
            lemma_fpm_bound(right_n.y as int, half_w as int, 131072, 2097152, 4194304);
            lemma_fpm_bound(right_n.z as int, half_w as int, 131072, 2097152, 4194304);
        }
        let right_dir = fp_scale(&right_n, half_w);
        proof {
            lemma_fpm_bound(self.z_axis.y as int, right_dir.z as int, 16777216, 4194304, 1073741824);
            lemma_fpm_bound(self.z_axis.z as int, right_dir.y as int, 16777216, 4194304, 1073741824);
            lemma_fpm_bound(self.z_axis.z as int, right_dir.x as int, 16777216, 4194304, 1073741824);
            lemma_fpm_bound(self.z_axis.x as int, right_dir.z as int, 16777216, 4194304, 1073741824);
            lemma_fpm_bound(self.z_axis.x as int, right_dir.y as int, 16777216, 4194304, 1073741824);
            lemma_fpm_bound(self.z_axis.y as int, right_dir.x as int, 16777216, 4194304, 1073741824);
        }
        let up_raw = fp_cross(&self.z_axis, &right_dir);
        proof {
            assert(right_dir == spec_right_dir(self.z_axis, self.viewport_width));
            assert(up_raw == spec_up_raw(self.z_axis, self.viewport_width));
        }
        let up_len = fp_length(&up_raw);
        up_len >= 1
    }

    /// Builds a camera at the initial position looking down the negative z
    /// axis. `half_fov_tan` is the tangent of half the vertical field of
    /// view in Q16.16 (the trigonometry stays with the caller); the viewport
    /// is that height scaled by the 16:9 aspect ratio. The ray-direction
    /// table is computed immediately.
    pub fn new(half_fov_tan: i64, window_width: usize, window_height: usize) -> (cam: Camera)
        requires
            655 <= half_fov_tan <= 2359296,
            1 <= window_width <= 4096,
            1 <= window_height <= 4096,
        ensures
            cam.viewport_height == half_fov_tan,
            cam.viewport_width == fpm(half_fov_tan as int, ASPECT_RATIO as int),
            cam.window_width == window_width,
            cam.window_height == window_height,
            cam.z_axis == initial_axis(),
            cam.position == initial_position(),
            cam_wf(cam),
            cam.ray_directions@ == spec_table(
                initial_axis(),
                cam.viewport_width,
                cam.viewport_height,
                window_width as int,
                window_height as int,
            ),
            cam.ray_directions@.len() == window_width * window_height,
            forall|k: int|
                0 <= k < cam.ray_directions@.len() ==> v3_mag_le(
                    #[trigger] cam.ray_directions@[k],
                    134217728,
                ),
    {
        proof {
            lemma_fpm_bound(half_fov_tan as int, ASPECT_RATIO as int, 2359296, 116508, 4194304);
            vstd::arithmetic::div_mod::lemma_div_pos_is_pos(
                half_fov_tan as int * 116508,
                65536,
            );
            assert(half_fov_tan as int * 116508 >= 76312740) by (nonlinear_arith)
                requires
                    half_fov_tan >= 655,
            ;
            vstd::arithmetic::div_mod::lemma_div_is_ordered(
                76312740,
                half_fov_tan as int * 116508,
                65536,
            );
        }
        let viewport_height = half_fov_tan;
        let viewport_width = fp_mul(viewport_height, ASPECT_RATIO);
        let z_axis = Vec3::new(0, 0, -65536);
        let mut camera = Camera {
            position: Vec3::new(0, 0, 393216),
            viewport_height,
            viewport_width,
            window_height,
            window_width,
            ray_directions: Vec::new(),
            z_axis,
        };
        proof {
            lemma_initial_axis_wf(viewport_width);
            assert(cam_wf(camera));
        }
        camera.calculate_ray_directions();
        camera
    }

    /// Moves the position along the camera's (unnormalized) right axis,
    /// `cross(z_axis, up)`, by the signed distance `x`.
    pub fn update_x_position(&mut self, x: i64)
        requires
            cam_wf(*old(self)),
            -4194304 <= x <= 4194304,
        ensures
            final(self).position.x == old(self).position.x + fpm(
                fp3_cross_x(old(self).z_axis, world_up()),
                x as int,
            ),
            final(self).position.y == old(self).position.y + fpm(
                fp3_cross_y(old(self).z_axis, world_up()),
                x as int,
            ),
            final(self).position.z == old(self).position.z + fpm(
                fp3_cross_z(old(self).z_axis, world_up()),
                x as int,
            ),
            final(self).z_axis == old(self).z_axis,
            final(self).ray_directions == old(self).ray_directions,
            final(self).viewport_width == old(self).viewport_width,
            final(self).viewport_height == old(self).viewport_height,
            final(self).window_width == old(self).window_width,
            final(self).window_height == old(self).window_height,
    {
        let up = Vec3::new(0, 65536, 0);
        proof {
            lemma_fpm_bound(self.z_axis.y as int, up.z as int, 16777216, 65536, 16777216);
            lemma_fpm_bound(self.z_axis.z as int, up.y as int, 16777216, 65536, 16777216);
            lemma_fpm_bound(self.z_axis.z as int, up.x as int, 16777216, 65536, 16777216);
            lemma_fpm_bound(self.z_axis.x as int, up.z as int, 16777216, 65536, 16777216);
            lemma_fpm_bound(self.z_axis.x as int, up.y as int, 16777216, 65536, 16777216);
            lemma_fpm_bound(self.z_axis.y as int, up.x as int, 16777216, 65536, 16777216);
        }
        let cr = fp_cross(&self.z_axis, &up);
        proof {
            lemma_fpm_bound(cr.x as int, x as int, 33554432, 4194304, 2147483648);
            lemma_fpm_bound(cr.y as int, x as int, 33554432, 4194304, 2147483648);
            lemma_fpm_bound(cr.z as int, x as int, 33554432, 4194304, 2147483648);
        }
        let step = fp_scale(&cr, x);
        self.position = Vec3::new(
            self.position.x + step.x,
            self.position.y + step.y,
            self.position.z + step.z,
        );
    }

    /// Moves the position straight up or down by the signed distance `y`.
    pub fn update_y_position(&mut self, y: i64)
        requires
            crate::arith::in_i64(old(self).position.y + y),
        ensures
            final(self).position.y == old(self).position.y + y,
            final(self).position.x == old(self).position.x,
            final(self).position.z == old(self).position.z,
            final(self).z_axis == old(self).z_axis,
            final(self).ray_directions == old(self).ray_directions,
            final(self).viewport_width == old(self).viewport_width,
            final(self).viewport_height == old(self).viewport_height,
            final(self).window_width == old(self).window_width,
            final(self).window_height == old(self).window_height,
    {
        self.position = Vec3::new(self.position.x, self.position.y + y, self.position.z);
    }

    /// Moves the position along the forward axis by the signed distance `z`.
    pub fn update_z_position(&mut self, z: i64)
        requires
            cam_wf(*old(self)),
            -4194304 <= z <= 4194304,
        ensures
            final(self).position.x == old(self).position.x + fpm(
                old(self).z_axis.x as int,
                z as int,
            ),
            final(self).position.y == old(self).position.y + fpm(
                old(self).z_axis.y as int,
                z as int,
            ),
            final(self).position.z == old(self).position.z + fpm(
                old(self).z_axis.z as int,
                z as int,
            ),
            final(self).z_axis == old(self).z_axis,
            final(self).ray_directions == old(self).ray_directions,
            final(self).viewport_width == old(self).viewport_width,
            final(self).viewport_height == old(self).viewport_height,
            final(self).window_width == old(self).window_width,
            final(self).window_height == old(self).window_height,
    {
        proof {
            lemma_fpm_bound(self.z_axis.x as int, z as int, 16777216, 4194304, 1073741824);
            lemma_fpm_bound(self.z_axis.y as int, z as int, 16777216, 4194304, 1073741824);
            lemma_fpm_bound(self.z_axis.z as int, z as int, 16777216, 4194304, 1073741824);
        }
        let step = fp_scale(&self.z_axis, z);
        self.position = Vec3::new(
            self.position.x + step.x,
            self.position.y + step.y,
            self.position.z + step.z,
        );
    }

    /// Rotates the forward axis: a pitch about the camera's right axis
    /// composed with a yaw about world up, as a normalized quaternion
    /// applied by conjugation. The caller passes the cosine and sine of half
    /// of each (already negated) rotation angle and must rebuild the
    /// ray-direction table afterward.
    pub fn rotate(&mut self, pitch_half_cos: i64, pitch_half_sin: i64, yaw_half_cos: i64, yaw_half_sin: i64)
        requires
            cam_wf(*old(self)),
            -65536 <= pitch_half_cos <= 65536,
            -65536 <= pitch_half_sin <= 65536,
            -65536 <= yaw_half_cos <= 65536,
            -65536 <= yaw_half_sin <= 65536,
        ensures
            final(self).z_axis == spec_rotated_axis(
                old(self).z_axis,
                spec_norm(spec_cross(old(self).z_axis, world_up())),
                pitch_half_cos,
                pitch_half_sin,
                yaw_half_cos,
                yaw_half_sin,
            ),
            final(self).position == old(self).position,
            final(self).ray_directions == old(self).ray_directions,
            final(self).viewport_width == old(self).viewport_width,
            final(self).viewport_height == old(self).viewport_height,
            final(self).window_width == old(self).window_width,
            final(self).window_height == old(self).window_height,
    {
        let up = Vec3::new(0, 65536, 0);
        proof {
            lemma_fpm_bound(self.z_axis.y as int, up.z as int, 16777216, 65536, 16777216);
            lemma_fpm_bound(self.z_axis.z as int, up.y as int, 16777216, 65536, 16777216);
            lemma_fpm_bound(self.z_axis.z as int, up.x as int, 16777216, 65536, 16777216);
            lemma_fpm_bound(self.z_axis.x as int, up.z as int, 16777216, 65536, 16777216);
            lemma_fpm_bound(self.z_axis.x as int, up.y as int, 16777216, 65536, 16777216);
            lemma_fpm_bound(self.z_axis.y as int, up.x as int, 16777216, 65536, 16777216);
        }
        let right_n = fp_normalize(&fp_cross(&self.z_axis, &up));
        let qp = Quat::angle_axis(pitch_half_cos, pitch_half_sin, &right_n);
        let qy = Quat::angle_axis(yaw_half_cos, yaw_half_sin, &up);
        let q0 = fp_quat_cross(&qp, &qy);
        proof {
            lemma_q0_bounds(qp, qy);
        }
        let ql = fp_quat_length(&q0);
        if ql >= 1 {
            let qn = fp_quat_normalize(&q0);
            self.z_axis = fp_rotate(&self.z_axis, &qn);
        }
    }
    pub fn calculate_ray_directions(&mut self)
        requires
            cam_wf(*old(self)),
        ensures
            final(self).viewport_height == old(self).viewport_height,
            final(self).viewport_width == old(self).viewport_width,
            final(self).window_width == old(self).window_width,
            final(self).window_height == old(self).window_height,
            final(self).z_axis == old(self).z_axis,
            final(self).position == old(self).position,
            final(self).ray_directions@ == spec_table(
                old(self).z_axis,
                old(self).viewport_width,
                old(self).viewport_height,
                old(self).window_width as int,
                old(self).window_height as int,
            ),
            final(self).ray_directions@.len() == old(self).window_width * old(
                self,
            ).window_height,
            forall|k: int|
                0 <= k < final(self).ray_directions@.len() ==> v3_mag_le(
                    #[trigger] final(self).ray_directions@[k],
                    134217728,
                ),
    {
        let up = Vec3::new(0, 65536, 0);
        proof {
            lemma_fpm_bound(self.z_axis.y as int, up.z as int, 16777216, 65536, 16777216);
            lemma_fpm_bound(self.z_axis.z as int, up.y as int, 16777216, 65536, 16777216);
            lemma_fpm_bound(self.z_axis.z as int, up.x as int, 16777216, 65536, 16777216);
            lemma_fpm_bound(self.z_axis.x as int, up.z as int, 16777216, 65536, 16777216);
            lemma_fpm_bound(self.z_axis.x as int, up.y as int, 16777216, 65536, 16777216);
            lemma_fpm_bound(self.z_axis.y as int, up.x as int, 16777216, 65536, 16777216);
        }
        let right_raw = fp_cross(&self.z_axis, &up);
        let right_n = fp_normalize(&right_raw);
        let half_w = self.viewport_width / 2;
        proof {
            lemma_fpm_bound(right_n.x as int, half_w as int, 131072, 2097152, 4194304);
            lemma_fpm_bound(right_n.y as int, half_w as int, 131072, 2097152, 4194304);
            lemma_fpm_bound(right_n.z as int, half_w as int, 131072, 2097152, 4194304);
        }
        let right_dir = fp_scale(&right_n, half_w);
        proof {
            lemma_fpm_bound(self.z_axis.y as int, right_dir.z as int, 16777216, 4194304, 1073741824);
            lemma_fpm_bound(self.z_axis.z as int, right_dir.y as int, 16777216, 4194304, 1073741824);
            lemma_fpm_bound(self.z_axis.z as int, right_dir.x as int, 16777216, 4194304, 1073741824);
            lemma_fpm_bound(self.z_axis.x as int, right_dir.z as int, 16777216, 4194304, 1073741824);
            lemma_fpm_bound(self.z_axis.x as int, right_dir.y as int, 16777216, 4194304, 1073741824);
            lemma_fpm_bound(self.z_axis.y as int, right_dir.x as int, 16777216, 4194304, 1073741824);
        }
        let up_raw = fp_cross(&self.z_axis, &right_dir);
        let up_n = fp_normalize(&up_raw);
        let half_h = self.viewport_height / 2;
        proof {
            lemma_fpm_bound(up_n.x as int, half_h as int, 131072, 2097152, 4194304);
            lemma_fpm_bound(up_n.y as int, half_h as int, 131072, 2097152, 4194304);
            lemma_fpm_bound(up_n.z as int, half_h as int, 131072, 2097152, 4194304);
        }
        let up_dir = fp_scale(&up_n, half_h);
        let ghost z = self.z_axis;
        let ghost vw = self.viewport_width;
        let ghost vh = self.viewport_height;
        let w = self.window_width;
        let h = self.window_height;
        proof {
            assert(right_dir == spec_right_dir(z, vw));
            assert(up_raw == spec_up_raw(z, vw));
            assert(up_dir == spec_up_dir(z, vw, vh));
        }
        let mut table: Vec<Vec3> = Vec::new();
        let mut y: usize = 0;
        while y < h
            invariant
                cam_wf(*self),
                w == self.window_width,
                h == self.window_height,
                z == self.z_axis,
                vw == self.viewport_width,
                vh == self.viewport_height,
                right_dir == spec_right_dir(z, vw),
                up_dir == spec_up_dir(z, vw, vh),
                v3_mag_le(right_dir, 4194304),
                v3_mag_le(up_dir, 4194304),
                y <= h,
                table@.len() == y * w,
                forall|k: int|
                    0 <= k < table@.len() ==> table@[k] == #[trigger] spec_table_dir(
                        z,
                        right_dir,
                        up_dir,
                        w as int,
                        h as int,
                        k,
                    ),
                forall|k: int|
                    0 <= k < table@.len() ==> v3_mag_le(#[trigger] table@[k], 134217728),
            decreases h - y,
        {
            let v = (y as i64 * 131072) / (h as i64) - 65536;
            proof {
                vstd::arithmetic::div_mod::lemma_div_pos_is_pos(y as int * 131072, h as int);
                vstd::arithmetic::div_mod::lemma_div_is_ordered(
                    y as int * 131072,
                    h as int * 131072,
                    h as int,
                );
                vstd::arithmetic::div_mod::lemma_div_multiples_vanish(131072, h as int);
                assert(v == spec_ndc(y as int, h as int));
                assert(-65536 <= v <= 65536);
            }
            let mut x: usize = 0;
            while x < w
                invariant
                    cam_wf(*self),
                    w == self.window_width,
                    h == self.window_height,
                    z == self.z_axis,
                    vw == self.viewport_width,
                    vh == self.viewport_height,
                    right_dir == spec_right_dir(z, vw),
                    up_dir == spec_up_dir(z, vw, vh),
                    v3_mag_le(right_dir, 4194304),
                    v3_mag_le(up_dir, 4194304),
                    y < h,
                    x <= w,
                    v == spec_ndc(y as int, h as int),
                    -65536 <= v <= 65536,
                    table@.len() == y * w + x,
                    forall|k: int|
                        0 <= k < table@.len() ==> table@[k] == #[trigger] spec_table_dir(
                            z,
                            right_dir,
                            up_dir,
                            w as int,
                            h as int,
                            k,
                        ),
                    forall|k: int|
                        0 <= k < table@.len() ==> v3_mag_le(#[trigger] table@[k], 134217728),
                decreases w - x,
            {
                let u = (x as i64 * 131072) / (w as i64) - 65536;
                proof {
                    vstd::arithmetic::div_mod::lemma_div_pos_is_pos(x as int * 131072, w as int);
                    vstd::arithmetic::div_mod::lemma_div_is_ordered(
                        x as int * 131072,
                        w as int * 131072,
                        w as int,
                    );
                    vstd::arithmetic::div_mod::lemma_div_multiples_vanish(131072, w as int);
                    assert(u == spec_ndc(x as int, w as int));
                    assert(-65536 <= u <= 65536);
                    lemma_fpm_bound(right_dir.x as int, u as int, 4194304, 65536, 4194304);
                    lemma_fpm_bound(right_dir.y as int, u as int, 4194304, 65536, 4194304);
                    lemma_fpm_bound(right_dir.z as int, u as int, 4194304, 65536, 4194304);
                    lemma_fpm_bound(up_dir.x as int, v as int, 4194304, 65536, 4194304);
                    lemma_fpm_bound(up_dir.y as int, v as int, 4194304, 65536, 4194304);
                    lemma_fpm_bound(up_dir.z as int, v as int, 4194304, 65536, 4194304);
                }
                let ru = fp_scale(&right_dir, u);
                let vu = fp_scale(&up_dir, v);
                let dir = Vec3::new(
                    self.z_axis.x + ru.x + vu.x,
                    self.z_axis.y + ru.y + vu.y,
                    self.z_axis.z + ru.z + vu.z,
                );
                proof {
                    let k = (y * w + x) as int;
                    vstd::arithmetic::div_mod::lemma_fundamental_div_mod_converse(
                        k,
                        w as int,
                        y as int,
                        x as int,
                    );
                    assert(k / (w as int) == y as int && k % (w as int) == x as int);
                    assert(dir == spec_table_dir(z, right_dir, up_dir, w as int, h as int, k));
                }
                table.push(dir);
                x = x + 1;
            }
            proof {
                assert(y * w + w == (y + 1) * w) by (nonlinear_arith);
            }
            y = y + 1;
        }
        proof {
            assert(table@.len() == h * w);
        }
        self.ray_directions = table;
        proof {
            assert(self.ray_directions@ =~= spec_table(z, vw, vh, w as int, h as int));
        }
    }
}

/// The initial axis `(0, 0, -1)` yields a usable camera basis for any
/// viewport width in the accepted range.
proof fn lemma_initial_axis_wf(vw: i64)
    requires
        1164 <= vw <= 4194304,
    ensures
        fp3_len(spec_cross(initial_axis(), world_up())) >= 1,
        fp3_len(spec_up_raw(initial_axis(), vw)) >= 1,
{
    let z = initial_axis();
    let u = world_up();
    vstd::arithmetic::div_mod::lemma_div_multiples_vanish(65536, 65536);
    assert(fpm(-65536, 65536) == -65536);
    assert(fpm(65536, 65536) == 65536);
    let rc = spec_cross(z, u);
    assert(rc == Vec3 { x: 65536i64, y: 0i64, z: 0i64 });
    assert(crate::fixed::fp3_dot(rc, rc) == 65536);
    crate::fixed::lemma_isqrt_unique(4294967296, 65536);
    assert(fp3_len(rc) == 65536);
    let h = (vw / 2) as i64;
    assert(582 <= h <= 2097152);
    vstd::arithmetic::div_mod::lemma_div_multiples_vanish(h as int, 65536);
    assert(65536 * (h as int) > 0) by (nonlinear_arith)
        requires
            h >= 582,
    ;
    assert(fpm(65536, h as int) == h);
    assert(fpm(-65536, h as int) == -h) by {
        assert((-65536) * (h as int) == -(65536 * (h as int))) by (nonlinear_arith);
    };
    let rn = spec_norm(rc);
    vstd::arithmetic::div_mod::lemma_div_multiples_vanish(1, 65536);
    assert(fpd(65536, 65536) == 65536);
    assert(fpd(0, 65536) == 0);
    assert(rn == Vec3 { x: 65536i64, y: 0i64, z: 0i64 });
    let rd = spec_right_dir(z, vw);
    assert(rd == Vec3 { x: h, y: 0i64, z: 0i64 });
    let ur = spec_up_raw(z, vw);
    assert(ur == Vec3 { x: 0i64, y: (-h) as i64, z: 0i64 });
    let d = crate::fixed::fp3_dot(ur, ur);
    assert((-(h as int)) * (-(h as int)) == (h as int) * (h as int)) by (nonlinear_arith);
    assert((h as int) * (h as int) >= 338724) by (nonlinear_arith)
        requires
            h >= 582,
    ;
    vstd::arithmetic::div_mod::lemma_div_pos_is_pos((h as int) * (h as int), 65536);
    vstd::arithmetic::div_mod::lemma_div_is_ordered(338724, (h as int) * (h as int), 65536);
    assert(d >= 5);
    crate::fixed::lemma_isqrt_bracket(d * 65536);
    let r = crate::fixed::isqrt(d * 65536);
    assert(r >= 1) by (nonlinear_arith)
        requires
            r >= 0,
            (r + 1) * (r + 1) > d * 65536,
            d >= 5,
    ;
}

/// The product of two magnitude-bounded rotation quaternions has components
/// within `FP_VEC_CAP`.
proof fn lemma_q0_bounds(a: Quat, b: Quat)
    requires
        q_mag_le(a, 131072),
        q_mag_le(b, 131072),
    ensures
        -1048576 <= crate::fixed::fpq_w(a, b) <= 1048576,
        -1048576 <= crate::fixed::fpq_x(a, b) <= 1048576,
        -1048576 <= crate::fixed::fpq_y(a, b) <= 1048576,
        -1048576 <= crate::fixed::fpq_z(a, b) <= 1048576,
{
    lemma_fpm_bound(a.w as int, b.w as int, 131072, 131072, 262144);
    lemma_fpm_bound(a.w as int, b.v.x as int, 131072, 131072, 262144);
    lemma_fpm_bound(a.w as int, b.v.y as int, 131072, 131072, 262144);
    lemma_fpm_bound(a.w as int, b.v.z as int, 131072, 131072, 262144);
    lemma_fpm_bound(a.v.x as int, b.w as int, 131072, 131072, 262144);
    lemma_fpm_bound(a.v.x as int, b.v.x as int, 131072, 131072, 262144);
    lemma_fpm_bound(a.v.x as int, b.v.y as int, 131072, 131072, 262144);
    lemma_fpm_bound(a.v.x as int, b.v.z as int, 131072, 131072, 262144);
    lemma_fpm_bound(a.v.y as int, b.w as int, 131072, 131072, 262144);
    lemma_fpm_bound(a.v.y as int, b.v.x as int, 131072, 131072, 262144);
    lemma_fpm_bound(a.v.y as int, b.v.y as int, 131072, 131072, 262144);
    lemma_fpm_bound(a.v.y as int, b.v.z as int, 131072, 131072, 262144);
    lemma_fpm_bound(a.v.z as int, b.w as int, 131072, 131072, 262144);
    lemma_fpm_bound(a.v.z as int, b.v.x as int, 131072, 131072, 262144);
    lemma_fpm_bound(a.v.z as int, b.v.y as int, 131072, 131072, 262144);
    lemma_fpm_bound(a.v.z as int, b.v.z as int, 131072, 131072, 262144);
}

} // verus!
