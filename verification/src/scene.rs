//! The scene: a closed set of object variants, the object list whose
//! insertion order breaks intersection ties, and the camera.

use vstd::prelude::*;

use crate::camera::{cam_wf, initial_axis, initial_position, spec_table, Camera, ASPECT_RATIO};
use crate::hittable::{sphere_ok, Sphere, POS_CAP};
use crate::ray::Ray;

verus! {

/// The tangent of half of a 45-degree field of view, in Q16.16.
pub const HALF_FOV_TAN_45: i64 = 27146;

/// The closed set of intersectable objects; dispatch is by exhaustive match.
#[derive(Clone, Copy, Debug, PartialEq, Eq, Structural)]
pub enum Object {
    Sphere(Sphere),
}

/// The geometric bounds every scene object must satisfy.
pub open spec fn object_ok(o: Object) -> bool {
    match o {
        Object::Sphere(s) => sphere_ok(s),
    }
}

pub struct Scene {
    pub objects: Vec<Object>,
    pub camera: Camera,
    pub window_width: u32,
    pub window_height: u32,
    pub frame_count: u32,
}

/// Well-formedness of a scene: a well-formed camera matching the window
/// size, a valid ray-direction table, and bounded objects.
pub open spec fn scene_wf(s: Scene) -> bool {
    &&& cam_wf(s.camera)
    &&& s.camera.window_width == s.window_width
    &&& s.camera.window_height == s.window_height
    &&& s.camera.ray_directions@ == spec_table(
        s.camera.z_axis,
        s.camera.viewport_width,
        s.camera.viewport_height,
        s.window_width as int,
        s.window_height as int,
    )
    &&& s.camera.ray_directions@.len() == s.window_width * s.window_height
    &&& forall|k: int|
        0 <= k < s.camera.ray_directions@.len() ==> crate::fixed::v3_mag_le(
            #[trigger] s.camera.ray_directions@[k],
            134217728,
        )
    &&& forall|i: int| 0 <= i < s.objects@.len() ==> object_ok(#[trigger] s.objects@[i])
}

/// What one frame's rendering needs of a scene: a bounded window, a camera
/// position inside the world, a full cache of bounded ray directions, and
/// bounded objects. Implied by `scene_wf`, and decidable at run time by
/// `is_renderable`.
pub open spec fn scene_renderable(s: Scene) -> bool {
    &&& s.window_width <= 4096
    &&& s.window_height <= 4096
    &&& crate::fixed::v3_mag_le(s.camera.position, POS_CAP as int)
    &&& s.camera.ray_directions@.len() == s.window_width * s.window_height
    &&& forall|k: int|
        0 <= k < s.camera.ray_directions@.len() ==> crate::fixed::v3_mag_le(
            #[trigger] s.camera.ray_directions@[k],
            134217728,
        )
    &&& forall|i: int| 0 <= i < s.objects@.len() ==> object_ok(#[trigger] s.objects@[i])
}

/// The primary ray of framebuffer position `p` (row-major, top row first):
/// the camera position with the cached direction at index `x + y * width`,
/// where `y == p / width` counts down from the top row.
pub open spec fn pixel_ray(s: Scene, p: int) -> Ray {
    let w = s.window_width as int;
    let x = p % w;
    let y = p / w;
    Ray { origin: s.camera.position, direction: s.camera.ray_directions@[x + y * w] }
}

impl Scene {
    /// Builds an empty scene with a 45-degree camera for the given window:
    /// the camera starts at the initial position looking down the negative
    /// z axis, with its ray-direction table already computed.
    pub fn new(window_width: u32, window_height: u32) -> (s: Scene)
        requires
            1 <= window_width <= 4096,
            1 <= window_height <= 4096,
        ensures
            s.objects@.len() == 0,
            s.window_width == window_width,
            s.window_height == window_height,
            s.frame_count == 0,
            scene_wf(s),
            s.camera.viewport_height == HALF_FOV_TAN_45,
            s.camera.viewport_width == crate::fixed::fpm(
                HALF_FOV_TAN_45 as int,
                ASPECT_RATIO as int,
            ),
            s.camera.z_axis == initial_axis(),
            s.camera.position == initial_position(),
            s.camera.window_width == window_width,
            s.camera.window_height == window_height,
    {
        Scene {
            camera: Camera::new(HALF_FOV_TAN_45, window_width as usize, window_height as usize),
            objects: Vec::new(),
            window_height,
            window_width,
            frame_count: 0,
        }
    }

    /// Decides at run time whether the scene can be rendered, so that
    /// unverified callers can guard `render`.
    pub fn is_renderable(&self) -> (b: bool)
        ensures
            b == scene_renderable(*self),
    {
        if !(self.window_width <= 4096 && self.window_height <= 4096) {
            return false;
        }
        let p = &self.camera.position;
        if !(p.x <= POS_CAP && p.x >= -POS_CAP && p.y <= POS_CAP && p.y >= -POS_CAP && p.z
            <= POS_CAP && p.z >= -POS_CAP) {
            return false;
        }
        proof {
            assert(self.window_width * self.window_height <= 16777216) by (nonlinear_arith)
                requires
                    self.window_width <= 4096,
                    self.window_height <= 4096,
            ;
        }
        let expected = (self.window_width as usize) * (self.window_height as usize);
        if self.camera.ray_directions.len() != expected {
            return false;
        }
        let mut k: usize = 0;
        while k < self.camera.ray_directions.len()
            invariant
                k <= self.camera.ray_directions@.len(),
                forall|j: int|
                    0 <= j < k ==> crate::fixed::v3_mag_le(
                        #[trigger] self.camera.ray_directions@[j],
                        134217728,
                    ),
            decreases self.camera.ray_directions@.len() - k,
        {
            let d = &self.camera.ray_directions[k];
            if !(d.x <= 134217728 && d.x >= -134217728 && d.y <= 134217728 && d.y >= -134217728
                && d.z <= 134217728 && d.z >= -134217728) {
                proof {
                    assert(!crate::fixed::v3_mag_le(self.camera.ray_directions@[k as int], 134217728));
                }
                return false;
            }
            k = k + 1;
        }
        let mut i: usize = 0;
        while i < self.objects.len()
            invariant
                i <= self.objects@.len(),
                forall|j: int| 0 <= j < i ==> object_ok(#[trigger] self.objects@[j]),
            decreases self.objects@.len() - i,
        {
            match &self.objects[i] {
                Object::Sphere(s) => {
                    if !(s.center.x <= POS_CAP && s.center.x >= -POS_CAP && s.center.y <= POS_CAP
                        && s.center.y >= -POS_CAP && s.center.z <= POS_CAP && s.center.z
                        >= -POS_CAP && 0 <= s.radius && s.radius <= POS_CAP && 0 <= s.color.x
                        && s.color.x <= 65536 && 0 <= s.color.y && s.color.y <= 65536 && 0
                        <= s.color.z && s.color.z <= 65536) {
                        proof {
                            assert(!object_ok(self.objects@[i as int]));
                        }
                        return false;
                    }
                },
            }
            i = i + 1;
        }
        true
    }
}

} // verus!
