use ray_tracer::camera::Camera;
use ray_tracer::fixed::{fp_cross, fp_div, fp_dot, fp_length, fp_mul, fp_normalize, fp_rotate, FP_ONE};
use ray_tracer::hittable::Sphere;
use ray_tracer::quat::Quat;
use ray_tracer::ray::{Ray, Rgb};
use ray_tracer::scene::{Object, Scene};
use ray_tracer::vec3::Vec3;

const T_MAX: i64 = 268435456;

fn unit_sphere_scene() -> Vec<Object> {
    vec![Object::Sphere(Sphere {
        radius: FP_ONE / 2,
        center: Vec3::new(0, 0, -FP_ONE),
        color: Vec3::new(FP_ONE, 0, 0),
    })]
}

#[test]
fn fixed_dot_matches_reals() {
    // (1.5, 2.5, 10) . (20.5, 3, 3) == 68.25, exactly representable.
    let a = Vec3::new(98304, 163840, 655360);
    let b = Vec3::new(1343488, 196608, 196608);
    assert_eq!(fp_dot(&a, &b), 4472832);
}

#[test]
fn fixed_cross_matches_reals() {
    // (1.5, 2.5, 10) x (20.5, 3, 3) == (-22.5, 200.5, -46.75).
    let a = Vec3::new(98304, 163840, 655360);
    let b = Vec3::new(1343488, 196608, 196608);
    let c = fp_cross(&a, &b);
    assert_eq!(c, Vec3::new(-1474560, 13139968, -3063808));
}

#[test]
fn fixed_length_of_531() {
    // |(5, 3, 1)| == sqrt(35).
    let v = Vec3::new(5 * FP_ONE, 3 * FP_ONE, FP_ONE);
    assert_eq!(fp_length(&v), 387716);
}

#[test]
fn normalized_vector_has_unit_length() {
    // (3, 0, 4) normalizes to (0.6, 0, 0.8); its squared length stays within
    // a few fixed-point ticks of one.
    let v = Vec3::new(3 * FP_ONE, 0, 4 * FP_ONE);
    let n = fp_normalize(&v);
    assert_eq!(n, Vec3::new(39321, 0, 52428));
    let sq = fp_dot(&n, &n);
    assert!((sq - FP_ONE).abs() <= 4);
}

#[test]
fn sphere_hit_straight_on() {
    // A ray from the origin toward -z strikes the half-radius sphere at
    // z == -1 at t == 0.5 with outward normal (0, 0, 1).
    let sphere = Sphere {
        radius: FP_ONE / 2,
        center: Vec3::new(0, 0, -FP_ONE),
        color: Vec3::new(FP_ONE, 0, 0),
    };
    let ray = Ray { origin: Vec3::new(0, 0, 0), direction: Vec3::new(0, 0, -FP_ONE) };
    let hit = sphere.hit(&ray, 0, T_MAX).unwrap();
    assert_eq!(hit.t, FP_ONE / 2);
    assert_eq!(hit.normal, Vec3::new(0, 0, FP_ONE));
    assert!(hit.front_face);
    assert_eq!(hit.hit_position, Vec3::new(0, 0, -FP_ONE / 2));
}

#[test]
fn sphere_missed_entirely() {
    let sphere = Sphere {
        radius: FP_ONE / 2,
        center: Vec3::new(10 * FP_ONE, 10 * FP_ONE, 10 * FP_ONE),
        color: Vec3::new(FP_ONE, 0, 0),
    };
    let ray = Ray { origin: Vec3::new(0, 0, 0), direction: Vec3::new(0, 0, -FP_ONE) };
    assert!(sphere.hit(&ray, 0, T_MAX).is_none());
}

#[test]
fn ray_hit_picks_nearest_object() {
    let near = Sphere {
        radius: FP_ONE / 2,
        center: Vec3::new(0, 0, -FP_ONE),
        color: Vec3::new(FP_ONE, 0, 0),
    };
    let far = Sphere {
        radius: FP_ONE / 2,
        center: Vec3::new(0, 0, -3 * FP_ONE),
        color: Vec3::new(0, FP_ONE, 0),
    };
    let objects = vec![Object::Sphere(far), Object::Sphere(near)];
    let ray = Ray { origin: Vec3::new(0, 0, 0), direction: Vec3::new(0, 0, -FP_ONE) };
    let hit = ray.hit(&objects, 0, T_MAX).unwrap();
    assert_eq!(hit.t, FP_ONE / 2);
    assert_eq!(hit.object_color, Vec3::new(FP_ONE, 0, 0));
}

fn ball_samples(n: usize) -> Vec<Vec3> {
    vec![Vec3::new(0, 0, FP_ONE / 2); n]
}

#[test]
fn color_at_zero_depth_is_black() {
    let objects = unit_sphere_scene();
    let ray = Ray { origin: Vec3::new(0, 0, 0), direction: Vec3::new(0, 0, -FP_ONE) };
    let c = ray.color_with_dirs(&objects, 655, T_MAX, 0, &ball_samples(0));
    assert_eq!(c, Rgb { r: 0, g: 0, b: 0 });
}

#[test]
fn miss_returns_sky_color() {
    let objects = unit_sphere_scene();
    let ray = Ray { origin: Vec3::new(0, 0, 0), direction: Vec3::new(0, 0, FP_ONE) };
    let c = ray.color_with_dirs(&objects, 655, T_MAX, 10, &ball_samples(10));
    assert_eq!(c, Rgb { r: 135, g: 206, b: 235 });
}

#[test]
fn single_bounce_shading_value() {
    // Straight-on hit of the red sphere: the shade is the normal dotted
    // with the direction toward the light, 37837 in Q16.16, and the bounce
    // ray escapes, so the red channel is 37837 * 255.99 rounded down.
    let objects = unit_sphere_scene();
    let ray = Ray { origin: Vec3::new(0, 0, 0), direction: Vec3::new(0, 0, -FP_ONE) };
    let c = ray.color_with_dirs(&objects, 655, T_MAX, 10, &ball_samples(10));
    assert_eq!(c, Rgb { r: 147, g: 0, b: 0 });
}

#[test]
fn camera_rays_table_size_and_rebuild() {
    let mut cam = Camera::new(27146, 4, 3);
    assert_eq!(cam.ray_directions.len(), 12);
    let before = cam.ray_directions.clone();
    cam.calculate_ray_directions();
    assert_eq!(before, cam.ray_directions);
}

#[test]
fn camera_table_invalidated_by_rotation() {
    let mut cam = Camera::new(27146, 4, 3);
    let before = cam.ray_directions.clone();
    // Half-angle cosine/sine of a 0.2 radian pitch and no yaw.
    cam.rotate(65208, 6542, FP_ONE, 0);
    cam.calculate_ray_directions();
    assert_ne!(before, cam.ray_directions);
}

#[test]
fn rotation_quat_matches_rotation_matrix() {
    // Rotating (1, 0, 0) by 45 degrees about normalize((1, 1, 0)) through
    // the quaternion path agrees with the fixed rotation matrix for that
    // rotation to within a few fixed-point ticks.
    let v = Vec3::new(FP_ONE, 0, 0);
    let axis = fp_normalize(&Vec3::new(FP_ONE, FP_ONE, 0));
    // cos(22.5 deg) and sin(22.5 deg) in Q16.16.
    let q = Quat::angle_axis(60547, 25079, &axis);
    let rotated = fp_rotate(&v, &q);

    // The 45-degree rotation matrix about that axis, row-major in Q16.16.
    let m = [55938, 9597, 32768, 9597, 55938, -32768, -32768, 32768, 46340];
    let by_matrix = Vec3::new(
        fp_mul(m[0], v.x) + fp_mul(m[1], v.y) + fp_mul(m[2], v.z),
        fp_mul(m[3], v.x) + fp_mul(m[4], v.y) + fp_mul(m[5], v.z),
        fp_mul(m[6], v.x) + fp_mul(m[7], v.y) + fp_mul(m[8], v.z),
    );
    assert!((rotated.x - by_matrix.x).abs() <= 16);
    assert!((rotated.y - by_matrix.y).abs() <= 16);
    assert!((rotated.z - by_matrix.z).abs() <= 16);
}

#[test]
fn scene_starts_empty_with_valid_camera() {
    let scene = Scene::new(16, 9);
    assert_eq!(scene.objects.len(), 0);
    assert_eq!(scene.frame_count, 0);
    assert_eq!(scene.camera.ray_directions.len(), 16 * 9);
}

#[test]
fn image_starts_empty() {
    let img = ray_tracer::image::Image::new(320, 180);
    assert_eq!(img.width, 320);
    assert_eq!(img.height, 180);
    assert!(img.data.is_empty());
}

#[test]
fn window_holds_configuration() {
    let w = ray_tracer::window::Window::new(1280, 720, "tracer");
    assert_eq!(w.width, 1280);
    assert_eq!(w.height, 720);
    assert_eq!(w.title, "tracer");
}

#[test]
fn sample_rng_is_deterministic() {
    let mut a = ray_tracer::rng::SampleRng::new(42);
    let mut b = ray_tracer::rng::SampleRng::new(42);
    for _ in 0..32 {
        assert_eq!(a.unit_fp(), b.unit_fp());
    }
    let mut c = ray_tracer::rng::SampleRng::new(43);
    let mut differs = false;
    for _ in 0..32 {
        if a.unit_fp() != c.unit_fp() {
            differs = true;
        }
    }
    assert!(differs);
}

#[test]
fn unit_ball_samples_are_interior() {
    let mut rng = ray_tracer::rng::SampleRng::new(7);
    for _ in 0..64 {
        let v = ray_tracer::rng::random_in_unit_ball(&mut rng);
        assert!(fp_dot(&v, &v) < FP_ONE);
        assert!(v.x.abs() <= FP_ONE && v.y.abs() <= FP_ONE && v.z.abs() <= FP_ONE);
    }
}

#[test]
fn uniform_samples_are_in_range() {
    let mut rng = ray_tracer::rng::SampleRng::new(11);
    for _ in 0..32 {
        let v = ray_tracer::rng::random_vec3(&mut rng);
        assert!(0 <= v.x && v.x < FP_ONE);
        assert!(0 <= v.y && v.y < FP_ONE);
        assert!(0 <= v.z && v.z < FP_ONE);
        let q = ray_tracer::rng::random_quat(&mut rng);
        assert!(0 <= q.w && q.w < FP_ONE);
        let u = ray_tracer::rng::random_vec4(&mut rng);
        assert!(0 <= u.w && u.w < FP_ONE);
    }
}

#[test]
fn empty_scene_renders_all_sky() {
    let mut scene = Scene::new(4, 3);
    let mut rng = ray_tracer::rng::SampleRng::new(1);
    let frame = scene.render(&mut rng);
    assert_eq!(frame.len(), 12);
    for px in &frame {
        assert_eq!(*px, Rgb { r: 135, g: 206, b: 235 });
    }
    assert_eq!(scene.frame_count, 1);
}

#[test]
fn seeded_renders_are_reproducible() {
    let build = || {
        let mut s = Scene::new(8, 6);
        s.objects.push(Object::Sphere(Sphere {
            radius: FP_ONE / 2,
            center: Vec3::new(0, 0, 0),
            color: Vec3::new(FP_ONE, 0, 0),
        }));
        s
    };
    let mut s1 = build();
    let mut s2 = build();
    let mut r1 = ray_tracer::rng::SampleRng::new(99);
    let mut r2 = ray_tracer::rng::SampleRng::new(99);
    assert_eq!(s1.render(&mut r1), s2.render(&mut r2));
}

#[test]
fn ppm_encoding_is_exact() {
    let pixels = vec![Rgb { r: 255, g: 0, b: 135 }, Rgb { r: 1, g: 20, b: 3 }];
    let bytes = ray_tracer::image::ppm_bytes(2, 1, &pixels);
    assert_eq!(bytes, b"P3\n2 1\n255\n255 0 135\n1 20 3\n".to_vec());
}

#[test]
fn camera_translation_moves_position_only() {
    let mut cam = Camera::new(27146, 4, 3);
    let axis_before = cam.z_axis;
    let table_before = cam.ray_directions.clone();
    let z0 = cam.position.z;
    cam.update_z_position(6554); // 0.1 forward: the axis points toward -z
    assert_eq!(cam.position.z, z0 + ((-65536i64 * 6554) / 65536));
    cam.update_y_position(6554);
    assert_eq!(cam.position.y, 6554);
    cam.update_x_position(-6554);
    assert_eq!(cam.z_axis, axis_before);
    assert_eq!(cam.ray_directions, table_before);
}

#[test]
fn fixed_division_rescales() {
    // 3 / 2 == 1.5 and -3 / 2 == -1.5 in Q16.16.
    assert_eq!(fp_div(3 * FP_ONE, 2 * FP_ONE), 98304);
    assert_eq!(fp_div(-3 * FP_ONE, 2 * FP_ONE), -98304);
}

#[test]
fn fixed_multiplication_truncates_toward_zero() {
    assert_eq!(fp_mul(98304, 98304), 147456); // 1.5 * 1.5 == 2.25
    assert_eq!(fp_mul(-1, 1), 0); // tiny negative products truncate to zero
}

#[test]
fn quat_arithmetic() {
    let mut q = Quat::new(1, 2, 3, 4);
    let r = Quat::new(10, 20, 30, 40);
    assert_eq!(q.dot(&r), 10 + 40 + 90 + 160);
    assert_eq!(q.add(&r), Quat::new(11, 22, 33, 44));
    assert_eq!(r.sub(&q), Quat::new(9, 18, 27, 36));
    assert_eq!(q.neg(), Quat::new(1, -2, -3, -4));
    assert_eq!(q.length_squared(), 1 + 4 + 9 + 16);
    let s = q.scale(2);
    assert_eq!(s, Quat::new(2, 4, 6, 8));
    let t = q.shift(1);
    assert_eq!(t, Quat::new(3, 5, 7, 9));
}

#[test]
fn matrix_world_rotations() {
    // A quarter turn of yaw about world up sends (1, 0, 0) to (0, 0, -1).
    let mut v = Vec3::new(FP_ONE, 0, 0);
    let yawed = v.rotate_yaw_matrix_world(0, FP_ONE);
    assert_eq!(yawed, Vec3::new(0, 0, -FP_ONE));

    // A quarter turn of pitch sends (0, 1, 0) to (0, 0, 1).
    let mut u = Vec3::new(0, FP_ONE, 0);
    let pitched = u.rotate_pitch_matrix_world(0, FP_ONE);
    assert_eq!(pitched, Vec3::new(0, 0, FP_ONE));

    // A quarter turn of roll sends (1, 0, 0) to (0, 1, 0).
    let mut w = Vec3::new(FP_ONE, 0, 0);
    let rolled = w.rotate_roll_matrix_world(0, FP_ONE);
    assert_eq!(rolled, Vec3::new(0, FP_ONE, 0));
}

#[test]
fn rotate_method_matches_free_rotation() {
    let axis = fp_normalize(&Vec3::new(FP_ONE, FP_ONE, 0));
    let q = Quat::angle_axis(60547, 25079, &axis);
    let mut v = Vec3::new(FP_ONE, 0, 0);
    let by_method = v.rotate(&q);
    let by_free = fp_rotate(&Vec3::new(FP_ONE, 0, 0), &q);
    assert_eq!(by_method, by_free);
}

#[test]
fn wellformedness_checks_are_decidable() {
    let cam = Camera::new(27146, 4, 3);
    assert!(cam.is_wf());
    let mut degenerate = Camera::new(27146, 4, 3);
    degenerate.z_axis = Vec3::new(0, FP_ONE, 0); // parallel to world up
    assert!(!degenerate.is_wf());

    let mut scene = Scene::new(4, 3);
    assert!(scene.is_renderable());
    scene.objects.push(Object::Sphere(Sphere {
        radius: -1,
        center: Vec3::new(0, 0, 0),
        color: Vec3::new(0, 0, 0),
    }));
    assert!(!scene.is_renderable());
}

#[test]
fn tied_hits_keep_first_object() {
    // Two identical spheres: the earliest in insertion order wins the tie.
    let red = Sphere {
        radius: FP_ONE / 2,
        center: Vec3::new(0, 0, -FP_ONE),
        color: Vec3::new(FP_ONE, 0, 0),
    };
    let green = Sphere { color: Vec3::new(0, FP_ONE, 0), ..red };
    let objects = vec![Object::Sphere(red), Object::Sphere(green)];
    let ray = Ray { origin: Vec3::new(0, 0, 0), direction: Vec3::new(0, 0, -FP_ONE) };
    let hit = ray.hit(&objects, 0, T_MAX).unwrap();
    assert_eq!(hit.object_color, Vec3::new(FP_ONE, 0, 0));
}

#[test]
fn scene_camera_starts_at_documented_pose() {
    let scene = Scene::new(16, 9);
    assert_eq!(scene.camera.position, Vec3::new(0, 0, 6 * FP_ONE));
    assert_eq!(scene.camera.z_axis, Vec3::new(0, 0, -FP_ONE));
    assert_eq!(scene.camera.viewport_height, 27146);
    // tan(22.5 deg) scaled by the 16:9 aspect ratio, in Q16.16.
    assert_eq!(scene.camera.viewport_width, 48259);
}

#[test]
fn sampler_helpers_follow_the_stream() {
    // The composite draws are exactly the stream's next values.
    let mut a = ray_tracer::rng::SampleRng::new(5);
    let mut b = ray_tracer::rng::SampleRng::new(5);
    let v = ray_tracer::rng::random_vec3(&mut a);
    let (x, y, z) = (b.unit_fp(), b.unit_fp(), b.unit_fp());
    assert_eq!((v.x, v.y, v.z), (x, y, z));
    assert_eq!(a.state, b.state);
}
