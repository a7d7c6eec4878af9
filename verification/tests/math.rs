use ray_tracer::mat3::Mat3;
use ray_tracer::mat4::Mat4;
use ray_tracer::quat::Quat;
use ray_tracer::vec3::Vec3;
use ray_tracer::vec4::Vec4;

#[test]
fn mat3_mat_mul() {
    let a = Mat3::new([1, 2, 3, 4, 5, 6, 7, 8, 9]);
    let b = Mat3::new([9, 8, 7, 6, 5, 4, 3, 2, 1]);

    let c = a.mat_mul(&b);

    assert_eq!(c.data, [30, 24, 18, 84, 69, 54, 138, 114, 90]);
}

#[test]
fn mat3_vec_mul() {
    let a = Mat3::new([1, 2, 3, 4, 5, 6, 7, 8, 9]);

    let b = Vec3::new(9, 6, 3);

    let c = a.vec_mul(&b);

    assert_eq!(c, Vec3::new(30, 84, 138));
}

#[test]
fn mat4_mat_mul() {
    let a = Mat4::new([1, 2, 3, 4, 5, 6, 7, 8, 1, 2, 3, 4, 5, 6, 7, 8]);
    let b = Mat4::new([1, 2, 3, 4, 5, 6, 7, 8, 8, 7, 6, 5, 4, 3, 2, 1]);

    let c = a.mat_mul(&b);

    assert_eq!(
        c.data,
        [51, 47, 43, 39, 123, 119, 115, 111, 51, 47, 43, 39, 123, 119, 115, 111]
    )
}

#[test]
fn mat4_vec_mul() {
    let a = Mat4::new([1, 2, 3, 4, 5, 6, 7, 8, 1, 2, 3, 4, 5, 6, 7, 8]);

    let b = Vec4::new(1, 2, 3, 4);

    let c = a.vec_mul(&b);

    assert_eq!(c, Vec4::new(30, 70, 30, 70));
}

#[test]
fn quat_mul() {
    let a = Mat4::new([1, 2, 3, 4, 5, 6, 7, 8, 1, 2, 3, 4, 5, 6, 7, 8]);

    let b = Quat::new(1, 2, 3, 4);

    let c = a.quat_mul(&b);

    assert_eq!(c, Quat::new(30, 70, 30, 70));
}

#[test]
fn mat4_inverse_identity() {
    let id = Mat4::new([1, 0, 0, 0, 0, 1, 0, 0, 0, 0, 1, 0, 0, 0, 0, 1]);
    let inv = id.inverse().unwrap();
    assert_eq!(inv.data, id.data);
}

#[test]
fn mat4_inverse_singular() {
    let m = Mat4::new([1, 2, 3, 4, 2, 4, 6, 8, 1, 1, 1, 1, 0, 0, 0, 1]);
    assert!(m.inverse().is_none());
}

#[test]
fn mat4_inverse_diagonal() {
    // diag(2, 2, 2, 2): adjugate entries 8 on the diagonal, determinant 16,
    // so each inverse entry truncates to 0.
    let m = Mat4::new([2, 0, 0, 0, 0, 2, 0, 0, 0, 0, 2, 0, 0, 0, 0, 2]);
    let inv = m.inverse().unwrap();
    assert_eq!(inv.data, [0; 16]);
}

#[test]
fn vec3_dot_integer() {
    let a = Vec3::new(1, 2, 3);
    let b = Vec3::new(4, 5, 6);
    assert_eq!(a.dot(&b), 32);
}

#[test]
fn vec3_cross_orthogonal() {
    let a = Vec3::new(3, -5, 7);
    let b = Vec3::new(11, 13, -2);
    let c = a.cross(&b);
    assert_eq!(c.dot(&a), 0);
    assert_eq!(c.dot(&b), 0);
}

#[test]
fn vec3_floor_ceil() {
    // 1.5 and -1.5 in Q16.16.
    let v = Vec3::new(98304, -98304, 65536);
    assert_eq!(v.floor(), Vec3::new(1, -2, 1));
    assert_eq!(v.ceil(), Vec3::new(2, -1, 1));
}

#[test]
fn vec3_scale_shift() {
    let mut v = Vec3::new(1, 2, 3);
    let s = v.scale(4);
    assert_eq!(s, Vec3::new(4, 8, 12));
    let t = v.shift(1);
    assert_eq!(t, Vec3::new(5, 9, 13));
}

#[test]
fn vec3_div_truncates_toward_zero() {
    let v = Vec3::new(7, -7, 8);
    let d = Vec3::new(2, 2, -3);
    assert_eq!(v.div(&d), Vec3::new(3, -3, -2));
}

#[test]
fn quat_cross_identity() {
    let id = Quat::new(1, 0, 0, 0);
    let q = Quat::new(5, 6, 7, 8);
    assert_eq!(id.cross(&q), q);
}

#[test]
fn quat_floor_ceil() {
    let q = Quat::new(98304, -98304, 131072, 0);
    assert_eq!(q.floor(), Quat::new(1, -2, 2, 0));
    assert_eq!(q.ceil(), Quat::new(2, -1, 2, 0));
}

#[test]
fn vec4_dot_and_ops() {
    let a = Vec4::new(1, 2, 3, 4);
    let b = Vec4::new(5, 6, 7, 8);
    assert_eq!(a.dot(&b), 70);
    assert_eq!(a.add(&b), Vec4::new(6, 8, 10, 12));
    assert_eq!(b.sub(&a), Vec4::new(4, 4, 4, 4));
    assert_eq!(a.neg(), Vec4::new(-1, -2, -3, -4));
}

#[test]
fn right_pad_pads_to_width() {
    let s = String::from("ab");
    let r = ray_tracer::mat3::right_pad(s, 5, " ");
    assert_eq!(r, "ab   ");
    let t = ray_tracer::mat3::right_pad(String::from("abcdef"), 3, " ");
    assert_eq!(t, "abcdef");
}

#[test]
fn mat3_display_grid() {
    let m = Mat3::new([1, 2, 3, 4, 5, 6, 7, 8, 9]);
    assert_eq!(m.to_display_string(), "1 2 3\n4 5 6\n7 8 9\n");
    let n = Mat3::new([10, -5, 3, 4, 5, 6, 7, 8, 9]);
    assert_eq!(n.to_display_string(), "10 -5 3 \n4  5  6 \n7  8  9 \n");
}

#[test]
fn mat4_display_grid() {
    let m = Mat4::new([1, 0, 0, 0, 0, 1, 0, 0, 0, 0, 1, 0, 0, 0, 0, 1]);
    assert_eq!(
        m.to_display_string(),
        "1 0 0 0\n0 1 0 0\n0 0 1 0\n0 0 0 1\n"
    );
}

#[test]
fn decimal_strings_render_signs() {
    assert_eq!(ray_tracer::mat3::decimal_string(0), "0");
    assert_eq!(ray_tracer::mat3::decimal_string(90217), "90217");
    assert_eq!(ray_tracer::mat3::decimal_string(-42), "-42");
    assert_eq!(
        ray_tracer::mat3::decimal_string(i64::MIN),
        "-9223372036854775808"
    );
}
