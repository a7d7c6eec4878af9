//! A small software ray tracer: 3D vector, quaternion and matrix arithmetic
//! over 64-bit integers, with the geometric core (camera rays, ray–sphere
//! intersection, diffuse color accumulation) carried out in Q16.16 fixed-point
//! arithmetic so that every step has an exact integer meaning.

pub mod arith;
pub mod camera;
pub mod fonts;
pub mod fixed;
pub mod hittable;
pub mod image;
pub mod mat3;
pub mod mat4;
pub mod quat;
pub mod ray;
pub mod rng;
pub mod scene;
pub mod vec3;
pub mod vec4;
pub mod window;

pub use mat3::Mat3;
pub use mat4::Mat4;
pub use quat::Quat;
pub use vec3::Vec3;
pub use vec4::Vec4;
