//! A recursive ray tracer over fixed-point arithmetic.
//!
//! The scene is a list of geometric primitives (spheres and axis-aligned
//! cubes) with Phong-style materials, lit by point lights, an ambient light
//! and a day-cycle light that also paints the sky. A camera turns screen
//! coordinates into world-space rays; the caster finds the nearest hit and
//! recurses for reflection and refraction up to a fixed depth.
//!
//! All geometry and shading is carried out on `Fx`, a signed 64.16
//! fixed-point number held in an `i128`, so that every arithmetic step has an
//! exact, machine-checked meaning. Window handling, texture decoding and
//! parallel scheduling live outside this crate and talk to it through plain
//! values.

pub mod camera;
pub mod color;
pub mod cube;
pub mod framebuffer;
pub mod fx;
pub mod grid;
pub mod intersect;
pub mod light;
pub mod material;
pub mod object;
pub mod render;
pub mod sphere;
pub mod texture;
pub mod trig;
pub mod vec3;
