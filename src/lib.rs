//! A small Monte Carlo path tracer over fixed-point arithmetic.
pub mod fixed;
pub mod vec3;
pub mod scene;
pub mod ray;
pub mod scatter;
pub mod random;
pub mod trace;
pub mod camera;
pub mod render;
