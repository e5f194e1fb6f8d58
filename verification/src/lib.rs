//! A small path-tracing renderer built on exact fixed-point arithmetic.
//!
//! Every quantity is a `fixed::Fx` value (a signed 64-bit raw integer read
//! as a multiple of 1/65536), so every stage of the renderer — sphere
//! intersection, material scattering, camera ray generation, the recursive
//! light-transport loop, and the final gamma/quantization step — is a pure,
//! fully specified function of its inputs.  Randomness comes from an owned
//! seeded generator, so a whole rendered row is a function of its seed.

pub mod camera;
pub mod fixed;
pub mod hittable;
pub mod laws;
pub mod material;
pub mod ray;
pub mod render;
pub mod rng;
pub mod scene;
pub mod vec3;
