//! A verified first-person camera core for a real-time renderer.
//!
//! The library models the viewer's state (position, yaw, pitch), a
//! perspective projection, and a keyboard/mouse controller that advances the
//! camera once per frame. All arithmetic is exact fixed-point integer
//! arithmetic (see [`fixed`]), so every contract pins down the result to the
//! last bit. The surrounding program converts the produced matrices to
//! 32-bit floats on their way into a GPU uniform buffer.

pub mod camera;
pub mod fixed;
pub mod light;
pub mod matrix;
pub mod projection;
pub mod trig;
pub mod vec3;
