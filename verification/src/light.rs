//! The point-light uniform payload.
//!
//! The renderer reserves a uniform block for one point light: a position and
//! a color. The shader pass that would read it is not wired up yet, so the
//! payload only ever holds its construction values. The renderer pads each
//! vector to sixteen bytes when it packs the block for the GPU.

use vstd::prelude::*;

use crate::fixed::Fx;
use crate::fixed::SCALE;
use crate::vec3::Vec3;

verus! {

/// The GPU-bound light payload: a position and a color.
#[derive(Clone, Copy, Debug, PartialEq, Eq, Structural)]
pub struct UniformBuffer {
    pub position: Vec3,
    pub color: Vec3,
}

impl UniformBuffer {
    /// The default light: two units out along each axis, full white.
    pub fn new() -> (r: UniformBuffer)
        ensures
            r.position == (Vec3 { x: Fx { raw: 131072 }, y: Fx { raw: 131072 }, z: Fx {
                raw: 131072,
            } }),
            r.color == (Vec3 { x: Fx { raw: SCALE }, y: Fx { raw: SCALE }, z: Fx { raw: SCALE } }),
    {
        UniformBuffer {
            position: Vec3 { x: Fx { raw: 131072 }, y: Fx { raw: 131072 }, z: Fx { raw: 131072 } },
            color: Vec3 { x: Fx { raw: SCALE }, y: Fx { raw: SCALE }, z: Fx { raw: SCALE } },
        }
    }
}

} // verus!
