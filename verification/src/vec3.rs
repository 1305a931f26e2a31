//! A three-component fixed-point vector.

use vstd::prelude::*;

use crate::fixed::Fx;

verus! {

/// A point or direction in the right-handed, Y-up world frame.
#[derive(Clone, Copy, Debug, PartialEq, Eq, Structural)]
pub struct Vec3 {
    pub x: Fx,
    pub y: Fx,
    pub z: Fx,
}

impl Vec3 {
    /// Whether every component lies within `[-bound, bound]`.
    pub open spec fn bounded(self, bound: int) -> bool {
        self.x.bounded(bound) && self.y.bounded(bound) && self.z.bounded(bound)
    }
}

} // verus!
