//! The perspective projection.
//!
//! The projection maps camera space to the clip space the GPU expects: a
//! perspective transform for the given vertical field of view, aspect ratio
//! (width over height, kept as the exact integer pair) and depth planes,
//! composed with the fixed correction that leaves x and y untouched and
//! remaps depth from `[-1, 1]` to `[0, 1]`. Degenerate parameters are
//! rejected at construction; a resize can only change the aspect ratio.

use vstd::prelude::*;

use crate::fixed::Fx;
use crate::fixed::SCALE;
use crate::fixed::tdiv;
use crate::fixed::lemma_tdiv_bounds;
use crate::fixed::lemma_tdiv_lower;
use crate::matrix::Mat4;
use crate::matrix::ENTRY_LIMIT_RAW;
use crate::matrix::det2_raw;
use crate::matrix::det3_raw;
use crate::matrix::det4_raw;
use crate::matrix::mat_bounded_raw;
use crate::trig::PI_RAW;
use crate::trig::sin_raw;
use crate::trig::cos_raw;
use crate::trig::sin_fx;
use crate::trig::cos_fx;

verus! {

/// The largest surface dimension, in pixels, the projection accepts.
pub const DIM_LIMIT: u32 = 16384;

/// The largest far-plane distance the projection accepts.
pub const FAR_LIMIT_RAW: i64 = 0x4000_0000;

/// The largest cotangent of the half field of view the projection accepts;
/// reached only by an extremely narrow field of view.
pub const COT_LIMIT_RAW: i64 = 0x100_0000;

/// The largest magnitude the two depth entries of the projection matrix may
/// take; exceeded only when the two depth planes nearly coincide.
pub const DEPTH_LIMIT_RAW: i64 = 0x2_0000_0000;

/// Why a projection was refused.
#[derive(Clone, Copy, Debug, PartialEq, Eq, Structural)]
pub enum ProjectionError {
    /// A surface dimension is zero or beyond [`DIM_LIMIT`].
    BadDimensions,
    /// The depth planes do not satisfy `0 < near < far <= FAR_LIMIT_RAW`.
    BadDepthPlanes,
    /// The vertical field of view leaves `(0, pi]`, or is so narrow or so
    /// wide that its half-angle cotangent leaves `[1, COT_LIMIT_RAW]`.
    BadFieldOfView,
    /// The depth planes are so close together that a depth entry of the
    /// matrix would overflow its bound.
    DepthPlanesTooClose,
}

/// A perspective projection, plus the cached cotangent of half the vertical
/// field of view.
#[derive(Clone, Copy, Debug, PartialEq, Eq, Structural)]
pub struct Projection {
    pub width: u32,
    pub height: u32,
    pub fovy: Fx,
    pub znear: Fx,
    pub zfar: Fx,
    pub cot_half_fovy: Fx,
}

/// Whether the surface dimensions are usable.
pub open spec fn dims_ok(width: u32, height: u32) -> bool {
    1 <= width <= DIM_LIMIT && 1 <= height <= DIM_LIMIT
}

/// Whether the depth planes are usable: `0 < near < far <= FAR_LIMIT_RAW`.
pub open spec fn planes_ok(znear: Fx, zfar: Fx) -> bool {
    1 <= znear.raw && znear.raw < zfar.raw && zfar.raw <= FAR_LIMIT_RAW
}

/// The cotangent of half the field of view, as computed from the fixed-point
/// sine and cosine of the half angle.
pub open spec fn cot_half_raw(fovy: Fx) -> int {
    let half = tdiv(fovy.raw as int, 2);
    tdiv(cos_raw(half) * (SCALE as int), sin_raw(half))
}

/// Whether the field of view is usable: within `(0, pi]`, with a half angle
/// whose sine and cosine are positive and whose cotangent stays within
/// `[1, COT_LIMIT_RAW]`.
pub open spec fn fovy_ok(fovy: Fx) -> bool {
    let half = tdiv(fovy.raw as int, 2);
    &&& 2 <= fovy.raw <= PI_RAW
    &&& sin_raw(half) >= 1
    &&& cos_raw(half) >= 1
    &&& 1 <= cot_half_raw(fovy) <= COT_LIMIT_RAW
}

/// The magnitude of the depth-scale entry of the projection matrix.
pub open spec fn depth_scale_raw(znear: Fx, zfar: Fx) -> int {
    tdiv(zfar.raw * (SCALE as int), zfar.raw - znear.raw)
}

/// The magnitude of the depth-offset entry of the projection matrix.
pub open spec fn depth_offset_raw(znear: Fx, zfar: Fx) -> int {
    tdiv(zfar.raw * znear.raw, zfar.raw - znear.raw)
}

/// Whether the two depth entries stay within their bound.
pub open spec fn depth_ok(znear: Fx, zfar: Fx) -> bool {
    depth_scale_raw(znear, zfar) <= DEPTH_LIMIT_RAW && depth_offset_raw(znear, zfar)
        <= DEPTH_LIMIT_RAW
}

/// Whether a full parameter set is accepted by [`Projection::new`].
pub open spec fn params_ok(width: u32, height: u32, fovy: Fx, znear: Fx, zfar: Fx) -> bool {
    dims_ok(width, height) && planes_ok(znear, zfar) && fovy_ok(fovy) && depth_ok(znear, zfar)
}

/// A dimension forced into `[1, DIM_LIMIT]`.
pub open spec fn clamp_dim(d: u32) -> u32 {
    if d < 1 {
        1u32
    } else if d > DIM_LIMIT {
        DIM_LIMIT
    } else {
        d
    }
}

/// The raw entry in row `i`, column `j` of the projection matrix of `p`:
/// the perspective transform for `p`'s parameters composed with the
/// depth-range correction. Row 0 scales x by the half-angle cotangent over
/// the aspect ratio, row 1 scales y by the cotangent, row 2 maps depth into
/// `[0, 1]`, and row 3 carries the perspective divide.
pub open spec fn proj_entry_raw(p: Projection, i: int, j: int) -> int {
    if i == 0 && j == 0 {
        tdiv(p.cot_half_fovy.raw * p.height, p.width as int)
    } else if i == 1 && j == 1 {
        p.cot_half_fovy.raw as int
    } else if i == 2 && j == 2 {
        -depth_scale_raw(p.znear, p.zfar)
    } else if i == 2 && j == 3 {
        -depth_offset_raw(p.znear, p.zfar)
    } else if i == 3 && j == 2 {
        -(SCALE as int)
    } else {
        0
    }
}

/// Whether `m` is, entry for entry, the projection matrix of `p`.
pub open spec fn is_proj_matrix_of(m: Mat4, p: Projection) -> bool {
    &&& m.m00.raw == proj_entry_raw(p, 0, 0)
    &&& m.m01.raw == proj_entry_raw(p, 0, 1)
    &&& m.m02.raw == proj_entry_raw(p, 0, 2)
    &&& m.m03.raw == proj_entry_raw(p, 0, 3)
    &&& m.m10.raw == proj_entry_raw(p, 1, 0)
    &&& m.m11.raw == proj_entry_raw(p, 1, 1)
    &&& m.m12.raw == proj_entry_raw(p, 1, 2)
    &&& m.m13.raw == proj_entry_raw(p, 1, 3)
    &&& m.m20.raw == proj_entry_raw(p, 2, 0)
    &&& m.m21.raw == proj_entry_raw(p, 2, 1)
    &&& m.m22.raw == proj_entry_raw(p, 2, 2)
    &&& m.m23.raw == proj_entry_raw(p, 2, 3)
    &&& m.m30.raw == proj_entry_raw(p, 3, 0)
    &&& m.m31.raw == proj_entry_raw(p, 3, 1)
    &&& m.m32.raw == proj_entry_raw(p, 3, 2)
    &&& m.m33.raw == proj_entry_raw(p, 3, 3)
}

impl Projection {
    /// The projection's validity bounds, established at construction and
    /// kept by every resize: usable dimensions, planes and field of view,
    /// bounded depth entries, and a cached cotangent that matches the field
    /// of view.
    pub open spec fn wf(self) -> bool {
        &&& dims_ok(self.width, self.height)
        &&& planes_ok(self.znear, self.zfar)
        &&& fovy_ok(self.fovy)
        &&& depth_ok(self.znear, self.zfar)
        &&& self.cot_half_fovy.raw == cot_half_raw(self.fovy)
    }

    /// A projection for the given surface size, vertical field of view and
    /// depth planes. Degenerate parameters are refused, each with the error
    /// naming the first check that failed.
    pub fn new(width: u32, height: u32, fovy: Fx, znear: Fx, zfar: Fx) -> (r: Result<
        Projection,
        ProjectionError,
    >)
        ensures
            r is Ok <==> params_ok(width, height, fovy, znear, zfar),
            r matches Ok(p) ==> p.width == width && p.height == height && p.fovy == fovy
                && p.znear == znear && p.zfar == zfar && p.cot_half_fovy.raw == cot_half_raw(fovy)
                && p.wf(),
            r == Err::<Projection, ProjectionError>(ProjectionError::BadDimensions) <==> !dims_ok(
                width,
                height,
            ),
            r == Err::<Projection, ProjectionError>(ProjectionError::BadDepthPlanes) <==> dims_ok(
                width,
                height,
            ) && !planes_ok(znear, zfar),
            r == Err::<Projection, ProjectionError>(ProjectionError::BadFieldOfView) <==> dims_ok(
                width,
                height,
            ) && planes_ok(znear, zfar) && !fovy_ok(fovy),
            r == Err::<Projection, ProjectionError>(ProjectionError::DepthPlanesTooClose) <==> dims_ok(
                width,
                height,
            ) && planes_ok(znear, zfar) && fovy_ok(fovy) && !depth_ok(znear, zfar),
    {
        if !(1 <= width && width <= DIM_LIMIT && 1 <= height && height <= DIM_LIMIT) {
            return Err(ProjectionError::BadDimensions);
        }
        if !(1 <= znear.raw && znear.raw < zfar.raw && zfar.raw <= FAR_LIMIT_RAW) {
            return Err(ProjectionError::BadDepthPlanes);
        }
        if !(2 <= fovy.raw && fovy.raw <= PI_RAW) {
            return Err(ProjectionError::BadFieldOfView);
        }
        let half = Fx { raw: fovy.raw / 2 };
        let s = sin_fx(half);
        let c = cos_fx(half);
        if s.raw < 1 || c.raw < 1 {
            return Err(ProjectionError::BadFieldOfView);
        }
        let cot_wide: i64 = c.raw * SCALE;
        let cot: i64 = cot_wide / s.raw;
        proof {
            lemma_tdiv_bounds(cot_wide as int, s.raw as int);
        }
        if !(1 <= cot && cot <= COT_LIMIT_RAW) {
            return Err(ProjectionError::BadFieldOfView);
        }
        let span: i64 = zfar.raw - znear.raw;
        let scale_wide: i128 = (zfar.raw as i128) * (SCALE as i128);
        let depth_scale: i128 = scale_wide / (span as i128);
        proof {
            assert(0 < zfar.raw * znear.raw <= 0x1000_0000_0000_0000) by (nonlinear_arith)
                requires
                    1 <= znear.raw,
                    znear.raw < zfar.raw,
                    zfar.raw <= FAR_LIMIT_RAW,
            ;
        }
        let offset_wide: i128 = (zfar.raw as i128) * (znear.raw as i128);
        let depth_offset: i128 = offset_wide / (span as i128);
        proof {
            lemma_tdiv_bounds(scale_wide as int, span as int);
            lemma_tdiv_bounds(offset_wide as int, span as int);
        }
        if depth_scale > (DEPTH_LIMIT_RAW as i128) || depth_offset > (DEPTH_LIMIT_RAW as i128) {
            return Err(ProjectionError::DepthPlanesTooClose);
        }
        Ok(Projection { width, height, fovy, znear, zfar, cot_half_fovy: Fx { raw: cot } })
    }

    /// A resize: the surface dimensions are replaced (forced into
    /// `[1, DIM_LIMIT]`, so a zero height cannot divide the aspect ratio);
    /// no other field changes.
    pub fn resize(&mut self, width: u32, height: u32)
        requires
            old(self).wf(),
        ensures
            final(self).width == clamp_dim(width),
            final(self).height == clamp_dim(height),
            *final(self) == (Projection {
                width: final(self).width,
                height: final(self).height,
                ..*old(self)
            }),
            final(self).wf(),
    {
        self.width = if width < 1 {
            1
        } else if width > DIM_LIMIT {
            DIM_LIMIT
        } else {
            width
        };
        self.height = if height < 1 {
            1
        } else if height > DIM_LIMIT {
            DIM_LIMIT
        } else {
            height
        };
    }

    /// The projection matrix for the current parameters.
    pub fn calc_matrix(&self) -> (r: Mat4)
        requires
            self.wf(),
        ensures
            is_proj_matrix_of(r, *self),
            mat_bounded_raw(r, ENTRY_LIMIT_RAW as int),
    {
        proof {
            assert(0 < self.cot_half_fovy.raw * self.height <= 0x40_0000_0000) by (nonlinear_arith)
                requires
                    1 <= self.cot_half_fovy.raw <= COT_LIMIT_RAW,
                    1 <= self.height <= DIM_LIMIT,
            ;
        }
        let xs_wide: i128 = (self.cot_half_fovy.raw as i128) * (self.height as i128);
        let x_scale: i128 = xs_wide / (self.width as i128);
        proof {
            lemma_tdiv_bounds(xs_wide as int, self.width as int);
        }
        let span: i64 = self.zfar.raw - self.znear.raw;
        let scale_wide: i128 = (self.zfar.raw as i128) * (SCALE as i128);
        let depth_scale: i128 = scale_wide / (span as i128);
        proof {
            assert(0 < self.zfar.raw * self.znear.raw <= 0x1000_0000_0000_0000) by (nonlinear_arith)
                requires
                    1 <= self.znear.raw,
                    self.znear.raw < self.zfar.raw,
                    self.zfar.raw <= FAR_LIMIT_RAW,
            ;
        }
        let offset_wide: i128 = (self.zfar.raw as i128) * (self.znear.raw as i128);
        let depth_offset: i128 = offset_wide / (span as i128);
        proof {
            lemma_tdiv_bounds(scale_wide as int, span as int);
            lemma_tdiv_bounds(offset_wide as int, span as int);
        }
        Mat4 {
            m00: Fx { raw: x_scale as i64 },
            m01: Fx { raw: 0 },
            m02: Fx { raw: 0 },
            m03: Fx { raw: 0 },
            m10: Fx { raw: 0 },
            m11: self.cot_half_fovy,
            m12: Fx { raw: 0 },
            m13: Fx { raw: 0 },
            m20: Fx { raw: 0 },
            m21: Fx { raw: 0 },
            m22: Fx { raw: -(depth_scale as i64) },
            m23: Fx { raw: -(depth_offset as i64) },
            m30: Fx { raw: 0 },
            m31: Fx { raw: 0 },
            m32: Fx { raw: -SCALE },
            m33: Fx { raw: 0 },
        }
    }
}

/// For every accepted parameter set whose horizontal scale does not truncate
/// to zero, the projection matrix is non-singular: its determinant is not
/// zero, so the perspective transform never collapses clip space.
pub proof fn lemma_projection_matrix_nonsingular(p: Projection, m: Mat4)
    requires
        p.wf(),
        is_proj_matrix_of(m, p),
        p.cot_half_fovy.raw * p.height >= p.width,
    ensures
        det4_raw(m) != 0,
{
    lemma_tdiv_lower(p.cot_half_fovy.raw * p.height, p.width as int, 1);
    assert(m.m00.raw >= 1);
    assert(m.m11.raw >= 1);
    assert(p.zfar.raw * p.znear.raw >= p.zfar.raw - p.znear.raw) by (nonlinear_arith)
        requires
            1 <= p.znear.raw,
            p.znear.raw < p.zfar.raw,
    ;
    lemma_tdiv_lower(p.zfar.raw * p.znear.raw, p.zfar.raw - p.znear.raw, 1);
    assert(m.m23.raw <= -1);
    let a = m.m00.raw as int;
    let b = m.m11.raw as int;
    let d = m.m23.raw as int;
    let e = m.m22.raw as int;
    assert(SCALE as int == 65536);
    assert(m.m01.raw == 0 && m.m02.raw == 0 && m.m03.raw == 0);
    assert(m.m10.raw == 0 && m.m12.raw == 0 && m.m13.raw == 0);
    assert(m.m20.raw == 0 && m.m21.raw == 0);
    assert(m.m30.raw == 0 && m.m31.raw == 0 && m.m33.raw == 0);
    assert(m.m32.raw == -65536);
    assert(det2_raw(e, d, -65536, 0) == 65536 * d);
    assert(det3_raw(b, 0, 0, 0, e, d, 0, -65536, 0) == b * (65536 * d));
    assert(det4_raw(m) == a * (b * (65536 * d)));
    assert(a * (b * (65536 * d)) <= -65536) by (nonlinear_arith)
        requires
            a >= 1,
            b >= 1,
            d <= -1,
    ;
}

} // verus!
