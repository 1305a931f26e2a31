//! 4x4 fixed-point matrices.
//!
//! Matrices act on column vectors; the fields are named row-first, so
//! `m23` is the entry in row 2, column 3. The renderer reads the fields in
//! column order when it packs a matrix for the GPU.

use vstd::prelude::*;

use crate::fixed::Fx;
use crate::fixed::SCALE;
use crate::fixed::mul_raw;
use crate::fixed::lemma_mul_raw_bound;

verus! {

/// The largest matrix-entry magnitude the multiplication routine accepts;
/// both factors of every product in this library stay within it.
pub const ENTRY_LIMIT_RAW: i64 = 0x40_0000_0000;

/// A 4x4 fixed-point matrix, row-major fields.
#[derive(Clone, Copy, Debug, PartialEq, Eq, Structural)]
pub struct Mat4 {
    pub m00: Fx,
    pub m01: Fx,
    pub m02: Fx,
    pub m03: Fx,
    pub m10: Fx,
    pub m11: Fx,
    pub m12: Fx,
    pub m13: Fx,
    pub m20: Fx,
    pub m21: Fx,
    pub m22: Fx,
    pub m23: Fx,
    pub m30: Fx,
    pub m31: Fx,
    pub m32: Fx,
    pub m33: Fx,
}

/// The raw value in row `i`, column `j`.
pub open spec fn entry_raw(m: Mat4, i: int, j: int) -> int {
    if i == 0 {
        if j == 0 {
            m.m00.raw as int
        } else if j == 1 {
            m.m01.raw as int
        } else if j == 2 {
            m.m02.raw as int
        } else {
            m.m03.raw as int
        }
    } else if i == 1 {
        if j == 0 {
            m.m10.raw as int
        } else if j == 1 {
            m.m11.raw as int
        } else if j == 2 {
            m.m12.raw as int
        } else {
            m.m13.raw as int
        }
    } else if i == 2 {
        if j == 0 {
            m.m20.raw as int
        } else if j == 1 {
            m.m21.raw as int
        } else if j == 2 {
            m.m22.raw as int
        } else {
            m.m23.raw as int
        }
    } else {
        if j == 0 {
            m.m30.raw as int
        } else if j == 1 {
            m.m31.raw as int
        } else if j == 2 {
            m.m32.raw as int
        } else {
            m.m33.raw as int
        }
    }
}

/// Whether every entry lies within `[-bound, bound]`.
pub open spec fn mat_bounded_raw(m: Mat4, bound: int) -> bool {
    &&& m.m00.bounded(bound)
    &&& m.m01.bounded(bound)
    &&& m.m02.bounded(bound)
    &&& m.m03.bounded(bound)
    &&& m.m10.bounded(bound)
    &&& m.m11.bounded(bound)
    &&& m.m12.bounded(bound)
    &&& m.m13.bounded(bound)
    &&& m.m20.bounded(bound)
    &&& m.m21.bounded(bound)
    &&& m.m22.bounded(bound)
    &&& m.m23.bounded(bound)
    &&& m.m30.bounded(bound)
    &&& m.m31.bounded(bound)
    &&& m.m32.bounded(bound)
    &&& m.m33.bounded(bound)
}

/// Entry `(i, j)` of the fixed-point product of `a` and `b`.
pub open spec fn mat_mul_entry_raw(a: Mat4, b: Mat4, i: int, j: int) -> int {
    mul_raw(entry_raw(a, i, 0), entry_raw(b, 0, j)) + mul_raw(entry_raw(a, i, 1), entry_raw(b, 1, j))
        + mul_raw(entry_raw(a, i, 2), entry_raw(b, 2, j)) + mul_raw(
        entry_raw(a, i, 3),
        entry_raw(b, 3, j),
    )
}

/// Whether `r` is, entry for entry, the fixed-point product of `a` and `b`.
pub open spec fn is_product_of(r: Mat4, a: Mat4, b: Mat4) -> bool {
    &&& r.m00.raw == mat_mul_entry_raw(a, b, 0, 0)
    &&& r.m01.raw == mat_mul_entry_raw(a, b, 0, 1)
    &&& r.m02.raw == mat_mul_entry_raw(a, b, 0, 2)
    &&& r.m03.raw == mat_mul_entry_raw(a, b, 0, 3)
    &&& r.m10.raw == mat_mul_entry_raw(a, b, 1, 0)
    &&& r.m11.raw == mat_mul_entry_raw(a, b, 1, 1)
    &&& r.m12.raw == mat_mul_entry_raw(a, b, 1, 2)
    &&& r.m13.raw == mat_mul_entry_raw(a, b, 1, 3)
    &&& r.m20.raw == mat_mul_entry_raw(a, b, 2, 0)
    &&& r.m21.raw == mat_mul_entry_raw(a, b, 2, 1)
    &&& r.m22.raw == mat_mul_entry_raw(a, b, 2, 2)
    &&& r.m23.raw == mat_mul_entry_raw(a, b, 2, 3)
    &&& r.m30.raw == mat_mul_entry_raw(a, b, 3, 0)
    &&& r.m31.raw == mat_mul_entry_raw(a, b, 3, 1)
    &&& r.m32.raw == mat_mul_entry_raw(a, b, 3, 2)
    &&& r.m33.raw == mat_mul_entry_raw(a, b, 3, 3)
}

/// The determinant of a 2x2 block.
pub open spec fn det2_raw(a: int, b: int, c: int, d: int) -> int {
    a * d - b * c
}

/// The determinant of a 3x3 block, expanded along the first row.
pub open spec fn det3_raw(
    a: int,
    b: int,
    c: int,
    d: int,
    e: int,
    f: int,
    g: int,
    h: int,
    i: int,
) -> int {
    a * det2_raw(e, f, h, i) - b * det2_raw(d, f, g, i) + c * det2_raw(d, e, g, h)
}

/// The determinant of the matrix's raw entries, expanded along the first
/// row. A matrix is singular exactly when this is zero.
pub open spec fn det4_raw(m: Mat4) -> int {
    m.m00.raw * det3_raw(
        m.m11.raw as int,
        m.m12.raw as int,
        m.m13.raw as int,
        m.m21.raw as int,
        m.m22.raw as int,
        m.m23.raw as int,
        m.m31.raw as int,
        m.m32.raw as int,
        m.m33.raw as int,
    ) - m.m01.raw * det3_raw(
        m.m10.raw as int,
        m.m12.raw as int,
        m.m13.raw as int,
        m.m20.raw as int,
        m.m22.raw as int,
        m.m23.raw as int,
        m.m30.raw as int,
        m.m32.raw as int,
        m.m33.raw as int,
    ) + m.m02.raw * det3_raw(
        m.m10.raw as int,
        m.m11.raw as int,
        m.m13.raw as int,
        m.m20.raw as int,
        m.m21.raw as int,
        m.m23.raw as int,
        m.m30.raw as int,
        m.m31.raw as int,
        m.m33.raw as int,
    ) - m.m03.raw * det3_raw(
        m.m10.raw as int,
        m.m11.raw as int,
        m.m12.raw as int,
        m.m20.raw as int,
        m.m21.raw as int,
        m.m22.raw as int,
        m.m30.raw as int,
        m.m31.raw as int,
        m.m32.raw as int,
    )
}

/// The fixed-point dot product of a row and a column of bounded entries.
fn dot4(a0: Fx, a1: Fx, a2: Fx, a3: Fx, b0: Fx, b1: Fx, b2: Fx, b3: Fx) -> (r: Fx)
    requires
        a0.bounded(ENTRY_LIMIT_RAW as int),
        a1.bounded(ENTRY_LIMIT_RAW as int),
        a2.bounded(ENTRY_LIMIT_RAW as int),
        a3.bounded(ENTRY_LIMIT_RAW as int),
        b0.bounded(ENTRY_LIMIT_RAW as int),
        b1.bounded(ENTRY_LIMIT_RAW as int),
        b2.bounded(ENTRY_LIMIT_RAW as int),
        b3.bounded(ENTRY_LIMIT_RAW as int),
    ensures
        r.raw == mul_raw(a0.raw as int, b0.raw as int) + mul_raw(a1.raw as int, b1.raw as int)
            + mul_raw(a2.raw as int, b2.raw as int) + mul_raw(a3.raw as int, b3.raw as int),
{
    proof {
        lemma_mul_raw_bound(a0.raw as int, b0.raw as int, ENTRY_LIMIT_RAW as int, ENTRY_LIMIT_RAW as int);
        lemma_mul_raw_bound(a1.raw as int, b1.raw as int, ENTRY_LIMIT_RAW as int, ENTRY_LIMIT_RAW as int);
        lemma_mul_raw_bound(a2.raw as int, b2.raw as int, ENTRY_LIMIT_RAW as int, ENTRY_LIMIT_RAW as int);
        lemma_mul_raw_bound(a3.raw as int, b3.raw as int, ENTRY_LIMIT_RAW as int, ENTRY_LIMIT_RAW as int);
    }
    a0.mul(b0).add(a1.mul(b1)).add(a2.mul(b2)).add(a3.mul(b3))
}

impl Mat4 {
    /// The identity transform, as a spec value.
    pub open spec fn spec_identity() -> Mat4 {
        Mat4 {
            m00: Fx { raw: SCALE },
            m01: Fx { raw: 0 },
            m02: Fx { raw: 0 },
            m03: Fx { raw: 0 },
            m10: Fx { raw: 0 },
            m11: Fx { raw: SCALE },
            m12: Fx { raw: 0 },
            m13: Fx { raw: 0 },
            m20: Fx { raw: 0 },
            m21: Fx { raw: 0 },
            m22: Fx { raw: SCALE },
            m23: Fx { raw: 0 },
            m30: Fx { raw: 0 },
            m31: Fx { raw: 0 },
            m32: Fx { raw: 0 },
            m33: Fx { raw: SCALE },
        }
    }

    /// The identity transform.
    pub fn identity() -> (r: Mat4)
        ensures
            r == Mat4::spec_identity(),
    {
        Mat4 {
            m00: Fx { raw: SCALE },
            m01: Fx { raw: 0 },
            m02: Fx { raw: 0 },
            m03: Fx { raw: 0 },
            m10: Fx { raw: 0 },
            m11: Fx { raw: SCALE },
            m12: Fx { raw: 0 },
            m13: Fx { raw: 0 },
            m20: Fx { raw: 0 },
            m21: Fx { raw: 0 },
            m22: Fx { raw: SCALE },
            m23: Fx { raw: 0 },
            m30: Fx { raw: 0 },
            m31: Fx { raw: 0 },
            m32: Fx { raw: 0 },
            m33: Fx { raw: SCALE },
        }
    }

    /// The fixed-point matrix product `self * other`.
    pub fn mul(&self, other: &Mat4) -> (r: Mat4)
        requires
            mat_bounded_raw(*self, ENTRY_LIMIT_RAW as int),
            mat_bounded_raw(*other, ENTRY_LIMIT_RAW as int),
        ensures
            is_product_of(r, *self, *other),
    {
        Mat4 {
            m00: dot4(
                self.m00,
                self.m01,
                self.m02,
                self.m03,
                other.m00,
                other.m10,
                other.m20,
                other.m30,
            ),
            m01: dot4(
                self.m00,
                self.m01,
                self.m02,
                self.m03,
                other.m01,
                other.m11,
                other.m21,
                other.m31,
            ),
            m02: dot4(
                self.m00,
                self.m01,
                self.m02,
                self.m03,
                other.m02,
                other.m12,
                other.m22,
                other.m32,
            ),
            m03: dot4(
                self.m00,
                self.m01,
                self.m02,
                self.m03,
                other.m03,
                other.m13,
                other.m23,
                other.m33,
            ),
            m10: dot4(
                self.m10,
                self.m11,
                self.m12,
                self.m13,
                other.m00,
                other.m10,
                other.m20,
                other.m30,
            ),
            m11: dot4(
                self.m10,
                self.m11,
                self.m12,
                self.m13,
                other.m01,
                other.m11,
                other.m21,
                other.m31,
            ),
            m12: dot4(
                self.m10,
                self.m11,
                self.m12,
                self.m13,
                other.m02,
                other.m12,
                other.m22,
                other.m32,
            ),
            m13: dot4(
                self.m10,
                self.m11,
                self.m12,
                self.m13,
                other.m03,
                other.m13,
                other.m23,
                other.m33,
            ),
            m20: dot4(
                self.m20,
                self.m21,
                self.m22,
                self.m23,
                other.m00,
                other.m10,
                other.m20,
                other.m30,
            ),
            m21: dot4(
                self.m20,
                self.m21,
                self.m22,
                self.m23,
                other.m01,
                other.m11,
                other.m21,
                other.m31,
            ),
            m22: dot4(
                self.m20,
                self.m21,
                self.m22,
                self.m23,
                other.m02,
                other.m12,
                other.m22,
                other.m32,
            ),
            m23: dot4(
                self.m20,
                self.m21,
                self.m22,
                self.m23,
                other.m03,
                other.m13,
                other.m23,
                other.m33,
            ),
            m30: dot4(
                self.m30,
                self.m31,
                self.m32,
                self.m33,
                other.m00,
                other.m10,
                other.m20,
                other.m30,
            ),
            m31: dot4(
                self.m30,
                self.m31,
                self.m32,
                self.m33,
                other.m01,
                other.m11,
                other.m21,
                other.m31,
            ),
            m32: dot4(
                self.m30,
                self.m31,
                self.m32,
                self.m33,
                other.m02,
                other.m12,
                other.m22,
                other.m32,
            ),
            m33: dot4(
                self.m30,
                self.m31,
                self.m32,
                self.m33,
                other.m03,
                other.m13,
                other.m23,
                other.m33,
            ),
        }
    }
}

} // verus!
