//! Fixed-point scalar arithmetic.
//!
//! Every quantity in this library (positions, angles, matrix entries) is a
//! real number represented as an `i64` numerator over the fixed denominator
//! [`SCALE`]. Arithmetic is exact integer arithmetic; multiplication and
//! division truncate toward zero, exactly as the corresponding `i64`
//! operations do. The spec functions in this module are the mathematical
//! model that every contract in the crate is stated over.

use vstd::prelude::*;

verus! {

/// The fixed-point denominator: a raw value of `SCALE` represents 1.0.
pub const SCALE: i64 = 65536;

/// Quotient of `a` and `b`, truncated toward zero (the semantics of `/` on
/// Rust's signed integers), as opposed to the Euclidean `/` of spec code.
pub open spec fn tdiv(a: int, b: int) -> int {
    if a >= 0 {
        a / b
    } else {
        -((-a) / b)
    }
}

/// The raw numerator of the fixed-point product of raw values `a` and `b`.
pub open spec fn mul_raw(a: int, b: int) -> int {
    tdiv(a * b, SCALE as int)
}

/// The raw numerator of the fixed-point quotient of raw values `a` and `b`.
pub open spec fn div_raw(a: int, b: int) -> int {
    tdiv(a * (SCALE as int), b)
}

/// `x` forced into the interval `[lo, hi]`.
pub open spec fn clamp_raw(x: int, lo: int, hi: int) -> int {
    if x < lo {
        lo
    } else if x > hi {
        hi
    } else {
        x
    }
}

/// A fixed-point number: the real value `raw / SCALE`.
#[derive(Clone, Copy, Debug, PartialEq, Eq, Structural)]
pub struct Fx {
    pub raw: i64,
}

/// Truncated division stays within `[a, 0]` or `[0, a]` for a positive divisor.
pub proof fn lemma_tdiv_bounds(a: int, b: int)
    requires
        b >= 1,
    ensures
        a >= 0 ==> 0 <= tdiv(a, b) <= a,
        a < 0 ==> a <= tdiv(a, b) <= 0,
        -b < a < b ==> tdiv(a, b) == 0,
{
    if a >= 0 {
        vstd::arithmetic::div_mod::lemma_div_pos_is_pos(a, b);
        vstd::arithmetic::div_mod::lemma_div_nonincreasing(a, b);
        if a < b {
            vstd::arithmetic::div_mod::lemma_basic_div(a, b);
        }
    } else {
        vstd::arithmetic::div_mod::lemma_div_pos_is_pos(-a, b);
        vstd::arithmetic::div_mod::lemma_div_nonincreasing(-a, b);
        if -a < b {
            vstd::arithmetic::div_mod::lemma_basic_div(-a, b);
        }
    }
}

/// A numerator bounded by `m` times the (positive) divisor gives a truncated
/// quotient bounded by `m`.
pub proof fn lemma_tdiv_magnitude(a: int, b: int, m: int)
    requires
        b >= 1,
        m >= 0,
        -(m * b) <= a <= m * b,
    ensures
        -m <= tdiv(a, b) <= m,
{
    vstd::arithmetic::div_mod::lemma_div_multiples_vanish(m, b);
    assert(m * b == b * m) by (nonlinear_arith);
    if a >= 0 {
        vstd::arithmetic::div_mod::lemma_div_pos_is_pos(a, b);
        vstd::arithmetic::div_mod::lemma_div_is_ordered(a, m * b, b);
    } else {
        vstd::arithmetic::div_mod::lemma_div_pos_is_pos(-a, b);
        vstd::arithmetic::div_mod::lemma_div_is_ordered(-a, m * b, b);
    }
}

/// For a positive divisor, the truncated quotient of a value strictly inside
/// `(-(b * c), b * c)` (with `c > 0`) lies strictly inside `(-c, c)`.
pub proof fn lemma_tdiv_strict_upper(a: int, b: int, c: int)
    requires
        b >= 1,
        c > 0,
        -(b * c) < a < b * c,
    ensures
        -c < tdiv(a, b) < c,
{
    if a >= 0 {
        vstd::arithmetic::div_mod::lemma_multiply_divide_lt(a, b, c);
        vstd::arithmetic::div_mod::lemma_div_pos_is_pos(a, b);
    } else {
        vstd::arithmetic::div_mod::lemma_multiply_divide_lt(-a, b, c);
        vstd::arithmetic::div_mod::lemma_div_pos_is_pos(-a, b);
    }
}

/// For a positive divisor, a numerator of at least `b * c` (with `c >= 0`)
/// gives a truncated quotient of at least `c`.
pub proof fn lemma_tdiv_lower(a: int, b: int, c: int)
    requires
        b >= 1,
        c >= 0,
        a >= b * c,
    ensures
        tdiv(a, b) >= c,
{
    assert(b * c >= 0) by (nonlinear_arith)
        requires
            b >= 1,
            c >= 0,
    ;
    vstd::arithmetic::div_mod::lemma_div_is_ordered(b * c, a, b);
    vstd::arithmetic::div_mod::lemma_div_multiples_vanish(c, b);
    assert(b * c == c * b) by (nonlinear_arith);
}

/// Bounds on the factors give bounds on the raw product `a * b` and on the
/// fixed-point product `mul_raw(a, b)`.
pub proof fn lemma_mul_raw_bound(a: int, b: int, bound_a: int, bound_b: int)
    requires
        -bound_a <= a <= bound_a,
        -bound_b <= b <= bound_b,
        bound_a >= 0,
        bound_b >= 0,
    ensures
        -(bound_a * bound_b) <= a * b <= bound_a * bound_b,
        -(bound_a * bound_b / (SCALE as int)) <= mul_raw(a, b) <= bound_a * bound_b / (
        SCALE as int),
{
    assert(-(bound_a * bound_b) <= a * b <= bound_a * bound_b) by (nonlinear_arith)
        requires
            -bound_a <= a <= bound_a,
            -bound_b <= b <= bound_b,
            bound_a >= 0,
            bound_b >= 0,
    ;
    vstd::arithmetic::div_mod::lemma_div_pos_is_pos(bound_a * bound_b, SCALE as int);
    if a * b >= 0 {
        vstd::arithmetic::div_mod::lemma_div_is_ordered(a * b, bound_a * bound_b, SCALE as int);
        vstd::arithmetic::div_mod::lemma_div_pos_is_pos(a * b, SCALE as int);
    } else {
        vstd::arithmetic::div_mod::lemma_div_is_ordered(-(a * b), bound_a * bound_b, SCALE as int);
        vstd::arithmetic::div_mod::lemma_div_pos_is_pos(-(a * b), SCALE as int);
    }
}

impl Fx {
    /// Whether the raw value lies within `[-bound, bound]`.
    pub open spec fn bounded(self, bound: int) -> bool {
        -bound <= self.raw <= bound
    }

    /// The fixed-point encoding of the integer `v`.
    pub fn from_int(v: i64) -> (r: Fx)
        requires
            -0x7fff_ffff_ffff <= v <= 0x7fff_ffff_ffff,
        ensures
            r.raw == v * SCALE,
    {
        Fx { raw: v * SCALE }
    }

    /// Zero.
    pub fn zero() -> (r: Fx)
        ensures
            r.raw == 0,
    {
        Fx { raw: 0 }
    }

    /// One, that is, a raw value of `SCALE`.
    pub fn one() -> (r: Fx)
        ensures
            r.raw == SCALE,
    {
        Fx { raw: SCALE }
    }

    /// Exact sum.
    pub fn add(self, other: Fx) -> (r: Fx)
        requires
            i64::MIN <= self.raw + other.raw <= i64::MAX,
        ensures
            r.raw == self.raw + other.raw,
    {
        Fx { raw: self.raw + other.raw }
    }

    /// Exact difference.
    pub fn sub(self, other: Fx) -> (r: Fx)
        requires
            i64::MIN <= self.raw - other.raw <= i64::MAX,
        ensures
            r.raw == self.raw - other.raw,
    {
        Fx { raw: self.raw - other.raw }
    }

    /// Exact negation.
    pub fn neg(self) -> (r: Fx)
        requires
            self.raw != i64::MIN,
        ensures
            r.raw == -self.raw,
    {
        Fx { raw: -self.raw }
    }

    /// Fixed-point product, truncated toward zero.
    pub fn mul(self, other: Fx) -> (r: Fx)
        requires
            -0x7fff_ffff_ffff_ffff * 0x1_0000 <= self.raw * other.raw <= 0x7fff_ffff_ffff_ffff
                * 0x1_0000,
        ensures
            r.raw == mul_raw(self.raw as int, other.raw as int),
    {
        let wide: i128 = (self.raw as i128) * (other.raw as i128);
        let q: i128 = wide / (SCALE as i128);
        proof {
            lemma_tdiv_magnitude(wide as int, SCALE as int, 0x7fff_ffff_ffff_ffff);
        }
        Fx { raw: q as i64 }
    }

    /// Fixed-point quotient by a positive divisor, truncated toward zero.
    pub fn div(self, other: Fx) -> (r: Fx)
        requires
            other.raw >= 1,
            -0x4000_0000_0000 <= self.raw <= 0x4000_0000_0000,
        ensures
            r.raw == div_raw(self.raw as int, other.raw as int),
    {
        let wide: i128 = (self.raw as i128) * (SCALE as i128);
        let q: i128 = wide / (other.raw as i128);
        proof {
            lemma_tdiv_bounds(wide as int, other.raw as int);
            assert(wide as int == self.raw as int * 65536);
            assert(-0x4000_0000_0000_0000 <= wide as int <= 0x4000_0000_0000_0000);
            assert(q as int == tdiv(wide as int, other.raw as int));
        }
        Fx { raw: q as i64 }
    }

    /// The value forced into `[lo, hi]`.
    pub fn clamp(self, lo: Fx, hi: Fx) -> (r: Fx)
        requires
            lo.raw <= hi.raw,
        ensures
            r.raw == clamp_raw(self.raw as int, lo.raw as int, hi.raw as int),
    {
        if self.raw < lo.raw {
            lo
        } else if self.raw > hi.raw {
            hi
        } else {
            self
        }
    }
}

} // verus!
