//! Fixed-point angles and trigonometry.
//!
//! Angles are fixed-point radians. Sine is computed by Bhaskara's rational
//! approximation `16x(pi - x) / (5 pi^2 - 4x(pi - x))` on `[0, pi]`, extended
//! to `[-pi, pi]` as an odd function; cosine is sine shifted by a quarter
//! turn. The approximation is exact at `0`, `pi` and `+-pi/2`, and provably
//! stays within `[-1, 1]`, strictly inside whenever the angle stays away
//! from `+-pi/2`; that last fact is what keeps a clamped pitch away from the
//! poles.

use vstd::prelude::*;

use crate::fixed::Fx;
use crate::fixed::SCALE;
use crate::fixed::tdiv;
use crate::fixed::lemma_tdiv_bounds;
use crate::fixed::lemma_tdiv_strict_upper;

verus! {

/// Fixed-point pi, rounded to a multiple of four so that the half and
/// quarter turns below are exact.
pub const PI_RAW: i64 = 205888;

/// Fixed-point 2 * pi.
pub const TWO_PI_RAW: i64 = 411776;

/// Fixed-point pi / 2.
pub const HALF_PI_RAW: i64 = 102944;

/// The largest magnitude the camera's pitch may take: a quarter turn minus a
/// small safety margin, so the view direction never reaches the poles.
pub const PITCH_LIMIT_RAW: i64 = 102938;

/// Bhaskara's sine approximation on `[0, PI_RAW]`, as a raw fixed-point value.
pub open spec fn bhaskara_raw(x: int) -> int {
    let prod = x * (PI_RAW - x);
    tdiv(16 * prod * (SCALE as int), 5 * (PI_RAW as int) * (PI_RAW as int) - 4 * prod)
}

/// Sine on `[-PI_RAW, PI_RAW]`: Bhaskara's approximation, extended as an odd
/// function.
pub open spec fn sin_raw(x: int) -> int {
    if x >= 0 {
        bhaskara_raw(x)
    } else {
        -bhaskara_raw(-x)
    }
}

/// The argument shifted by a quarter turn and brought back into
/// `[-PI_RAW, PI_RAW]`.
pub open spec fn cos_arg(x: int) -> int {
    if x + HALF_PI_RAW > PI_RAW {
        x + HALF_PI_RAW - TWO_PI_RAW
    } else {
        x + HALF_PI_RAW
    }
}

/// Cosine on `[-PI_RAW, PI_RAW]`: sine of the angle plus a quarter turn.
pub open spec fn cos_raw(x: int) -> int {
    sin_raw(cos_arg(x))
}

/// An arbitrary angle brought into `[-PI_RAW, PI_RAW]`; angles already in
/// that interval are left untouched.
pub open spec fn wrap_raw(x: int) -> int {
    if -PI_RAW <= x <= PI_RAW {
        x
    } else {
        (x + PI_RAW) % (TWO_PI_RAW as int) - PI_RAW
    }
}

/// Bhaskara's approximation stays within `[0, SCALE]` on `[0, PI_RAW]`.
pub proof fn lemma_bhaskara_range(x: int)
    requires
        0 <= x <= PI_RAW,
    ensures
        0 <= bhaskara_raw(x) <= SCALE,
{
    let prod = x * (PI_RAW - x);
    let num = 16 * prod * (SCALE as int);
    let den = 5 * (PI_RAW as int) * (PI_RAW as int) - 4 * prod;
    assert(0 <= prod && 20 * prod <= 5 * (PI_RAW as int) * (PI_RAW as int)) by (nonlinear_arith)
        requires
            0 <= x <= PI_RAW,
            prod == x * (PI_RAW - x),
    ;
    assert(num <= den * (SCALE as int) && den >= 1 && num >= 0) by (nonlinear_arith)
        requires
            0 <= prod,
            20 * prod <= 5 * (PI_RAW as int) * (PI_RAW as int),
            num == 16 * prod * (SCALE as int),
            den == 5 * (PI_RAW as int) * (PI_RAW as int) - 4 * prod,
    ;
    lemma_tdiv_bounds(num, den);
    vstd::arithmetic::div_mod::lemma_multiply_divide_le(num, den, SCALE as int);
}

/// Away from the quarter turn, Bhaskara's approximation stays strictly below
/// one in magnitude.
pub proof fn lemma_bhaskara_strict(x: int)
    requires
        0 <= x <= PI_RAW,
        x <= HALF_PI_RAW - 1 || x >= HALF_PI_RAW + 1,
    ensures
        0 <= bhaskara_raw(x) < SCALE,
{
    let prod = x * (PI_RAW - x);
    let num = 16 * prod * (SCALE as int);
    let den = 5 * (PI_RAW as int) * (PI_RAW as int) - 4 * prod;
    assert(0 <= prod && 20 * prod < 5 * (PI_RAW as int) * (PI_RAW as int)) by (nonlinear_arith)
        requires
            0 <= x <= PI_RAW,
            x <= HALF_PI_RAW - 1 || x >= HALF_PI_RAW + 1,
            prod == x * (PI_RAW - x),
    ;
    assert(num < den * (SCALE as int) && den >= 1 && num >= 0) by (nonlinear_arith)
        requires
            0 <= prod,
            20 * prod < 5 * (PI_RAW as int) * (PI_RAW as int),
            num == 16 * prod * (SCALE as int),
            den == 5 * (PI_RAW as int) * (PI_RAW as int) - 4 * prod,
    ;
    lemma_tdiv_bounds(num, den);
    lemma_tdiv_strict_upper(num, den, SCALE as int);
}

/// Sine stays within `[-SCALE, SCALE]` on its whole domain.
pub proof fn lemma_sin_range(x: int)
    requires
        -PI_RAW <= x <= PI_RAW,
    ensures
        -SCALE <= sin_raw(x) <= SCALE,
{
    if x >= 0 {
        lemma_bhaskara_range(x);
    } else {
        lemma_bhaskara_range(-x);
    }
}

/// A pitch within the clamped range gives a sine of magnitude strictly
/// below one: the view direction never reaches the poles.
pub proof fn lemma_sin_strictly_inside(x: int)
    requires
        -PITCH_LIMIT_RAW <= x <= PITCH_LIMIT_RAW,
    ensures
        -SCALE < sin_raw(x) < SCALE,
{
    if x >= 0 {
        lemma_bhaskara_strict(x);
        lemma_bhaskara_range(x);
    } else {
        lemma_bhaskara_strict(-x);
        lemma_bhaskara_range(-x);
    }
}

/// Bhaskara's approximation, evaluated on raw values.
fn bhaskara(x: i64) -> (r: i64)
    requires
        0 <= x <= PI_RAW,
    ensures
        r == bhaskara_raw(x as int),
        0 <= r <= SCALE,
{
    proof {
        assert(0 <= x * (PI_RAW - x) <= (PI_RAW as int) * (PI_RAW as int)) by (nonlinear_arith)
            requires
                0 <= x <= PI_RAW,
        ;
        lemma_bhaskara_range(x as int);
    }
    let prod: i64 = x * (PI_RAW - x);
    let num: i64 = 16 * prod * SCALE;
    let den: i64 = 5 * PI_RAW * PI_RAW - 4 * prod;
    num / den
}

/// Fixed-point sine of an angle in `[-PI_RAW, PI_RAW]`.
pub fn sin_fx(x: Fx) -> (r: Fx)
    requires
        -PI_RAW <= x.raw <= PI_RAW,
    ensures
        r.raw == sin_raw(x.raw as int),
        -SCALE <= r.raw <= SCALE,
{
    if x.raw >= 0 {
        Fx { raw: bhaskara(x.raw) }
    } else {
        Fx { raw: -bhaskara(-x.raw) }
    }
}

/// Fixed-point cosine of an angle in `[-PI_RAW, PI_RAW]`.
pub fn cos_fx(x: Fx) -> (r: Fx)
    requires
        -PI_RAW <= x.raw <= PI_RAW,
    ensures
        r.raw == cos_raw(x.raw as int),
        -SCALE <= r.raw <= SCALE,
{
    let shifted: i64 = if x.raw + HALF_PI_RAW > PI_RAW {
        x.raw + HALF_PI_RAW - TWO_PI_RAW
    } else {
        x.raw + HALF_PI_RAW
    };
    sin_fx(Fx { raw: shifted })
}

/// An angle brought back into `[-PI_RAW, PI_RAW]`; angles already in range
/// come back unchanged.
pub fn wrap_angle(x: Fx) -> (r: Fx)
    requires
        -0x10_0000_0000_0000 <= x.raw <= 0x10_0000_0000_0000,
    ensures
        r.raw == wrap_raw(x.raw as int),
        -PI_RAW <= r.raw <= PI_RAW,
{
    if -PI_RAW <= x.raw && x.raw <= PI_RAW {
        x
    } else {
        let s: i64 = x.raw + PI_RAW;
        let m: i64 = if s >= 0 {
            s % TWO_PI_RAW
        } else {
            let n: i64 = -s;
            let j: i64 = n % TWO_PI_RAW;
            proof {
                vstd::arithmetic::div_mod::lemma_fundamental_div_mod(n as int, TWO_PI_RAW as int);
                if j == 0 {
                    vstd::arithmetic::div_mod::lemma_fundamental_div_mod_converse_mod(
                        s as int,
                        TWO_PI_RAW as int,
                        -(n as int / TWO_PI_RAW as int),
                        0,
                    );
                } else {
                    vstd::arithmetic::div_mod::lemma_fundamental_div_mod_converse_mod(
                        s as int,
                        TWO_PI_RAW as int,
                        -(n as int / TWO_PI_RAW as int) - 1,
                        TWO_PI_RAW as int - j as int,
                    );
                }
            }
            if j == 0 {
                0
            } else {
                TWO_PI_RAW - j
            }
        };
        Fx { raw: m - PI_RAW }
    }
}

} // verus!
