use camcore::fixed::Fx;
use camcore::fixed::SCALE;

#[test]
fn from_int_scales_by_denominator() {
    assert_eq!(Fx::from_int(0).raw, 0);
    assert_eq!(Fx::from_int(1).raw, SCALE);
    assert_eq!(Fx::from_int(-3).raw, -3 * SCALE);
    assert_eq!(Fx::one().raw, SCALE);
    assert_eq!(Fx::zero().raw, 0);
}

#[test]
fn add_sub_neg_are_exact() {
    let a = Fx::from_int(5);
    let b = Fx::from_int(3);
    assert_eq!(a.add(b).raw, 8 * SCALE);
    assert_eq!(a.sub(b).raw, 2 * SCALE);
    assert_eq!(b.sub(a).raw, -2 * SCALE);
    assert_eq!(a.neg().raw, -5 * SCALE);
}

#[test]
fn mul_is_exact_on_integers() {
    assert_eq!(Fx::from_int(3).mul(Fx::from_int(2)).raw, 6 * SCALE);
    assert_eq!(Fx::from_int(-3).mul(Fx::from_int(2)).raw, -6 * SCALE);
}

#[test]
fn mul_truncates_toward_zero() {
    // 3/65536 * 3/65536 is far below one raw unit.
    assert_eq!(Fx { raw: 3 }.mul(Fx { raw: 3 }).raw, 0);
    // A tiny negative product truncates up to zero, not down to -1.
    assert_eq!(Fx { raw: -1 }.mul(Fx { raw: 65535 }).raw, 0);
    // -1.5 * 1.0 stays exact.
    assert_eq!(Fx { raw: -98304 }.mul(Fx::one()).raw, -98304);
}

#[test]
fn div_matches_expected_quotients() {
    assert_eq!(Fx::one().div(Fx::from_int(3)).raw, 21845);
    assert_eq!(Fx::from_int(7).div(Fx::from_int(2)).raw, 229376);
    assert_eq!(Fx::from_int(-7).div(Fx::from_int(2)).raw, -229376);
    // A tiny negative quotient truncates toward zero.
    assert_eq!(Fx { raw: -1 }.div(Fx::from_int(3)).raw, 0);
}

#[test]
fn clamp_forces_into_interval() {
    let lo = Fx::from_int(-1);
    let hi = Fx::from_int(1);
    assert_eq!(Fx::from_int(5).clamp(lo, hi).raw, SCALE);
    assert_eq!(Fx::from_int(-5).clamp(lo, hi).raw, -SCALE);
    assert_eq!(Fx { raw: 1234 }.clamp(lo, hi).raw, 1234);
}
