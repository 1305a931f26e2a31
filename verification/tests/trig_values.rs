use camcore::fixed::Fx;
use camcore::fixed::SCALE;
use camcore::trig::HALF_PI_RAW;
use camcore::trig::PI_RAW;
use camcore::trig::PITCH_LIMIT_RAW;
use camcore::trig::cos_fx;
use camcore::trig::sin_fx;
use camcore::trig::wrap_angle;

#[test]
fn sine_is_exact_at_special_angles() {
    assert_eq!(sin_fx(Fx { raw: 0 }).raw, 0);
    assert_eq!(sin_fx(Fx { raw: HALF_PI_RAW }).raw, SCALE);
    assert_eq!(sin_fx(Fx { raw: -HALF_PI_RAW }).raw, -SCALE);
    assert_eq!(sin_fx(Fx { raw: PI_RAW }).raw, 0);
    assert_eq!(sin_fx(Fx { raw: -PI_RAW }).raw, 0);
}

#[test]
fn cosine_is_exact_at_special_angles() {
    assert_eq!(cos_fx(Fx { raw: 0 }).raw, SCALE);
    assert_eq!(cos_fx(Fx { raw: PI_RAW }).raw, -SCALE);
    assert_eq!(cos_fx(Fx { raw: -PI_RAW }).raw, -SCALE);
    assert_eq!(cos_fx(Fx { raw: HALF_PI_RAW }).raw, 0);
    assert_eq!(cos_fx(Fx { raw: -HALF_PI_RAW }).raw, 0);
}

#[test]
fn sine_and_cosine_sample_values() {
    assert_eq!(sin_fx(Fx { raw: 50000 }).raw, 45211);
    assert_eq!(sin_fx(Fx { raw: -50000 }).raw, -45211);
    assert_eq!(cos_fx(Fx { raw: 50000 }).raw, 47286);
    assert_eq!(cos_fx(Fx { raw: -50000 }).raw, 47286);
    assert_eq!(sin_fx(Fx { raw: 1000 }).raw, 1017);
    // A third of a turn gives exactly one half.
    assert_eq!(cos_fx(Fx { raw: 68629 }).raw, 32768);
}

#[test]
fn sine_stays_strictly_inside_one_at_the_pitch_limit() {
    let up = sin_fx(Fx { raw: PITCH_LIMIT_RAW }).raw;
    let down = sin_fx(Fx { raw: -PITCH_LIMIT_RAW }).raw;
    assert!(up < SCALE && up > -SCALE);
    assert!(down < SCALE && down > -SCALE);
    assert_eq!(up, 65535);
    assert_eq!(down, -65535);
}

#[test]
fn wrap_leaves_angles_in_range_untouched() {
    assert_eq!(wrap_angle(Fx { raw: 0 }).raw, 0);
    assert_eq!(wrap_angle(Fx { raw: PI_RAW }).raw, PI_RAW);
    assert_eq!(wrap_angle(Fx { raw: -PI_RAW }).raw, -PI_RAW);
    assert_eq!(wrap_angle(Fx { raw: 12345 }).raw, 12345);
}

#[test]
fn wrap_reduces_angles_out_of_range() {
    assert_eq!(wrap_angle(Fx { raw: 655360 }).raw, -168192);
    assert_eq!(wrap_angle(Fx { raw: PI_RAW + 1 }).raw, -PI_RAW + 1);
    assert_eq!(wrap_angle(Fx { raw: -PI_RAW - 1 }).raw, PI_RAW - 1);
}
