use smr::fixed::{
    fx_add, fx_cos, fx_div, fx_max0, fx_mul, fx_neg, fx_sin, fx_sqrt, fx_sub, fx_tan, PI_FX, SCALE,
};

#[test]
fn add_and_sub_plain() {
    assert_eq!(fx_add(1_500_000, 2_500_000), 4_000_000);
    assert_eq!(fx_sub(1_500_000, 2_500_000), -1_000_000);
    assert_eq!(fx_neg(-3_000_000), 3_000_000);
}

#[test]
fn add_saturates_at_the_range_ends() {
    assert_eq!(fx_add(i64::MAX, 1), i64::MAX);
    assert_eq!(fx_add(i64::MIN, -1), i64::MIN);
    assert_eq!(fx_sub(i64::MIN, 1), i64::MIN);
    assert_eq!(fx_neg(i64::MIN), i64::MAX);
}

#[test]
fn mul_scales_back_to_the_grid() {
    assert_eq!(fx_mul(2_000_000, 3_000_000), 6_000_000);
    assert_eq!(fx_mul(-1_500_000, 2_000_000), -3_000_000);
    // a millionth times a millionth is below the grid
    assert_eq!(fx_mul(1, 1), 0);
    // truncation is toward zero on both sides
    assert_eq!(fx_mul(-1_500_000, 333), -499);
    assert_eq!(fx_mul(1_500_000, 333), 499);
}

#[test]
fn mul_saturates() {
    assert_eq!(fx_mul(1_000_000_000_000_000, 10_000_000_000_000), i64::MAX);
    assert_eq!(fx_mul(-1_000_000_000_000_000, 10_000_000_000_000), i64::MIN);
}

#[test]
fn div_truncates_toward_zero() {
    assert_eq!(fx_div(1_000_000, 3_000_000), 333_333);
    assert_eq!(fx_div(-1_000_000, 3_000_000), -333_333);
    assert_eq!(fx_div(1_000_000, -3_000_000), -333_333);
    assert_eq!(fx_div(-1_000_000, -3_000_000), 333_333);
}

#[test]
fn div_by_zero_saturates_by_sign() {
    assert_eq!(fx_div(5, 0), i64::MAX);
    assert_eq!(fx_div(-5, 0), i64::MIN);
    assert_eq!(fx_div(0, 0), 0);
}

#[test]
fn sqrt_exact_and_floor() {
    assert_eq!(fx_sqrt(4_000_000), 2_000_000);
    assert_eq!(fx_sqrt(25_000_000), 5_000_000);
    assert_eq!(fx_sqrt(0), 0);
    // sqrt(2) = 1.41421356..., floored on the grid
    assert_eq!(fx_sqrt(2_000_000), 1_414_213);
}

#[test]
fn max0_clamps_negatives() {
    assert_eq!(fx_max0(-7), 0);
    assert_eq!(fx_max0(7), 7);
}

#[test]
fn trig_series_at_known_angles() {
    assert_eq!(fx_sin(0), 0);
    assert_eq!(fx_cos(0), SCALE);
    // sin(pi/6) = 1/2 exactly on the grid
    assert_eq!(fx_sin(523_599), 500_000);
    // tan(pi/4) = 1 exactly on the grid
    assert_eq!(fx_tan(785_398), 1_000_000);
    // tan(35 degrees) = 0.70020753...
    assert_eq!(fx_tan(610_865), 700_208);
}

#[test]
fn pi_on_the_grid() {
    assert_eq!(PI_FX, 3_141_593);
    // the Lambertian normalization 1/pi
    assert_eq!(fx_div(SCALE, PI_FX), 318_309);
}
