use vertical_shooter::angle::{
    angle_of_direction, cos_of_dir, direction_of_angle, direction_toward, sin_of_dir, steer,
    PI_MRAD, TAU_MRAD,
};
use vertical_shooter::geometry::{mul_div_trunc, Vec2, WindowSize};

#[test]
fn reference_window_speeds() {
    let w = WindowSize::new(1024, 768);
    assert_eq!(w.player_speed(), 5000);
    assert_eq!(w.bullet_speed(), 8000);
    assert_eq!(w.enemy_speed(), 120_000);
    assert_eq!(w.min_scale_numerator(), 1024 * 768);
}

#[test]
fn doubled_window_speeds() {
    let w = WindowSize::new(2048, 1536);
    assert_eq!(w.player_speed(), 10000);
    assert_eq!(w.bullet_speed(), 16000);
    assert_eq!(w.enemy_speed(), 240_000);
}

#[test]
fn scale_and_unscale_round_trip_on_exact_values() {
    let w = WindowSize::new(512, 384);
    let v = Vec2::new(-100_000, 60_000);
    let s = w.scale_vec2(v);
    assert_eq!(s, Vec2::new(-50_000, 30_000));
    assert_eq!(w.unscale_vec2(s), v);
}

#[test]
fn mul_div_rounds_toward_zero() {
    assert_eq!(mul_div_trunc(7, 1, 2), 3);
    assert_eq!(mul_div_trunc(-7, 1, 2), -3);
    assert_eq!(mul_div_trunc(0, 5, 3), 0);
}

#[test]
fn sine_table_values() {
    assert_eq!(sin_of_dir(0), 0);
    assert_eq!(sin_of_dir(6), 500);
    assert_eq!(sin_of_dir(18), 1000);
    assert_eq!(sin_of_dir(54), -1000);
    assert_eq!(sin_of_dir(66), -500);
    assert_eq!(cos_of_dir(0), 1000);
    assert_eq!(cos_of_dir(12), 500);
    assert_eq!(cos_of_dir(36), -1000);
}

#[test]
fn aim_points_along_axes() {
    assert_eq!(direction_toward(Vec2::new(100, 0)), 0);
    assert_eq!(direction_toward(Vec2::new(0, 100)), 18);
    assert_eq!(direction_toward(Vec2::new(-100, 0)), 36);
    assert_eq!(direction_toward(Vec2::new(0, -100)), 54);
    assert_eq!(direction_toward(Vec2::new(100, 100)), 9);
}

#[test]
fn angles_and_directions_agree() {
    assert_eq!(direction_of_angle(0), 0);
    assert_eq!(direction_of_angle(PI_MRAD), 36);
    assert_eq!(direction_of_angle(-PI_MRAD / 2), 54);
    assert_eq!(direction_of_angle(TAU_MRAD + 524), 6);
    assert_eq!(angle_of_direction(0), 0);
    assert_eq!(angle_of_direction(18), 1571);
    assert_eq!(angle_of_direction(54), -1571);
}

#[test]
fn steering_closes_a_tenth_of_the_error() {
    assert_eq!(steer(0, 1000), 100);
    assert_eq!(steer(0, -1000), -100);
    assert_eq!(steer(1000, 1000), 1000);
    // The short way round from just below +PI to just above -PI crosses PI.
    assert_eq!(steer(3000, -3000), 3028);
}
