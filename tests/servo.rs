use robodog::{ease_sine, EaseCurve, Servo, ServoConfig, CURVE_LEN, EASE_STEPS, UNIT};

fn raised_cosine() -> [u32; CURVE_LEN] {
    let mut f = [0u32; CURVE_LEN];
    for (k, v) in f.iter_mut().enumerate() {
        let p = k as f64 / EASE_STEPS as f64;
        *v = ((1.0 - (std::f64::consts::PI * p).cos()) / 2.0 * UNIT as f64) as u32;
    }
    f
}

fn curve() -> EaseCurve {
    EaseCurve::new(raised_cosine()).unwrap()
}

fn plain() -> ServoConfig {
    ServoConfig::new(50_000, 75_000, 100_000, 180, 0, false, false)
}

fn calibrated() -> ServoConfig {
    ServoConfig::new(35_000, 60_000, 120_000, 165, 0, false, true)
}

fn settle(s: &mut Servo) {
    while s.tick().is_some() {}
}

#[test]
fn ease_sine_exact_values() {
    assert_eq!(ease_sine(500_000, 100, 300), 200);
    assert_eq!(ease_sine(0, 100, 300), 100);
    assert_eq!(ease_sine(1_000_000, 100, 300), 300);
    assert_eq!(ease_sine(250_000, 300, 100), 250);
    assert_eq!(ease_sine(1, 300, 100), 299);
    assert_eq!(ease_sine(999_999, 0, 65_535), 65_534);
}

#[test]
fn ease_curve_accepts_raised_cosine() {
    let c = curve();
    assert_eq!(c.factor(0), 0);
    assert_eq!(c.factor(EASE_STEPS), 1_000_000);
    assert_eq!(c.factor(75), 499_999);
}

#[test]
fn ease_curve_rejects_bad_tables() {
    let mut f = raised_cosine();
    f[150] = 999_999;
    assert!(EaseCurve::new(f).is_none());
    let mut f = raised_cosine();
    f[0] = 1;
    assert!(EaseCurve::new(f).is_none());
    let mut f = raised_cosine();
    f[40] = f[42];
    assert!(EaseCurve::new(f).is_none());
}

#[test]
fn new_servo_rests_at_home() {
    let s = Servo::new(10_000, plain(), curve());
    assert_eq!(s.duty(), 750);
    assert_eq!(s.target(), 750);
    assert_eq!(s.previous(), 750);
    assert_eq!(s.progress(), EASE_STEPS);
    assert_eq!(s.max_duty(), 10_000);
}

#[test]
fn rotate_maps_ends_of_range_to_min_and_max() {
    let cfg = ServoConfig::new(35_000, 60_000, 120_000, 165, 0, false, false);
    assert_eq!(cfg.rotation_percentage(0), 35_000);
    assert_eq!(cfg.rotation_percentage(165_000), 120_000);
    let mut s = Servo::new(10_000, cfg, curve());
    s.rotate(0);
    assert_eq!(s.target(), 350);
    s.rotate(165_000);
    assert_eq!(s.target(), 1_200);
}

#[test]
fn rotate_applies_inversion_offset_and_negative_clamp() {
    let inverted = ServoConfig::new(0, 0, 180_000, 180, 0, true, false);
    assert_eq!(inverted.rotation_percentage(0), 180_000);
    assert_eq!(inverted.rotation_percentage(45_000), 135_000);
    let offset = ServoConfig::new(0, 0, 180_000, 180, 90, false, false);
    assert_eq!(offset.rotation_percentage(-45_000), 45_000);
    assert_eq!(offset.rotation_percentage(-120_000), 0);
    let plain = ServoConfig::new(30_000, 0, 120_000, 180, 0, false, false);
    assert_eq!(plain.rotation_percentage(-10_000), 30_000);
    assert_eq!(plain.rotation_percentage(360_000), 210_000);
}

#[test]
fn write_clamps_to_unit_interval() {
    let mut s = Servo::new(10_000, plain(), curve());
    s.write(2_000_000);
    assert_eq!(s.target(), 10_000);
    s.write(-5);
    assert_eq!(s.target(), 0);
    s.write(UNIT);
    assert_eq!(s.target(), 10_000);
}

#[test]
fn write_clamps_to_calibrated_range() {
    let mut s = Servo::new(10_000, calibrated(), curve());
    s.write(0);
    assert_eq!(s.target(), 350);
    s.write(500_000);
    assert_eq!(s.target(), 1_200);
    s.write(100_000);
    assert_eq!(s.target(), 1_000);
}

#[test]
fn rotate_beyond_range_is_clamped_on_calibrated_channel() {
    let mut s = Servo::new(10_000, calibrated(), curve());
    s.rotate(400_000);
    assert_eq!(s.target(), 1_200);
    s.rotate(-30_000);
    assert_eq!(s.target(), 350);
}

#[test]
fn calibrate_bypasses_calibrated_range() {
    let mut s = Servo::new(10_000, calibrated(), curve());
    s.calibrate(500_000);
    assert_eq!(s.target(), 5_000);
    s.calibrate(3_000_000);
    assert_eq!(s.target(), 10_000);
}

#[test]
fn write_takes_first_step_at_once() {
    let mut s = Servo::new(10_000, plain(), curve());
    let d = s.write(100_000);
    assert_eq!(s.previous(), 750);
    assert_eq!(s.target(), 1_000);
    assert_eq!(s.progress(), 1);
    assert_eq!(d, s.duty());
    assert_eq!(d, 750);
}

#[test]
fn ticks_move_monotonically_and_settle_on_target() {
    let mut s = Servo::new(10_000, plain(), curve());
    s.write(0);
    let mut last = s.duty();
    let mut ticks = 0;
    while let Some(d) = s.tick() {
        assert!(d <= last);
        last = d;
        ticks += 1;
    }
    assert_eq!(ticks, 149);
    assert_eq!(s.duty(), 0);
    assert_eq!(s.tick(), None);
    assert_eq!(s.duty(), 0);

    s.write(UNIT);
    let mut last = s.duty();
    while let Some(d) = s.tick() {
        assert!(d >= last);
        last = d;
    }
    assert_eq!(s.duty(), 10_000);
    assert_eq!(s.progress(), EASE_STEPS);
}

#[test]
fn easing_midpoint_is_halfway() {
    let mut s = Servo::new(10_000, plain(), curve());
    s.write(0);
    settle(&mut s);
    s.write(UNIT);
    for _ in 0..74 {
        s.tick();
    }
    assert_eq!(s.progress(), 75);
    assert_eq!(s.duty(), 4_999);
}

#[test]
fn home_returns_to_home_duty() {
    let mut s = Servo::new(10_000, plain(), curve());
    s.write(UNIT);
    settle(&mut s);
    s.home();
    settle(&mut s);
    assert_eq!(s.duty(), 750);
}

#[test]
fn retarget_mid_move_starts_from_current_duty() {
    let mut s = Servo::new(10_000, plain(), curve());
    s.write(UNIT);
    for _ in 0..10 {
        s.tick();
    }
    let here = s.duty();
    s.write(0);
    assert_eq!(s.previous(), here);
}
