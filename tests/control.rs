use robodog::{
    AppProps, Controller, EaseCurve, IkSolver, Joint, Mailbox, Servo, ServoConfig, ServoTask,
    TrigTerms, CURVE_LEN, EASE_STEPS, SERVO_COUNT, UNIT,
};

fn curve() -> EaseCurve {
    let mut f = [0u32; CURVE_LEN];
    for (k, v) in f.iter_mut().enumerate() {
        let p = k as f64 / EASE_STEPS as f64;
        *v = ((1.0 - (std::f64::consts::PI * p).cos()) / 2.0 * UNIT as f64) as u32;
    }
    EaseCurve::new(f).unwrap()
}

fn controller() -> Controller {
    let calibrated = ServoConfig::new(35_000, 60_000, 120_000, 165, 0, false, true);
    let plain = ServoConfig::new(50_000, 75_000, 100_000, 180, 0, false, false);
    let c = curve();
    let servos: [Servo; SERVO_COUNT] = std::array::from_fn(|i| {
        Servo::new(10_000, if i == 5 { calibrated } else { plain }, c)
    });
    Controller::new(
        servos,
        IkSolver::new(Joint::new(0), Joint::new(10_000), Joint::new(10_000)),
    )
}

fn no_terms() -> TrigTerms {
    TrigTerms { elevation: 0, half: 0, bearing: 0 }
}

#[test]
fn mailbox_last_write_wins() {
    let mut m = Mailbox::new();
    m.send(ServoTask::MOVE(1, 2, 3));
    m.send(ServoTask::HOME);
    assert_eq!(m.receive(), Some(ServoTask::HOME));
    assert_eq!(m.receive(), None);
}

#[test]
fn mailbox_starts_empty_and_delivers_once() {
    let mut m = Mailbox::new();
    assert_eq!(m.receive(), None);
    m.send(ServoTask::CALIBRATION(3, 42));
    assert_eq!(m.receive(), Some(ServoTask::CALIBRATION(3, 42)));
    assert_eq!(m.receive(), None);
}

#[test]
fn calibrate_sets_channel_duty_regardless_of_range() {
    let mut c = controller();
    let mut m = Mailbox::new();
    c.handle(ServoTask::CALIBRATION(5, 500_000), &no_terms(), &mut m);
    assert_eq!(c.servo(5).target(), 5_000);
    assert_eq!(c.servo(4).target(), 750);
    assert_eq!(m.receive(), None);
}

#[test]
fn calibrate_out_of_range_channel_is_ignored() {
    let mut c = controller();
    let mut m = Mailbox::new();
    c.handle(ServoTask::CALIBRATION(12, 500_000), &no_terms(), &mut m);
    c.handle(ServoTask::CALIBRATION(200, 500_000), &no_terms(), &mut m);
    for i in 0..SERVO_COUNT {
        assert_eq!(c.servo(i).progress(), EASE_STEPS);
    }
    assert_eq!(m.receive(), None);
}

#[test]
fn unreachable_move_posts_home() {
    let mut c = controller();
    let mut m = Mailbox::new();
    let before: Vec<u16> = (0..SERVO_COUNT).map(|i| c.servo(i).target()).collect();
    c.handle(ServoTask::MOVE(30_000, 0, 0), &no_terms(), &mut m);
    let after: Vec<u16> = (0..SERVO_COUNT).map(|i| c.servo(i).target()).collect();
    assert_eq!(before, after);
    assert_eq!(m.receive(), Some(ServoTask::HOME));
}

#[test]
fn reachable_move_rotates_channels_in_turn() {
    let mut c = controller();
    let mut m = Mailbox::new();
    let terms = TrigTerms { elevation: 30_000, half: 45_000, bearing: 45_000 };
    c.handle(ServoTask::MOVE(15_000, 0, 0), &terms, &mut m);
    assert_eq!(m.receive(), None);
    // hip 0°, base 90°, elbow 90° on a 180° channel over [0.05, 0.10]
    assert_eq!(c.servo(0).target(), 500);
    assert_eq!(c.servo(1).target(), 750);
    assert_eq!(c.servo(2).target(), 750);
    assert_eq!(c.servo(3).target(), 500);
    // the calibrated channel: 90° of 165° over [0.035, 0.12]
    assert_eq!(c.servo(5).target(), 813);
}

#[test]
fn lifted_move_uses_elevation_for_hip() {
    let mut c = controller();
    let mut m = Mailbox::new();
    let terms = TrigTerms { elevation: 36_000, half: 45_000, bearing: 45_000 };
    c.handle(ServoTask::MOVE(9_000, 0, 12_000), &terms, &mut m);
    assert_eq!(c.servo(0).target(), 600);
    assert_eq!(c.servo(9).target(), 600);
}

#[test]
fn home_moves_every_channel_home() {
    let mut c = controller();
    let mut m = Mailbox::new();
    c.handle(ServoTask::CALIBRATION(0, UNIT), &no_terms(), &mut m);
    c.handle(ServoTask::HOME, &no_terms(), &mut m);
    for _ in 0..EASE_STEPS {
        c.tick();
    }
    assert_eq!(c.servo(0).duty(), 750);
    assert_eq!(c.servo(5).duty(), 600);
}

#[test]
fn tick_drives_every_channel() {
    let mut c = controller();
    let mut m = Mailbox::new();
    c.handle(ServoTask::CALIBRATION(2, UNIT), &no_terms(), &mut m);
    assert_eq!(c.servo(2).progress(), 1);
    c.tick();
    assert_eq!(c.servo(2).progress(), 2);
    assert_eq!(c.servo(0).progress(), EASE_STEPS);
    for _ in 0..200 {
        c.tick();
    }
    assert_eq!(c.servo(2).duty(), 10_000);
}

#[test]
fn routes_build_commands() {
    assert_eq!(AppProps::pos(150, -20, 3), ServoTask::MOVE(150, -20, 3));
    assert_eq!(AppProps::home(), ServoTask::HOME);
    assert_eq!(AppProps::pwm(5, 3_333), ServoTask::CALIBRATION(5, 499_950));
    assert_eq!(AppProps::pwm(1, 65_535), ServoTask::CALIBRATION(1, 9_830_259));
    assert_eq!(AppProps::pwm(0, 0), ServoTask::CALIBRATION(0, 0));
}
