use crate::task::ServoTask;
use vstd::prelude::*;

verus! {

/// A raw `/pwm` duty value `v` stands for `v / 6666.66` of the full period:
/// in parts per million, `v · PWM_SCALE_NUM / PWM_SCALE_DEN`.
pub const PWM_SCALE_NUM: i64 = 100_000_000;

pub const PWM_SCALE_DEN: i64 = 666_666;

/// The normalized duty (parts per million) of a raw `/pwm` value, rounded
/// down.
pub open spec fn pwm_duty(value: int) -> int {
    value * (PWM_SCALE_NUM as int) / (PWM_SCALE_DEN as int)
}

/// The commands that the web routes post: each takes the path segments of its
/// route, already parsed, and gives the command for the control loop.
pub struct AppProps;

impl AppProps {
    /// `/pos/<x>/<y>/<z>`: a move to `(x, y, z)` in hundredths of a unit.
    pub fn pos(x: i16, y: i16, z: i16) -> (r: ServoTask)
        ensures
            r == ServoTask::MOVE(x, y, z),
    {
        ServoTask::MOVE(x, y, z)
    }

    /// `/pwm/<channel>/<value>`: channel `channel` straight to the duty that
    /// `value` stands for.
    pub fn pwm(channel: u8, value: u16) -> (r: ServoTask)
        ensures
            r == ServoTask::CALIBRATION(channel, pwm_duty(value as int) as i64),
    {
        let duty = value as i64 * PWM_SCALE_NUM / PWM_SCALE_DEN;
        ServoTask::CALIBRATION(channel, duty)
    }

    /// `/home`: every channel back to its home duty.
    pub fn home() -> (r: ServoTask)
        ensures
            r == ServoTask::HOME,
    {
        ServoTask::HOME
    }
}

} // verus!
