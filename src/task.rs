use vstd::prelude::*;

verus! {

/// A request to the control loop.
#[allow(non_camel_case_types)]
#[derive(Clone, Copy, Debug, PartialEq, Eq, Structural)]
pub enum ServoTask {
    /// Drive one channel (by index) straight to a normalized duty in parts per
    /// million, bypassing the solver and the calibration range.
    CALIBRATION(u8, i64),
    /// Move the foot to `(x, y, z)`, in hundredths of a unit.
    MOVE(i16, i16, i16),
    /// Return every channel to its home duty.
    HOME,
}

} // verus!
