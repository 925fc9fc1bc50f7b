use crate::ease::{
    ease_sine, eased, lemma_eased_bounds, lemma_eased_monotone, valid_curve, EaseCurve, EASE_STEPS,
    UNIT,
};
use vstd::arithmetic::div_mod::{lemma_div_by_multiple, lemma_div_is_ordered};
use vstd::arithmetic::mul::lemma_mul_inequality;
use vstd::prelude::*;

verus! {

/// Millidegrees per degree.
pub const MILLIS_PER_DEGREE: i64 = 1000;

/// `v` limited to `[lo, hi]`.
pub open spec fn clamp(v: int, lo: int, hi: int) -> int {
    if v < lo {
        lo
    } else if v > hi {
        hi
    } else {
        v
    }
}

/// A normalized duty `p` (parts per million) in hardware duty units, rounded
/// down.
pub open spec fn duty_units(p: int, max_duty: int) -> int {
    p * max_duty / (UNIT as int)
}

/// Calibration of one servo channel. Duty values are normalized, in parts per
/// million of the full period; rotation and offset are in whole degrees.
#[derive(Clone, Copy, Debug, PartialEq, Eq)]
pub struct ServoConfig {
    min_angle: u32,
    max_angle: u32,
    home: u32,
    /// clamp output to `[min_angle, max_angle]`
    calibrated: bool,
    max_rotation: u16,
    /// invert angle
    inverted: bool,
    /// offset added to the angle after inversion
    offset: u16,
}

impl ServoConfig {
    pub closed spec fn min(self) -> int {
        self.min_angle as int
    }

    pub closed spec fn max(self) -> int {
        self.max_angle as int
    }

    pub closed spec fn home_spec(self) -> int {
        self.home as int
    }

    pub closed spec fn is_calibrated(self) -> bool {
        self.calibrated
    }

    pub closed spec fn max_rot(self) -> int {
        self.max_rotation as int
    }

    pub closed spec fn is_inverted(self) -> bool {
        self.inverted
    }

    pub closed spec fn offset_spec(self) -> int {
        self.offset as int
    }

    /// The duty range is a sub-range of the unit interval and the rotation
    /// range is not empty.
    pub open spec fn wf(self) -> bool {
        &&& 0 <= self.min() <= self.max() <= UNIT
        &&& self.max_rot() > 0
        &&& self.home_spec() >= 0
        &&& self.offset_spec() >= 0
    }

    /// The normalized duty that a write of `p` commands: first limited to the
    /// unit interval, then, on a calibrated channel, to `[min, max]`.
    pub open spec fn applied(self, p: int) -> int {
        let q = clamp(p, 0, UNIT as int);
        if self.is_calibrated() {
            clamp(q, self.min(), self.max())
        } else {
            q
        }
    }

    /// A logical angle in millidegrees after inversion, offset and the
    /// clamp of negative angles to zero.
    pub open spec fn adjusted_degree(self, degree: int) -> int {
        let full = self.max_rot() * MILLIS_PER_DEGREE;
        let d1 = if self.is_inverted() {
            full - degree
        } else {
            degree
        };
        let d2 = d1 + self.offset_spec() * MILLIS_PER_DEGREE;
        if d2 < 0 {
            0
        } else {
            d2
        }
    }

    /// The normalized duty for a logical angle: the adjusted angle mapped
    /// linearly from `[0, max_rotation]` onto `[min, max]`, rounded down.
    pub open spec fn spec_rotation_percentage(self, degree: int) -> int {
        self.min() + self.adjusted_degree(degree) * (self.max() - self.min()) / (self.max_rot()
            * MILLIS_PER_DEGREE)
    }

    pub fn new(
        min: u32,
        home: u32,
        max: u32,
        max_rotation: u16,
        offset: u16,
        inverted: bool,
        calibrated: bool,
    ) -> (r: ServoConfig)
        requires
            min <= max <= UNIT,
            max_rotation > 0,
        ensures
            r.wf(),
            r.min() == min,
            r.max() == max,
            r.home_spec() == home,
            r.max_rot() == max_rotation,
            r.offset_spec() == offset,
            r.is_inverted() == inverted,
            r.is_calibrated() == calibrated,
    {
        ServoConfig {
            min_angle: min,
            max_angle: max,
            max_rotation,
            offset,
            inverted,
            calibrated,
            home,
        }
    }

    /// The normalized duty (parts per million) for a logical angle in
    /// millidegrees, before any clamping of the duty.
    pub fn rotation_percentage(&self, degree: i64) -> (r: i128)
        requires
            self.wf(),
        ensures
            r == self.spec_rotation_percentage(degree as int),
    {
        let full = self.max_rotation as i128 * MILLIS_PER_DEGREE as i128;
        let mut d = degree as i128;
        if self.inverted {
            d = full - d;
        }
        if self.offset != 0 {
            d = d + self.offset as i128 * MILLIS_PER_DEGREE as i128;
        }
        if d < 0 {
            d = 0;
        }
        let delta = (self.max_angle - self.min_angle) as i128;
        proof {
            lemma_mul_inequality(delta as int, UNIT as int, d as int);
            assert(d * UNIT <= 0x1_0000_0000_0000_0000 * UNIT);
            assert(full == self.max_rotation as int * 1000);
            assert(full > 0);
        }
        let scaled = d * delta;
        assert(scaled >= 0);
        self.min_angle as i128 + scaled / full
    }

    /// The normalized duty that a write of `p` commands.
    fn applied_percentage(&self, p: i128, calibration_clamp: bool) -> (r: i64)
        requires
            self.wf(),
        ensures
            r == (if calibration_clamp {
                self.applied(p as int)
            } else {
                clamp(p as int, 0, UNIT as int)
            }),
            0 <= r <= UNIT,
    {
        let mut q: i64 = if p > UNIT as i128 {
            UNIT
        } else if p < 0 {
            0
        } else {
            p as i64
        };
        if calibration_clamp && self.calibrated {
            if (q as u64) < self.min_angle as u64 {
                q = self.min_angle as i64;
            } else if (q as u64) > self.max_angle as u64 {
                q = self.max_angle as i64;
            }
        }
        q
    }
}

/// What a logical percentage that a write commands always satisfies: it lies
/// in the unit interval, and within `[min, max]` on a calibrated channel.
pub proof fn lemma_applied_in_range(config: ServoConfig, p: int)
    requires
        config.wf(),
    ensures
        0 <= config.applied(p) <= UNIT,
        config.is_calibrated() ==> config.min() <= config.applied(p) <= config.max(),
{
}

/// A normalized duty in the unit interval gives at most the full duty range.
proof fn lemma_duty_units_bounds(p: int, max_duty: int)
    requires
        0 <= p <= UNIT,
        0 <= max_duty,
    ensures
        0 <= duty_units(p, max_duty) <= max_duty,
{
    let u = UNIT as int;
    lemma_mul_inequality(p, u, max_duty);
    lemma_mul_inequality(0, p, max_duty);
    lemma_div_is_ordered(p * max_duty, u * max_duty, u);
    lemma_div_is_ordered(0, p * max_duty, u);
    lemma_div_by_multiple(max_duty, u);
    assert(u * max_duty == max_duty * u) by (nonlinear_arith);
}

/// The state of one servo channel as a mathematical value.
pub struct ServoView {
    pub config: ServoConfig,
    /// The easing factors, indexed by tick count.
    pub curve: Seq<u32>,
    /// The largest hardware duty value of the output.
    pub max_duty: int,
    /// Ticks taken since the last write; easing is done at `EASE_STEPS`.
    pub step: int,
    /// Hardware duty when the current move started.
    pub prev: int,
    /// Hardware duty currently on the output.
    pub duty: int,
    /// Hardware duty that the current move ends at.
    pub target: int,
}

impl ServoView {
    /// The channel is consistent: both ends of the move lie in the duty range,
    /// and the duty on the output is the eased value of the move at its step.
    pub open spec fn wf(self) -> bool {
        &&& self.config.wf()
        &&& valid_curve(self.curve)
        &&& 0 <= self.max_duty <= u16::MAX
        &&& 0 <= self.step <= EASE_STEPS
        &&& 0 <= self.prev <= self.max_duty
        &&& 0 <= self.target <= self.max_duty
        &&& self.duty == eased(self.prev, self.target, self.curve[self.step] as int)
    }

    /// The easing has reached its target.
    pub open spec fn is_idle(self) -> bool {
        self.step >= EASE_STEPS
    }

    /// One tick: nothing once idle, else one step further along the curve.
    pub open spec fn ticked(self) -> ServoView {
        if self.is_idle() {
            self
        } else {
            ServoView {
                step: self.step + 1,
                duty: eased(self.prev, self.target, self.curve[self.step + 1] as int),
                ..self
            }
        }
    }

    /// `n` ticks in a row.
    pub open spec fn ticked_times(self, n: nat) -> ServoView
        decreases n,
    {
        if n == 0 {
            self
        } else {
            self.ticked_times((n - 1) as nat).ticked()
        }
    }

    /// A new move from the current duty to `target`, and its first tick.
    pub open spec fn retargeted(self, target: int) -> ServoView {
        ServoView { prev: self.duty, target, step: 0, ..self }.ticked()
    }

    /// A write of the normalized duty `p`.
    pub open spec fn written(self, p: int) -> ServoView {
        self.retargeted(duty_units(self.config.applied(p), self.max_duty))
    }

    /// A write of the normalized duty `p` that bypasses the calibration clamp.
    pub open spec fn calibrated_to(self, p: int) -> ServoView {
        self.retargeted(duty_units(clamp(p, 0, UNIT as int), self.max_duty))
    }

    /// A rotation to the logical angle `degree` (millidegrees).
    pub open spec fn rotated(self, degree: int) -> ServoView {
        self.written(self.config.spec_rotation_percentage(degree))
    }

    /// A return to the configured home duty.
    pub open spec fn homed(self) -> ServoView {
        self.written(self.config.home_spec())
    }
}

/// A tick keeps the channel consistent, keeps both ends of the move, moves the
/// duty monotonically towards the target, lands exactly on the target when the
/// easing completes, and does nothing once idle.
pub proof fn lemma_tick(s: ServoView)
    requires
        s.wf(),
    ensures
        s.ticked().wf(),
        s.ticked().prev == s.prev,
        s.ticked().target == s.target,
        s.prev <= s.target ==> s.duty <= s.ticked().duty <= s.target,
        s.target <= s.prev ==> s.target <= s.ticked().duty <= s.duty,
        s.ticked().is_idle() ==> s.ticked().duty == s.target,
        s.is_idle() ==> s.ticked() == s && s.duty == s.target,
{
    let k = s.step;
    lemma_eased_bounds(s.prev, s.target, s.curve[k] as int);
    if k < EASE_STEPS {
        assert(s.curve[k] <= s.curve[k + 1]);
        assert(s.curve[k + 1] <= UNIT);
        lemma_eased_monotone(s.prev, s.target, s.curve[k] as int, s.curve[k + 1] as int);
        lemma_eased_bounds(s.prev, s.target, s.curve[k + 1] as int);
    }
}

/// Once as many ticks as the easing has left have passed, the duty is exactly
/// the target and further ticks change nothing.
pub proof fn lemma_settles(s: ServoView, n: nat)
    requires
        s.wf(),
        n >= EASE_STEPS - s.step,
    ensures
        s.ticked_times(n).wf(),
        s.ticked_times(n).is_idle(),
        s.ticked_times(n).duty == s.target,
        s.ticked_times(n).ticked() == s.ticked_times(n),
    decreases n,
{
    if n == 0 {
        lemma_tick(s);
    } else {
        let m = (n - 1) as nat;
        lemma_ticks_keep(s, m);
        let t = s.ticked_times(m);
        lemma_tick(t);
        if m >= EASE_STEPS - s.step {
            lemma_settles(s, m);
        } else {
            assert(t.step == s.step + m);
        }
        lemma_tick(t.ticked());
    }
}

/// Ticks keep the channel consistent and both ends of the move, and count
/// the steps until idle.
proof fn lemma_ticks_keep(s: ServoView, n: nat)
    requires
        s.wf(),
    ensures
        s.ticked_times(n).wf(),
        s.ticked_times(n).prev == s.prev,
        s.ticked_times(n).target == s.target,
        s.ticked_times(n).config == s.config,
        s.ticked_times(n).curve == s.curve,
        s.ticked_times(n).max_duty == s.max_duty,
        s.ticked_times(n).step == (if s.step + n >= EASE_STEPS {
            EASE_STEPS as int
        } else {
            s.step + n
        }),
    decreases n,
{
    if n > 0 {
        lemma_ticks_keep(s, (n - 1) as nat);
        lemma_tick(s.ticked_times((n - 1) as nat));
    }
}

/// One servo channel: its calibration, easing curve and the duty values of
/// the move in progress. The duty that the output should carry is what
/// [`Servo::duty`] returns; the methods that change it return it too.
#[derive(Clone, Copy, Debug, PartialEq, Eq)]
pub struct Servo {
    config: ServoConfig,
    curve: EaseCurve,
    max_duty: u16,
    step: u16,
    prev: u16,
    duty: u16,
    target: u16,
}

impl View for Servo {
    type V = ServoView;

    closed spec fn view(&self) -> ServoView {
        ServoView {
            config: self.config,
            curve: self.curve@,
            max_duty: self.max_duty as int,
            step: self.step as int,
            prev: self.prev as int,
            duty: self.duty as int,
            target: self.target as int,
        }
    }
}

impl Servo {
    /// A channel at rest on its home duty. `max_duty` is the largest duty
    /// value of the hardware output.
    pub fn new(max_duty: u16, config: ServoConfig, curve: EaseCurve) -> (r: Servo)
        requires
            config.wf(),
            valid_curve(curve@),
        ensures
            r@.wf(),
            r@.is_idle(),
            r@.config == config,
            r@.curve == curve@,
            r@.max_duty == max_duty,
            r@.target == duty_units(clamp(config.home_spec(), 0, UNIT as int), max_duty as int),
            r@.duty == r@.target,
            r@.prev == r@.target,
    {
        let home = config.applied_percentage(config.home as i128, false);
        let h = Self::units(home, max_duty);
        proof {
            lemma_eased_bounds(h as int, h as int, UNIT as int);
        }
        Servo { config, curve, max_duty, step: EASE_STEPS, prev: h, duty: h, target: h }
    }

    /// `p` in hardware duty units.
    fn units(p: i64, max_duty: u16) -> (r: u16)
        requires
            0 <= p <= UNIT,
        ensures
            r == duty_units(p as int, max_duty as int),
            r <= max_duty,
    {
        proof {
            lemma_duty_units_bounds(p as int, max_duty as int);
            lemma_mul_inequality(p as int, UNIT as int, max_duty as int);
        }
        (p * max_duty as i64 / UNIT) as u16
    }

    /// Advances the easing by one step and returns the new duty; does nothing
    /// and returns `None` once the target is reached.
    pub fn tick(&mut self) -> (r: Option<u16>)
        requires
            old(self)@.wf(),
        ensures
            final(self)@ == old(self)@.ticked(),
            final(self)@.wf(),
            r == (if old(self)@.is_idle() {
                None
            } else {
                Some(final(self)@.duty as u16)
            }),
    {
        proof {
            lemma_tick(self@);
        }
        if self.step >= EASE_STEPS {
            return None;
        }
        self.step = self.step + 1;
        let f = self.curve.factor(self.step);
        self.duty = ease_sine(f, self.prev, self.target);
        Some(self.duty)
    }

    /// Starts a move from the current duty to `target` and takes its first
    /// step.
    fn retarget(&mut self, target: u16) -> (r: u16)
        requires
            old(self)@.wf(),
            target <= old(self)@.max_duty,
        ensures
            final(self)@ == old(self)@.retargeted(target as int),
            final(self)@.wf(),
            r == final(self)@.duty,
    {
        self.target = target;
        self.prev = self.duty;
        self.step = 0;
        proof {
            lemma_eased_bounds(old(self)@.prev, old(self)@.target, self.curve@[old(self)@.step] as int);
            lemma_eased_bounds(self.prev as int, self.target as int, 0);
        }
        self.tick();
        self.duty
    }

    /// Moves towards the normalized duty `percentage` (parts per million):
    /// limited to the unit interval and, on a calibrated channel, to the
    /// calibrated range. Returns the new duty.
    pub fn write(&mut self, percentage: i64) -> (r: u16)
        requires
            old(self)@.wf(),
        ensures
            final(self)@ == old(self)@.written(percentage as int),
            final(self)@.wf(),
            r == final(self)@.duty,
    {
        self.write_clamped(percentage as i128)
    }

    fn write_clamped(&mut self, percentage: i128) -> (r: u16)
        requires
            old(self)@.wf(),
        ensures
            final(self)@ == old(self)@.written(percentage as int),
            final(self)@.wf(),
            r == final(self)@.duty,
    {
        let p = self.config.applied_percentage(percentage, true);
        let t = Self::units(p, self.max_duty);
        self.retarget(t)
    }

    /// Moves towards the normalized duty `percentage`, limited to the unit
    /// interval only: the calibration range does not apply. Returns the new
    /// duty.
    pub fn calibrate(&mut self, percentage: i64) -> (r: u16)
        requires
            old(self)@.wf(),
        ensures
            final(self)@ == old(self)@.calibrated_to(percentage as int),
            final(self)@.wf(),
            r == final(self)@.duty,
    {
        let p = self.config.applied_percentage(percentage as i128, false);
        let t = Self::units(p, self.max_duty);
        self.retarget(t)
    }

    /// Moves to the logical angle `degree` (millidegrees), after inversion,
    /// offset and the clamp of negative angles. Returns the new duty.
    pub fn rotate(&mut self, degree: i64) -> (r: u16)
        requires
            old(self)@.wf(),
        ensures
            final(self)@ == old(self)@.rotated(degree as int),
            final(self)@.wf(),
            r == final(self)@.duty,
    {
        let p = self.config.rotation_percentage(degree);
        self.write_clamped(p)
    }

    /// Moves back to the configured home duty. Returns the new duty.
    pub fn home(&mut self) -> (r: u16)
        requires
            old(self)@.wf(),
        ensures
            final(self)@ == old(self)@.homed(),
            final(self)@.wf(),
            r == final(self)@.duty,
    {
        let h = self.config.home as i128;
        self.write_clamped(h)
    }

    /// The duty that the output carries.
    pub fn duty(&self) -> (r: u16)
        ensures
            r == self@.duty,
    {
        self.duty
    }

    /// The duty that the move in progress ends at.
    pub fn target(&self) -> (r: u16)
        ensures
            r == self@.target,
    {
        self.target
    }

    /// The duty that the move in progress started from.
    pub fn previous(&self) -> (r: u16)
        ensures
            r == self@.prev,
    {
        self.prev
    }

    /// Ticks taken since the last write, at most `EASE_STEPS`.
    pub fn progress(&self) -> (r: u16)
        ensures
            r == self@.step,
    {
        self.step
    }

    /// The largest duty value of the output.
    pub fn max_duty(&self) -> (r: u16)
        ensures
            r == self@.max_duty,
    {
        self.max_duty
    }
}

} // verus!
