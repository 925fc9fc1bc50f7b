use crate::ik::{planar_angles, IkSolver, TrigTerms};
use crate::mailbox::Mailbox;
use crate::servo::{Servo, ServoView};
use crate::task::ServoTask;
use vstd::prelude::*;

verus! {

/// Number of servo channels of the robot.
pub const SERVO_COUNT: usize = 12;

/// The angle (millidegrees) that a solution of `(.., .., z)` with the terms
/// `terms` gives channel `i`: channels take the hip, base and elbow angle in
/// turn.
pub open spec fn move_angle(terms: TrigTerms, z: int, i: int) -> int {
    if i % 3 == 0 {
        if z == 0 {
            0
        } else {
            terms.elevation as int
        }
    } else if i % 3 == 1 {
        planar_angles(terms).0
    } else {
        planar_angles(terms).1
    }
}

/// Angle `i mod 3` of a solution.
pub open spec fn angle_of(angles: (i64, i64, i64), i: int) -> int {
    if i % 3 == 0 {
        angles.0 as int
    } else if i % 3 == 1 {
        angles.1 as int
    } else {
        angles.2 as int
    }
}

/// The sole owner of the servo channels: it applies commands and drives the
/// easing of every channel on each tick.
pub struct Controller {
    servos: [Servo; SERVO_COUNT],
    solver: IkSolver,
}

impl Controller {
    /// The channels' states, by index.
    pub closed spec fn channels(self) -> Seq<ServoView> {
        self.servos@.map_values(|s: Servo| s@)
    }

    pub closed spec fn solver_spec(self) -> IkSolver {
        self.solver
    }

    /// Every channel is consistent.
    pub open spec fn wf(self) -> bool {
        &&& self.channels().len() == SERVO_COUNT
        &&& forall|i: int| 0 <= i < SERVO_COUNT ==> (#[trigger] self.channels()[i]).wf()
    }

    pub fn new(servos: [Servo; SERVO_COUNT], solver: IkSolver) -> (r: Controller)
        requires
            forall|i: int| 0 <= i < SERVO_COUNT ==> (#[trigger] servos@[i])@.wf(),
        ensures
            r.wf(),
            r.channels() == servos@.map_values(|s: Servo| s@),
            r.solver_spec() == solver,
    {
        Controller { servos, solver }
    }

    /// The solver of the leg.
    pub fn solver(&self) -> (r: &IkSolver)
        ensures
            *r == self.solver_spec(),
    {
        &self.solver
    }

    /// Channel `i`.
    pub fn servo(&self, i: usize) -> (r: &Servo)
        requires
            self.wf(),
            i < SERVO_COUNT,
        ensures
            r@ == self.channels()[i as int],
    {
        &self.servos[i]
    }

    /// The timer has elapsed: every channel takes one easing step.
    pub fn tick(&mut self)
        requires
            old(self).wf(),
        ensures
            final(self).wf(),
            final(self).solver_spec() == old(self).solver_spec(),
            forall|i: int|
                0 <= i < SERVO_COUNT ==> #[trigger] final(self).channels()[i] == old(
                    self,
                ).channels()[i].ticked(),
    {
        let mut i: usize = 0;
        while i < SERVO_COUNT
            invariant
                0 <= i <= SERVO_COUNT,
                self.solver == old(self).solver,
                self.channels().len() == SERVO_COUNT,
                forall|j: int|
                    0 <= j < i ==> #[trigger] self.channels()[j] == old(self).channels()[j].ticked(),
                forall|j: int| i <= j < SERVO_COUNT ==> #[trigger] self.servos@[j] == old(self).servos@[j],
                forall|j: int| 0 <= j < SERVO_COUNT ==> (#[trigger] self.channels()[j]).wf(),
                old(self).wf(),
            decreases SERVO_COUNT - i,
        {
            let ghost before = self.channels();
            assert(before[i as int] == self.servos@[i as int]@);
            let mut s = self.servos[i];
            s.tick();
            self.servos[i] = s;
            assert(self.channels() =~= before.update(i as int, s@));
            i = i + 1;
        }
    }

    /// Every channel returns to its home duty.
    fn home_all(&mut self)
        requires
            old(self).wf(),
        ensures
            final(self).wf(),
            final(self).solver_spec() == old(self).solver_spec(),
            forall|i: int|
                0 <= i < SERVO_COUNT ==> #[trigger] final(self).channels()[i] == old(
                    self,
                ).channels()[i].homed(),
    {
        let mut i: usize = 0;
        while i < SERVO_COUNT
            invariant
                0 <= i <= SERVO_COUNT,
                self.solver == old(self).solver,
                self.channels().len() == SERVO_COUNT,
                forall|j: int|
                    0 <= j < i ==> #[trigger] self.channels()[j] == old(self).channels()[j].homed(),
                forall|j: int| i <= j < SERVO_COUNT ==> #[trigger] self.servos@[j] == old(self).servos@[j],
                forall|j: int| 0 <= j < SERVO_COUNT ==> (#[trigger] self.channels()[j]).wf(),
                old(self).wf(),
            decreases SERVO_COUNT - i,
        {
            let ghost before = self.channels();
            assert(before[i as int] == self.servos@[i as int]@);
            let mut s = self.servos[i];
            s.home();
            self.servos[i] = s;
            assert(self.channels() =~= before.update(i as int, s@));
            i = i + 1;
        }
    }

    /// Channel `i` rotates to angle `i mod 3` of the solution.
    fn apply_angles(&mut self, angles: (i64, i64, i64))
        requires
            old(self).wf(),
        ensures
            final(self).wf(),
            final(self).solver_spec() == old(self).solver_spec(),
            forall|i: int|
                0 <= i < SERVO_COUNT ==> #[trigger] final(self).channels()[i] == old(
                    self,
                ).channels()[i].rotated(angle_of(angles, i)),
    {
        let mut i: usize = 0;
        while i < SERVO_COUNT
            invariant
                0 <= i <= SERVO_COUNT,
                self.solver == old(self).solver,
                self.channels().len() == SERVO_COUNT,
                forall|j: int|
                    0 <= j < i ==> #[trigger] self.channels()[j] == old(self).channels()[j].rotated(angle_of(angles, j)),
                forall|j: int| i <= j < SERVO_COUNT ==> #[trigger] self.servos@[j] == old(self).servos@[j],
                forall|j: int| 0 <= j < SERVO_COUNT ==> (#[trigger] self.channels()[j]).wf(),
                old(self).wf(),
            decreases SERVO_COUNT - i,
        {
            let angle = if i % 3 == 0 {
                angles.0
            } else if i % 3 == 1 {
                angles.1
            } else {
                angles.2
            };
            let ghost before = self.channels();
            assert(before[i as int] == self.servos@[i as int]@);
            let mut s = self.servos[i];
            s.rotate(angle);
            self.servos[i] = s;
            assert(self.channels() =~= before.update(i as int, s@));
            i = i + 1;
        }
    }

    /// Applies one command. `terms` are the trigonometric terms of the
    /// solver's query for a `MOVE` target (see [`IkSolver::query`]); other
    /// commands ignore them.
    ///
    /// - `HOME`: every channel returns to its home duty.
    /// - `CALIBRATION(i, p)`: channel `i` moves to duty `p`, bypassing the
    ///   calibration range; an index with no channel is ignored.
    /// - `MOVE(x, y, z)`: when the solver reaches the target, channel `i`
    ///   rotates to angle `i mod 3` of the solution; when it does not, no
    ///   channel changes and `HOME` is posted to `mailbox`.
    pub fn handle(&mut self, task: ServoTask, terms: &TrigTerms, mailbox: &mut Mailbox)
        requires
            old(self).wf(),
            old(mailbox).wf(),
        ensures
            final(self).wf(),
            final(mailbox).wf(),
            final(self).solver_spec() == old(self).solver_spec(),
            match task {
                ServoTask::HOME => {
                    &&& *final(mailbox) == *old(mailbox)
                    &&& forall|i: int|
                        0 <= i < SERVO_COUNT ==> #[trigger] final(self).channels()[i] == old(
                            self,
                        ).channels()[i].homed()
                },
                ServoTask::CALIBRATION(ch, p) => {
                    &&& *final(mailbox) == *old(mailbox)
                    &&& final(self).channels() == if (ch as int) < SERVO_COUNT {
                        old(self).channels().update(
                            ch as int,
                            old(self).channels()[ch as int].calibrated_to(p as int),
                        )
                    } else {
                        old(self).channels()
                    }
                },
                ServoTask::MOVE(x, y, z) => if old(self).solver_spec().reachable(
                    x as int,
                    y as int,
                    z as int,
                ) {
                    &&& *final(mailbox) == *old(mailbox)
                    &&& forall|i: int|
                        0 <= i < SERVO_COUNT ==> #[trigger] final(self).channels()[i] == old(
                            self,
                        ).channels()[i].rotated(move_angle(*terms, z as int, i))
                } else {
                    &&& final(mailbox)@ == Some(ServoTask::HOME)
                    &&& final(self).channels() == old(self).channels()
                },
            },
    {
        match task {
            ServoTask::HOME => {
                self.home_all();
            },
            ServoTask::CALIBRATION(ch, p) => {
                if (ch as usize) < SERVO_COUNT {
                    let i = ch as usize;
                    assert(old(self).channels()[i as int] == self.servos@[i as int]@);
                    let mut s = self.servos[i];
                    s.calibrate(p);
                    self.servos[i] = s;
                    assert(self.channels() =~= old(self).channels().update(
                        ch as int,
                        old(self).channels()[ch as int].calibrated_to(p as int),
                    ));
                }
            },
            ServoTask::MOVE(x, y, z) => {
                match self.solver.solve(x, y, z, terms) {
                    Some(angles) => {
                        self.apply_angles(angles);
                    },
                    None => {
                        mailbox.send(ServoTask::HOME);
                    },
                }
            },
        }
    }
}

} // verus!
