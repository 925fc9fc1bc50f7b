use vstd::prelude::*;

verus! {

/// Millidegrees in a straight angle.
pub const STRAIGHT_ANGLE: i64 = 180_000;

/// One link of the leg: its length in hundredths of a unit.
#[derive(Clone, Copy, Debug, PartialEq, Eq)]
pub struct Joint {
    length: u16,
}

impl Joint {
    pub closed spec fn len_spec(self) -> int {
        self.length as int
    }

    pub fn new(length: u16) -> (r: Joint)
        ensures
            r.len_spec() == length,
    {
        Joint { length }
    }

    pub fn length(&self) -> (r: u16)
        ensures
            r == self.len_spec(),
    {
        self.length
    }
}

/// The three transcendental terms of a solution, in millidegrees, as computed
/// from a [`TrigQuery`]:
/// `elevation = atan2(z, sqrt(horizontal_sq))`,
/// `half = acos(cos_num / (cos_den * sqrt(dist_sq)))` and
/// `bearing = atan2(x, y)`.
#[derive(Clone, Copy, Debug, PartialEq, Eq)]
pub struct TrigTerms {
    pub elevation: i32,
    pub half: i32,
    pub bearing: i32,
}

/// The exact arguments of the trigonometric evaluations that a target needs.
#[derive(Clone, Copy, Debug, PartialEq, Eq)]
pub struct TrigQuery {
    pub x: i16,
    pub y: i16,
    pub z: i16,
    /// `x² + y²`: the squared distance from the base in the horizontal plane.
    pub horizontal_sq: i64,
    /// `x² + y² + z²`: the squared distance from the base.
    pub dist_sq: i64,
    /// `dist_sq + L1² − L2²`, the numerator of the law of cosines.
    pub cos_num: i64,
    /// `2·L1`; the denominator of the law of cosines is `cos_den·sqrt(dist_sq)`.
    pub cos_den: i64,
}

/// Squared distance of a point from the origin.
pub open spec fn norm_sq(x: int, y: int, z: int) -> int {
    x * x + y * y + z * z
}

/// A two-link chain with lengths `l1`, `l2` reaches a point at squared distance
/// `d2` exactly when the law of cosines yields a cosine in `[-1, 1]` with a
/// non-zero denominator: `|l1 − l2| ≤ d ≤ l1 + l2`, `d > 0` and `l1 > 0`.
pub open spec fn reachable_at(l1: int, l2: int, d2: int) -> bool {
    &&& l1 > 0
    &&& d2 > 0
    &&& (l1 - l2) * (l1 - l2) <= d2
    &&& d2 <= (l1 + l2) * (l1 + l2)
}

/// Base and elbow angle of the planar solution: the base angle is the
/// law-of-cosines half angle plus the bearing of the target, the elbow angle is
/// a straight angle less twice the half angle.
pub open spec fn planar_angles(t: TrigTerms) -> (int, int) {
    (t.half + t.bearing, STRAIGHT_ANGLE - 2 * t.half)
}

/// The inverse-kinematics solver of one leg: a hip joint that lifts the leg out
/// of the horizontal plane and two links that reach within the lifted plane.
#[derive(Clone, Copy, Debug, PartialEq, Eq)]
pub struct IkSolver {
    j0: Joint,
    j1: Joint,
    j2: Joint,
}

proof fn lemma_square_bound(a: int, b: int)
    requires
        -b <= a <= b,
    ensures
        0 <= a * a <= b * b,
{
    assert(0 <= a * a <= b * b) by (nonlinear_arith)
        requires
            -b <= a <= b,
    ;
}

impl IkSolver {
    pub closed spec fn l0(self) -> int {
        self.j0.len_spec()
    }

    pub closed spec fn l1(self) -> int {
        self.j1.len_spec()
    }

    pub closed spec fn l2(self) -> int {
        self.j2.len_spec()
    }

    /// The planar chain reaches `(x, y)`.
    pub open spec fn reachable_planar(self, x: int, y: int) -> bool {
        reachable_at(self.l1(), self.l2(), x * x + y * y)
    }

    /// The leg reaches `(x, y, z)`: a lifted target needs a horizontal offset
    /// (else the lift scaling divides by zero), and the chain must reach the
    /// full distance.
    pub open spec fn reachable(self, x: int, y: int, z: int) -> bool {
        &&& (z != 0 ==> x * x + y * y > 0)
        &&& reachable_at(self.l1(), self.l2(), norm_sq(x, y, z))
    }

    pub fn new(j0: Joint, j1: Joint, j2: Joint) -> (r: IkSolver)
        ensures
            r.l0() == j0.len_spec(),
            r.l1() == j1.len_spec(),
            r.l2() == j2.len_spec(),
    {
        IkSolver { j0, j1, j2 }
    }

    /// The arguments of the trigonometric functions that solving `(x, y, z)`
    /// takes.
    pub fn query(&self, x: i16, y: i16, z: i16) -> (r: TrigQuery)
        ensures
            r.x == x,
            r.y == y,
            r.z == z,
            r.horizontal_sq == x * x + y * y,
            r.dist_sq == norm_sq(x as int, y as int, z as int),
            r.cos_num == r.dist_sq + self.l1() * self.l1() - self.l2() * self.l2(),
            r.cos_den == 2 * self.l1(),
    {
        let horizontal_sq = square(x) + square(y);
        let dist_sq = horizontal_sq + square(z);
        let l1 = self.j1.length as i64;
        let l2 = self.j2.length as i64;
        proof {
            lemma_square_bound(l1 as int, 65535);
            lemma_square_bound(l2 as int, 65535);
        }
        TrigQuery {
            x,
            y,
            z,
            horizontal_sq,
            dist_sq,
            cos_num: dist_sq + l1 * l1 - l2 * l2,
            cos_den: 2 * l1,
        }
    }

    /// Decides whether the chain reaches a point at squared distance `d2`.
    fn reaches(&self, d2: i64) -> (r: bool)
        requires
            0 <= d2 <= 3 * 32768 * 32768,
        ensures
            r == reachable_at(self.l1(), self.l2(), d2 as int),
    {
        let l1 = self.j1.length as i64;
        let l2 = self.j2.length as i64;
        let diff = l1 - l2;
        let sum = l1 + l2;
        proof {
            lemma_square_bound(diff as int, 65535);
            lemma_square_bound(sum as int, 131070);
        }
        l1 > 0 && d2 > 0 && diff * diff <= d2 && d2 <= sum * sum
    }

    /// Solves the two links in their plane for the target `(x, y)`: `None`
    /// when the target is out of reach, else the base and elbow angles in
    /// millidegrees.
    pub fn solve_planar(&self, x: i16, y: i16, terms: &TrigTerms) -> (r: Option<(i64, i64)>)
        ensures
            r is Some <==> self.reachable_planar(x as int, y as int),
            r is Some ==> r.unwrap().0 == planar_angles(*terms).0 && r.unwrap().1
                == planar_angles(*terms).1,
    {
        let d2 = square(x) + square(y);
        if self.reaches(d2) {
            Some(planar(terms))
        } else {
            None
        }
    }

    /// Solves the leg for the target `(x, y, z)`: `None` when the target is out
    /// of reach, else the hip, base and elbow angles in millidegrees. The hip
    /// angle is the elevation of the target (zero for a target in the
    /// horizontal plane); base and elbow come from the planar solution at the
    /// full distance of the target.
    pub fn solve(&self, x: i16, y: i16, z: i16, terms: &TrigTerms) -> (r: Option<(i64, i64, i64)>)
        ensures
            r is Some <==> self.reachable(x as int, y as int, z as int),
            r is Some ==> {
                &&& r.unwrap().0 == (if z == 0 {
                    0
                } else {
                    terms.elevation as int
                })
                &&& r.unwrap().1 == planar_angles(*terms).0
                &&& r.unwrap().2 == planar_angles(*terms).1
            },
    {
        let horizontal_sq = square(x) + square(y);
        if z != 0 && horizontal_sq == 0 {
            return None;
        }
        let d2 = horizontal_sq + square(z);
        if !self.reaches(d2) {
            return None;
        }
        let elevation: i64 = if z == 0 {
            0
        } else {
            terms.elevation as i64
        };
        let (base, elbow) = planar(terms);
        Some((elevation, base, elbow))
    }
}

/// The square of a coordinate.
fn square(v: i16) -> (r: i64)
    ensures
        r == v * v,
        0 <= r <= 32768 * 32768,
{
    proof {
        lemma_square_bound(v as int, 32768);
    }
    (v as i64) * (v as i64)
}

/// Base and elbow angle from the trigonometric terms.
fn planar(terms: &TrigTerms) -> (r: (i64, i64))
    ensures
        r.0 == planar_angles(*terms).0,
        r.1 == planar_angles(*terms).1,
{
    let half = terms.half as i64;
    (half + terms.bearing as i64, STRAIGHT_ANGLE - 2 * half)
}

/// Inside the annulus `|L1 − L2| ≤ d ≤ L1 + L2` (with `d > 0` and `L1 > 0`,
/// where the law of cosines has a non-zero denominator) the planar solver
/// finds a solution, and its elbow angle is a straight angle less twice the
/// law-of-cosines half angle.
pub proof fn lemma_planar_solvable(solver: IkSolver, x: int, y: int, terms: TrigTerms)
    requires
        solver.l1() > 0,
        x * x + y * y > 0,
        (solver.l1() - solver.l2()) * (solver.l1() - solver.l2()) <= x * x + y * y,
        x * x + y * y <= (solver.l1() + solver.l2()) * (solver.l1() + solver.l2()),
    ensures
        solver.reachable_planar(x, y),
        planar_angles(terms).1 == STRAIGHT_ANGLE - 2 * terms.half,
{
}

/// Outside the annulus, `d > L1 + L2` or `d < |L1 − L2|`, neither the planar
/// solver nor the spatial one finds a solution.
pub proof fn lemma_outside_unreachable(solver: IkSolver, x: int, y: int, z: int)
    ensures
        ({
            let d2 = x * x + y * y;
            d2 > (solver.l1() + solver.l2()) * (solver.l1() + solver.l2()) || d2 < (solver.l1()
                - solver.l2()) * (solver.l1() - solver.l2())
        }) ==> !solver.reachable_planar(x, y),
        ({
            let d2 = norm_sq(x, y, z);
            d2 > (solver.l1() + solver.l2()) * (solver.l1() + solver.l2()) || d2 < (solver.l1()
                - solver.l2()) * (solver.l1() - solver.l2())
        }) ==> !solver.reachable(x, y, z),
{
}

} // verus!
