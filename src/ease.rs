use vstd::arithmetic::div_mod::{
    lemma_div_by_multiple, lemma_div_is_ordered, lemma_fundamental_div_mod,
    lemma_fundamental_div_mod_converse,
};
use vstd::arithmetic::mul::lemma_mul_inequality;
use vstd::prelude::*;

verus! {

/// A normalized duty of 1.0, in parts per million.
pub const UNIT: i64 = 1_000_000;

/// Number of ticks that a full ease from one duty to another takes.
pub const EASE_STEPS: u16 = 150;

/// Number of entries of an easing curve: one per tick count `0..=EASE_STEPS`.
pub const CURVE_LEN: usize = 151;

/// The eased value between `start` and `end` at easing factor `factor` (parts
/// per million of the way), rounded down to a whole duty unit.
pub open spec fn eased(start: int, end: int, factor: int) -> int {
    start + (end - start) * factor / (UNIT as int)
}

/// A curve of easing factors indexed by tick count: it starts at zero, ends at
/// [`UNIT`], and never decreases.
pub open spec fn valid_curve(f: Seq<u32>) -> bool {
    &&& f.len() == CURVE_LEN
    &&& f[0] == 0
    &&& f[EASE_STEPS as int] == UNIT
    &&& forall|k: int| 0 <= k < EASE_STEPS ==> #[trigger] f[k] <= f[k + 1]
    &&& forall|k: int| 0 <= k <= EASE_STEPS ==> #[trigger] f[k] <= UNIT
}

/// The eased value lies between its two ends; it is `start` at factor zero and
/// `end` at a full factor.
pub proof fn lemma_eased_bounds(start: int, end: int, factor: int)
    requires
        0 <= factor <= UNIT,
    ensures
        start <= end ==> start <= eased(start, end, factor) <= end,
        end <= start ==> end <= eased(start, end, factor) <= start,
        eased(start, end, 0) == start,
        eased(start, end, UNIT as int) == end,
{
    let u = UNIT as int;
    let d = end - start;
    lemma_fundamental_div_mod_converse(d * u, u, d, 0);
    lemma_fundamental_div_mod_converse(0, u, 0, 0);
    assert(d * 0 == 0);
    if d >= 0 {
        lemma_mul_inequality(factor, u, d);
        lemma_mul_inequality(0, factor, d);
        lemma_div_is_ordered(d * factor, d * u, u);
        lemma_div_is_ordered(0, d * factor, u);
    } else {
        lemma_mul_inequality(factor, u, -d);
        lemma_mul_inequality(0, factor, -d);
        assert(d * u <= d * factor <= 0) by (nonlinear_arith)
            requires
                d < 0,
                0 <= factor <= u,
        ;
        lemma_div_is_ordered(d * u, d * factor, u);
        lemma_div_is_ordered(d * factor, 0, u);
    }
}

/// A larger factor moves the eased value further from `start` towards `end`.
pub proof fn lemma_eased_monotone(start: int, end: int, f1: int, f2: int)
    requires
        0 <= f1 <= f2 <= UNIT,
    ensures
        start <= end ==> eased(start, end, f1) <= eased(start, end, f2),
        end <= start ==> eased(start, end, f2) <= eased(start, end, f1),
{
    let u = UNIT as int;
    let d = end - start;
    if d >= 0 {
        lemma_mul_inequality(f1, f2, d);
        lemma_div_is_ordered(d * f1, d * f2, u);
        if d == 0 {
            assert(d * f1 == 0 && d * f2 == 0) by (nonlinear_arith)
                requires
                    d == 0,
            ;
        }
    } else {
        assert(d * f2 <= d * f1) by (nonlinear_arith)
            requires
                d < 0,
                f1 <= f2,
        ;
        lemma_div_is_ordered(d * f2, d * f1, u);
    }
}

/// Raised-cosine easing: the duty `factor` parts per million of the way from
/// `start` to `end`, rounded down.
pub fn ease_sine(factor: u32, start: u16, end: u16) -> (r: u16)
    requires
        factor <= UNIT,
    ensures
        r == eased(start as int, end as int, factor as int),
{
    proof {
        lemma_eased_bounds(start as int, end as int, factor as int);
    }
    let s = start as i64;
    let e = end as i64;
    let f = factor as i64;
    if e >= s {
        let d = e - s;
        proof {
            lemma_mul_inequality(f as int, UNIT as int, d as int);
        }
        let q = d * f / UNIT;
        (s + q) as u16
    } else {
        proof {
            lemma_mul_inequality(f as int, UNIT as int, (s - e) as int);
        }
        let a = (s - e) * f;
        let c = (a + UNIT - 1) / UNIT;
        proof {
            let u = UNIT as int;
            lemma_fundamental_div_mod(a + u - 1, u);
            let r0 = (a + u - 1) % u;
            assert(0 <= r0 < u);
            assert(-a == (-c) * u + (u - 1 - r0)) by (nonlinear_arith)
                requires
                    a + u - 1 == u * c + r0,
            ;
            lemma_fundamental_div_mod_converse(-a, u, -c, u - 1 - r0);
            assert((e - s) * f == -a) by (nonlinear_arith)
                requires
                    a == (s - e) * f,
            ;
        }
        (s - c) as u16
    }
}

/// The easing factors of a full move, indexed by tick count.
#[derive(Clone, Copy, Debug, PartialEq, Eq)]
pub struct EaseCurve {
    factors: [u32; CURVE_LEN],
}

impl View for EaseCurve {
    type V = Seq<u32>;

    closed spec fn view(&self) -> Seq<u32> {
        self.factors@
    }
}

impl EaseCurve {
    /// Takes a table of easing factors, one per tick count `0..=EASE_STEPS`;
    /// `None` unless the table is a valid curve.
    pub fn new(factors: [u32; CURVE_LEN]) -> (r: Option<EaseCurve>)
        ensures
            r is Some <==> valid_curve(factors@),
            r is Some ==> r.unwrap()@ == factors@,
    {
        if factors[0] != 0 || factors[EASE_STEPS as usize] as i64 != UNIT {
            return None;
        }
        let mut k: usize = 0;
        while k < EASE_STEPS as usize
            invariant
                factors@.len() == CURVE_LEN,
                factors@[0] == 0,
                factors@[EASE_STEPS as int] == UNIT,
                0 <= k <= EASE_STEPS,
                forall|j: int| 0 <= j < k ==> #[trigger] factors@[j] <= factors@[j + 1],
                forall|j: int| 0 <= j < k ==> #[trigger] factors@[j] <= UNIT,
            decreases EASE_STEPS - k,
        {
            if factors[k] > factors[k + 1] || factors[k] as i64 > UNIT {
                return None;
            }
            k = k + 1;
        }
        Some(EaseCurve { factors })
    }

    /// The easing factor after `k` ticks.
    pub fn factor(&self, k: u16) -> (r: u32)
        requires
            k <= EASE_STEPS,
        ensures
            r == self@[k as int],
    {
        self.factors[k as usize]
    }
}

} // verus!
