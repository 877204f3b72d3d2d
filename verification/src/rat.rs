//! Exact rational numbers for matrix entries.
//!
//! The projection pipeline never needs floating point: every entry it
//! produces is a ratio of two machine integers (window pixels, world
//! extents, camera units, depth bounds). `Rat` is the executable carrier;
//! `Q` is its unbounded ghost counterpart, over which the pipeline's
//! algebraic laws are stated and proved.

use vstd::prelude::*;

verus! {

/// An exact rational `num / den` with a positive denominator.
#[derive(Clone, Copy, PartialEq, Eq, Structural, Debug)]
pub struct Rat {
    pub num: i64,
    pub den: i64,
}

/// A rational over unbounded integers; ghost only, used in contracts.
pub struct Q {
    pub n: int,
    pub d: int,
}

impl Rat {
    /// A denominator is always strictly positive.
    pub open spec fn wf(self) -> bool {
        0 < self.den
    }

    /// The ghost value this machine rational stands for.
    pub open spec fn q(self) -> Q {
        Q { n: self.num as int, d: self.den as int }
    }

    /// The whole number `n`.
    pub fn from_int(n: i64) -> (r: Rat)
        ensures
            r.wf(),
            r.num == n,
            r.den == 1,
    {
        Rat { num: n, den: 1 }
    }

    /// The ratio `num / den`, with the sign moved into the numerator.
    pub fn ratio(num: i64, den: i64) -> (r: Rat)
        requires
            den != 0,
            den > i64::MIN,
            num > i64::MIN,
        ensures
            r.wf(),
            q_eq(r.q(), (Q { n: num as int, d: den as int })),
    {
        proof {
            assert((-num as int) * (den as int) == (num as int) * (-den as int))
                by (nonlinear_arith);
        }
        if den < 0 {
            Rat { num: -num, den: -den }
        } else {
            Rat { num, den }
        }
    }
}

/// Whether two rationals denote the same number; usable from executable
/// code, so tests can compare unreduced results against expected ratios.
pub fn rat_eq(a: Rat, b: Rat) -> (r: bool)
    requires
        a.wf(),
        b.wf(),
    ensures
        r == q_eq(a.q(), b.q()),
{
    proof {
        let lo = -0x8000_0000_0000_0000 * 0x7fff_ffff_ffff_ffff;
        let hi = 0x8000_0000_0000_0000 * 0x7fff_ffff_ffff_ffff;
        assert(lo <= (a.num as int) * (b.den as int) <= hi) by (nonlinear_arith)
            requires
                lo == -0x8000_0000_0000_0000 * 0x7fff_ffff_ffff_ffff,
                hi == 0x8000_0000_0000_0000 * 0x7fff_ffff_ffff_ffff,
                -0x8000_0000_0000_0000 <= (a.num as int) < 0x8000_0000_0000_0000,
                0 < (b.den as int) < 0x8000_0000_0000_0000,
        ;
        assert(lo <= (b.num as int) * (a.den as int) <= hi) by (nonlinear_arith)
            requires
                lo == -0x8000_0000_0000_0000 * 0x7fff_ffff_ffff_ffff,
                hi == 0x8000_0000_0000_0000 * 0x7fff_ffff_ffff_ffff,
                -0x8000_0000_0000_0000 <= (b.num as int) < 0x8000_0000_0000_0000,
                0 < (a.den as int) < 0x8000_0000_0000_0000,
        ;
    }
    a.num as i128 * b.den as i128 == b.num as i128 * a.den as i128
}

/// The rational zero.
pub open spec fn rat_zero() -> Rat {
    Rat { num: 0, den: 1 }
}

/// The rational one.
pub open spec fn rat_one() -> Rat {
    Rat { num: 1, den: 1 }
}

/// The whole number `n` as a ghost rational.
pub open spec fn q_int(n: int) -> Q {
    Q { n: n, d: 1 }
}

/// Two ghost rationals denote the same number: cross multiplication agrees.
/// Meaningful only while denominators are nonzero, which every `Rat` and
/// every product of `Rat` denominators guarantees.
pub open spec fn q_eq(a: Q, b: Q) -> bool {
    a.n * b.d == b.n * a.d
}

/// Sum of two ghost rationals.
pub open spec fn q_add(a: Q, b: Q) -> Q {
    Q { n: a.n * b.d + b.n * a.d, d: a.d * b.d }
}

/// Difference of two ghost rationals.
pub open spec fn q_sub(a: Q, b: Q) -> Q {
    Q { n: a.n * b.d - b.n * a.d, d: a.d * b.d }
}

/// Product of two ghost rationals.
pub open spec fn q_mul(a: Q, b: Q) -> Q {
    Q { n: a.n * b.n, d: a.d * b.d }
}

/// `q_eq` is reflexive, symmetric and, over nonzero denominators,
/// transitive: it really is equality of denoted numbers.
pub proof fn lemma_q_eq_equivalence(a: Q, b: Q, c: Q)
    requires
        a.d != 0,
        b.d != 0,
        c.d != 0,
    ensures
        q_eq(a, a),
        q_eq(a, b) ==> q_eq(b, a),
        q_eq(a, b) && q_eq(b, c) ==> q_eq(a, c),
{
    assert(q_eq(a, b) && q_eq(b, c) ==> q_eq(a, c)) by (nonlinear_arith)
        requires
            a.d != 0,
            b.d != 0,
            c.d != 0,
    ;
}

} // verus!
